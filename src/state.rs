use vstd::prelude::*;
use crate::math::{UNIT, MAX_ELAPSED, in_range};
use crate::rect::Rect;
use crate::paddle::Paddle;
use crate::ball::{Ball, ball_fits, ball_step, misses};
use crate::paddle::{paddle_clamped_x, paddle_moved_x};

verus! {

pub const BRICK_WIDTH: i64 = 80 * UNIT;
pub const BRICK_HEIGHT: i64 = 25 * UNIT;
/// Columns and rows of the brick field.
pub const BRICK_COLUMNS: i64 = 10;
pub const BRICK_ROWS: i64 = 10;

/// A colour as red, green and blue components.
#[derive(Debug, Clone, Copy, PartialEq, Eq, Structural)]
pub struct Color {
    pub r: u8,
    pub g: u8,
    pub b: u8,
}

/// A brick of the static field.
#[derive(Debug, Clone, Copy, PartialEq, Eq, Structural)]
pub struct Brick {
    pub bounds: Rect,
    pub color: Color,
}

/// The brick at column `x`, row `y`.
pub open spec fn brick_at(x: int, y: int) -> Brick {
    Brick {
        bounds: Rect {
            x: (x * BRICK_WIDTH) as i64,
            y: (y * BRICK_HEIGHT) as i64,
            w: BRICK_WIDTH,
            h: BRICK_HEIGHT,
        },
        color: Color { r: 255, g: 0, b: 0 },
    }
}

/// The field column by column: entry `i` is column `i / rows`, row `i % rows`.
pub open spec fn brick_field_spec(bricks: Seq<Brick>) -> bool {
    bricks.len() == BRICK_COLUMNS * BRICK_ROWS
        && forall|i: int| 0 <= i < bricks.len() ==> #[trigger] bricks[i] == brick_at(i / (BRICK_ROWS as int), i % (BRICK_ROWS as int))
}

/// Builds the red brick field, column by column.
pub fn brick_field() -> (r: Vec<Brick>)
    ensures
        brick_field_spec(r@),
{
    let mut bricks: Vec<Brick> = Vec::new();
    let mut x: i64 = 0;
    while x < BRICK_COLUMNS
        invariant
            0 <= x <= BRICK_COLUMNS,
            bricks@.len() == x * BRICK_ROWS,
            forall|i: int| 0 <= i < bricks@.len() ==> #[trigger] bricks@[i] == brick_at(i / (BRICK_ROWS as int), i % (BRICK_ROWS as int)),
        decreases BRICK_COLUMNS - x,
    {
        let mut y: i64 = 0;
        while y < BRICK_ROWS
            invariant
                0 <= x < BRICK_COLUMNS,
                0 <= y <= BRICK_ROWS,
                bricks@.len() == x * BRICK_ROWS + y,
                forall|i: int| 0 <= i < bricks@.len() ==> #[trigger] bricks@[i] == brick_at(i / (BRICK_ROWS as int), i % (BRICK_ROWS as int)),
            decreases BRICK_ROWS - y,
        {
            let ghost n: int = bricks@.len() as int;
            bricks.push(Brick {
                bounds: Rect::new(x * BRICK_WIDTH, y * BRICK_HEIGHT, BRICK_WIDTH, BRICK_HEIGHT),
                color: Color { r: 255, g: 0, b: 0 },
            });
            proof {
                assert(n / 10 == x as int && n % 10 == y as int) by (nonlinear_arith)
                    requires n == x * 10 + y, 0 <= y < 10;
            }
            y = y + 1;
        }
        x = x + 1;
    }
    bricks
}

/// Everything that one frame of the game updates.
pub struct MainState {
    pub paddle: Paddle,
    pub ball: Ball,
    pub bricks: Vec<Brick>,
}

impl MainState {
    /// The starting state for a window of the given height.
    pub fn new(window_height: i64) -> (r: MainState)
        requires
            in_range(window_height as int),
        ensures
            r.paddle == Paddle::new_spec(window_height as int),
            r.ball == Ball::new_spec(),
            brick_field_spec(r.bricks@),
    {
        MainState { paddle: Paddle::new(window_height), ball: Ball::new(), bricks: brick_field() }
    }

    /// One frame: the paddle moves first, then the ball against the moved
    /// paddle. Returns whether the ball has reached the bottom of the window.
    pub fn update(
        &mut self,
        left_held: bool,
        right_held: bool,
        window_width: i64,
        window_height: i64,
        elapsed_us: i64,
    ) -> (missed: bool)
        requires
            in_range(old(self).paddle.position.x as int),
            in_range(old(self).paddle.position.y as int),
            ball_fits(old(self).ball),
            in_range(window_width as int),
            in_range(window_height as int),
            0 <= elapsed_us <= MAX_ELAPSED,
        ensures
            final(self).paddle.position.x == paddle_clamped_x(
                paddle_moved_x(old(self).paddle.position.x as int, left_held, right_held, elapsed_us as int),
                window_width as int,
            ),
            final(self).paddle.position.y == old(self).paddle.position.y,
            final(self).ball == ball_step(old(self).ball, final(self).paddle, window_width as int, elapsed_us as int),
            missed == misses(final(self).ball, window_height as int),
            final(self).bricks@ == old(self).bricks@,
    {
        self.paddle.update(left_held, right_held, window_width, elapsed_us);
        self.ball.update(&self.paddle, window_width, window_height, elapsed_us)
    }
}

} // verus!
