use vstd::prelude::*;
use crate::math::{Vector2, UNIT, COORD_LIMIT, MAX_ELAPSED, in_range};
use crate::rect::{Rect, intersects, intersects_spec};
use crate::paddle::{Paddle, paddle_bounds};

verus! {

pub const BALL_RADIUS: i64 = 10 * UNIT;
/// Units per second along each axis, per unit of velocity.
pub const BALL_SPEED: i64 = 250;
/// Largest magnitude of a velocity component that the simulation accepts.
pub const MAX_VELOCITY: i64 = 1000;

/// The ball: `position` is its center, `velocity` its direction per axis.
#[derive(Debug, Clone, Copy, PartialEq, Eq, Structural)]
pub struct Ball {
    pub position: Vector2,
    pub velocity: Vector2,
}

/// The ranges within which one update cannot overflow.
pub open spec fn ball_fits(b: Ball) -> bool {
    -COORD_LIMIT / 2 <= b.position.x <= COORD_LIMIT / 2
        && -COORD_LIMIT / 2 <= b.position.y <= COORD_LIMIT / 2
        && -MAX_VELOCITY <= b.velocity.x <= MAX_VELOCITY
        && -MAX_VELOCITY <= b.velocity.y <= MAX_VELOCITY
}

pub open spec fn ball_bounds(b: Ball) -> Rect {
    Rect {
        x: (b.position.x - BALL_RADIUS) as i64,
        y: (b.position.y - BALL_RADIUS) as i64,
        w: (2 * BALL_RADIUS) as i64,
        h: (2 * BALL_RADIUS) as i64,
    }
}

/// Distance covered in `elapsed_us` microseconds per unit of velocity, in steps.
pub open spec fn ball_travel(elapsed_us: int) -> int {
    BALL_SPEED * elapsed_us / 1000
}

/// The ball after integrating its velocity, before any bounce.
pub open spec fn ball_moved(b: Ball, elapsed_us: int) -> Ball {
    Ball {
        position: Vector2 {
            x: (b.position.x + b.velocity.x * ball_travel(elapsed_us)) as i64,
            y: (b.position.y + b.velocity.y * ball_travel(elapsed_us)) as i64,
        },
        velocity: b.velocity,
    }
}

/// Touching the left wall.
pub open spec fn hits_left_wall(b: Ball) -> bool {
    b.position.x <= BALL_RADIUS
}

/// Touching the right wall of a window `window_width` wide.
pub open spec fn hits_right_wall(b: Ball, window_width: int) -> bool {
    b.position.x + BALL_RADIUS >= window_width
}

pub open spec fn hits_top_wall(b: Ball) -> bool {
    b.position.y <= BALL_RADIUS
}

pub open spec fn hits_paddle(b: Ball, p: Paddle) -> bool {
    intersects_spec(paddle_bounds(p), ball_bounds(b))
}

/// Below the paddle's reach: touching the bottom of the window.
pub open spec fn misses(b: Ball, window_height: int) -> bool {
    b.position.y + BALL_RADIUS >= window_height
}

/// One frame of motion: integrate, then bounce off the left wall, the right
/// wall, the top wall and the paddle. Each flip is applied independently, so
/// touching both side walls at once flips the horizontal direction twice.
pub open spec fn ball_step(b: Ball, p: Paddle, window_width: int, elapsed_us: int) -> Ball {
    let m = ball_moved(b, elapsed_us);
    let vx1 = if hits_left_wall(m) { -m.velocity.x } else { m.velocity.x as int };
    let vx = if hits_right_wall(m, window_width) { -vx1 } else { vx1 };
    let vy1 = if hits_top_wall(m) { -m.velocity.y } else { m.velocity.y as int };
    let vy = if hits_paddle(m, p) { -vy1 } else { vy1 };
    Ball { position: m.position, velocity: Vector2 { x: vx as i64, y: vy as i64 } }
}

impl Ball {
    pub open spec fn new_spec() -> Ball {
        Ball { position: Vector2 { x: 0, y: 0 }, velocity: Vector2 { x: 1, y: 1 } }
    }

    /// A ball at the origin moving down and to the right.
    pub fn new() -> (r: Ball)
        ensures
            r == Ball::new_spec(),
            r.position == (Vector2 { x: 0, y: 0 }),
            r.velocity == (Vector2 { x: 1, y: 1 }),
    {
        Ball { position: Vector2::new(0, 0), velocity: Vector2::new(1, 1) }
    }

    /// The axis-aligned box around the ball.
    pub fn get_bounds(&self) -> (r: Rect)
        requires
            in_range(self.position.x as int),
            in_range(self.position.y as int),
        ensures
            r == ball_bounds(*self),
    {
        Rect::new(
            self.position.x - BALL_RADIUS,
            self.position.y - BALL_RADIUS,
            BALL_RADIUS * 2,
            BALL_RADIUS * 2,
        )
    }

    /// Advances the ball by one frame and returns whether it has reached the
    /// bottom of the window.
    pub fn update(&mut self, paddle: &Paddle, window_width: i64, window_height: i64, elapsed_us: i64) -> (missed: bool)
        requires
            ball_fits(*old(self)),
            in_range(paddle.position.x as int),
            in_range(paddle.position.y as int),
            in_range(window_width as int),
            in_range(window_height as int),
            0 <= elapsed_us <= MAX_ELAPSED,
        ensures
            *final(self) == ball_step(*old(self), *paddle, window_width as int, elapsed_us as int),
            missed == misses(*final(self), window_height as int),
    {
        proof {
            assert(0 <= BALL_SPEED * elapsed_us <= BALL_SPEED * MAX_ELAPSED) by (nonlinear_arith)
                requires 0 <= elapsed_us <= MAX_ELAPSED;
        }
        let travel: i64 = BALL_SPEED * elapsed_us / 1000;
        assert(travel <= 250_000_000);
        proof {
            let v = self.velocity;
            assert(-1000 * travel <= v.x * travel <= 1000 * travel) by (nonlinear_arith)
                requires -1000 <= v.x <= 1000, 0 <= travel;
            assert(-1000 * travel <= v.y * travel <= 1000 * travel) by (nonlinear_arith)
                requires -1000 <= v.y <= 1000, 0 <= travel;
        }
        let step = self.velocity.scale(travel);
        self.position.add_assign(step);

        if self.position.x <= BALL_RADIUS {
            self.velocity.x = -self.velocity.x;
        }
        if self.position.x + BALL_RADIUS >= window_width {
            self.velocity.x = -self.velocity.x;
        }
        if self.position.y <= BALL_RADIUS {
            self.velocity.y = -self.velocity.y;
        }
        let pb = paddle.get_bounds();
        let bb = self.get_bounds();
        if intersects(&pb, &bb) {
            self.velocity.y = -self.velocity.y;
        }
        self.position.y + BALL_RADIUS >= window_height
    }
}

/// With velocity (1, 1), a frame that ends with the ball at the left wall,
/// clear of the right wall, flips the horizontal direction to -1; the
/// vertical direction stays 1 when neither the top wall nor the paddle is hit.
pub proof fn lemma_left_wall_flips_horizontal(b: Ball, p: Paddle, window_width: int, elapsed_us: int)
    requires
        b.velocity == (Vector2 { x: 1, y: 1 }),
        ball_fits(b),
        0 <= elapsed_us <= MAX_ELAPSED,
        hits_left_wall(ball_moved(b, elapsed_us)),
        !hits_right_wall(ball_moved(b, elapsed_us), window_width),
        !hits_top_wall(ball_moved(b, elapsed_us)),
        !hits_paddle(ball_moved(b, elapsed_us), p),
    ensures
        ball_step(b, p, window_width, elapsed_us).velocity == (Vector2 { x: -1i64, y: 1i64 }),
{
}

/// The ball's box depends on its position alone: two balls at the same
/// position, whatever their velocities, have the same box.
pub proof fn lemma_bounds_depend_on_position(a: Ball, b: Ball)
    requires
        a.position == b.position,
    ensures
        ball_bounds(a) == ball_bounds(b),
{
}

} // verus!
