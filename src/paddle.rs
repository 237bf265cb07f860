use vstd::prelude::*;
use crate::math::{Vector2, UNIT, MAX_ELAPSED, in_range};
use crate::rect::Rect;

verus! {

pub const PADDLE_WIDTH: i64 = 100 * UNIT;
pub const PADDLE_HEIGHT: i64 = 10 * UNIT;
/// Units per second.
pub const PADDLE_SPEED: i64 = 350;
/// Gap between the paddle's bottom edge and the window's bottom edge.
pub const PADDLE_MARGIN: i64 = 20 * UNIT;

/// The player's paddle; `position` is its top-left corner.
#[derive(Debug, Clone, Copy, PartialEq, Eq, Structural)]
pub struct Paddle {
    pub position: Vector2,
}

/// Distance moved in `elapsed_us` microseconds, in steps.
pub open spec fn paddle_travel(elapsed_us: int) -> int {
    PADDLE_SPEED * elapsed_us / 1000
}

/// Horizontal position after moving: left wins over right.
pub open spec fn paddle_moved_x(x: int, left_held: bool, right_held: bool, elapsed_us: int) -> int {
    if left_held {
        x - paddle_travel(elapsed_us)
    } else if right_held {
        x + paddle_travel(elapsed_us)
    } else {
        x
    }
}

/// `max(0, min(x, window_width - PADDLE_WIDTH))`.
pub open spec fn paddle_clamped_x(x: int, window_width: int) -> int {
    let hi = window_width - PADDLE_WIDTH;
    let m = if x < hi { x } else { hi };
    if m < 0 { 0 } else { m }
}

pub open spec fn paddle_bounds(p: Paddle) -> Rect {
    Rect { x: p.position.x, y: p.position.y, w: PADDLE_WIDTH, h: PADDLE_HEIGHT }
}

impl Paddle {
    pub open spec fn new_spec(window_height: int) -> Paddle {
        Paddle {
            position: Vector2 { x: (100 * UNIT) as i64, y: (window_height - PADDLE_HEIGHT - PADDLE_MARGIN) as i64 },
        }
    }

    /// A paddle at x = 100 units, resting above the bottom of the window.
    pub fn new(window_height: i64) -> (r: Paddle)
        requires
            in_range(window_height as int),
        ensures
            r == Paddle::new_spec(window_height as int),
            r.position.x == 100 * UNIT,
            r.position.y == window_height - PADDLE_HEIGHT - PADDLE_MARGIN,
    {
        Paddle { position: Vector2::new(100 * UNIT, window_height - PADDLE_HEIGHT - PADDLE_MARGIN) }
    }

    pub fn get_bounds(&self) -> (r: Rect)
        ensures
            r == paddle_bounds(*self),
    {
        Rect::new(self.position.x, self.position.y, PADDLE_WIDTH, PADDLE_HEIGHT)
    }

    /// Moves the paddle for one frame and keeps it within the window.
    pub fn update(&mut self, left_held: bool, right_held: bool, window_width: i64, elapsed_us: i64)
        requires
            in_range(old(self).position.x as int),
            in_range(window_width as int),
            0 <= elapsed_us <= MAX_ELAPSED,
        ensures
            final(self).position.x == paddle_clamped_x(
                paddle_moved_x(old(self).position.x as int, left_held, right_held, elapsed_us as int),
                window_width as int,
            ),
            final(self).position.y == old(self).position.y,
            window_width >= PADDLE_WIDTH ==> 0 <= final(self).position.x <= window_width - PADDLE_WIDTH,
            in_range(final(self).position.x as int),
    {
        proof {
            assert(0 <= PADDLE_SPEED * elapsed_us <= PADDLE_SPEED * MAX_ELAPSED) by (nonlinear_arith)
                requires 0 <= elapsed_us <= MAX_ELAPSED;
        }
        let travel: i64 = PADDLE_SPEED * elapsed_us / 1000;
        if left_held {
            self.position.x = self.position.x - travel;
        } else if right_held {
            self.position.x = self.position.x + travel;
        }
        if self.position.x > window_width - PADDLE_WIDTH {
            self.position.x = window_width - PADDLE_WIDTH;
        }
        if self.position.x < 0 {
            self.position.x = 0;
        }
    }
}

/// Whatever the input and the frame duration, an update leaves the paddle
/// inside a window at least as wide as the paddle, at the same height.
pub proof fn lemma_update_keeps_paddle_in_window(
    x: int,
    left_held: bool,
    right_held: bool,
    window_width: int,
    elapsed_us: int,
)
    requires
        window_width >= PADDLE_WIDTH,
        0 <= elapsed_us,
    ensures
        0 <= paddle_clamped_x(paddle_moved_x(x, left_held, right_held, elapsed_us), window_width)
            <= window_width - PADDLE_WIDTH,
{
}

} // verus!
