//! Paddle-and-ball simulation on integer coordinates.
//!
//! Coordinates are fixed-point: one unit of the playing field is `UNIT`
//! steps, and elapsed time is given in microseconds.
use vstd::prelude::*;

pub mod math;
pub mod rect;
pub mod paddle;
pub mod ball;
pub mod state;
