//! Points, velocities and the fixed sizes of the game.
use vstd::prelude::*;

verus! {

/// Micro-pixels in one pixel.
pub const UNITS_PER_PIXEL: i64 = 1_000_000;

/// Height of a paddle.
pub const RACKET_HEIGHT: i64 = 100 * UNITS_PER_PIXEL;

/// Width of a paddle.
pub const RACKET_WIDTH: i64 = 20 * UNITS_PER_PIXEL;

/// Half the width of a paddle.
pub const RACKET_WIDTH_HALF: i64 = 10 * UNITS_PER_PIXEL;

/// Half the height of a paddle.
pub const RACKET_HEIGHT_HALF: i64 = 50 * UNITS_PER_PIXEL;

/// Paddle speed, in pixels per second (micro-pixels per microsecond).
pub const PLAYER_SPEED: i64 = 600;

/// Gap between an arena side and the outer edge of its paddle.
pub const PADDING: i64 = 40 * UNITS_PER_PIXEL;

/// Width of the dividing line drawn down the middle.
pub const MIDDLE_LINE_W: i64 = 2 * UNITS_PER_PIXEL;

/// Side of the square ball.
pub const BALL_SIZE: i64 = 30 * UNITS_PER_PIXEL;

/// Half the side of the ball.
pub const BALL_SIZE_HALF: i64 = 15 * UNITS_PER_PIXEL;

/// Speed of the ball along each axis, in pixels per second.
pub const BALL_SPEED: i64 = 200;

/// Largest arena width or height accepted by a step (a million pixels).
pub const MAX_EXTENT: i64 = 1_000_000 * UNITS_PER_PIXEL;

/// Largest time slice accepted by a step, in microseconds (about eleven days).
pub const MAX_DT: u64 = 1_000_000_000_000;

/// Largest magnitude of a coordinate in a well-formed state.
pub const MAX_COORD: i64 = 1_000_000_000 * UNITS_PER_PIXEL;

/// Largest magnitude of a velocity component in a well-formed state.
pub const MAX_SPEED: i64 = 1_000_000;

/// A position in the arena; `y` grows downwards.
#[derive(Clone, Copy, Debug, PartialEq, Eq, Structural)]
pub struct Point2 {
    pub x: i64,
    pub y: i64,
}

/// A velocity, in micro-pixels per microsecond.
#[derive(Clone, Copy, Debug, PartialEq, Eq, Structural)]
pub struct Vector2 {
    pub x: i64,
    pub y: i64,
}

impl Point2 {
    /// Both coordinates are at most `MAX_COORD` in magnitude.
    pub open spec fn bounded(self) -> bool {
        -MAX_COORD <= self.x <= MAX_COORD && -MAX_COORD <= self.y <= MAX_COORD
    }

    pub fn new(x: i64, y: i64) -> (r: Point2)
        ensures
            r.x == x,
            r.y == y,
    {
        Point2 { x, y }
    }
}

impl Vector2 {
    /// Both components are at most `MAX_SPEED` in magnitude.
    pub open spec fn bounded(self) -> bool {
        -MAX_SPEED <= self.x <= MAX_SPEED && -MAX_SPEED <= self.y <= MAX_SPEED
    }

    pub fn new(x: i64, y: i64) -> (r: Vector2)
        ensures
            r.x == x,
            r.y == y,
    {
        Vector2 { x, y }
    }
}

} // verus!
