//! The pieces of a step: clamping, paddle motion, wall bounces and the
//! paddle hit test.
use vstd::prelude::*;
use crate::geometry::{
    Point2, Vector2, BALL_SIZE_HALF, MAX_COORD, MAX_DT, MAX_EXTENT, MAX_SPEED, PLAYER_SPEED,
    RACKET_HEIGHT_HALF, RACKET_WIDTH_HALF,
};

verus! {

/// `v` moved into `[low, high]`: `low` below it, `high` above it.
/// Where `low > high` a value below `low` still becomes `low`.
pub open spec fn clamped(v: int, low: int, high: int) -> int {
    if v < low {
        low
    } else if v > high {
        high
    } else {
        v
    }
}

/// Moves `value` into `[low, high]`.
pub fn clamp(value: &mut i64, low: i64, high: i64)
    ensures
        *final(value) == clamped(*old(value) as int, low as int, high as int),
{
    if *value < low {
        *value = low;
    } else if *value > high {
        *value = high;
    }
}

/// Absolute value.
pub open spec fn abs(v: int) -> int {
    if v < 0 {
        -v
    } else {
        v
    }
}

/// Where a paddle centred at height `y` ends after one key: it moves by
/// `dir * PLAYER_SPEED * dt` if the key is held, and is then clamped into
/// `[RACKET_HEIGHT_HALF, h - RACKET_HEIGHT_HALF]` whether held or not.
pub open spec fn paddle_y_after_key(y: int, held: bool, dir: int, dt: int, h: int) -> int {
    clamped(
        if held {
            y + dir * (PLAYER_SPEED * dt)
        } else {
            y
        },
        RACKET_HEIGHT_HALF as int,
        h - RACKET_HEIGHT_HALF,
    )
}

/// Where a paddle centred at height `y` ends after a step: the "up" key is
/// applied first, then the "down" key, each followed by a clamp.
pub open spec fn paddle_y_after(y: int, up: bool, down: bool, dt: int, h: int) -> int {
    paddle_y_after_key(paddle_y_after_key(y, up, -1, dt, h), down, 1, dt, h)
}

/// The ball's height after the walls: clamped into
/// `[BALL_SIZE_HALF, h - BALL_SIZE_HALF]`, the lower bound checked first.
pub open spec fn wall_y(y: int, h: int) -> int {
    clamped(y, BALL_SIZE_HALF as int, h - BALL_SIZE_HALF)
}

/// The ball's vertical velocity after the walls: made non-negative below the
/// top bound, non-positive beyond the bottom bound, else kept.
pub open spec fn wall_vy(y: int, vy: int, h: int) -> int {
    if y < BALL_SIZE_HALF {
        abs(vy)
    } else if y > h - BALL_SIZE_HALF {
        -abs(vy)
    } else {
        vy
    }
}

/// The ball's square centred at `ball` and the paddle's rectangle centred at
/// `paddle` overlap (open intervals on both axes).
pub open spec fn overlaps(ball: Point2, paddle: Point2) -> bool {
    &&& ball.x - BALL_SIZE_HALF < paddle.x + RACKET_WIDTH_HALF
    &&& ball.x + BALL_SIZE_HALF > paddle.x - RACKET_WIDTH_HALF
    &&& ball.y - BALL_SIZE_HALF < paddle.y + RACKET_HEIGHT_HALF
    &&& ball.y + BALL_SIZE_HALF > paddle.y - RACKET_HEIGHT_HALF
}

/// A clamp into bounds of at most `MAX_EXTENT` gives a value of at most
/// `MAX_EXTENT`, whatever went in.
pub proof fn lemma_clamped_bounded(v: int, low: int, high: int)
    requires
        -MAX_EXTENT <= low <= MAX_EXTENT,
        -MAX_EXTENT <= high <= MAX_EXTENT,
    ensures
        -MAX_EXTENT <= clamped(v, low, high) <= MAX_EXTENT,
        v < low ==> clamped(v, low, high) == low,
        low <= high ==> low <= clamped(v, low, high) <= high,
        low > high ==> high <= clamped(v, low, high) <= low,
{
}

/// Moves a paddle by `y_dir * PLAYER_SPEED * dt` if `pressed`, then clamps it
/// into the arena's height `screen_h`.
pub fn move_racket(pos: &mut Point2, pressed: bool, y_dir: i64, dt: u64, screen_h: i64)
    requires
        old(pos).bounded(),
        y_dir == -1 || y_dir == 1,
        dt <= MAX_DT,
        0 < screen_h <= MAX_EXTENT,
    ensures
        final(pos).x == old(pos).x,
        final(pos).y == paddle_y_after_key(old(pos).y as int, pressed, y_dir as int, dt as int, screen_h as int),
        final(pos).bounded(),
{
    if pressed {
        let d = dt as i64;
        proof {
            assert(0 <= PLAYER_SPEED * d <= PLAYER_SPEED * MAX_DT) by (nonlinear_arith)
                requires
                    0 <= d <= MAX_DT,
            ;
        }
        let step: i64 = PLAYER_SPEED * d;
        if y_dir < 0 {
            pos.y = pos.y - step;
        } else {
            pos.y = pos.y + step;
        }
    }
    let ghost moved = pos.y as int;
    proof {
        lemma_clamped_bounded(moved, RACKET_HEIGHT_HALF as int, screen_h - RACKET_HEIGHT_HALF);
    }
    clamp(&mut pos.y, RACKET_HEIGHT_HALF, screen_h - RACKET_HEIGHT_HALF);
}

/// Keeps the ball between the top and bottom walls of an arena of height
/// `screen_h`, turning its vertical velocity away from the wall it passed.
pub fn bounce_walls(pos: &mut Point2, vel: &mut Vector2, screen_h: i64)
    requires
        old(vel).bounded(),
        0 < screen_h <= MAX_EXTENT,
    ensures
        final(pos).x == old(pos).x,
        final(pos).y == wall_y(old(pos).y as int, screen_h as int),
        -MAX_EXTENT <= final(pos).y <= MAX_EXTENT,
        final(vel).x == old(vel).x,
        final(vel).y == wall_vy(old(pos).y as int, old(vel).y as int, screen_h as int),
        final(vel).bounded(),
{
    proof {
        lemma_clamped_bounded(pos.y as int, BALL_SIZE_HALF as int, screen_h - BALL_SIZE_HALF);
    }
    if pos.y < BALL_SIZE_HALF {
        pos.y = BALL_SIZE_HALF;
        if vel.y < 0 {
            vel.y = -vel.y;
        }
    } else if pos.y > screen_h - BALL_SIZE_HALF {
        pos.y = screen_h - BALL_SIZE_HALF;
        if vel.y > 0 {
            vel.y = -vel.y;
        }
    }
}

/// Whether the ball centred at `ball` overlaps the paddle centred at `paddle`.
pub fn intersects(ball: Point2, paddle: Point2) -> (r: bool)
    requires
        ball.bounded(),
        paddle.bounded(),
    ensures
        r == overlaps(ball, paddle),
{
    ball.x - BALL_SIZE_HALF < paddle.x + RACKET_WIDTH_HALF
        && ball.x + BALL_SIZE_HALF > paddle.x - RACKET_WIDTH_HALF
        && ball.y - BALL_SIZE_HALF < paddle.y + RACKET_HEIGHT_HALF
        && ball.y + BALL_SIZE_HALF > paddle.y - RACKET_HEIGHT_HALF
}

} // verus!
