//! What holds of every step.
use vstd::prelude::*;
use crate::geometry::{
    Point2, BALL_SIZE, PLAYER_SPEED, BALL_SIZE_HALF, BALL_SPEED, MAX_DT, RACKET_HEIGHT, RACKET_HEIGHT_HALF,
};
use crate::physics::{abs, overlaps};
use crate::state::{valid_arena, Input, MainState};

verus! {

/// Whatever the paddles' heights before a step and whatever keys are held,
/// both paddles end the step with their centres in
/// `[RACKET_HEIGHT_HALF, screen_h - RACKET_HEIGHT_HALF]`, in any arena at
/// least as tall as a paddle.
pub proof fn lemma_paddles_stay_in_arena(
    s: MainState,
    dt: int,
    screen_w: int,
    screen_h: int,
    input: Input,
    x_positive: bool,
    y_positive: bool,
)
    requires
        s.well_formed(),
        0 <= dt <= MAX_DT,
        valid_arena(screen_w, screen_h),
        screen_h >= RACKET_HEIGHT,
    ensures
        ({
            let t = s.stepped(dt, screen_w, screen_h, input, x_positive, y_positive);
            &&& RACKET_HEIGHT_HALF <= t.player_1_pos.y <= screen_h - RACKET_HEIGHT_HALF
            &&& RACKET_HEIGHT_HALF <= t.player_2_pos.y <= screen_h - RACKET_HEIGHT_HALF
        }),
{
}

/// A step scores at most one point: either no score changes, or exactly one
/// of them grows by one.
pub proof fn lemma_at_most_one_point(
    s: MainState,
    dt: int,
    screen_w: int,
    screen_h: int,
    input: Input,
    x_positive: bool,
    y_positive: bool,
)
    requires
        s.well_formed(),
        s.player_1_score < u64::MAX,
        s.player_2_score < u64::MAX,
        0 <= dt <= MAX_DT,
        valid_arena(screen_w, screen_h),
    ensures
        ({
            let t = s.stepped(dt, screen_w, screen_h, input, x_positive, y_positive);
            ||| t.player_1_score == s.player_1_score && t.player_2_score == s.player_2_score
            ||| t.player_1_score == s.player_1_score + 1 && t.player_2_score == s.player_2_score
            ||| t.player_1_score == s.player_1_score && t.player_2_score == s.player_2_score + 1
        }),
{
}

/// After a step that scores a point, the ball moves at `BALL_SPEED` along
/// each axis (so its squared speed is `2 * BALL_SPEED^2`), and, in an arena
/// at least as tall as the ball, it sits at the arena's centre.
pub proof fn lemma_point_restarts_ball(
    s: MainState,
    dt: int,
    screen_w: int,
    screen_h: int,
    input: Input,
    x_positive: bool,
    y_positive: bool,
)
    requires
        s.well_formed(),
        s.player_1_score < u64::MAX,
        s.player_2_score < u64::MAX,
        0 <= dt <= MAX_DT,
        valid_arena(screen_w, screen_h),
    ensures
        ({
            let t = s.stepped(dt, screen_w, screen_h, input, x_positive, y_positive);
            (t.player_1_score != s.player_1_score || t.player_2_score != s.player_2_score) ==> {
                &&& abs(t.ball_vel.x as int) == BALL_SPEED
                &&& abs(t.ball_vel.y as int) == BALL_SPEED
                &&& t.ball_vel.x * t.ball_vel.x + t.ball_vel.y * t.ball_vel.y == 2 * BALL_SPEED
                    * BALL_SPEED
                &&& screen_h >= BALL_SIZE ==> t.ball_pos == Point2 {
                    x: (screen_w / 2) as i64,
                    y: (screen_h / 2) as i64,
                }
            }
        }),
{
    let t = s.stepped(dt, screen_w, screen_h, input, x_positive, y_positive);
    if t.player_1_score != s.player_1_score || t.player_2_score != s.player_2_score {
        assert(t.ball_vel.x == BALL_SPEED || t.ball_vel.x == -BALL_SPEED);
        assert(t.ball_vel.y == BALL_SPEED || t.ball_vel.y == -BALL_SPEED);
        let (vx, vy) = (t.ball_vel.x as int, t.ball_vel.y as int);
        assert(vx * vx + vy * vy == 2 * BALL_SPEED * BALL_SPEED) by (nonlinear_arith)
            requires
                vx == BALL_SPEED || vx == -BALL_SPEED,
                vy == BALL_SPEED || vy == -BALL_SPEED,
        ;
    }
}

/// A ball that flies above the top bound `BALL_SIZE_HALF` during a step
/// without leaving sideways ends the step on that bound, moving down or not
/// at all vertically.
pub proof fn lemma_top_wall_bounce(
    s: MainState,
    dt: int,
    screen_w: int,
    screen_h: int,
    input: Input,
    x_positive: bool,
    y_positive: bool,
)
    requires
        s.well_formed(),
        0 <= dt <= MAX_DT,
        valid_arena(screen_w, screen_h),
        !s.exits_left(dt),
        !s.exits_right(dt, screen_w),
        s.flight_y(dt) < BALL_SIZE_HALF,
    ensures
        ({
            let t = s.stepped(dt, screen_w, screen_h, input, x_positive, y_positive);
            t.ball_pos.y == BALL_SIZE_HALF && t.ball_vel.y >= 0
        }),
{
}

/// A ball that flies below the bottom bound `screen_h - BALL_SIZE_HALF`
/// during a step without leaving sideways (and without also being above the
/// top bound, which is checked first) ends the step on that bound, moving up
/// or not at all vertically.
pub proof fn lemma_bottom_wall_bounce(
    s: MainState,
    dt: int,
    screen_w: int,
    screen_h: int,
    input: Input,
    x_positive: bool,
    y_positive: bool,
)
    requires
        s.well_formed(),
        0 <= dt <= MAX_DT,
        valid_arena(screen_w, screen_h),
        !s.exits_left(dt),
        !s.exits_right(dt, screen_w),
        s.flight_y(dt) > screen_h - BALL_SIZE_HALF,
        s.flight_y(dt) >= BALL_SIZE_HALF,
    ensures
        ({
            let t = s.stepped(dt, screen_w, screen_h, input, x_positive, y_positive);
            t.ball_pos.y == screen_h - BALL_SIZE_HALF && t.ball_vel.y <= 0
        }),
{
}

/// A ball that overlaps the left paddle at the end of a step, and not the
/// right one, leaves the step moving right, or not at all horizontally if it
/// had no horizontal speed.
pub proof fn lemma_left_paddle_sends_right(
    s: MainState,
    dt: int,
    screen_w: int,
    screen_h: int,
    input: Input,
    x_positive: bool,
    y_positive: bool,
)
    requires
        s.well_formed(),
        0 <= dt <= MAX_DT,
        valid_arena(screen_w, screen_h),
    ensures
        ({
            let t = s.stepped(dt, screen_w, screen_h, input, x_positive, y_positive);
            overlaps(t.ball_pos, t.player_1_pos) && !overlaps(t.ball_pos, t.player_2_pos) ==> {
                &&& t.ball_vel.x >= 0
                &&& s.ball_vel.x != 0 ==> t.ball_vel.x > 0
            }
        }),
{
}

/// A ball that overlaps the right paddle at the end of a step leaves the step
/// moving left, or not at all horizontally if it had no horizontal speed.
pub proof fn lemma_right_paddle_sends_left(
    s: MainState,
    dt: int,
    screen_w: int,
    screen_h: int,
    input: Input,
    x_positive: bool,
    y_positive: bool,
)
    requires
        s.well_formed(),
        0 <= dt <= MAX_DT,
        valid_arena(screen_w, screen_h),
    ensures
        ({
            let t = s.stepped(dt, screen_w, screen_h, input, x_positive, y_positive);
            overlaps(t.ball_pos, t.player_2_pos) ==> {
                &&& t.ball_vel.x <= 0
                &&& s.ball_vel.x != 0 ==> t.ball_vel.x < 0
            }
        }),
{
}

/// Once a step has run, a further step of zero duration changes nothing,
/// whatever keys are held and whatever the coins: a ball held still inside a
/// paddle keeps the velocity that the paddle gave it. This holds in any arena
/// at least as tall as a paddle.
pub proof fn lemma_still_step_changes_nothing(
    s: MainState,
    dt: int,
    screen_w: int,
    screen_h: int,
    input: Input,
    x_positive: bool,
    y_positive: bool,
    input2: Input,
    x_positive2: bool,
    y_positive2: bool,
)
    requires
        s.well_formed(),
        0 <= dt <= MAX_DT,
        valid_arena(screen_w, screen_h),
        screen_h >= RACKET_HEIGHT,
    ensures
        ({
            let t = s.stepped(dt, screen_w, screen_h, input, x_positive, y_positive);
            t.stepped(0, screen_w, screen_h, input2, x_positive2, y_positive2) == t
        }),
{
    let t = s.stepped(dt, screen_w, screen_h, input, x_positive, y_positive);
    assert(t.ball_vel.x * 0 == 0 && t.ball_vel.y * 0 == 0);
    assert(PLAYER_SPEED * 0 == 0);
}

} // verus!
