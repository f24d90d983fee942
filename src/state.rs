//! The game state and its step.
use vstd::prelude::*;
use crate::chance::{orient_vec, oriented, randomize_vec};
use crate::geometry::{
    Point2, Vector2, BALL_SPEED, MAX_DT, MAX_EXTENT, MAX_SPEED, PADDING, RACKET_WIDTH_HALF,
};
use crate::physics::{
    abs, bounce_walls, intersects, move_racket, overlaps, paddle_y_after, wall_vy, wall_y,
};

verus! {

/// The keys held during a step, one pair per player.
#[derive(Clone, Copy, Debug, PartialEq, Eq, Structural)]
pub struct Input {
    pub player_1_up: bool,
    pub player_1_down: bool,
    pub player_2_up: bool,
    pub player_2_down: bool,
}

impl Input {
    pub fn new(player_1_up: bool, player_1_down: bool, player_2_up: bool, player_2_down: bool) -> (r: Input)
        ensures
            r == (Input { player_1_up, player_1_down, player_2_up, player_2_down }),
    {
        Input { player_1_up, player_1_down, player_2_up, player_2_down }
    }

    /// No key held.
    pub fn none() -> (r: Input)
        ensures
            !r.player_1_up && !r.player_1_down && !r.player_2_up && !r.player_2_down,
    {
        Input { player_1_up: false, player_1_down: false, player_2_up: false, player_2_down: false }
    }
}

/// Everything that changes during a game: paddle 1 on the left, paddle 2 on
/// the right, the ball, and the two scores.
#[derive(Clone, Copy, Debug, PartialEq, Eq, Structural)]
pub struct MainState {
    pub player_1_pos: Point2,
    pub player_2_pos: Point2,
    pub ball_pos: Point2,
    pub ball_vel: Vector2,
    pub player_1_score: u64,
    pub player_2_score: u64,
}

/// An arena size that a step accepts.
pub open spec fn valid_arena(screen_w: int, screen_h: int) -> bool {
    0 < screen_w <= MAX_EXTENT && 0 < screen_h <= MAX_EXTENT
}

/// The state at the start of a session in an arena of `screen_w` by
/// `screen_h`: paddles centred vertically, `PADDING` in from their sides, the
/// ball in the middle, moving at `BALL_SPEED` along each axis with the signs
/// that the coins give, and no points.
pub open spec fn initial(screen_w: int, screen_h: int, x_positive: bool, y_positive: bool) -> MainState {
    MainState {
        player_1_pos: Point2 { x: (RACKET_WIDTH_HALF + PADDING) as i64, y: (screen_h / 2) as i64 },
        player_2_pos: Point2 {
            x: (screen_w - RACKET_WIDTH_HALF - PADDING) as i64,
            y: (screen_h / 2) as i64,
        },
        ball_pos: Point2 { x: (screen_w / 2) as i64, y: (screen_h / 2) as i64 },
        ball_vel: Vector2 {
            x: oriented(BALL_SPEED as int, x_positive) as i64,
            y: oriented(BALL_SPEED as int, y_positive) as i64,
        },
        player_1_score: 0,
        player_2_score: 0,
    }
}

impl MainState {
    /// Every coordinate and velocity component is within the bounds that
    /// keep a step's arithmetic exact.
    pub open spec fn well_formed(self) -> bool {
        &&& self.player_1_pos.bounded()
        &&& self.player_2_pos.bounded()
        &&& self.ball_pos.bounded()
        &&& self.ball_vel.bounded()
    }

    /// Where the ball's centre would be after `dt` with no obstacle.
    pub open spec fn flight_x(self, dt: int) -> int {
        self.ball_pos.x + self.ball_vel.x * dt
    }

    pub open spec fn flight_y(self, dt: int) -> int {
        self.ball_pos.y + self.ball_vel.y * dt
    }

    /// The ball leaves through the left side during the step: a point for
    /// player 2.
    pub open spec fn exits_left(self, dt: int) -> bool {
        self.flight_x(dt) < 0
    }

    /// The ball leaves through the right side during the step: a point for
    /// player 1. The left side is checked first, so at most one holds.
    pub open spec fn exits_right(self, dt: int, screen_w: int) -> bool {
        !self.exits_left(dt) && self.flight_x(dt) > screen_w
    }

    /// The state after one step of `dt` microseconds in an arena of
    /// `screen_w` by `screen_h` with `input` held, where the coins decide the
    /// ball's new direction should a point be scored. In order: paddle
    /// movement, ball flight, scoring and recentring, walls, paddle hits
    /// (left, then right).
    pub open spec fn stepped(
        self,
        dt: int,
        screen_w: int,
        screen_h: int,
        input: Input,
        x_positive: bool,
        y_positive: bool,
    ) -> MainState {
        let left_paddle = Point2 {
            x: self.player_1_pos.x,
            y: paddle_y_after(self.player_1_pos.y as int, input.player_1_up, input.player_1_down, dt, screen_h) as i64,
        };
        let right_paddle = Point2 {
            x: self.player_2_pos.x,
            y: paddle_y_after(self.player_2_pos.y as int, input.player_2_up, input.player_2_down, dt, screen_h) as i64,
        };
        let out_left = self.exits_left(dt);
        let out_right = self.exits_right(dt, screen_w);
        let reset = out_left || out_right;
        let bx = if reset { screen_w / 2 } else { self.flight_x(dt) };
        let by = if reset { screen_h / 2 } else { self.flight_y(dt) };
        let vx = if reset { oriented(BALL_SPEED as int, x_positive) } else { self.ball_vel.x as int };
        let vy = if reset { oriented(BALL_SPEED as int, y_positive) } else { self.ball_vel.y as int };
        let ball = Point2 { x: bx as i64, y: wall_y(by, screen_h) as i64 };
        let vx1 = if overlaps(ball, left_paddle) { abs(vx) } else { vx };
        let vx2 = if overlaps(ball, right_paddle) { -abs(vx1) } else { vx1 };
        MainState {
            player_1_pos: left_paddle,
            player_2_pos: right_paddle,
            ball_pos: ball,
            ball_vel: Vector2 { x: vx2 as i64, y: wall_vy(by, vy, screen_h) as i64 },
            player_1_score: (self.player_1_score + if out_right { 1int } else { 0int }) as u64,
            player_2_score: (self.player_2_score + if out_left { 1int } else { 0int }) as u64,
        }
    }

    /// The state at the start of a session, the ball's direction given by
    /// the coins.
    pub fn new_with_coins(screen_w: i64, screen_h: i64, x_positive: bool, y_positive: bool) -> (r: MainState)
        requires
            valid_arena(screen_w as int, screen_h as int),
        ensures
            r == initial(screen_w as int, screen_h as int, x_positive, y_positive),
            r.well_formed(),
    {
        let (screen_w_half, screen_h_half) = (screen_w / 2, screen_h / 2);
        let mut ball_vel = Vector2::new(0, 0);
        orient_vec(&mut ball_vel, BALL_SPEED, BALL_SPEED, x_positive, y_positive);
        MainState {
            player_1_pos: Point2::new(RACKET_WIDTH_HALF + PADDING, screen_h_half),
            player_2_pos: Point2::new(screen_w - RACKET_WIDTH_HALF - PADDING, screen_h_half),
            ball_pos: Point2::new(screen_w_half, screen_h_half),
            ball_vel,
            player_1_score: 0,
            player_2_score: 0,
        }
    }

    /// The state at the start of a session, the ball's direction drawn by
    /// two fair coins.
    pub fn new(screen_w: i64, screen_h: i64) -> (r: MainState)
        requires
            valid_arena(screen_w as int, screen_h as int),
        ensures
            exists|x_positive: bool, y_positive: bool|
                r == initial(screen_w as int, screen_h as int, x_positive, y_positive),
            r.well_formed(),
    {
        let mut ball_vel = Vector2::new(0, 0);
        randomize_vec(&mut ball_vel, BALL_SPEED, BALL_SPEED);
        let r = MainState::new_with_coins(screen_w, screen_h, ball_vel.x > 0, ball_vel.y > 0);
        r
    }

    /// One step of `dt` microseconds in an arena of `screen_w` by `screen_h`
    /// with `input` held; should a point be scored, the coins give the signs
    /// of the ball's new velocity.
    ///
    /// Of the two keys of a paddle, "up" is applied and clamped first, then
    /// "down".
    pub fn advance_with_coins(
        &mut self,
        dt: u64,
        screen_w: i64,
        screen_h: i64,
        input: Input,
        x_positive: bool,
        y_positive: bool,
    )
        requires
            old(self).well_formed(),
            old(self).player_1_score < u64::MAX,
            old(self).player_2_score < u64::MAX,
            dt <= MAX_DT,
            valid_arena(screen_w as int, screen_h as int),
        ensures
            *final(self) == old(self).stepped(
                dt as int,
                screen_w as int,
                screen_h as int,
                input,
                x_positive,
                y_positive,
            ),
            final(self).well_formed(),
    {
        let mut left = self.player_1_pos;
        let mut right = self.player_2_pos;
        move_racket(&mut left, input.player_1_up, -1, dt, screen_h);
        move_racket(&mut left, input.player_1_down, 1, dt, screen_h);
        move_racket(&mut right, input.player_2_up, -1, dt, screen_h);
        move_racket(&mut right, input.player_2_down, 1, dt, screen_h);

        let mut pos = self.ball_pos;
        let mut vel = self.ball_vel;
        let d = dt as i64;
        proof {
            assert(-MAX_SPEED * MAX_DT <= vel.x * d <= MAX_SPEED * MAX_DT) by (nonlinear_arith)
                requires
                    0 <= d <= MAX_DT,
                    -MAX_SPEED <= vel.x <= MAX_SPEED,
            ;
            assert(-MAX_SPEED * MAX_DT <= vel.y * d <= MAX_SPEED * MAX_DT) by (nonlinear_arith)
                requires
                    0 <= d <= MAX_DT,
                    -MAX_SPEED <= vel.y <= MAX_SPEED,
            ;
        }
        pos.x = pos.x + vel.x * d;
        pos.y = pos.y + vel.y * d;

        if pos.x < 0 {
            pos.x = screen_w / 2;
            pos.y = screen_h / 2;
            orient_vec(&mut vel, BALL_SPEED, BALL_SPEED, x_positive, y_positive);
            self.player_2_score = self.player_2_score + 1;
        }
        if pos.x > screen_w {
            pos.x = screen_w / 2;
            pos.y = screen_h / 2;
            orient_vec(&mut vel, BALL_SPEED, BALL_SPEED, x_positive, y_positive);
            self.player_1_score = self.player_1_score + 1;
        }

        bounce_walls(&mut pos, &mut vel, screen_h);

        if intersects(pos, left) && vel.x < 0 {
            vel.x = -vel.x;
        }
        if intersects(pos, right) && vel.x > 0 {
            vel.x = -vel.x;
        }

        self.player_1_pos = left;
        self.player_2_pos = right;
        self.ball_pos = pos;
        self.ball_vel = vel;
    }

    /// One step of `dt` microseconds in an arena of `screen_w` by `screen_h`
    /// with `input` held; should a point be scored, the ball's new direction
    /// is drawn by two fair coins (drawn at every step, used only then).
    pub fn advance(&mut self, dt: u64, screen_w: i64, screen_h: i64, input: Input)
        requires
            old(self).well_formed(),
            old(self).player_1_score < u64::MAX,
            old(self).player_2_score < u64::MAX,
            dt <= MAX_DT,
            valid_arena(screen_w as int, screen_h as int),
        ensures
            exists|x_positive: bool, y_positive: bool|
                *final(self) == old(self).stepped(
                    dt as int,
                    screen_w as int,
                    screen_h as int,
                    input,
                    x_positive,
                    y_positive,
                ),
            final(self).well_formed(),
    {
        let mut coins = Vector2::new(0, 0);
        randomize_vec(&mut coins, 1, 1);
        let x_positive = coins.x > 0;
        let y_positive = coins.y > 0;
        self.advance_with_coins(dt, screen_w, screen_h, input, x_positive, y_positive);
        assert(*self == old(self).stepped(dt as int, screen_w as int, screen_h as int, input, x_positive, y_positive));
    }
}

} // verus!
