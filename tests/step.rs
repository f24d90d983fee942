use pong::chance::{orient_vec, randomize_vec};
use pong::geometry::{
    Point2, Vector2, BALL_SIZE_HALF, BALL_SPEED, RACKET_HEIGHT_HALF, UNITS_PER_PIXEL,
};
use pong::physics::{bounce_walls, clamp, intersects, move_racket};
use pong::state::{Input, MainState};

const U: i64 = UNITS_PER_PIXEL;
const W: i64 = 800 * U;
const H: i64 = 600 * U;
const FRAME: u64 = 16_000;

fn arena_state() -> MainState {
    MainState::new_with_coins(W, H, true, true)
}

#[test]
fn clamp_below_above_inside() {
    let mut v: i64 = -5;
    clamp(&mut v, 0, 10);
    assert_eq!(v, 0);
    let mut v: i64 = 15;
    clamp(&mut v, 0, 10);
    assert_eq!(v, 10);
    let mut v: i64 = 7;
    clamp(&mut v, 0, 10);
    assert_eq!(v, 7);
    let mut v: i64 = 10;
    clamp(&mut v, 0, 10);
    assert_eq!(v, 10);
}

#[test]
fn move_racket_down_and_not_pressed() {
    let mut p = Point2::new(50 * U, 300 * U);
    move_racket(&mut p, true, 1, 100_000, H);
    assert_eq!(p, Point2::new(50 * U, 360 * U));
    move_racket(&mut p, false, -1, 100_000, H);
    assert_eq!(p, Point2::new(50 * U, 360 * U));
}

#[test]
fn paddle_up_at_top_clamps_to_half_height() {
    let mut s = arena_state();
    s.player_1_pos.y = 50 * U;
    let input = Input::new(true, false, false, false);
    s.advance_with_coins(100_000, W, H, input, true, true);
    assert_eq!(s.player_1_pos.y, RACKET_HEIGHT_HALF);
    assert_eq!(s.player_1_pos.y, 50 * U);
}

#[test]
fn paddle_down_for_long_clamps_to_bottom() {
    let mut s = arena_state();
    let input = Input::new(false, false, false, true);
    s.advance_with_coins(5_000_000, W, H, input, true, true);
    assert_eq!(s.player_2_pos.y, H - RACKET_HEIGHT_HALF);
    assert_eq!(s.player_1_pos.y, 300 * U);
}

#[test]
fn both_keys_apply_up_then_down() {
    let mut s = arena_state();
    s.player_1_pos.y = 50 * U;
    let input = Input::new(true, true, false, false);
    s.advance_with_coins(100_000, W, H, input, true, true);
    assert_eq!(s.player_1_pos.y, 110 * U);
}

#[test]
fn paddles_stay_in_arena_over_many_steps() {
    let mut s = arena_state();
    for i in 0..200u64 {
        let input = Input::new(i % 3 == 0, i % 5 == 0, i % 2 == 0, i % 7 == 0);
        s.advance(FRAME * (i % 9), W, H, input);
        assert!(s.player_1_pos.y >= RACKET_HEIGHT_HALF && s.player_1_pos.y <= H - RACKET_HEIGHT_HALF);
        assert!(s.player_2_pos.y >= RACKET_HEIGHT_HALF && s.player_2_pos.y <= H - RACKET_HEIGHT_HALF);
    }
}

#[test]
fn new_with_coins_places_everything() {
    let s = MainState::new_with_coins(W, H, true, false);
    assert_eq!(s.player_1_pos, Point2::new(50 * U, 300 * U));
    assert_eq!(s.player_2_pos, Point2::new(750 * U, 300 * U));
    assert_eq!(s.ball_pos, Point2::new(400 * U, 300 * U));
    assert_eq!(s.ball_vel, Vector2::new(BALL_SPEED, -BALL_SPEED));
    assert_eq!(s.player_1_score, 0);
    assert_eq!(s.player_2_score, 0);
}

#[test]
fn new_draws_a_diagonal_direction() {
    let s = MainState::new(W, H);
    assert_eq!(s.ball_vel.x.abs(), BALL_SPEED);
    assert_eq!(s.ball_vel.y.abs(), BALL_SPEED);
    assert_eq!(s.ball_pos, Point2::new(400 * U, 300 * U));
}

#[test]
fn orient_and_randomize_vec() {
    let mut v = Vector2::new(0, 0);
    orient_vec(&mut v, 3, 4, false, true);
    assert_eq!(v, Vector2::new(-3, 4));
    orient_vec(&mut v, 3, 4, true, false);
    assert_eq!(v, Vector2::new(3, -4));
    for _ in 0..20 {
        randomize_vec(&mut v, 3, 4);
        assert!(v.x == 3 || v.x == -3);
        assert!(v.y == 4 || v.y == -4);
    }
}

#[test]
fn ball_one_pixel_inside_left_bound_has_not_left_yet() {
    let mut s = arena_state();
    s.ball_pos = Point2::new(BALL_SIZE_HALF - U, 300 * U);
    s.ball_vel = Vector2::new(-BALL_SPEED, BALL_SPEED);
    s.advance_with_coins(FRAME, W, H, Input::none(), true, true);
    assert_eq!(s.player_2_score, 0);
    assert_eq!(s.ball_pos, Point2::new(10_800_000, 303_200_000));
    assert_eq!(s.ball_vel, Vector2::new(-BALL_SPEED, BALL_SPEED));
}

#[test]
fn ball_leaving_left_scores_for_player_two() {
    let mut s = arena_state();
    s.ball_pos = Point2::new(U, 300 * U);
    s.ball_vel = Vector2::new(-BALL_SPEED, BALL_SPEED);
    s.advance(FRAME, W, H, Input::none());
    assert_eq!(s.player_2_score, 1);
    assert_eq!(s.player_1_score, 0);
    assert_eq!(s.ball_pos, Point2::new(400 * U, 300 * U));
    assert_eq!(s.ball_vel.x.abs(), BALL_SPEED);
    assert_eq!(s.ball_vel.y.abs(), BALL_SPEED);
    let vx = s.ball_vel.x as i128;
    let vy = s.ball_vel.y as i128;
    assert_eq!(vx * vx + vy * vy, 2 * (BALL_SPEED as i128) * (BALL_SPEED as i128));
}

#[test]
fn ball_leaving_right_scores_for_player_one() {
    let mut s = arena_state();
    s.ball_pos = Point2::new(799 * U, 300 * U);
    s.ball_vel = Vector2::new(BALL_SPEED, BALL_SPEED);
    s.advance_with_coins(FRAME, W, H, Input::none(), false, true);
    assert_eq!(s.player_1_score, 1);
    assert_eq!(s.player_2_score, 0);
    assert_eq!(s.ball_pos, Point2::new(400 * U, 300 * U));
    assert_eq!(s.ball_vel, Vector2::new(-BALL_SPEED, BALL_SPEED));
}

#[test]
fn huge_step_scores_only_once() {
    let mut s = arena_state();
    s.ball_vel = Vector2::new(-BALL_SPEED, BALL_SPEED);
    s.advance_with_coins(1_000_000_000_000, W, H, Input::none(), true, true);
    assert_eq!(s.player_1_score + s.player_2_score, 1);
    assert_eq!(s.player_2_score, 1);
}

#[test]
fn top_wall_turns_ball_down() {
    let mut s = arena_state();
    s.ball_pos = Point2::new(400 * U, 16 * U);
    s.ball_vel = Vector2::new(BALL_SPEED, -BALL_SPEED);
    s.advance_with_coins(FRAME, W, H, Input::none(), true, true);
    assert_eq!(s.ball_pos, Point2::new(403_200_000, BALL_SIZE_HALF));
    assert_eq!(s.ball_vel, Vector2::new(BALL_SPEED, BALL_SPEED));
}

#[test]
fn bottom_wall_turns_ball_up() {
    let mut s = arena_state();
    s.ball_pos = Point2::new(400 * U, 584 * U);
    s.ball_vel = Vector2::new(-BALL_SPEED, BALL_SPEED);
    s.advance_with_coins(FRAME, W, H, Input::none(), true, true);
    assert_eq!(s.ball_pos, Point2::new(396_800_000, H - BALL_SIZE_HALF));
    assert_eq!(s.ball_vel, Vector2::new(-BALL_SPEED, -BALL_SPEED));
}

#[test]
fn bounce_walls_keeps_an_inside_ball() {
    let mut p = Point2::new(10 * U, 200 * U);
    let mut v = Vector2::new(5, -7);
    bounce_walls(&mut p, &mut v, H);
    assert_eq!(p, Point2::new(10 * U, 200 * U));
    assert_eq!(v, Vector2::new(5, -7));
}

#[test]
fn intersects_edges() {
    let paddle = Point2::new(50 * U, 300 * U);
    assert!(intersects(Point2::new(70 * U, 300 * U), paddle));
    assert!(!intersects(Point2::new(75 * U, 300 * U), paddle));
    assert!(!intersects(Point2::new(50 * U, 365 * U), paddle));
    assert!(intersects(Point2::new(50 * U, 364 * U), paddle));
}

#[test]
fn left_paddle_sends_ball_right() {
    let mut s = arena_state();
    s.ball_pos = Point2::new(70 * U, 300 * U);
    s.ball_vel = Vector2::new(-BALL_SPEED, BALL_SPEED);
    s.advance_with_coins(FRAME, W, H, Input::none(), true, true);
    assert_eq!(s.ball_pos, Point2::new(66_800_000, 303_200_000));
    assert_eq!(s.ball_vel, Vector2::new(BALL_SPEED, BALL_SPEED));
}

#[test]
fn right_paddle_sends_ball_left() {
    let mut s = arena_state();
    s.ball_pos = Point2::new(730 * U, 300 * U);
    s.ball_vel = Vector2::new(BALL_SPEED, -BALL_SPEED);
    s.advance_with_coins(FRAME, W, H, Input::none(), true, true);
    assert_eq!(s.ball_pos, Point2::new(733_200_000, 296_800_000));
    assert_eq!(s.ball_vel, Vector2::new(-BALL_SPEED, -BALL_SPEED));
}

#[test]
fn ball_held_inside_paddle_keeps_its_direction() {
    let mut s = arena_state();
    s.ball_pos = Point2::new(60 * U, 300 * U);
    s.ball_vel = Vector2::new(-BALL_SPEED, 0);
    s.advance_with_coins(0, W, H, Input::none(), true, true);
    let once = s;
    assert_eq!(once.ball_vel, Vector2::new(BALL_SPEED, 0));
    for _ in 0..10 {
        s.advance(0, W, H, Input::new(true, true, true, true));
        assert_eq!(s, once);
    }
}
