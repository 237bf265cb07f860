use breakout::ball::{Ball, BALL_RADIUS};
use breakout::math::{Vector2, UNIT};
use breakout::paddle::{Paddle, PADDLE_WIDTH};
use breakout::state::{brick_field, MainState, BRICK_HEIGHT, BRICK_WIDTH};

const W: i64 = 800 * UNIT;
const H: i64 = 600 * UNIT;

#[test]
fn vector_arithmetic() {
    let a = Vector2::new(1, 2);
    let b = Vector2::new(10, -20);
    assert_eq!(a.add(b), Vector2::new(11, -18));
    let mut c = a;
    c.add_assign(b);
    assert_eq!(c, Vector2::new(11, -18));
    assert_eq!(Vector2::new(-1, 1).scale(250), Vector2::new(-250, 250));
}

#[test]
fn paddle_starts_above_bottom() {
    let p = Paddle::new(H);
    assert_eq!(p.position, Vector2::new(100 * UNIT, H - 30 * UNIT));
    let r = p.get_bounds();
    assert_eq!((r.x, r.y, r.w, r.h), (100 * UNIT, H - 30 * UNIT, 100 * UNIT, 10 * UNIT));
}

#[test]
fn paddle_moves_left_and_right() {
    let mut p = Paddle::new(H);
    p.update(true, false, W, 100_000);
    assert_eq!(p.position.x, 100 * UNIT - 35 * UNIT);
    p.update(false, true, W, 200_000);
    assert_eq!(p.position.x, 100 * UNIT + 35 * UNIT);
    p.update(true, true, W, 100_000);
    assert_eq!(p.position.x, 100 * UNIT);
    p.update(false, false, W, 100_000);
    assert_eq!(p.position.x, 100 * UNIT);
}

#[test]
fn paddle_is_clamped_and_keeps_height() {
    let mut p = Paddle::new(H);
    let y = p.position.y;
    for _ in 0..10 {
        p.update(true, false, W, 1_000_000);
        assert!(p.position.x >= 0 && p.position.x <= W - PADDLE_WIDTH);
        assert_eq!(p.position.y, y);
    }
    assert_eq!(p.position.x, 0);
    for _ in 0..10 {
        p.update(false, true, W, 1_000_000);
        assert!(p.position.x >= 0 && p.position.x <= W - PADDLE_WIDTH);
        assert_eq!(p.position.y, y);
    }
    assert_eq!(p.position.x, W - PADDLE_WIDTH);
}

#[test]
fn narrow_window_clamps_to_zero() {
    let mut p = Paddle::new(H);
    p.update(false, false, 50 * UNIT, 0);
    assert_eq!(p.position.x, 0);
}

#[test]
fn ball_starts_at_origin() {
    let b = Ball::new();
    assert_eq!(b.position, Vector2::new(0, 0));
    assert_eq!(b.velocity, Vector2::new(1, 1));
}

#[test]
fn ball_bounds_are_stable() {
    let b = Ball { position: Vector2::new(50 * UNIT, 60 * UNIT), velocity: Vector2::new(1, -1) };
    let r1 = b.get_bounds();
    let r2 = b.get_bounds();
    assert_eq!(r1, r2);
    assert_eq!((r1.x, r1.y, r1.w, r1.h), (40 * UNIT, 50 * UNIT, 20 * UNIT, 20 * UNIT));
}

#[test]
fn ball_moves_by_speed_times_time() {
    let paddle = Paddle::new(H);
    let mut b = Ball { position: Vector2::new(100 * UNIT, 100 * UNIT), velocity: Vector2::new(1, -1) };
    let missed = b.update(&paddle, W, H, 100_000);
    assert!(!missed);
    assert_eq!(b.position, Vector2::new(125 * UNIT, 75 * UNIT));
    assert_eq!(b.velocity, Vector2::new(1, -1));
}

#[test]
fn ball_bounces_off_left_wall() {
    let paddle = Paddle::new(H);
    let mut b = Ball { position: Vector2::new(5 * UNIT, 100 * UNIT), velocity: Vector2::new(1, 1) };
    b.update(&paddle, W, H, 0);
    assert!(b.position.x <= BALL_RADIUS);
    assert_eq!(b.velocity, Vector2::new(-1, 1));
}

#[test]
fn touching_both_side_walls_cancels() {
    let paddle = Paddle::new(H);
    let mut b = Ball { position: Vector2::new(10 * UNIT, 100 * UNIT), velocity: Vector2::new(1, 1) };
    b.update(&paddle, 20 * UNIT, H, 0);
    assert_eq!(b.velocity, Vector2::new(1, 1));
}

#[test]
fn scale_accepts_large_factors() {
    assert_eq!(Vector2::new(-3_000, 7).scale(1_000_000), Vector2::new(-3_000_000_000, 7_000_000));
    assert_eq!(Vector2::new(5, -6).scale(-2), Vector2::new(-10, 12));
    assert_eq!(Vector2::new(123_456, -9).scale(1), Vector2::new(123_456, -9));
}

#[test]
fn ball_bounces_off_right_and_top_walls() {
    let paddle = Paddle::new(H);
    let mut b = Ball { position: Vector2::new(W - 5 * UNIT, 5 * UNIT), velocity: Vector2::new(1, -1) };
    b.update(&paddle, W, H, 0);
    assert_eq!(b.velocity, Vector2::new(-1, 1));
}

#[test]
fn ball_bounces_off_paddle() {
    let paddle = Paddle::new(H);
    let mut b = Ball {
        position: Vector2::new(120 * UNIT, paddle.position.y - 5 * UNIT),
        velocity: Vector2::new(1, 1),
    };
    let missed = b.update(&paddle, W, H, 0);
    assert!(!missed);
    assert_eq!(b.velocity, Vector2::new(1, -1));
}

#[test]
fn ball_reports_a_miss() {
    let paddle = Paddle::new(H);
    let mut b = Ball { position: Vector2::new(400 * UNIT, H - 5 * UNIT), velocity: Vector2::new(1, 1) };
    assert!(b.update(&paddle, W, H, 0));
}

#[test]
fn brick_field_layout() {
    let bricks = brick_field();
    assert_eq!(bricks.len(), 100);
    assert_eq!((bricks[0].bounds.x, bricks[0].bounds.y), (0, 0));
    let b = bricks[23];
    assert_eq!((b.bounds.x, b.bounds.y, b.bounds.w, b.bounds.h), (2 * BRICK_WIDTH, 3 * BRICK_HEIGHT, BRICK_WIDTH, BRICK_HEIGHT));
    assert_eq!((b.color.r, b.color.g, b.color.b), (255, 0, 0));
}

#[test]
fn frame_moves_paddle_then_ball() {
    let mut s = MainState::new(H);
    let missed = s.update(false, true, W, H, 100_000);
    assert!(!missed);
    assert_eq!(s.paddle.position.x, 135 * UNIT);
    assert_eq!(s.ball.position, Vector2::new(25 * UNIT, 25 * UNIT));
    assert_eq!(s.bricks.len(), 100);
}
