//! Unit tests for the single simulation stages.

use pong_core::ball::move_ball;
use pong_core::collision::{collide_with_paddle, collide_with_walls, handle_collisions};
use pong_core::geometry::{
    BALL_BASE_SPEED, BALL_MAX_SPEED, BALL_MIN_SPEED, PADDLE_Y_LIMIT,
};
use pong_core::paddle::move_paddle;
use pong_core::ramp::{clamp_ball_speed, increase_ball_speed};
use pong_core::scoring::{check_ball_out_of_bounds, reset_ball};
use pong_core::state::{Ball, GameEvent, Paddle, Score, Side, Velocity};

fn flat_ball(x: i64, y: i64, speed: u64, dir: Side) -> Ball {
    Ball { x, y, vel: Velocity { speed, dir, angle: 0 } }
}

#[test]
fn paddle_moves_up_and_clamps() {
    let mut p = Paddle { x: -300_000, y: 0 };
    move_paddle(&mut p, true, false, 100);
    assert_eq!(p.y, 20_000);
    move_paddle(&mut p, true, false, 10_000);
    assert_eq!(p.y, PADDLE_Y_LIMIT);
    assert_eq!(p.x, -300_000);
}

#[test]
fn paddle_moves_down_and_clamps() {
    let mut p = Paddle { x: 300_000, y: -100_000 };
    move_paddle(&mut p, false, true, 500);
    assert_eq!(p.y, -175_000);
    move_paddle(&mut p, false, true, 500);
    assert_eq!(p.y, -PADDLE_Y_LIMIT);
}

#[test]
fn paddle_both_keys_cancel() {
    let mut p = Paddle { x: -300_000, y: 42_000 };
    move_paddle(&mut p, true, true, 3_000);
    assert_eq!(p.y, 42_000);
}

#[test]
fn paddle_idle_keys_no_motion() {
    let mut p = Paddle { x: -300_000, y: -7_000 };
    move_paddle(&mut p, false, false, 5_000);
    assert_eq!(p.y, -7_000);
}

#[test]
fn ball_moves_flat() {
    let mut b = flat_ball(1_000, 2_000, 200_000, Side::Right);
    move_ball(&mut b, 250);
    assert_eq!(b.x, 51_000);
    assert_eq!(b.y, 2_000);
    let mut l = flat_ball(0, 0, 200_000, Side::Left);
    move_ball(&mut l, 1000);
    assert_eq!(l.x, -200_000);
}

#[test]
fn ball_moves_at_angle() {
    // speed 200_000 at four steps up: cos 0.9808, sin 0.1951.
    let mut b = Ball { x: 0, y: 0, vel: Velocity { speed: 200_000, dir: Side::Right, angle: 4 } };
    move_ball(&mut b, 1000);
    assert_eq!(b.x, 196_160);
    assert_eq!(b.y, 39_020);
    let mut d = Ball { x: 0, y: 0, vel: Velocity { speed: 200_000, dir: Side::Left, angle: -4 } };
    move_ball(&mut d, 500);
    assert_eq!(d.x, -98_080);
    assert_eq!(d.y, -19_510);
}

#[test]
fn wall_reflection_flips_vertical_component() {
    let mut b = Ball { x: 0, y: 245_000, vel: Velocity { speed: 300_000, dir: Side::Right, angle: 3 } };
    let hit = collide_with_walls(&mut b);
    assert!(hit);
    assert_eq!(b.vel.angle, -3);
    assert_eq!(b.vel.speed, 300_000);
    assert_eq!(b.vel.dir, Side::Right);
    // The reflected velocity has the same component magnitudes.
    assert_eq!(b.vel.compute_x_mag(), 300_000 * 9892 / 10_000);
    assert_eq!(b.vel.compute_y_mag(), 300_000 * 1467 / 10_000);
    // Position is untouched by the reflection itself.
    assert_eq!(b.y, 245_000);
}

#[test]
fn wall_not_touched_inside_court() {
    let mut b = Ball { x: 0, y: 237_500, vel: Velocity { speed: 300_000, dir: Side::Right, angle: 3 } };
    let hit = collide_with_walls(&mut b);
    assert!(!hit);
    assert_eq!(b.vel.angle, 3);
}

#[test]
fn paddle_bounce_centre_sends_ball_flat() {
    let lp = Paddle { x: -300_000, y: 100_000 };
    let mut b = flat_ball(-289_000, 100_000, 100_000, Side::Left);
    let hit = collide_with_paddle(&mut b, &lp);
    assert!(hit);
    assert_eq!(b.vel.dir, Side::Right);
    assert_eq!(b.vel.angle, 0);
    assert_eq!(b.vel.speed, 100_000);
    assert_eq!(b.vel.compute_x_mag(), 100_000);
    assert_eq!(b.vel.compute_y_mag(), 0);
}

#[test]
fn paddle_bounce_edge_reaches_full_angle() {
    let rp = Paddle { x: 300_000, y: 0 };
    // Contact 80_000 above the centre: past the last step, capped at 8.
    let mut b = flat_ball(289_000, 80_000, 250_000, Side::Right);
    let hit = collide_with_paddle(&mut b, &rp);
    assert!(hit);
    assert_eq!(b.vel.dir, Side::Left);
    assert_eq!(b.vel.angle, 8);
    assert_eq!(b.vel.speed, 250_000);
}

#[test]
fn paddle_bounce_lower_half_sends_ball_down() {
    let lp = Paddle { x: -300_000, y: 0 };
    // Contact 30_000 below the centre: 30_000 * 8 / 75_000 = 3 steps down.
    let mut b = flat_ball(-295_000, -30_000, 150_000, Side::Left);
    let hit = collide_with_paddle(&mut b, &lp);
    assert!(hit);
    assert_eq!(b.vel.angle, -3);
    assert_eq!(b.vel.dir, Side::Right);
}

#[test]
fn paddle_miss_leaves_ball_alone() {
    let lp = Paddle { x: -300_000, y: 100_000 };
    // Vertically separated: gap of exactly the two half-heights touches,
    // and touching is not overlapping.
    let mut b = flat_ball(-295_000, 187_500, 100_000, Side::Left);
    let hit = collide_with_paddle(&mut b, &lp);
    assert!(!hit);
    assert_eq!(b.vel.dir, Side::Left);
}

#[test]
fn resolver_emits_wall_and_paddle_events() {
    let lp = Paddle { x: -300_000, y: 160_000 };
    let rp = Paddle { x: 300_000, y: 0 };
    // Overlapping both the top wall and the left paddle.
    let mut b = flat_ball(-292_000, 240_000, 150_000, Side::Left);
    let events = handle_collisions(&mut b, &lp, &rp);
    assert_eq!(events, vec![GameEvent::WallHit, GameEvent::PaddleHit(Side::Left)]);
    assert_eq!(b.vel.dir, Side::Right);
}

#[test]
fn resolver_emits_nothing_in_open_court() {
    let lp = Paddle { x: -300_000, y: 0 };
    let rp = Paddle { x: 300_000, y: 0 };
    let mut b = flat_ball(10_000, 20_000, 150_000, Side::Left);
    let events = handle_collisions(&mut b, &lp, &rp);
    assert!(events.is_empty());
}

#[test]
fn crossing_left_line_scores_for_right_only() {
    let mut score = Score { left: 2, right: 3 };
    let mut b = flat_ball(-350_001, 12_000, 200_000, Side::Left);
    let scorer = check_ball_out_of_bounds(&mut score, &mut b, Side::Right);
    assert_eq!(scorer, Some(Side::Right));
    assert_eq!(score, Score { left: 2, right: 4 });
    assert_eq!((b.x, b.y), (0, 0));
    assert_eq!(b.vel.speed, BALL_BASE_SPEED);
    assert_eq!(b.vel.angle, 0);
    assert_eq!(b.vel.dir, Side::Right);
}

#[test]
fn crossing_right_line_scores_for_left_only() {
    let mut score = Score { left: 0, right: 9 };
    let mut b = flat_ball(360_000, 0, 200_000, Side::Right);
    let scorer = check_ball_out_of_bounds(&mut score, &mut b, Side::Left);
    assert_eq!(scorer, Some(Side::Left));
    assert_eq!(score, Score { left: 1, right: 9 });
    assert_eq!((b.x, b.y), (0, 0));
}

#[test]
fn ball_on_the_line_scores_for_nobody() {
    let mut score = Score { left: 5, right: 5 };
    let mut b = flat_ball(350_000, 0, 200_000, Side::Right);
    let scorer = check_ball_out_of_bounds(&mut score, &mut b, Side::Left);
    assert_eq!(scorer, None);
    assert_eq!(score, Score { left: 5, right: 5 });
    assert_eq!(b.x, 350_000);
}

#[test]
fn reset_ball_serves_from_centre_at_base_speed() {
    let mut b = flat_ball(-400_000, 93_000, 460_000, Side::Left);
    reset_ball(&mut b);
    assert_eq!((b.x, b.y), (0, 0));
    assert_eq!(b.vel.speed, BALL_BASE_SPEED);
    assert_eq!(b.vel.angle, 0);
    assert!(b.vel.dir == Side::Left || b.vel.dir == Side::Right);
}

#[test]
fn ramp_fires_after_interval_and_keeps_direction() {
    let mut v = Velocity { speed: 200_000, dir: Side::Left, angle: 5 };
    let mut timer: u64 = 9_500;
    increase_ball_speed(&mut v, &mut timer, 600);
    assert_eq!(v.speed, 220_000);
    assert_eq!(timer, 0);
    assert_eq!(v.dir, Side::Left);
    assert_eq!(v.angle, 5);
}

#[test]
fn ramp_accumulates_below_interval() {
    let mut v = Velocity { speed: 200_000, dir: Side::Right, angle: 0 };
    let mut timer: u64 = 4_000;
    increase_ball_speed(&mut v, &mut timer, 5_999);
    assert_eq!(v.speed, 200_000);
    assert_eq!(timer, 9_999);
}

#[test]
fn speed_clamp_holds_the_band() {
    let mut slow = Velocity { speed: 80_000, dir: Side::Left, angle: 2 };
    clamp_ball_speed(&mut slow);
    assert_eq!(slow.speed, BALL_MIN_SPEED);
    assert_eq!(slow.angle, 2);
    let mut fast = Velocity { speed: 600_000, dir: Side::Right, angle: -8 };
    clamp_ball_speed(&mut fast);
    assert_eq!(fast.speed, BALL_MAX_SPEED);
    let mut fine = Velocity { speed: 314_159, dir: Side::Right, angle: 1 };
    clamp_ball_speed(&mut fine);
    assert_eq!(fine.speed, 314_159);
}
