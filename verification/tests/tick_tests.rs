//! Tests of whole ticks: phase gating, the per-frame stage order, the
//! start screen and win detection.

use pong_core::geometry::{BALL_BASE_SPEED, BALL_MAX_SPEED, BALL_MIN_SPEED};
use pong_core::state::{Ball, GamePhase, InputState, Paddle, Score, Side, SimState, Velocity};
use pong_core::tick::{tick, tick_core};

fn no_input() -> InputState {
    InputState {
        left_up_held: false,
        left_down_held: false,
        right_up_held: false,
        right_down_held: false,
        any_key_just_pressed: false,
        exit_just_pressed: false,
    }
}

fn playing_state() -> SimState {
    SimState {
        phase: GamePhase::Playing,
        winner: None,
        score: Score { left: 0, right: 0 },
        left_paddle: Paddle { x: -300_000, y: 0 },
        right_paddle: Paddle { x: 300_000, y: 0 },
        ball: Ball { x: 0, y: 0, vel: Velocity { speed: BALL_BASE_SPEED, dir: Side::Right, angle: 0 } },
        timer_ms: 0,
    }
}

#[test]
fn initial_state_is_start_screen() {
    let s = SimState::new();
    assert_eq!(s.phase, GamePhase::StartScreen);
    assert_eq!(s.winner, None);
    assert_eq!(s.score, Score { left: 0, right: 0 });
    assert_eq!(s.left_paddle, Paddle { x: -300_000, y: 0 });
    assert_eq!(s.right_paddle, Paddle { x: 300_000, y: 0 });
    assert_eq!((s.ball.x, s.ball.y), (0, 0));
    assert_eq!(s.ball.vel.speed, BALL_BASE_SPEED);
    assert_eq!(s.timer_ms, 0);
}

#[test]
fn start_screen_ignores_held_keys() {
    let mut s = SimState::new();
    let before = s;
    let held = InputState { left_up_held: true, right_down_held: true, ..no_input() };
    let out = tick_core(&mut s, &held, 5_000, Side::Left);
    assert_eq!(s, before);
    assert!(out.events.is_empty());
    assert!(!out.exit_requested);
}

#[test]
fn any_key_starts_a_round() {
    let mut s = SimState::new();
    s.winner = Some(Side::Right);
    s.left_paddle.y = 50_000;
    let press = InputState { any_key_just_pressed: true, ..no_input() };
    let out = tick_core(&mut s, &press, 16, Side::Right);
    assert_eq!(s.phase, GamePhase::Playing);
    assert_eq!(s.winner, None);
    assert_eq!(s.score, Score { left: 0, right: 0 });
    assert_eq!((s.ball.x, s.ball.y), (0, 0));
    assert_eq!(s.ball.vel.speed, BALL_BASE_SPEED);
    assert_eq!(s.ball.vel.dir, Side::Right);
    assert_eq!(s.timer_ms, 0);
    // Paddles keep their place across the restart.
    assert_eq!(s.left_paddle.y, 50_000);
    assert!(!out.exit_requested);
}

#[test]
fn exit_key_requests_exit_and_changes_nothing() {
    let mut s = SimState::new();
    let before = s;
    let press = InputState {
        any_key_just_pressed: true,
        exit_just_pressed: true,
        ..no_input()
    };
    let out = tick_core(&mut s, &press, 16, Side::Left);
    assert!(out.exit_requested);
    assert_eq!(s, before);
    assert_eq!(s.phase, GamePhase::StartScreen);
}

#[test]
fn exit_key_while_playing_does_nothing() {
    let mut s = playing_state();
    let press = InputState { exit_just_pressed: true, any_key_just_pressed: true, ..no_input() };
    let out = tick_core(&mut s, &press, 0, Side::Left);
    assert!(!out.exit_requested);
    assert_eq!(s.phase, GamePhase::Playing);
}

#[test]
fn playing_tick_moves_ball_and_paddles() {
    let mut s = playing_state();
    let held = InputState { left_up_held: true, right_down_held: true, ..no_input() };
    let out = tick_core(&mut s, &held, 100, Side::Left);
    assert_eq!(s.left_paddle.y, 20_000);
    assert_eq!(s.right_paddle.y, -20_000);
    assert_eq!(s.ball.x, 20_000);
    assert_eq!(s.ball.y, 0);
    assert_eq!(s.timer_ms, 100);
    assert!(out.events.is_empty());
    assert!(!out.exit_requested);
}

#[test]
fn ramp_speeds_up_ball_over_ticks() {
    let mut s = playing_state();
    s.ball.vel.dir = Side::Left;
    // 100 ticks of 100 ms: the ramp fires on the tick that completes 10 s.
    for _ in 0..100 {
        tick_core(&mut s, &no_input(), 100, Side::Left);
    }
    assert_eq!(s.ball.vel.speed, 220_000);
    assert_eq!(s.timer_ms, 0);
}

#[test]
fn ramp_never_exceeds_max_speed() {
    let mut s = playing_state();
    // Keep the ball bouncing between the paddles for many ramp intervals.
    for _ in 0..200 {
        tick_core(&mut s, &no_input(), 9_999, Side::Left);
        if s.phase != GamePhase::Playing {
            let press = InputState { any_key_just_pressed: true, ..no_input() };
            tick_core(&mut s, &press, 1, Side::Left);
        }
        assert!(s.ball.vel.speed >= BALL_MIN_SPEED);
        assert!(s.ball.vel.speed <= BALL_MAX_SPEED);
    }
}

#[test]
fn random_tick_keeps_state_well_formed() {
    let mut s = SimState::new();
    let press = InputState { any_key_just_pressed: true, ..no_input() };
    let out = tick(&mut s, &press, 16);
    assert_eq!(s.phase, GamePhase::Playing);
    assert!(s.ball.vel.dir == Side::Left || s.ball.vel.dir == Side::Right);
    assert_eq!(s.ball.vel.speed, BALL_BASE_SPEED);
    assert!(!out.exit_requested);
}
