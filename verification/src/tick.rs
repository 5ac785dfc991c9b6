//! One frame of the simulation: the stages of a tick in their fixed
//! order, gated by the game phase.
//!
//! While playing the order is: paddle controller, ball kinematics,
//! collision resolver, scoring and round manager, speed ramp, then win
//! detection. On the start screen only the key handling runs. The one
//! random choice a tick can need — which way to serve — is drawn once and
//! threaded through, so the rest of the tick is a pure function of the
//! state, the input and the elapsed time.

use vstd::prelude::*;

use crate::ball::{move_ball, move_ball_spec};
use crate::collision::{collision_events_spec, handle_collisions, resolve_collisions_spec};
use crate::paddle::{move_paddle, move_paddle_spec};
use crate::phase::{
    check_game_over, check_game_over_spec, exit_requested_spec, start_screen_input,
    start_screen_input_spec,
};
use crate::ramp::{clamp_ball_speed, increase_ball_speed, ramp_stage_velocity_spec, ramp_timer_spec};
use crate::scoring::{
    ball_after_score_spec, check_ball_out_of_bounds, random_serve_dir, score_step_spec,
};
use crate::state::{Ball, GameEvent, GamePhase, InputState, Side, SimState};

verus! {

/// What one tick hands back to the host: the contacts heard this frame,
/// and whether the exit key asked the process to end.
#[derive(Debug, PartialEq, Eq)]
pub struct TickOutput {
    pub events: Vec<GameEvent>,
    pub exit_requested: bool,
}

/// One playing tick: paddles move, the ball moves, collisions resolve,
/// a point may fall and re-serve the ball toward `serve_dir`, the speed
/// ramp advances, and a reached winning score ends the round.
pub open spec fn playing_tick_spec(s: SimState, input: InputState, dt_ms: int, serve_dir: Side) -> SimState {
    let lp = move_paddle_spec(s.left_paddle, input.left_up_held, input.left_down_held, dt_ms);
    let rp = move_paddle_spec(s.right_paddle, input.right_up_held, input.right_down_held, dt_ms);
    let moved = move_ball_spec(s.ball, dt_ms);
    let resolved = resolve_collisions_spec(moved, lp, rp);
    let score2 = score_step_spec(s.score, resolved.x as int);
    let ball2 = ball_after_score_spec(resolved, serve_dir);
    let vel3 = ramp_stage_velocity_spec(ball2.vel, s.timer_ms as int, dt_ms);
    let timer3 = ramp_timer_spec(s.timer_ms as int, dt_ms);
    check_game_over_spec(
        SimState {
            phase: s.phase,
            winner: s.winner,
            score: score2,
            left_paddle: lp,
            right_paddle: rp,
            ball: Ball { x: ball2.x, y: ball2.y, vel: vel3 },
            timer_ms: timer3 as u64,
        },
    )
}

/// The state after one whole tick: the playing pipeline while playing,
/// the start screen's key handling otherwise.
pub open spec fn tick_spec(s: SimState, input: InputState, dt_ms: int, serve_dir: Side) -> SimState {
    if s.phase is Playing {
        playing_tick_spec(s, input, dt_ms, serve_dir)
    } else {
        start_screen_input_spec(s, input, serve_dir)
    }
}

/// The events one tick emits: the resolver's contacts while playing,
/// nothing otherwise.
pub open spec fn tick_events_spec(s: SimState, input: InputState, dt_ms: int) -> Seq<GameEvent> {
    if s.phase is Playing {
        collision_events_spec(
            move_ball_spec(s.ball, dt_ms),
            move_paddle_spec(s.left_paddle, input.left_up_held, input.left_down_held, dt_ms),
            move_paddle_spec(s.right_paddle, input.right_up_held, input.right_down_held, dt_ms),
        )
    } else {
        Seq::<GameEvent>::empty()
    }
}

/// Runs one tick with the serve direction already chosen; everything it
/// does is a pure function of its arguments.
pub fn tick_core(s: &mut SimState, input: &InputState, dt_ms: u32, serve_dir: Side) -> (out:
    TickOutput)
    requires
        old(s).wf(),
    ensures
        *final(s) == tick_spec(*old(s), *input, dt_ms as int, serve_dir),
        out.events@ == tick_events_spec(*old(s), *input, dt_ms as int),
        out.exit_requested == exit_requested_spec(*old(s), *input),
        final(s).wf(),
{
    match s.phase {
        GamePhase::Playing => {
            move_paddle(&mut s.left_paddle, input.left_up_held, input.left_down_held, dt_ms);
            move_paddle(&mut s.right_paddle, input.right_up_held, input.right_down_held, dt_ms);
            move_ball(&mut s.ball, dt_ms);
            let events = handle_collisions(&mut s.ball, &s.left_paddle, &s.right_paddle);
            check_ball_out_of_bounds(&mut s.score, &mut s.ball, serve_dir);
            increase_ball_speed(&mut s.ball.vel, &mut s.timer_ms, dt_ms);
            clamp_ball_speed(&mut s.ball.vel);
            check_game_over(s);
            TickOutput { events, exit_requested: false }
        },
        GamePhase::StartScreen => {
            let exit = start_screen_input(s, input, serve_dir);
            let events: Vec<GameEvent> = Vec::new();
            proof {
                assert(events@ =~= Seq::<GameEvent>::empty());
            }
            TickOutput { events, exit_requested: exit }
        },
    }
}

/// Runs one tick, drawing the serve direction at random; the outcome is
/// one tick's pipeline for one of the two serve directions, and which
/// direction only matters when a serve actually happened this tick.
pub fn tick(s: &mut SimState, input: &InputState, dt_ms: u32) -> (out: TickOutput)
    requires
        old(s).wf(),
    ensures
        exists|serve_dir: Side| *final(s) == tick_spec(*old(s), *input, dt_ms as int, serve_dir),
        out.events@ == tick_events_spec(*old(s), *input, dt_ms as int),
        out.exit_requested == exit_requested_spec(*old(s), *input),
        final(s).wf(),
{
    let serve_dir = random_serve_dir();
    tick_core(s, input, dt_ms, serve_dir)
}

} // verus!
