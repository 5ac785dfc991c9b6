//! The simulation's stated laws, proved once and for all over the spec
//! functions the executable contracts are written against.

use vstd::prelude::*;

use crate::angle::ANGLE_STEPS;
use crate::ball::move_ball_spec;
use crate::collision::{
    ball_overlaps_paddle, collision_events_spec, paddle_bounce_spec, paddle_step_spec,
    wall_reflect_spec,
};
use crate::geometry::{
    BALL_BASE_SPEED, BALL_MAX_SPEED, BALL_MIN_SPEED, COURT_HALF_WIDTH, PADDLE_X_OFFSET,
    PADDLE_Y_LIMIT, WIN_SCORE,
};
use crate::paddle::move_paddle_spec;
use crate::phase::{check_game_over_spec, forced_winner_spec};
use crate::scoring::{ball_after_score_spec, score_step_spec, scorer_spec};
use crate::state::{Ball, InputState, Paddle, Score, Side, SimState, Velocity};
use crate::tick::tick_spec;

verus! {

/// Paddle clamp: whatever keys are held and however long the tick, a
/// controller step leaves the paddle's centre within the court band, so
/// over any sequence of ticks it never leaves it.
pub proof fn lemma_paddle_clamp(p: Paddle, up_held: bool, down_held: bool, dt_ms: int)
    ensures
        -PADDLE_Y_LIMIT <= move_paddle_spec(p, up_held, down_held, dt_ms).y <= PADDLE_Y_LIMIT,
{
}

/// With both keys held the two pushes cancel: a well-placed paddle does
/// not move at all.
pub proof fn lemma_both_keys_cancel(p: Paddle, dt_ms: int)
    requires
        p.wf(),
    ensures
        move_paddle_spec(p, true, true, dt_ms) == p,
{
}

/// Wall reflection is speed-preserving: a reflected velocity keeps its
/// speed and its horizontal component, and its vertical component flips
/// sign.
pub proof fn lemma_wall_reflection(v: Velocity)
    requires
        v.wf(),
    ensures
        wall_reflect_spec(v).speed == v.speed,
        wall_reflect_spec(v).x_component() == v.x_component(),
        wall_reflect_spec(v).y_component() == -v.y_component(),
        wall_reflect_spec(v).wf(),
{
}

/// Paddle bounce bounds: for any impact offset the outgoing angle stays
/// within the maximal bounce angle on either side, and the speed equals
/// the pre-impact speed.
pub proof fn lemma_paddle_bounce_bounds(b: Ball, p: Paddle)
    ensures
        paddle_bounce_spec(b, p).speed == b.vel.speed,
        -ANGLE_STEPS <= paddle_bounce_spec(b, p).angle <= ANGLE_STEPS,
{
}

/// Scoring exclusivity: a ball past the left goal line gives the right
/// player exactly one point and the left player none, and symmetrically;
/// a ball between the lines scores for nobody.
pub proof fn lemma_scoring_exclusive(score: Score, x: int)
    requires
        score.left < u32::MAX,
        score.right < u32::MAX,
    ensures
        x < -COURT_HALF_WIDTH ==> score_step_spec(score, x) == (Score {
            left: score.left,
            right: (score.right + 1) as u32,
        }),
        x > COURT_HALF_WIDTH ==> score_step_spec(score, x) == (Score {
            left: (score.left + 1) as u32,
            right: score.right,
        }),
        -COURT_HALF_WIDTH <= x <= COURT_HALF_WIDTH ==> score_step_spec(score, x) == score,
{
}

/// Round reset: after a point the ball sits exactly at the centre and
/// moves horizontally at exactly the base speed.
pub proof fn lemma_round_reset(b: Ball, serve_dir: Side)
    requires
        scorer_spec(b.x as int) is Some,
    ensures
        ball_after_score_spec(b, serve_dir).x == 0,
        ball_after_score_spec(b, serve_dir).y == 0,
        ball_after_score_spec(b, serve_dir).vel.speed == BALL_BASE_SPEED,
        ball_after_score_spec(b, serve_dir).vel.x_mag() == BALL_BASE_SPEED,
        ball_after_score_spec(b, serve_dir).vel.y_component() == 0,
{
}

/// Win detection: a winning score reached while playing forces the
/// session back to the start screen, names the winner — the left side
/// when it is the one past the line — and zeroes the score.
pub proof fn lemma_win_detection(s: SimState)
    requires
        s.phase is Playing,
        s.score.left >= WIN_SCORE || s.score.right >= WIN_SCORE,
    ensures
        check_game_over_spec(s).phase is StartScreen,
        check_game_over_spec(s).winner == forced_winner_spec(s.score),
        s.score.left >= WIN_SCORE ==> check_game_over_spec(s).winner == Some(Side::Left),
        check_game_over_spec(s).score == (Score { left: 0, right: 0 }),
        check_game_over_spec(s).ball == s.ball,
        check_game_over_spec(s).left_paddle == s.left_paddle,
        check_game_over_spec(s).right_paddle == s.right_paddle,
{
}

/// Phase gating: on the start screen neither paddle moves whatever the
/// input, the ball either stays exactly where it was or is the fresh
/// serve of a newly started round, and without a fresh key press (or
/// with the exit key) the whole state is untouched.
pub proof fn lemma_phase_gating(s: SimState, input: InputState, dt_ms: int, serve_dir: Side)
    requires
        s.phase is StartScreen,
    ensures
        tick_spec(s, input, dt_ms, serve_dir).left_paddle == s.left_paddle,
        tick_spec(s, input, dt_ms, serve_dir).right_paddle == s.right_paddle,
        tick_spec(s, input, dt_ms, serve_dir).ball == s.ball || tick_spec(
            s,
            input,
            dt_ms,
            serve_dir,
        ).ball == Ball::serve_spec(serve_dir),
        input.exit_just_pressed || !input.any_key_just_pressed ==> tick_spec(
            s,
            input,
            dt_ms,
            serve_dir,
        ) == s,
{
}

/// A ball can never overlap both paddles at once — they sit on opposite
/// lines, much further apart than the ball is wide — so the order in
/// which the two paddle checks run does not matter.
pub proof fn lemma_paddle_checks_commute(b: Ball, left: Paddle, right: Paddle)
    requires
        left.x == -PADDLE_X_OFFSET,
        right.x == PADDLE_X_OFFSET,
    ensures
        !(ball_overlaps_paddle(b, left) && ball_overlaps_paddle(b, right)),
        paddle_step_spec(paddle_step_spec(b, left), right) == paddle_step_spec(
            paddle_step_spec(b, right),
            left,
        ),
{
}

/// One tick's resolver emits at most one event per surface: the emitted
/// events are pairwise distinct.
pub proof fn lemma_one_event_per_contact(b: Ball, left: Paddle, right: Paddle)
    ensures
        forall|i: int, j: int|
            0 <= i < j < collision_events_spec(b, left, right).len() ==> collision_events_spec(
                b,
                left,
                right,
            )[i] != collision_events_spec(b, left, right)[j],
{
}

/// While playing, a tick leaves the ball's speed inside the allowed band:
/// the ramp stage clamps it every frame, and nothing runs after the clamp
/// but win detection, which does not touch the ball.
pub proof fn lemma_speed_band_while_playing(s: SimState, input: InputState, dt_ms: int, serve_dir: Side)
    requires
        s.phase is Playing,
        s.wf(),
    ensures
        BALL_MIN_SPEED <= tick_spec(s, input, dt_ms, serve_dir).ball.vel.speed <= BALL_MAX_SPEED,
{
}

/// While playing, the ball's position changes only through kinematics or
/// a re-serve: a tick that finds the moved ball inside both goal lines
/// leaves it exactly where kinematics put it, and one that finds it
/// outside re-serves it at the centre.
pub proof fn lemma_ball_position_sources(s: SimState, input: InputState, dt_ms: int, serve_dir: Side)
    requires
        s.phase is Playing,
    ensures
        ({
            let moved = move_ball_spec(s.ball, dt_ms);
            let after = tick_spec(s, input, dt_ms, serve_dir);
            (after.ball.x == moved.x && after.ball.y == moved.y) || (after.ball.x == 0
                && after.ball.y == 0)
        }),
{
}

} // verus!
