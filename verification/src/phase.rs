//! The game phase state machine: win detection while playing, and the
//! any-key / exit-key handling on the start screen.

use vstd::prelude::*;

use crate::geometry::WIN_SCORE;
use crate::state::{Ball, GamePhase, Score, SimState, InputState, Side};

verus! {

/// The winner the score forces, if any; the left side is checked first,
/// as in the rest of the scoring order.
pub open spec fn forced_winner_spec(score: Score) -> Option<Side> {
    if score.left >= WIN_SCORE {
        Some(Side::Left)
    } else if score.right >= WIN_SCORE {
        Some(Side::Right)
    } else {
        None
    }
}

/// The state after win detection: when a side has reached the winning
/// score while playing, the session falls back to the start screen
/// carrying that winner, and the score returns to zero. Everything else,
/// including every position, is untouched.
pub open spec fn check_game_over_spec(s: SimState) -> SimState {
    if s.phase is Playing && forced_winner_spec(s.score) is Some {
        SimState {
            phase: GamePhase::StartScreen,
            winner: forced_winner_spec(s.score),
            score: Score { left: 0, right: 0 },
            ..s
        }
    } else {
        s
    }
}

/// Detects a win and ends the round.
pub fn check_game_over(s: &mut SimState)
    ensures
        *final(s) == check_game_over_spec(*old(s)),
        final(s).phase is Playing ==> *final(s) == *old(s),
{
    match s.phase {
        GamePhase::Playing => {
            if s.score.left >= WIN_SCORE {
                s.phase = GamePhase::StartScreen;
                s.winner = Some(Side::Left);
                s.score = Score { left: 0, right: 0 };
            } else if s.score.right >= WIN_SCORE {
                s.phase = GamePhase::StartScreen;
                s.winner = Some(Side::Right);
                s.score = Score { left: 0, right: 0 };
            }
        },
        GamePhase::StartScreen => {},
    }
}

/// Whether this tick's input asks the host to quit: the exit key, pressed
/// on the start screen. Never set while playing.
pub open spec fn exit_requested_spec(s: SimState, input: InputState) -> bool {
    s.phase is StartScreen && input.exit_just_pressed
}

/// The state after the start screen reads the keys: the exit key leaves
/// everything as it is (the host quits instead); any other freshly
/// pressed key starts a round with no winner, a zero score, a reset ramp
/// timer and a fresh serve toward `serve_dir`. While playing, input
/// changes nothing here. That the ramp timer restarts from zero with
/// every round, rather than running on across rounds, is a deliberate
/// policy choice.
pub open spec fn start_screen_input_spec(s: SimState, input: InputState, serve_dir: Side) -> SimState {
    if s.phase is StartScreen && !input.exit_just_pressed && input.any_key_just_pressed {
        SimState {
            phase: GamePhase::Playing,
            winner: None,
            score: Score { left: 0, right: 0 },
            ball: Ball::serve_spec(serve_dir),
            timer_ms: 0,
            ..s
        }
    } else {
        s
    }
}

/// Reads the start screen's keys: returns whether the host should quit,
/// and otherwise starts a round on any fresh key press.
pub fn start_screen_input(s: &mut SimState, input: &InputState, serve_dir: Side) -> (exit: bool)
    ensures
        exit == exit_requested_spec(*old(s), *input),
        *final(s) == start_screen_input_spec(*old(s), *input, serve_dir),
{
    match s.phase {
        GamePhase::StartScreen => {
            if input.exit_just_pressed {
                true
            } else {
                if input.any_key_just_pressed {
                    s.phase = GamePhase::Playing;
                    s.winner = None;
                    s.score = Score { left: 0, right: 0 };
                    s.ball = Ball::serve(serve_dir);
                    s.timer_ms = 0;
                }
                false
            }
        },
        GamePhase::Playing => false,
    }
}

} // verus!
