//! The scoring and round manager: an out-of-bounds ball awards a point to
//! the opposite side and is re-served from the centre.

use vstd::prelude::*;

use crate::geometry::{BALL_BASE_SPEED, COURT_HALF_WIDTH};
use crate::state::{Ball, Score, Side};

verus! {

/// Which side, if any, a ball at `x` has just scored for: past the left
/// goal line the right player scores, past the right one the left player.
/// The two checks are mutually exclusive, so one crossing awards exactly
/// one point.
pub open spec fn scorer_spec(x: int) -> Option<Side> {
    if x < -COURT_HALF_WIDTH {
        Some(Side::Right)
    } else if x > COURT_HALF_WIDTH {
        Some(Side::Left)
    } else {
        None
    }
}

/// The score after the check: one point to the scorer, or unchanged.
pub open spec fn score_step_spec(score: Score, x: int) -> Score {
    match scorer_spec(x) {
        Some(Side::Right) => Score { left: score.left, right: (score.right + 1) as u32 },
        Some(Side::Left) => Score { left: (score.left + 1) as u32, right: score.right },
        None => score,
    }
}

/// The ball after the check: re-served toward `serve_dir` after a point,
/// otherwise untouched.
pub open spec fn ball_after_score_spec(b: Ball, serve_dir: Side) -> Ball {
    if scorer_spec(b.x as int) is Some {
        Ball::serve_spec(serve_dir)
    } else {
        b
    }
}

/// Checks the goal lines, awards at most one point, and re-serves the
/// ball toward `serve_dir` when a point fell. Returns the scorer, if any.
pub fn check_ball_out_of_bounds(score: &mut Score, b: &mut Ball, serve_dir: Side) -> (scorer:
    Option<Side>)
    requires
        old(score).left < u32::MAX,
        old(score).right < u32::MAX,
    ensures
        scorer == scorer_spec(old(b).x as int),
        *final(score) == score_step_spec(*old(score), old(b).x as int),
        *final(b) == ball_after_score_spec(*old(b), serve_dir),
{
    if b.x < -COURT_HALF_WIDTH {
        score.right = score.right + 1;
        *b = Ball::serve(serve_dir);
        Some(Side::Right)
    } else if b.x > COURT_HALF_WIDTH {
        score.left = score.left + 1;
        *b = Ball::serve(serve_dir);
        Some(Side::Left)
    } else {
        None
    }
}

/// Relies on `rand::random::<bool>`: a coin flip from the thread's random
/// number generator. Nothing is promised of the outcome.
#[verifier::external_body]
pub(crate) fn random_bool() -> bool {
    rand::random::<bool>()
}

/// Draws a random serve direction; either side is possible.
pub fn random_serve_dir() -> Side {
    if random_bool() {
        Side::Left
    } else {
        Side::Right
    }
}

/// Re-serves the ball from the court centre toward a random side at base
/// speed, as after a point: whichever side comes up, the ball is centred,
/// flat and at `BALL_BASE_SPEED`.
pub fn reset_ball(b: &mut Ball)
    ensures
        final(b).x == 0,
        final(b).y == 0,
        final(b).vel.speed == BALL_BASE_SPEED,
        final(b).vel.angle == 0,
        *final(b) == Ball::serve_spec(final(b).vel.dir),
        final(b).wf(),
{
    let dir = random_serve_dir();
    *b = Ball::serve(dir);
}

} // verus!
