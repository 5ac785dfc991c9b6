//! The paddle controller: held keys become vertical paddle motion, clamped
//! to the court.

use vstd::prelude::*;

use crate::geometry::{clamp_spec, clamp_i64, MS_PER_S, PADDLE_SPEED, PADDLE_Y_LIMIT};
use crate::state::Paddle;

verus! {

/// How far a paddle travels while its key is held for `dt_ms`
/// milliseconds.
pub open spec fn paddle_travel(dt_ms: int) -> int {
    PADDLE_SPEED * dt_ms / (MS_PER_S as int)
}

/// One controller step: the up key pushes the paddle up, the down key
/// pushes it down, both at the same rate, and the result is clamped so the
/// whole paddle stays inside the court. With both keys held the two pushes
/// cancel and the paddle does not move.
pub open spec fn move_paddle_spec(p: Paddle, up_held: bool, down_held: bool, dt_ms: int) -> Paddle {
    let travel = paddle_travel(dt_ms);
    let pushed = p.y + (if up_held {
        travel
    } else {
        0
    }) - (if down_held {
        travel
    } else {
        0
    });
    Paddle { x: p.x, y: clamp_spec(pushed, -PADDLE_Y_LIMIT as int, PADDLE_Y_LIMIT as int) as i64 }
}

/// Moves one paddle for one tick from its held keys.
pub fn move_paddle(p: &mut Paddle, up_held: bool, down_held: bool, dt_ms: u32)
    requires
        old(p).wf(),
    ensures
        *final(p) == move_paddle_spec(*old(p), up_held, down_held, dt_ms as int),
        final(p).x == old(p).x,
        -PADDLE_Y_LIMIT <= final(p).y <= PADDLE_Y_LIMIT,
        final(p).wf(),
{
    let travel_u: u64 = PADDLE_SPEED * (dt_ms as u64) / MS_PER_S;
    let travel: i64 = travel_u as i64;
    let mut pushed: i64 = p.y;
    if up_held {
        pushed = pushed + travel;
    }
    if down_held {
        pushed = pushed - travel;
    }
    p.y = clamp_i64(pushed, -PADDLE_Y_LIMIT, PADDLE_Y_LIMIT);
}

} // verus!
