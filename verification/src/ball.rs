//! Ball kinematics: one velocity integration step per tick.

use vstd::prelude::*;

use crate::geometry::{clamp_spec, clamp_i64, MS_PER_S, POSITION_LIMIT, BALL_MAX_SPEED};
use crate::state::{Ball, Side};

verus! {

/// How far a velocity component of magnitude `mag` (milliunits per
/// second) carries the ball in `dt_ms` milliseconds.
pub open spec fn travel(mag: int, dt_ms: int) -> int {
    mag * dt_ms / (MS_PER_S as int)
}

/// One kinematics step: the position advances by velocity times elapsed
/// time, saturating far outside the court so that positions stay bounded
/// whatever `dt_ms` is. The velocity is untouched.
pub open spec fn move_ball_spec(b: Ball, dt_ms: int) -> Ball {
    let dx = travel(b.vel.x_mag(), dt_ms);
    let dy = travel(b.vel.y_mag(), dt_ms);
    let gone_x = if b.vel.dir is Right {
        b.x + dx
    } else {
        b.x - dx
    };
    let gone_y = if b.vel.angle >= 0 {
        b.y + dy
    } else {
        b.y - dy
    };
    Ball {
        x: clamp_spec(gone_x, -POSITION_LIMIT as int, POSITION_LIMIT as int) as i64,
        y: clamp_spec(gone_y, -POSITION_LIMIT as int, POSITION_LIMIT as int) as i64,
        vel: b.vel,
    }
}

/// Advances the ball by one tick of its velocity.
pub fn move_ball(b: &mut Ball, dt_ms: u32)
    requires
        old(b).wf(),
    ensures
        *final(b) == move_ball_spec(*old(b), dt_ms as int),
        final(b).vel == old(b).vel,
        final(b).wf(),
{
    let x_mag: u64 = b.vel.compute_x_mag();
    let y_mag: u64 = b.vel.compute_y_mag();
    proof {
        assert(x_mag * (dt_ms as u64) <= BALL_MAX_SPEED * 0xFFFF_FFFFu64) by (nonlinear_arith)
            requires
                x_mag <= BALL_MAX_SPEED,
                dt_ms <= 0xFFFF_FFFFu64,
        ;
        assert(y_mag * (dt_ms as u64) <= BALL_MAX_SPEED * 0xFFFF_FFFFu64) by (nonlinear_arith)
            requires
                y_mag <= BALL_MAX_SPEED,
                dt_ms <= 0xFFFF_FFFFu64,
        ;
    }
    let dx: i64 = (x_mag * (dt_ms as u64) / MS_PER_S) as i64;
    let dy: i64 = (y_mag * (dt_ms as u64) / MS_PER_S) as i64;
    let gone_x: i64 = match b.vel.dir {
        Side::Right => b.x + dx,
        Side::Left => b.x - dx,
    };
    let gone_y: i64 = if b.vel.angle >= 0 {
        b.y + dy
    } else {
        b.y - dy
    };
    b.x = clamp_i64(gone_x, -POSITION_LIMIT, POSITION_LIMIT);
    b.y = clamp_i64(gone_y, -POSITION_LIMIT, POSITION_LIMIT);
}

} // verus!
