//! The speed ramp: on a fixed cadence of accumulated play time the ball
//! speeds up by a tenth, and every tick the speed is clamped to its band.

use vstd::prelude::*;

use crate::geometry::{
    clamp_spec, BALL_MAX_SPEED, BALL_MIN_SPEED, SPEED_RAMP_INTERVAL_MS,
};
use crate::state::Velocity;

verus! {

/// A speed raised by a tenth, rounded down.
pub open spec fn ramped_speed(speed: int) -> int {
    speed * 11 / 10
}

/// A speed forced into the allowed band.
pub open spec fn clamped_speed(speed: int) -> int {
    clamp_spec(speed, BALL_MIN_SPEED as int, BALL_MAX_SPEED as int)
}

/// The ramp timer after one tick: it grows by `dt_ms` and falls back to
/// zero when it reaches the ramp interval, discarding any excess.
pub open spec fn ramp_timer_spec(timer_ms: int, dt_ms: int) -> int {
    if timer_ms + dt_ms >= SPEED_RAMP_INTERVAL_MS {
        0
    } else {
        timer_ms + dt_ms
    }
}

/// The velocity after one ramp tick: a tenth faster when the interval
/// elapsed, direction untouched either way.
pub open spec fn ramp_velocity_spec(v: Velocity, timer_ms: int, dt_ms: int) -> Velocity {
    if timer_ms + dt_ms >= SPEED_RAMP_INTERVAL_MS {
        Velocity { speed: ramped_speed(v.speed as int) as u64, dir: v.dir, angle: v.angle }
    } else {
        v
    }
}

/// Accumulates play time and speeds the ball up by a tenth each time the
/// ramp interval has elapsed, keeping its direction.
pub fn increase_ball_speed(v: &mut Velocity, timer_ms: &mut u64, dt_ms: u32)
    requires
        old(v).wf(),
        old(timer_ms) < SPEED_RAMP_INTERVAL_MS,
    ensures
        *final(v) == ramp_velocity_spec(*old(v), *old(timer_ms) as int, dt_ms as int),
        *final(timer_ms) == ramp_timer_spec(*old(timer_ms) as int, dt_ms as int),
        *final(timer_ms) < SPEED_RAMP_INTERVAL_MS,
        final(v).dir == old(v).dir,
        final(v).angle == old(v).angle,
        final(v).speed <= old(v).speed * 11 / 10,
{
    let grown: u64 = *timer_ms + (dt_ms as u64);
    if grown >= SPEED_RAMP_INTERVAL_MS {
        *timer_ms = 0;
        v.speed = v.speed * 11 / 10;
    } else {
        *timer_ms = grown;
    }
}

/// Forces the ball's speed into the allowed band, keeping its direction;
/// run every tick, it bounds how hard the simulation can get.
pub fn clamp_ball_speed(v: &mut Velocity)
    ensures
        final(v).speed == clamped_speed(old(v).speed as int),
        final(v).dir == old(v).dir,
        final(v).angle == old(v).angle,
        BALL_MIN_SPEED <= final(v).speed <= BALL_MAX_SPEED,
{
    if v.speed < BALL_MIN_SPEED {
        v.speed = BALL_MIN_SPEED;
    } else if v.speed > BALL_MAX_SPEED {
        v.speed = BALL_MAX_SPEED;
    }
}

/// The velocity after the whole ramp stage of one tick: the cadence step,
/// then the clamp.
pub open spec fn ramp_stage_velocity_spec(v: Velocity, timer_ms: int, dt_ms: int) -> Velocity {
    let ramped = ramp_velocity_spec(v, timer_ms, dt_ms);
    Velocity {
        speed: clamped_speed(ramped.speed as int) as u64,
        dir: ramped.dir,
        angle: ramped.angle,
    }
}

} // verus!
