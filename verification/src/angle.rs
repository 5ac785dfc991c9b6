//! The quantised bounce angle and its fixed-point sine and cosine.
//!
//! A ball's heading away from the horizontal is held as an angle step `k`
//! with `-ANGLE_STEPS <= k <= ANGLE_STEPS`, standing for the angle
//! `k * (pi/8) / ANGLE_STEPS`; the full range spans the maximal bounce
//! angle of `pi/8` (22.5 degrees) on either side. The sine and cosine of a
//! step are table constants scaled by `TRIG_SCALE`.

use vstd::prelude::*;

verus! {

/// Number of angle steps between the horizontal and the maximal bounce
/// angle of `pi/8`; each step is 2.8125 degrees.
pub const ANGLE_STEPS: i64 = 8;

/// Fixed-point scale of the sine and cosine tables.
pub const TRIG_SCALE: u64 = 10_000;

/// Cosine of `k` angle steps, scaled by `TRIG_SCALE`, for `0 <= k <= 8`.
pub open spec fn cos_table(k: int) -> int {
    if k <= 0 {
        10_000
    } else if k == 1 {
        9988
    } else if k == 2 {
        9952
    } else if k == 3 {
        9892
    } else if k == 4 {
        9808
    } else if k == 5 {
        9700
    } else if k == 6 {
        9569
    } else if k == 7 {
        9415
    } else {
        9239
    }
}

/// Sine of `k` angle steps, scaled by `TRIG_SCALE`, for `0 <= k <= 8`.
pub open spec fn sin_table(k: int) -> int {
    if k <= 0 {
        0
    } else if k == 1 {
        491
    } else if k == 2 {
        980
    } else if k == 3 {
        1467
    } else if k == 4 {
        1951
    } else if k == 5 {
        2430
    } else if k == 6 {
        2903
    } else if k == 7 {
        3369
    } else {
        3827
    }
}

/// Both tables stay within the fixed-point scale, and the cosine never
/// vanishes: the ball always keeps some horizontal motion.
pub proof fn lemma_trig_table_bounds(k: int)
    requires
        0 <= k <= ANGLE_STEPS,
    ensures
        0 < cos_table(k) <= TRIG_SCALE,
        0 <= sin_table(k) < TRIG_SCALE,
{
}

/// Looks up the scaled cosine of `k` angle steps.
pub fn cos_lookup(k: i64) -> (r: u64)
    requires
        0 <= k <= ANGLE_STEPS,
    ensures
        r == cos_table(k as int),
{
    if k <= 0 {
        10_000
    } else if k == 1 {
        9988
    } else if k == 2 {
        9952
    } else if k == 3 {
        9892
    } else if k == 4 {
        9808
    } else if k == 5 {
        9700
    } else if k == 6 {
        9569
    } else if k == 7 {
        9415
    } else {
        9239
    }
}

/// Looks up the scaled sine of `k` angle steps.
pub fn sin_lookup(k: i64) -> (r: u64)
    requires
        0 <= k <= ANGLE_STEPS,
    ensures
        r == sin_table(k as int),
{
    if k <= 0 {
        0
    } else if k == 1 {
        491
    } else if k == 2 {
        980
    } else if k == 3 {
        1467
    } else if k == 4 {
        1951
    } else if k == 5 {
        2430
    } else if k == 6 {
        2903
    } else if k == 7 {
        3369
    } else {
        3827
    }
}

} // verus!
