//! Court dimensions, speed limits and the shared integer helpers.
//!
//! Every length is a count of milliunits (the court is 700 x 500 units,
//! so it spans 700_000 x 500_000 milliunits), every speed a count of
//! milliunits per second, and every duration a count of milliseconds.

use vstd::prelude::*;

verus! {

/// Half the court width: a ball past `+`/`-` this line is out of bounds.
pub const COURT_HALF_WIDTH: i64 = 350_000;
/// Half the court height: the top and bottom walls sit on these lines.
pub const COURT_HALF_HEIGHT: i64 = 250_000;
/// Half a paddle's width.
pub const PADDLE_HALF_WIDTH: i64 = 5_000;
/// Half a paddle's height.
pub const PADDLE_HALF_HEIGHT: i64 = 75_000;
/// Half the ball's width and height.
pub const BALL_HALF_SIZE: i64 = 12_500;
/// Distance of each paddle's centre line from the court centre.
pub const PADDLE_X_OFFSET: i64 = 300_000;
/// How far a paddle centre may sit from the court centre line.
pub const PADDLE_Y_LIMIT: i64 = 175_000;
/// Vertical paddle speed while a key is held.
pub const PADDLE_SPEED: u64 = 200_000;
/// Ball speed straight after a serve.
pub const BALL_BASE_SPEED: u64 = 200_000;
/// The ball is never slowed below this speed.
pub const BALL_MIN_SPEED: u64 = 100_000;
/// The ball is never driven above this speed.
pub const BALL_MAX_SPEED: u64 = 500_000;
/// The ball speeds up each time this much play time has accumulated.
pub const SPEED_RAMP_INTERVAL_MS: u64 = 10_000;
/// A side wins as soon as its score reaches this value.
pub const WIN_SCORE: u32 = 10;
/// Positions saturate at this distance from the centre, far outside the
/// court, so that position arithmetic stays bounded for every `dt`.
pub const POSITION_LIMIT: i64 = 10_000_000;
/// Milliseconds per second, the divisor when a speed is integrated over time.
pub const MS_PER_S: u64 = 1000;

/// The magnitude of an integer.
pub open spec fn abs_val(v: int) -> int {
    if v < 0 {
        -v
    } else {
        v
    }
}

/// `v` forced into the closed interval `[lo, hi]`.
pub open spec fn clamp_spec(v: int, lo: int, hi: int) -> int {
    if v < lo {
        lo
    } else if v > hi {
        hi
    } else {
        v
    }
}

/// Forces `v` into the closed interval `[lo, hi]`.
pub fn clamp_i64(v: i64, lo: i64, hi: i64) -> (r: i64)
    requires
        lo <= hi,
    ensures
        r == clamp_spec(v as int, lo as int, hi as int),
{
    if v < lo {
        lo
    } else if v > hi {
        hi
    } else {
        v
    }
}

} // verus!
