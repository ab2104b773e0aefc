//! Fixed-point units and saturating helpers.
//!
//! World lengths are measured in milli-units (one thousandth of a world
//! unit) and times in milliseconds, so that a velocity in milli-units per
//! second times a duration in milliseconds, divided by [`MILLI`], is a
//! displacement in milli-units.  The limits below bound every quantity the
//! simulation handles; they are far beyond anything a level can reach and
//! exist so that all arithmetic provably stays inside `i64`.

use vstd::prelude::*;

verus! {

/// Milli-units per world unit, and milliseconds per second.
pub const MILLI: i64 = 1000;

/// Bound on world coordinates; positions saturate here.
pub const COORD_LIMIT: i64 = 1_000_000_000;

/// Bound on box half-extents.
pub const HALF_EXTENT_LIMIT: i64 = 1_000_000;

/// Bound on speeds; velocities saturate here.
pub const VEL_LIMIT: i64 = 100_000_000;

/// Bound on gravity magnitudes.
pub const GRAVITY_LIMIT: i64 = 10_000_000;

/// Bound on the duration of one tick, in milliseconds.
pub const DT_LIMIT: i64 = 10_000;

/// Bound on countdown budgets, in milliseconds.
pub const TIMER_LIMIT: i64 = 1_000_000_000;

/// Largest displacement one tick can ask for:
/// `VEL_LIMIT * DT_LIMIT / MILLI`.
pub const DELTA_LIMIT: i64 = 1_000_000_000;

/// Absolute value of a mathematical integer.
pub open spec fn abs_i(v: int) -> int {
    if v >= 0 {
        v
    } else {
        -v
    }
}

/// `v` held into `[lo, hi]`.
pub open spec fn clamp_spec(v: int, lo: int, hi: int) -> int {
    if v < lo {
        lo
    } else if v > hi {
        hi
    } else {
        v
    }
}

/// A countdown after `dt` has elapsed: decreased by `dt`, floored at zero.
pub open spec fn count_down_spec(t: int, dt: int) -> int {
    if t - dt > 0 {
        t - dt
    } else {
        0
    }
}

/// A velocity scaled by a tick duration: `v * dt / MILLI`, rounded towards
/// zero.
pub open spec fn scale_by_dt_spec(v: int, dt: int) -> int {
    if v >= 0 {
        (v * dt) / (MILLI as int)
    } else {
        -((-v * dt) / (MILLI as int))
    }
}

/// `v` held into `[lo, hi]`.
pub fn clamp_i64(v: i64, lo: i64, hi: i64) -> (r: i64)
    requires
        lo <= hi,
    ensures
        r == clamp_spec(v as int, lo as int, hi as int),
{
    if v < lo {
        lo
    } else if v > hi {
        hi
    } else {
        v
    }
}

/// A countdown after `dt` has elapsed: decreased by `dt`, floored at zero.
pub fn count_down(t: i64, dt: i64) -> (r: i64)
    requires
        0 <= t <= TIMER_LIMIT,
        0 <= dt <= DT_LIMIT,
    ensures
        r == count_down_spec(t as int, dt as int),
        0 <= r <= t,
{
    if t > dt {
        t - dt
    } else {
        0
    }
}

/// A velocity scaled by a tick duration, the displacement it asks for.
pub fn scale_by_dt(v: i64, dt: i64) -> (r: i64)
    requires
        -VEL_LIMIT <= v <= VEL_LIMIT,
        0 <= dt <= DT_LIMIT,
    ensures
        r == scale_by_dt_spec(v as int, dt as int),
        -DELTA_LIMIT <= r <= DELTA_LIMIT,
{
    let mag: u64 = if v < 0 {
        (-v) as u64
    } else {
        v as u64
    };
    proof {
        assert(0 <= mag * (dt as u64) <= 1_000_000_000_000int) by (nonlinear_arith)
            requires
                0 <= mag <= 100_000_000int,
                0 <= dt as u64 <= 10_000int,
        ;
    }
    let scaled: u64 = (mag * (dt as u64)) / (MILLI as u64);
    proof {
        assert((mag * (dt as u64)) / 1000 <= DELTA_LIMIT as int) by (nonlinear_arith)
            requires
                0 <= mag * (dt as u64) <= 1_000_000_000_000int,
        ;
    }
    if v < 0 {
        -(scaled as i64)
    } else {
        scaled as i64
    }
}

} // verus!
