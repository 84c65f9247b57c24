//! Fixed-point representation of measured quantities.
//!
//! Every fractional quantity in this crate (a temperature, a wind speed,
//! a coordinate) is carried as a signed count of ten-thousandths of its
//! unit: the value `v` stands for `v / 10000` units.  This keeps the whole
//! domain model in exact integer arithmetic.

use vstd::prelude::*;

verus! {

/// Fraction units per whole unit: a fixed-point value `v` stands for
/// `v / SCALE` units.
pub const SCALE: i64 = 10000;

/// Largest magnitude a fixed-point value may have when it is fed to the
/// scaling arithmetic (one hundred million whole units).
pub const FIXED_MAG_LIMIT: i64 = 1_000_000_000_000;

/// `v * num / den` with the magnitude rounded toward zero, exactly as the
/// executable scaling computes it.
pub open spec fn scale_trunc(v: int, num: int, den: int) -> int
    recommends
        den > 0,
{
    if v >= 0 {
        (v * num) / den
    } else {
        -(((-v) * num) / den)
    }
}

/// Multiplies a fixed-point value by the ratio `num / den`, truncating the
/// magnitude toward zero.
pub fn mul_div(v: i64, num: u64, den: u64) -> (r: i64)
    requires
        0 < den <= 100_000_000,
        num <= 1_000_000,
        -FIXED_MAG_LIMIT <= v <= FIXED_MAG_LIMIT,
    ensures
        r == scale_trunc(v as int, num as int, den as int),
        -FIXED_MAG_LIMIT * 1_000_000 <= r <= FIXED_MAG_LIMIT * 1_000_000,
{
    let neg: bool = v < 0;
    let mag: u64 = if neg {
        (-v) as u64
    } else {
        v as u64
    };
    assert(mag * num <= 1_000_000_000_000u64 * 1_000_000) by (nonlinear_arith)
        requires
            mag <= 1_000_000_000_000u64,
            num <= 1_000_000,
    ;
    let prod: u64 = mag * num;
    let q: u64 = prod / den;
    assert(q <= prod);
    if neg {
        -(q as i64)
    } else {
        q as i64
    }
}

} // verus!
