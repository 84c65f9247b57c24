//! Metric-to-imperial unit conversions over fixed-point quantities.
//!
//! Each function is total over the magnitudes the scaling arithmetic
//! admits and computes a fixed ratio, stated exactly in its contract.
//! The ratios hold the conversion constants to at least six significant
//! figures.

use vstd::prelude::*;

use crate::fixed::{scale_trunc, FIXED_MAG_LIMIT};

verus! {

/// Fahrenheit value of a Celsius temperature: `c * 9 / 5 + 32`, in
/// fixed-point ten-thousandths.
pub open spec fn fahrenheit_of(c: int) -> int {
    scale_trunc(c, 9, 5) + 320000
}

/// Inches value of a length in millimeters: `mm * 0.0393701`.
pub open spec fn inches_of_mm(mm: int) -> int {
    scale_trunc(mm, 393701, 10000000)
}

/// Feet value of a length in meters: `m * 3.28084`.
pub open spec fn feet_of_meters(m: int) -> int {
    scale_trunc(m, 328084, 100000)
}

/// Miles-per-hour value of a speed in kilometers per hour: `kmh * 0.621371`.
pub open spec fn mph_of_kmh(kmh: int) -> int {
    scale_trunc(kmh, 621371, 1000000)
}

/// Inches-of-mercury value of a pressure in hectopascals: `hpa * 0.02953`.
pub open spec fn inhg_of_hpa(hpa: int) -> int {
    scale_trunc(hpa, 2953, 100000)
}

/// Temperature conversions.
pub struct Temperature;

impl Temperature {
    /// Converts a Celsius temperature to Fahrenheit.
    pub fn celsius_to_fahrenheit(celsius: i64) -> (r: i64)
        requires
            -FIXED_MAG_LIMIT <= celsius <= FIXED_MAG_LIMIT,
        ensures
            r == fahrenheit_of(celsius as int),
    {
        crate::fixed::mul_div(celsius, 9, 5) + 320000
    }
}

/// Distance conversions.
pub struct Distance;

impl Distance {
    /// Converts millimeters to inches.
    pub fn mm_to_inches(mm: i64) -> (r: i64)
        requires
            -FIXED_MAG_LIMIT <= mm <= FIXED_MAG_LIMIT,
        ensures
            r == inches_of_mm(mm as int),
    {
        crate::fixed::mul_div(mm, 393701, 10000000)
    }

    /// Converts meters to feet.
    pub fn meters_to_feet(meters: i64) -> (r: i64)
        requires
            -FIXED_MAG_LIMIT <= meters <= FIXED_MAG_LIMIT,
        ensures
            r == feet_of_meters(meters as int),
    {
        crate::fixed::mul_div(meters, 328084, 100000)
    }
}

/// Speed conversions.
pub struct Speed;

impl Speed {
    /// Converts kilometers per hour to miles per hour.
    pub fn kmh_to_mph(kmh: i64) -> (r: i64)
        requires
            -FIXED_MAG_LIMIT <= kmh <= FIXED_MAG_LIMIT,
        ensures
            r == mph_of_kmh(kmh as int),
    {
        crate::fixed::mul_div(kmh, 621371, 1000000)
    }
}

/// Pressure conversions.
pub struct Pressure;

impl Pressure {
    /// Converts hectopascals to inches of mercury.
    pub fn hpa_to_inhg(hpa: i64) -> (r: i64)
        requires
            -FIXED_MAG_LIMIT <= hpa <= FIXED_MAG_LIMIT,
        ensures
            r == inhg_of_hpa(hpa as int),
    {
        crate::fixed::mul_div(hpa, 2953, 100000)
    }
}

} // verus!
