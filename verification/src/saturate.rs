//! Conversion of rounded coordinates to the widths that the browser takes.
//!
//! Scaling is done in floating point by the host, which hands over the rounded
//! value as an `i64`. Every value outside the target's range ends at the
//! nearer end of that range.
use vstd::prelude::*;

verus! {

/// The value nearest to `value` between `low` and `high`.
pub open spec fn saturated(value: int, low: int, high: int) -> int {
    if value < low {
        low
    } else if value > high {
        high
    } else {
        value
    }
}

/// Converts to `i32`, ending at the range's ends.
pub fn saturate_i32(value: i64) -> (result: i32)
    ensures
        result == saturated(value as int, i32::MIN as int, i32::MAX as int),
{
    if value < i32::MIN as i64 {
        i32::MIN
    } else if value > i32::MAX as i64 {
        i32::MAX
    } else {
        value as i32
    }
}

/// Converts to `u32`, ending at the range's ends.
pub fn saturate_u32(value: i64) -> (result: u32)
    ensures
        result == saturated(value as int, 0, u32::MAX as int),
{
    if value < 0 {
        0
    } else if value > u32::MAX as i64 {
        u32::MAX
    } else {
        value as u32
    }
}

/// Converts a logical extent to `i32`; no extent is smaller than one.
pub fn saturate_extent(value: i64) -> (result: i32)
    ensures
        result == saturated(value as int, 1, i32::MAX as int),
{
    if value < 1 {
        1
    } else if value > i32::MAX as i64 {
        i32::MAX
    } else {
        value as i32
    }
}

/// No value of the range is nearer than the saturated one, which is itself in the
/// range.
pub proof fn law_saturated_is_nearest(value: int, low: int, high: int, other: int)
    requires
        low <= other <= high,
    ensures
        low <= saturated(value, low, high) <= high,
        value <= other ==> value <= saturated(value, low, high) <= other || saturated(
            value,
            low,
            high,
        ) == value,
        value >= other ==> value >= saturated(value, low, high) >= other || saturated(
            value,
            low,
            high,
        ) == value,
        low <= value <= high ==> saturated(value, low, high) == value,
        value < low ==> saturated(value, low, high) == low,
        value > high ==> saturated(value, low, high) == high,
{
}

} // verus!
