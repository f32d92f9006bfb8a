//! What the library relies on of `std::time::Duration`, and the narrowing of a
//! millisecond count to the native field widths.
use std::time::Duration;
use vstd::prelude::*;

verus! {

/// The whole milliseconds that a duration spans.
pub uninterp spec fn duration_millis(d: Duration) -> u128;

/// Relies on `Duration::as_millis`: the whole milliseconds of the duration.
pub assume_specification[ core::time::Duration::as_millis ](d: &Duration) -> (r: u128)
    ensures
        r == duration_millis(*d),
;

/// Relies on `Duration::from_millis`: the new duration spans exactly `millis`
/// milliseconds.
pub assume_specification[ core::time::Duration::from_millis ](millis: u64) -> (r: Duration)
    ensures
        duration_millis(r) == millis as u128,
;

/// Relies on `Duration`'s derived `Clone`: `Duration` is `Copy`, so a clone is
/// the same value.
pub assume_specification[ <core::time::Duration as Clone>::clone ](d: &Duration) -> (r: Duration)
    ensures
        r == *d,
;

/// Relies on `num_traits::ToPrimitive::to_u32` for `u128`: the same value
/// when it fits in a `u32`, else `None`.
#[verifier::external_body]
fn u128_to_u32(v: u128) -> (r: Option<u32>)
    ensures
        r == if v <= u32::MAX as u128 {
            Some(v as u32)
        } else {
            None::<u32>
        },
{
    num_traits::ToPrimitive::to_u32(&v)
}

/// The milliseconds of `d` as a native unsigned 32-bit count, or `None` when
/// they do not fit in one.
pub fn millis_u32(d: &Duration) -> (r: Option<u32>)
    ensures
        r == if duration_millis(*d) <= u32::MAX as u128 {
            Some(duration_millis(*d) as u32)
        } else {
            None::<u32>
        },
{
    u128_to_u32(d.as_millis())
}

/// The milliseconds of `d` as a native signed 32-bit count, or `None` when
/// they do not fit in one.
pub fn millis_i32(d: &Duration) -> (r: Option<i32>)
    ensures
        r == if duration_millis(*d) <= i32::MAX as u128 {
            Some(duration_millis(*d) as i32)
        } else {
            None::<i32>
        },
{
    let ms = d.as_millis();
    if ms <= i32::MAX as u128 {
        Some(ms as i32)
    } else {
        None
    }
}

} // verus!
