//! Wrappers around the process-wide random number generator.
//!
//! The engine's tick rule consumes one direction bit per bounded scalar
//! and one uniform unit-interval sample; everything downstream is
//! verified for every value these can return.

use vstd::prelude::*;

use crate::fixed::UNIT;

verus! {

/// Relies on `rand::random::<bool>()`: a random direction bit from the
/// thread-local generator. Nothing is promised of its value.
#[verifier::external_body]
pub(crate) fn random_direction() -> bool {
    rand::random::<bool>()
}

/// Relies on `rand::random_range`: a random sample from the half-open
/// range `0..UNIT`, so the result is always below one unit. The range is
/// non-empty, so the call cannot panic.
#[verifier::external_body]
pub(crate) fn random_unit_sample() -> (r: u64)
    ensures
        r < UNIT,
{
    rand::random_range(0u64..UNIT)
}

} // verus!
