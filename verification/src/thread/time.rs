//! Durations used by the configuration types.

use vstd::prelude::*;
use std::time::Duration;

verus! {

/// What `Duration::from_secs` returns for a number of whole seconds.
pub uninterp spec fn duration_from_secs(secs: u64) -> Duration;

/// What `Duration::from_millis` returns for a number of milliseconds.
pub uninterp spec fn duration_from_millis(millis: u64) -> Duration;

/// Calls `std::time::Duration::from_secs`; the result is the duration named
/// `duration_from_secs(secs)` (the standard library builds it from its argument alone).
#[verifier::external_body]
pub(crate) fn secs(n: u64) -> (d: Duration)
    ensures
        d == duration_from_secs(n),
{
    Duration::from_secs(n)
}

/// Calls `std::time::Duration::from_millis`; the result is the duration named
/// `duration_from_millis(millis)`.
#[verifier::external_body]
pub(crate) fn millis(n: u64) -> (d: Duration)
    ensures
        d == duration_from_millis(n),
{
    Duration::from_millis(n)
}

} // verus!
