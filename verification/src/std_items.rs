//! Trusted declarations for the few standard-library items that the library's
//! logic touches and that vstd leaves without a specification.
use std::time::Duration;
use vstd::prelude::*;

verus! {

/// The `Duration` that `Duration::from_secs` builds from a number of seconds.
pub uninterp spec fn duration_from_secs(secs: u64) -> Duration;

/// Calls `Duration::from_secs`. Trusted: the result is a function of the
/// argument alone, named `duration_from_secs`.
#[verifier::external_body]
pub(crate) fn secs(s: u64) -> (r: Duration)
    ensures
        r == duration_from_secs(s),
{
    Duration::from_secs(s)
}

/// `Clone::clone` on `Duration`. Trusted: `Duration` is `Copy`, and its clone is
/// the same value.
pub assume_specification[ <Duration as Clone>::clone ](d: &Duration) -> (r: Duration)
    ensures
        r == *d,
;

} // verus!
