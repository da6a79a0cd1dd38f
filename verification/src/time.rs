//! Durations, as far as the transport's milliseconds need them.
use vstd::prelude::*;
use std::time::Duration;

verus! {

/// The whole milliseconds of a duration.
pub uninterp spec fn duration_millis(d: Duration) -> u128;

/// The duration of a number of milliseconds.
pub uninterp spec fn millis_duration(millis: u64) -> Duration;

/// `Duration::as_millis`: the number of whole milliseconds that the duration
/// holds, which depends on the duration alone.
#[verifier::external_body]
pub(crate) fn duration_as_millis(d: &Duration) -> (millis: u128)
    ensures
        millis == duration_millis(*d),
{
    d.as_millis()
}

/// `Duration::from_millis`: the duration of that many milliseconds, which
/// depends on the number alone and holds that many whole milliseconds.
#[verifier::external_body]
pub(crate) fn duration_from_millis(millis: u64) -> (d: Duration)
    ensures
        d == millis_duration(millis),
        duration_millis(d) == millis,
{
    Duration::from_millis(millis)
}

} // verus!
