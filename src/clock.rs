use vstd::prelude::*;

verus! {

/// Relies on chrono::Utc::now and DateTime::timestamp: the current time in whole
/// seconds since the Unix epoch. Utc::now panics on a clock set before the epoch,
/// so a value that comes back is never negative.
#[verifier::external_body]
fn clock_seconds() -> (r: i64)
    ensures
        r >= 0,
{
    chrono::Utc::now().timestamp()
}

/// The current time in seconds since the Unix epoch.
pub fn now_timestamp() -> (r: u64)
    ensures
        r <= i64::MAX,
{
    clock_seconds() as u64
}

} // verus!
