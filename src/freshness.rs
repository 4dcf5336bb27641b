//! Whether a checkout's latest commit is recent enough.
use vstd::prelude::*;

verus! {

/// A checkout whose latest commit is older than this, in seconds, is stale
/// (ninety days).
pub const STALE_AFTER_SECS: i64 = 7_776_000;

/// A commit made at `timestamp` is fresh at time `now` (both in seconds since
/// the epoch) when it is later than `now` less the staleness threshold.
pub open spec fn is_fresh_spec(timestamp: i64, now: i64) -> bool {
    timestamp as int > now as int - STALE_AFTER_SECS as int
}

/// Whether a commit made at `timestamp` is still fresh at time `now`.
pub fn is_fresh(timestamp: i64, now: i64) -> (r: bool)
    ensures
        r == is_fresh_spec(timestamp, now),
{
    let threshold: i128 = now as i128 - STALE_AFTER_SECS as i128;
    timestamp as i128 > threshold
}

} // verus!
