//! Points in time and the time between them.
use vstd::prelude::*;

verus! {

/// Nanoseconds from `since` to `now`; none when `now` lies before `since`.
pub open spec fn elapsed_between(since: u64, now: u64) -> int {
    if since <= now {
        now - since
    } else {
        0
    }
}

/// Measures how long ago `since` was, on a clock that reads `now`.
///
/// Both are nanoseconds on one monotonic clock.
pub fn elapsed(since: u64, now: u64) -> (nanos: u64)
    ensures
        nanos == elapsed_between(since, now),
{
    if since <= now {
        now - since
    } else {
        0
    }
}

/// The time that has passed leads from then to now, and is more than a limit
/// if and only if now lies past then by more than it.
pub proof fn law_elapsed(since: u64, now: u64, limit: nat)
    ensures
        since <= now ==> since + elapsed_between(since, now) == now,
        now <= since ==> elapsed_between(since, now) == 0,
        elapsed_between(since, now) > limit <==> now > since + limit,
{
}

} // verus!
