//! Time as the caller measures it: instants are milliseconds on a monotonic
//! clock of the caller's choosing.

use vstd::prelude::*;

verus! {

/// The time from `since` to `now`, zero where `now` is the earlier of the two.
pub open spec fn elapsed(since: u64, now: u64) -> int {
    if now >= since {
        now - since
    } else {
        0
    }
}

/// The time from `since` to `now`, zero where `now` is the earlier of the two.
pub fn elapsed_ms(since: u64, now: u64) -> (r: u64)
    ensures
        r == elapsed(since, now),
{
    if now >= since {
        now - since
    } else {
        0
    }
}

} // verus!
