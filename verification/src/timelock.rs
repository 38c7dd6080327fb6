use vstd::prelude::*;

verus! {

/// The unlock boundary: value may be settled from `unlock_time` onwards.
pub open spec fn spec_is_unlocked(now: u64, unlock_time: u64) -> bool {
    now >= unlock_time
}

/// The timeout boundary: from `timeout_time` onwards the escrow is
/// recoverable by its depositor and can no longer be settled.
pub open spec fn spec_is_expired(now: u64, timeout_time: u64) -> bool {
    now >= timeout_time
}

/// Settlement is permitted only inside the half-open window
/// `[unlock_time, timeout_time)`.
pub open spec fn spec_in_settlement_window(now: u64, unlock_time: u64, timeout_time: u64) -> bool {
    spec_is_unlocked(now, unlock_time) && !spec_is_expired(now, timeout_time)
}

/// Converts the logical clock into the unlock decision.
pub fn is_unlocked(now: u64, unlock_time: u64) -> (r: bool)
    ensures
        r == spec_is_unlocked(now, unlock_time),
{
    now >= unlock_time
}

/// Converts the logical clock into the expiry decision.
pub fn is_expired(now: u64, timeout_time: u64) -> (r: bool)
    ensures
        r == spec_is_expired(now, timeout_time),
{
    now >= timeout_time
}

} // verus!
