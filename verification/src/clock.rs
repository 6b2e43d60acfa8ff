//! Arithmetic on millisecond timestamps.
//!
//! A timestamp is a number of milliseconds on a monotonic clock whose origin the
//! caller picks, typically the start of the process.

use vstd::prelude::*;

verus! {

/// Milliseconds that have passed at `now` since `since`. A `since` that lies
/// after `now` counts as no time passed.
pub open spec fn elapsed_ms(since: nat, now: nat) -> nat {
    if now >= since {
        (now - since) as nat
    } else {
        0
    }
}

/// Computes the milliseconds passed at `now` since `since`, zero when `since`
/// lies in the future.
pub fn elapsed_since(since: u64, now: u64) -> (elapsed: u64)
    ensures
        elapsed == elapsed_ms(since as nat, now as nat),
{
    if now >= since {
        now - since
    } else {
        0
    }
}

/// The view of an optional timestamp.
pub open spec fn stamp_view(stamp: Option<u64>) -> Option<nat> {
    match stamp {
        Some(t) => Some(t as nat),
        None => None,
    }
}

} // verus!
