//! Staff-idleness monitor: roster tracking, paced idle-time queries, and an
//! overdue-detection state machine with one-shot escalation.

pub mod monitor;
pub mod numerals;
pub mod overdue;
pub mod text;

use vstd::prelude::*;

verus! {

/// Seconds elapsed from `start` to `now`, treating a clock that moved
/// backwards as zero elapsed time.
pub open spec fn elapsed_secs(now: u64, start: u64) -> u64 {
    if now >= start {
        (now - start) as u64
    } else {
        0u64
    }
}

/// Executable counterpart of [`elapsed_secs`].
pub fn elapsed_since(now: u64, start: u64) -> (r: u64)
    ensures
        r == elapsed_secs(now, start),
{
    if now >= start {
        now - start
    } else {
        0
    }
}

} // verus!
