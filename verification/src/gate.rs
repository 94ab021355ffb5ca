//! The gating rule, on plain numbers.
//!
//! Time enters only as a count of nanoseconds since the last run, so the rule
//! can be read, tested and proved without a clock.

use vstd::prelude::*;

verus! {

/// Whether an operation is due: it is when it has never run, or when strictly
/// more than `delay` nanoseconds have passed since it last ran. A wait of
/// exactly `delay` is not enough.
pub open spec fn due(since_last_run: Option<nat>, delay: nat) -> bool {
    match since_last_run {
        None => true,
        Some(elapsed) => elapsed > delay,
    }
}

/// A measured wait, read as a mathematical number.
pub open spec fn wait_of(since_last_run: Option<u128>) -> Option<nat> {
    match since_last_run {
        None => None,
        Some(elapsed) => Some(elapsed as nat),
    }
}

/// Decides whether an operation is due, given the nanoseconds since it last
/// ran (`None` if it never did) and the delay in nanoseconds.
pub fn is_due(since_last_run: Option<u128>, delay: u128) -> (run: bool)
    ensures
        run == due(wait_of(since_last_run), delay as nat),
{
    match since_last_run {
        None => true,
        Some(elapsed) => elapsed > delay,
    }
}

} // verus!
