//! What this crate takes on trust about `std::time`.
//!
//! An `Instant` and a `Duration` are carried as opaque values. All that the
//! gate needs from them is a length in nanoseconds, so two names stand for
//! what std computes, and the specifications below tie the std methods to
//! them. Nothing in this module is proved: it restates std's documentation.

use std::time::{Duration, Instant};
use vstd::prelude::*;

verus! {

/// `std::time::Instant`, a reading of the monotonic clock, carried through as
/// an opaque value.
#[verifier::external_type_specification]
#[verifier::external_body]
pub struct ExInstant(Instant);

/// The total number of nanoseconds in a duration: what `Duration::as_nanos`
/// returns.
pub uninterp spec fn duration_nanos(d: Duration) -> nat;

/// The time from `earlier` to `later`: what
/// `Instant::saturating_duration_since` returns, which is the zero duration
/// when `earlier` is in fact the later of the two.
pub uninterp spec fn instant_gap(later: Instant, earlier: Instant) -> Duration;

/// Nanoseconds from `earlier` to `later`, zero if `later` is not after
/// `earlier`.
pub open spec fn elapsed_nanos(later: Instant, earlier: Instant) -> nat {
    duration_nanos(instant_gap(later, earlier))
}

/// `Duration::as_nanos` returns the duration's total length in nanoseconds.
/// It is a pure function of the duration and never panics.
pub assume_specification[ Duration::as_nanos ](d: &Duration) -> (n: u128)
    ensures
        n == duration_nanos(*d),
;

/// `Instant::saturating_duration_since` returns the time elapsed from
/// `earlier` to `later`, or the zero duration if `earlier` is later. It is a
/// pure function of the two readings and never panics.
pub assume_specification[ Instant::saturating_duration_since ](
    later: &Instant,
    earlier: Instant,
) -> (d: Duration)
    ensures
        d == instant_gap(*later, earlier),
;

/// `Instant::now` reads the monotonic clock. Nothing is claimed of the
/// reading: callers are verified for every value it may have.
pub assume_specification[ Instant::now ]() -> Instant;

} // verus!
