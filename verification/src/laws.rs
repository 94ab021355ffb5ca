//! What follows from the contracts for sequences of calls.
//!
//! Each law is stated over [`BouncerView`], the abstract state in which the
//! contracts of [`crate::Bouncer`] are written: a call of `debounce` is a
//! triple of states and result related by `debounced`, a call of `execute`
//! a pair of states related by `executed`, `new` gives `fresh`, `with_func`
//! gives `bind`, and `reset` gives `idle`.

use crate::bouncer::BouncerView;
use crate::clock::{duration_nanos, elapsed_nanos};
use crate::gate::due;
use std::time::{Duration, Instant};
use vstd::prelude::*;

verus! {

/// A wait of exactly the delay is not enough, and one nanosecond more is.
pub proof fn boundary_is_strict(delay: nat)
    ensures
        !due(Some(delay), delay),
        due(Some(delay + 1), delay),
{
}

/// The first call on a new bouncer runs its operation and returns what the
/// operation returned, whatever the delay and the clock reading.
pub proof fn first_call_runs<T, F: Fn() -> T>(
    delay: Duration,
    now: Instant,
    func: F,
    post: BouncerView<T, F>,
    out: Option<T>,
)
    requires
        BouncerView::<T, F>::fresh(delay).debounced(now, func, post, out),
    ensures
        out matches Some(value) && func.ensures((), value),
        post.last_run == Some(now),
{
}

/// After a call that ran, a second call whose clock reading is no more than
/// the delay after the first is suppressed and changes nothing.
pub proof fn repeat_within_delay_is_suppressed<T, F: Fn() -> T>(
    pre: BouncerView<T, F>,
    first: Instant,
    func: F,
    mid: BouncerView<T, F>,
    ran: Option<T>,
    second: Instant,
    again: F,
    post: BouncerView<T, F>,
    out: Option<T>,
)
    requires
        pre.debounced(first, func, mid, ran),
        ran is Some,
        elapsed_nanos(second, first) <= duration_nanos(pre.delay),
        mid.debounced(second, again, post, out),
    ensures
        out is None,
        post == mid,
{
}

/// After a call that ran, a second call whose clock reading is more than the
/// delay after the first runs its operation, returns what the operation
/// returned, and records the second reading.
pub proof fn call_after_delay_runs<T, F: Fn() -> T>(
    pre: BouncerView<T, F>,
    first: Instant,
    func: F,
    mid: BouncerView<T, F>,
    ran: Option<T>,
    second: Instant,
    again: F,
    post: BouncerView<T, F>,
    out: Option<T>,
)
    requires
        pre.debounced(first, func, mid, ran),
        ran is Some,
        elapsed_nanos(second, first) > duration_nanos(pre.delay),
        mid.debounced(second, again, post, out),
    ensures
        out matches Some(value) && again.ensures((), value),
        post.last_run == Some(second),
{
}

/// A suppressed call does not restart the wait: the next call is judged
/// against the same last run as the suppressed one was.
pub proof fn suppressed_call_keeps_last_run<T, F: Fn() -> T>(
    pre: BouncerView<T, F>,
    now: Instant,
    func: F,
    post: BouncerView<T, F>,
    out: Option<T>,
    next: Instant,
)
    requires
        pre.debounced(now, func, post, out),
        out is None,
    ensures
        post.due_at(next) == pre.due_at(next),
{
}

/// In whatever state a bouncer is, the call that follows a reset runs its
/// operation and returns what the operation returned, whatever the clock
/// reading.
pub proof fn call_after_reset_runs<T, F: Fn() -> T>(
    state: BouncerView<T, F>,
    now: Instant,
    func: F,
    post: BouncerView<T, F>,
    out: Option<T>,
)
    requires
        state.idle().debounced(now, func, post, out),
    ensures
        out matches Some(value) && func.ensures((), value),
        post.last_run == Some(now),
{
}

/// A reset touches the last run only.
pub proof fn reset_keeps_the_rest<T, F>(state: BouncerView<T, F>)
    ensures
        state.idle().delay == state.delay,
        state.idle().bound == state.bound,
        state.idle().result == state.result,
        state.idle().idle() == state.idle(),
{
}

/// A bouncer to which an operation has just been bound has no result yet.
pub proof fn no_result_before_first_execute<T, F>(delay: Duration, op: F)
    ensures
        BouncerView::<T, F>::fresh(delay).bind(op).result is None,
{
}

/// Running a bound operation through `execute` and handing the same
/// operation to `debounce` come to the same, from the same state and at the
/// same clock reading: both run it or neither does, and both leave the same
/// last run. Where `debounce` returns a value, the stored result is a value
/// that the operation returns too, and the same value if the operation can
/// return only one; where `debounce` returns nothing, the stored result is
/// what it was.
pub proof fn execute_matches_debounce<T, F: Fn() -> T>(
    state: BouncerView<T, F>,
    op: F,
    now: Instant,
    debounced: BouncerView<T, F>,
    out: Option<T>,
    executed: BouncerView<T, F>,
)
    requires
        state.debounced(now, op, debounced, out),
        state.bind(op).executed(now, executed),
    ensures
        executed.last_run == debounced.last_run,
        executed.delay == debounced.delay,
        executed.bound == Some(op),
        out is Some ==> (executed.result matches Some(value) && op.ensures((), value)),
        out is Some && (forall|a: T, b: T| op.ensures((), a) && op.ensures((), b) ==> a == b)
            ==> executed.result == out,
        out is None ==> executed.result == state.result,
{
}

/// The stored result appears only by a run of the bound operation: if there
/// is one after `execute` and there was none before, the call was due and the
/// result is a value that the operation returns.
pub proof fn result_comes_from_a_run<T, F: Fn() -> T>(
    state: BouncerView<T, F>,
    now: Instant,
    post: BouncerView<T, F>,
)
    requires
        state.executed(now, post),
        state.result is None,
        post.result is Some,
    ensures
        state.due_at(now),
        state.bound matches Some(op) && op.ensures((), post.result.unwrap()),
{
}

/// A bouncer that has run before runs again only at a reading that lies
/// strictly after the last run: the recorded readings never go back.
pub proof fn rerun_is_later<T, F>(state: BouncerView<T, F>, then: Instant, now: Instant)
    requires
        state.last_run == Some(then),
        state.due_at(now),
    ensures
        elapsed_nanos(now, then) > 0,
        state.after_call(now).last_run == Some(now),
{
}

/// The decision rests on the delay and the last run alone.
pub proof fn decision_ignores_binding_and_result<T, F>(
    a: BouncerView<T, F>,
    b: BouncerView<T, F>,
    now: Instant,
)
    requires
        a.delay == b.delay,
        a.last_run == b.last_run,
    ensures
        a.due_at(now) == b.due_at(now),
{
}

} // verus!
