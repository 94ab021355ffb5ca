//! The bouncer: a gate with a delay, a memory of the last run, and
//! optionally an operation of its own.

use crate::clock::{duration_nanos, elapsed_nanos};
use crate::gate::{due, is_due};
use std::time::{Duration, Instant};
use vstd::prelude::*;

verus! {

/// A gate in front of an operation of type `F` that yields a `T`.
///
/// The bouncer lets the operation run when it has not run before, or when
/// strictly more than `delay` has passed since it last ran; otherwise the
/// call is suppressed. The operation is either handed over at each call
/// ([`Bouncer::debounce`]) or bound once ([`Bouncer::with_func`]) and run
/// through [`Bouncer::execute`], which keeps the last result it produced.
///
/// A bouncer is not synchronised: share one between threads only behind a
/// lock.
pub struct Bouncer<T, F> {
    /// The least time that must pass between two runs.
    pub delay: Duration,
    last_run: Option<Instant>,
    func: Option<F>,
    result: Option<T>,
}

/// The abstract state of a [`Bouncer`].
pub struct BouncerView<T, F> {
    /// The configured delay.
    pub delay: Duration,
    /// The clock reading of the last run; `None` while the bouncer is idle.
    pub last_run: Option<Instant>,
    /// The bound operation, if one was bound.
    pub bound: Option<F>,
    /// What the bound operation returned when it last ran.
    pub result: Option<T>,
}

impl<T, F> BouncerView<T, F> {
    /// The state of a new bouncer: idle, nothing bound, no result.
    pub open spec fn fresh(delay: Duration) -> Self {
        BouncerView { delay, last_run: None, bound: None, result: None }
    }

    /// The state with `op` as its bound operation.
    pub open spec fn bind(self, op: F) -> Self {
        BouncerView { bound: Some(op), ..self }
    }

    /// Nanoseconds from the last run to `now`; `None` while idle.
    pub open spec fn since_last_run(self, now: Instant) -> Option<nat> {
        match self.last_run {
            None => None,
            Some(then) => Some(elapsed_nanos(now, then)),
        }
    }

    /// Whether a call made at `now` runs its operation.
    pub open spec fn due_at(self, now: Instant) -> bool {
        due(self.since_last_run(now), duration_nanos(self.delay))
    }

    /// The state after a call made at `now`: a call that runs records `now`,
    /// a suppressed call changes nothing.
    pub open spec fn after_call(self, now: Instant) -> Self {
        if self.due_at(now) {
            BouncerView { last_run: Some(now), ..self }
        } else {
            self
        }
    }

    /// The state with its history forgotten.
    pub open spec fn idle(self) -> Self {
        BouncerView { last_run: None, ..self }
    }

    /// Whether the bound operation, if there is one, may be called.
    pub open spec fn runnable(self) -> bool
        where F: Fn() -> T,
    {
        match self.bound {
            None => true,
            Some(op) => op.requires(()),
        }
    }

    /// What a call of `debounce` with `func`, made at `now` in state `self`,
    /// may leave behind (`post`) and return (`out`).
    pub open spec fn debounced(self, now: Instant, func: F, post: Self, out: Option<T>) -> bool
        where F: Fn() -> T,
    {
        &&& post == self.after_call(now)
        &&& match out {
            Some(value) => self.due_at(now) && func.ensures((), value),
            None => !self.due_at(now),
        }
    }

    /// What a call of `execute`, made at `now` in state `self`, may leave
    /// behind. Without a bound operation nothing happens. With one, a call
    /// that is due runs it and keeps what it returned; a suppressed call
    /// leaves the earlier result in place.
    pub open spec fn executed(self, now: Instant, post: Self) -> bool
        where F: Fn() -> T,
    {
        match self.bound {
            None => post == self,
            Some(op) => {
                if self.due_at(now) {
                    &&& post.result matches Some(value) && op.ensures((), value)
                    &&& post == (BouncerView { result: post.result, ..self.after_call(now) })
                } else {
                    post == self
                }
            },
        }
    }
}

impl<T, F> View for Bouncer<T, F> {
    type V = BouncerView<T, F>;

    closed spec fn view(&self) -> BouncerView<T, F> {
        BouncerView {
            delay: self.delay,
            last_run: self.last_run,
            bound: self.func,
            result: self.result,
        }
    }
}

impl<T, F: Fn() -> T> Bouncer<T, F> {
    /// Creates an idle bouncer with the given delay and no bound operation.
    /// A delay of zero lets every call run that comes after the clock has
    /// moved.
    pub fn new(delay: Duration) -> (bouncer: Self)
        ensures
            bouncer@ == BouncerView::<T, F>::fresh(delay),
    {
        Bouncer { delay, last_run: None, func: None, result: None }
    }

    /// Binds `func` as the operation that [`Bouncer::execute`] runs,
    /// replacing any operation bound before.
    pub fn with_func(self, func: F) -> (bouncer: Self)
        ensures
            bouncer@ == self@.bind(func),
    {
        let mut bouncer = self;
        bouncer.func = Some(func);
        bouncer
    }

    /// Runs the bound operation if it is due at the current clock reading,
    /// and keeps its result. Does nothing if no operation is bound.
    ///
    /// The clock decides, so the contract says that the outcome is that of
    /// [`Bouncer::execute_at`] for some reading; an idle bouncer runs its
    /// bound operation whatever the clock says.
    pub fn execute(&mut self)
        requires
            old(self)@.runnable(),
        ensures
            match old(self)@.bound {
                None => final(self)@ == old(self)@,
                Some(_) => exists|now: Instant| old(self)@.executed(now, final(self)@),
            },
            old(self)@.bound is Some && old(self)@.last_run is None ==> final(self)@.result is Some,
    {
        if self.func.is_some() {
            let now = Instant::now();
            self.execute_at(now);
        }
    }

    /// Runs the bound operation if it is due at `now`: records `now` as the
    /// last run and keeps what the operation returned. A suppressed call
    /// leaves the state, the earlier result included, as it was. Does nothing
    /// if no operation is bound.
    pub fn execute_at(&mut self, now: Instant)
        requires
            old(self)@.due_at(now) ==> old(self)@.runnable(),
        ensures
            old(self)@.executed(now, final(self)@),
    {
        if self.func.is_some() && self.pass_at(now) {
            let op = self.func.as_ref().unwrap();
            self.result = Some(op());
        }
    }

    /// Lends the result that the bound operation last produced, or `None` if
    /// it has not run yet. What the caller writes through the reference
    /// becomes the stored result.
    pub fn get_result(&mut self) -> (result: Option<&mut T>)
        ensures
            match old(self)@.result {
                None => result is None && final(self)@ == old(self)@,
                Some(value) => {
                    &&& result is Some
                    &&& *result.unwrap() == value
                    &&& final(self)@ == (BouncerView {
                        result: Some(*final(result.unwrap())),
                        ..old(self)@
                    })
                },
            },
    {
        self.result.as_mut()
    }

    /// Runs `func` if it is due at the current clock reading and returns its
    /// result; returns `None`, without calling `func`, if it is not.
    ///
    /// The clock is read once, and that reading both decides and is recorded.
    /// The clock decides, so the contract says that the outcome is that of
    /// [`Bouncer::debounce_at`] for some reading; an idle bouncer runs `func`
    /// whatever the clock says.
    pub fn debounce(&mut self, func: F) -> (out: Option<T>)
        requires
            func.requires(()),
        ensures
            exists|now: Instant| old(self)@.debounced(now, func, final(self)@, out),
            old(self)@.last_run is None ==> out is Some,
    {
        let now = Instant::now();
        self.debounce_at(now, func)
    }

    /// Runs `func` if it is due at `now`: records `now` as the last run and
    /// returns what `func` returned. Otherwise returns `None` and leaves the
    /// state as it was; `func` is then not called.
    pub fn debounce_at(&mut self, now: Instant, func: F) -> (out: Option<T>)
        requires
            old(self)@.due_at(now) ==> func.requires(()),
        ensures
            old(self)@.debounced(now, func, final(self)@, out),
    {
        if self.pass_at(now) {
            Some(func())
        } else {
            None
        }
    }

    /// Forgets the last run, so that the next call runs whatever the clock
    /// says. The delay, the bound operation and the stored result stay.
    pub fn reset(&mut self)
        ensures
            final(self)@ == old(self)@.idle(),
    {
        self.last_run = None;
    }

    /// Decides whether a call made at `now` runs, and records `now` if it
    /// does.
    fn pass_at(&mut self, now: Instant) -> (run: bool)
        ensures
            run == old(self)@.due_at(now),
            final(self)@ == old(self)@.after_call(now),
    {
        let since_last_run = match self.last_run {
            None => None,
            Some(then) => Some(now.saturating_duration_since(then).as_nanos()),
        };
        let run = is_due(since_last_run, self.delay.as_nanos());
        if run {
            self.last_run = Some(now);
        }
        run
    }
}

} // verus!
