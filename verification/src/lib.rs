//! A debouncer: a gate that lets an operation run only when more than a
//! configured delay has passed since the operation last ran.
//!
//! * [`gate`] holds the gating rule itself, on plain nanosecond counts.
//! * [`clock`] states what is taken on trust about `std::time`.
//! * [`bouncer`] holds [`Bouncer`], the stateful gate, and its abstract state.
//! * [`laws`] proves what follows for sequences of calls.

pub mod bouncer;
pub mod clock;
pub mod gate;
pub mod laws;

pub use bouncer::{Bouncer, BouncerView};
