//! Time-aware operations on futures and streams, as state machines that do no
//! waiting of their own.
//!
//! An asynchronous combinator alternates between polling what it wraps and
//! deciding what to do with the answer. This crate holds the deciding half. Each
//! combinator is a small state machine: a poll starts with `begin`, which says
//! what to poll first; the driver polls that and reports with `on_source` or
//! `on_signal`; and so on until a step is `Done` and carries what the poll
//! returns. The machine never touches a future, a stream or a clock itself, so
//! what it does is a function of what it is told, and is stated as such.
//!
//! Time comes in through [`task::Timer`], a deadline on a clock whose readings
//! the driver supplies. With it each combinator also offers `poll_at`, a whole
//! poll at a given clock reading, and the laws that hold of runs of such polls:
//! a burst leaves a debounced stream as its last item, a throttled stream lets
//! one item through for each window, a buffered stream keeps every item, a
//! timeout never fires early, and the ticks of an interval take their time.

pub mod channel;
pub mod future;
pub mod poll;
pub mod stream;
pub mod task;
pub mod time;
