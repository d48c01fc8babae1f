//! Cooperative-runtime primitives with verified state transitions.
//!
//! The library models the heart of a small asynchronous runtime: bounded and
//! one-shot channels with sender/receiver wake bookkeeping, an async-style
//! mutex with a FIFO waiter queue, a self-healing worker pool, and a
//! single-threaded cooperative executor.  Every shared-state transition is an
//! explicit function over the state value, so the whole wake discipline is
//! stated in contracts and proved.  The operating-system side (real threads,
//! clocks, parking) lives with the embedding program, which drives these
//! transitions and performs the wakes they hand back.

pub mod atomic_counter;
pub mod channel;
pub mod decimal;
pub mod error;
pub mod executor;
pub mod futures;
pub mod inner;
pub mod mutex;
pub mod task;
pub mod threadpool;
