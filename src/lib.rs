//! Cooperative cancellation of a computation at shutdown.
//!
//! A [`WrapCancel`] owns a computation and a handle to a shutdown source and
//! settles, on each resumption, which of the two has finished first. The
//! resumption itself is a small state machine: the driver feeds it what the
//! two sources reported and performs the actions it hands back.
mod task;

pub mod laws;

pub use task::{steps, Action, Event, Progress, Stage, WrapCancel};
