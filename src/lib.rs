//! Time-measurement primitives: a stopwatch that counts up and records lap
//! splits, and a timer that counts down from a fixed duration.
//!
//! Every state change has a verified form that takes the current clock
//! reading as an argument (`start_at`, `stop_at`, ...). The methods without
//! the suffix read the clock and hand the reading to that form.

pub mod common;
pub mod render;
pub mod time;
pub mod stopwatch;
pub mod timer;
