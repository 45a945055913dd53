//! Two-phase ("out" then "in") animation timing.
//!
//! Time is counted in whole milliseconds. An animation is a pair of segments,
//! each with its own duration; for any instant the engine reports which segment
//! is running and how far it has progressed, as an exact fraction.
pub mod session;
pub mod state;

pub use session::{animate, run_state, Frame};
pub use state::{AnimationState, Progress, RunState, Timing};
