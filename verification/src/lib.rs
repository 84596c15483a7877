//! Window description, state reconciliation and start-up decisions of a
//! desktop GUI toolkit.
//!
//! The crate holds the parts of window handling that are pure decisions:
//! what a window is asked to look like, which platform calls bring a live
//! window in line with a newly requested state, in which order rendering
//! contexts and renderer backends are tried when a window is opened, and how
//! the root variables of the layout solver are registered. Performing the
//! platform calls is left to the caller.

pub mod creation;
pub mod error;
pub mod options;
pub mod reconcile;
pub mod scalar;
pub mod solver;
pub mod window;
pub mod window_state;
