//! A drill for recognising musical scales.
//!
//! A trial shows the image of one scale, reveals its tablature after a first
//! span of seconds and ends after a second one; then another scale is drawn at
//! random. The crate holds the catalog of scales, the state of a trial with
//! its one-second transitions, and the progress of its two phases as exact
//! fractions. Rendering and the timer that drives the ticks live with the
//! caller.

pub mod catalog;
mod chance;
pub mod model;
pub mod progress;
pub mod trial;

pub use catalog::{IndexOutOfRange, Scale, CATALOG_SIZE};
pub use model::TickOutcome;
pub use progress::Progress;
pub use trial::TrialState;
