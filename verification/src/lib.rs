//! Task coordination for a small device that drives an LCD panel and one
//! addressable RGB light from a single cooperative executor.
//!
//! The crate holds the decisions of the three tasks and the two resources
//! they share; the executor, the timers and the peripherals stay with the
//! firmware that links it.

pub mod channel;
pub mod clock_cell;
pub mod color;
pub mod display;
pub mod hue_source;
pub mod lamp;
pub mod pipeline;
pub mod wakeup;
