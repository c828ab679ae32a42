//! A verified model of a USB CDC-ACM serial-echo firmware core.
//!
//! The crate holds the decision logic of the firmware: line-state handling,
//! control-request interpretation, descriptor construction, the peripheral
//! driver's endpoint bookkeeping, and the cooperative tasks.  Hardware access
//! stays outside; every item here is a function from values to values.

pub mod bytes;
pub mod class;
pub mod descriptor;
pub mod driver;
pub mod endpoint;
pub mod error;
pub mod events;
pub mod firmware;
pub mod guarantees;
pub mod line_coding;
pub mod setup;
pub mod task;
