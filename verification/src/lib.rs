//! The update pipeline behind an interactive control panel.
//!
//! An operator composes a pair of slider values and submits it; the pair
//! travels through a FIFO queue to a delivery loop that opens a fresh
//! connection for every pair, writes one frame and goes back to waiting.
//! Every piece here is a plain value or a total function on plain values, so
//! that a driver thread can perform the blocking work and report what
//! happened.

pub mod value;
pub mod wire;
pub mod queue;
pub mod delivery;
pub mod history;
pub mod pipeline;
