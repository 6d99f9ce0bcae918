//! The core of a two-key USB keyboard: scanning the key matrix, mapping the
//! pressed keys to keycodes, and building the report that goes to the host.
//!
//! Nothing here touches hardware. The firmware around this library drives
//! the pins and the USB stack; it asks the [`cycle::Cycle`] what to do next
//! and tells it what came of it.

pub mod cycle;
pub mod matrix;
pub mod report;
