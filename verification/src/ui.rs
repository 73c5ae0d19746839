//! The cancellable, duration-driven animation primitives.

pub mod progress;
pub mod spinner;
