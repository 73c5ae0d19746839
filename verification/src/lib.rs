//! A cancellable terminal-animation engine that imitates the console output
//! of a system installer: corpus-driven log replay, spinners, progress bars,
//! and a sequencer that drives installation stages forever until the user
//! interrupts it.

pub mod build_logs;
pub mod clock;
pub mod corpus;
pub mod deno_logs;
pub mod installer;
pub mod kernel_logs;
pub mod log_generator;
pub mod numfmt;
pub mod rng;
pub mod session;
pub mod stages;
pub mod sysprobe;
pub mod term;
pub mod textops;
pub mod ui;
