//! The installation stages: one self-contained narrated sequence per
//! simulated phase, each built from printed lines, cancellable waits and
//! the two animation primitives.

use crate::term::{emit, emit_line, flush_out};
use crate::textops::concat2;
use vstd::prelude::*;

pub mod bios;
pub mod bootloader;
pub mod compilation;
pub mod database;
pub mod filesystem;
pub mod initramfs;
pub mod kernel;
pub mod locale;
pub mod network;
pub mod packages;
pub mod services;

verus! {

/// Print the labeled section header every stage opens with.
pub(crate) fn emit_stage_header(name: &str) {
    emit("\n");
    let line = concat2("> ", name);
    emit_line(line.as_str());
    emit_line("");
    flush_out();
}

} // verus!
