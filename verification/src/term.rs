//! Terminal output primitives.
//!
//! Everything the engine shows goes through these routines: an in-place
//! write (no newline, for animated redraws), a settled line, and an explicit
//! flush so a partial update is visible before the following sleep.

use std::io::Write;
use vstd::prelude::*;

verus! {

/// Relies on std::io::Stdout::write_fmt (through `write!`): writes the text
/// to standard output without a trailing newline.
#[verifier::external_body]
pub(crate) fn emit(s: &str) {
    let _ = write!(std::io::stdout(), "{}", s);
}

/// Relies on std::io::Stdout::write_fmt (through `writeln!`): writes the text
/// to standard output followed by a newline.
#[verifier::external_body]
pub(crate) fn emit_line(s: &str) {
    let _ = writeln!(std::io::stdout(), "{}", s);
}

/// Relies on std::io::Write::flush: makes buffered output visible on the
/// terminal.
#[verifier::external_body]
pub(crate) fn flush_out() {
    let _ = std::io::stdout().flush();
}

/// The engine recognizes exactly one interrupt chord, Ctrl+C, and ignores
/// every other key.
pub fn is_interrupt_chord(ctrl: bool, key: char) -> (r: bool)
    ensures
        r == (ctrl && key == 'c'),
{
    ctrl && key == 'c'
}

} // verus!
