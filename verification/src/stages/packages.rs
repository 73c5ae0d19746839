//! The package installation narrative.

use crate::numfmt::u64_string;
use crate::rng::{chance, rand_range_u64};
use crate::session::{Interrupted, Session};
use crate::stages::emit_stage_header;
use crate::term::emit_line;
use crate::textops::concat3;
use crate::ui::progress::{ProgressBar, ProgressStyle};
use crate::ui::spinner::Spinner;
use vstd::prelude::*;
use vstd::string::StringExecFns;

verus! {

pub struct PackagesStage;

/// The package unpacked at position `pick`.
fn package_name(pick: usize) -> &'static str {
    if pick == 0 {
        "libc6"
    } else if pick == 1 {
        "openssl"
    } else if pick == 2 {
        "python3.8"
    } else if pick == 3 {
        "gcc-9-base"
    } else if pick == 4 {
        "perl-base"
    } else if pick == 5 {
        "systemd"
    } else if pick == 6 {
        "bash"
    } else {
        "coreutils"
    }
}

impl PackagesStage {
    /// The display label of this stage.
    pub fn name(&self) -> &'static str {
        "Package Installation"
    }

    /// Unpack eight narrated packages, each with a sized download bar and
    /// an optional setup line, abandoned the instant the cancellation
    /// signal is observed.
    pub fn run<C: Fn() -> bool, S: Fn(u64)>(&self, sess: &Session<C, S>) -> (r: Result<
        (),
        Interrupted,
    >)
        requires
            sess.wf(),
        ensures
            r is Ok ==> sess.may_continue(),
            r is Err ==> sess.may_cancel(),
    {
        emit_stage_header(self.name());
        let mut spinner = Spinner::new();
        spinner.animate("Reading package lists...", 1200, sess)?;
        spinner.animate("Building dependency tree...", 1500, sess)?;
        let mut i: usize = 0;
        while i < 8
            invariant
                sess.wf(),
                i <= 8,
            decreases 8 - i,
        {
            let pkg = package_name(i);
            let line = concat3("Unpacking ", pkg, "...");
            emit_line(line.as_str());
            let size_kb = rand_range_u64(512, 8192);
            let speed_kb = rand_range_u64(64, 512);
            let mb_whole = size_kb / 1024;
            let mb_tenths = (size_kb % 1024) * 10 / 1024;
            let mut label = "  (".to_owned();
            label.append(u64_string(mb_whole).as_str());
            label.append(".");
            label.append(u64_string(mb_tenths).as_str());
            label.append("MB @ ");
            label.append(u64_string(speed_kb).as_str());
            label.append("KB/s)");
            let bar = ProgressBar::new(ProgressStyle::Hash);
            bar.animate(label.as_str(), rand_range_u64(1000, 2500), sess)?;
            if chance(40) {
                let setup = concat3("Setting up ", pkg, "...");
                emit_line(setup.as_str());
                sess.pause(300)?;
            }
            i = i + 1;
        }
        emit_line("");
        emit_line("Processing triggers for shared libraries...");
        sess.pause(800)?;
        emit_line("ldconfig: /usr/lib/x86_64-linux-gnu/libcrypto.so.1.1");
        Ok(())
    }
}

} // verus!
