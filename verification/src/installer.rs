//! The sequencer: an ordered list of stages driven in an endless cycle of
//! narrated runs and cosmetic interjections, responsive to one cancellation
//! signal.  The only way out of the loop is that signal.

use crate::numfmt::u64_string;
use crate::rng::{chance, rand_index, rand_range_u64};
use crate::session::{Interrupted, Session};
use crate::stages::bios::BiosStage;
use crate::stages::bootloader::BootloaderStage;
use crate::stages::compilation::CompilationStage;
use crate::stages::database::DatabaseStage;
use crate::stages::filesystem::FilesystemStage;
use crate::stages::initramfs::InitramfsStage;
use crate::stages::kernel::KernelStage;
use crate::stages::locale::LocaleStage;
use crate::stages::network::NetworkStage;
use crate::stages::packages::PackagesStage;
use crate::stages::services::ServicesStage;
use crate::term::{emit_line, flush_out};
use crate::ui::spinner::Spinner;
use vstd::prelude::*;
use vstd::string::StringExecFns;

verus! {

/// The closed set of stage variants the sequencer can drive.  Each variant
/// owns its stage instance, and with it any corpus that stage loaded.
pub enum Stage {
    Bios(BiosStage),
    Bootloader(BootloaderStage),
    Compilation(CompilationStage),
    Database(DatabaseStage),
    Filesystem(FilesystemStage),
    Initramfs(InitramfsStage),
    Kernel(KernelStage),
    Locale(LocaleStage),
    Network(NetworkStage),
    Packages(PackagesStage),
    Services(ServicesStage),
}

impl Stage {
    /// The display label of the stage.
    pub fn name(&self) -> &'static str {
        match self {
            Stage::Bios(s) => s.name(),
            Stage::Bootloader(s) => s.name(),
            Stage::Compilation(s) => s.name(),
            Stage::Database(s) => s.name(),
            Stage::Filesystem(s) => s.name(),
            Stage::Initramfs(s) => s.name(),
            Stage::Kernel(s) => s.name(),
            Stage::Locale(s) => s.name(),
            Stage::Network(s) => s.name(),
            Stage::Packages(s) => s.name(),
            Stage::Services(s) => s.name(),
        }
    }

    /// Run the stage's narrated sequence, propagating an observed
    /// cancellation the instant it appears.  On success the signal was seen
    /// clear, except by a compilation stage whose corpus is empty - the one
    /// stage that can finish without a single timed step.
    pub fn run<C: Fn() -> bool, S: Fn(u64)>(&self, sess: &Session<C, S>) -> (r: Result<
        (),
        Interrupted,
    >)
        requires
            sess.wf(),
        ensures
            r is Err ==> sess.may_cancel(),
            r is Ok && !(self matches Stage::Compilation(s) && s.build_logs.logs@.len() == 0)
                ==> sess.may_continue(),
    {
        match self {
            Stage::Bios(s) => s.run(sess),
            Stage::Bootloader(s) => s.run(sess),
            Stage::Compilation(s) => s.run(sess),
            Stage::Database(s) => s.run(sess),
            Stage::Filesystem(s) => s.run(sess),
            Stage::Initramfs(s) => s.run(sess),
            Stage::Kernel(s) => s.run(sess),
            Stage::Locale(s) => s.run(sess),
            Stage::Network(s) => s.run(sess),
            Stage::Packages(s) => s.run(sess),
            Stage::Services(s) => s.run(sess),
        }
    }

    /// One instance of every stage variant, in installation order, each
    /// with its built-in corpus.
    pub fn all() -> (r: Vec<Stage>)
        ensures
            r@.len() == 11,
    {
        let mut v: Vec<Stage> = Vec::new();
        v.push(Stage::Bios(BiosStage));
        v.push(Stage::Bootloader(BootloaderStage));
        v.push(Stage::Filesystem(FilesystemStage));
        v.push(Stage::Kernel(KernelStage::default()));
        v.push(Stage::Compilation(CompilationStage::default()));
        v.push(Stage::Initramfs(InitramfsStage));
        v.push(Stage::Locale(LocaleStage));
        v.push(Stage::Network(NetworkStage));
        v.push(Stage::Packages(PackagesStage));
        v.push(Stage::Services(ServicesStage));
        v.push(Stage::Database(DatabaseStage));
        v
    }
}

/// The sequencer: the ordered stage list and nothing else.  The cycle
/// counter lives in `run`, and the cancellation signal is the caller's.
pub struct Installer {
    pub stages: Vec<Stage>,
}

impl Installer {
    pub fn new(stages: Vec<Stage>) -> (r: Self)
        ensures
            r.stages == stages,
    {
        Installer { stages }
    }

    /// The fixed startup banner; not cancellable - a fixed startup cost.
    fn print_header<C: Fn() -> bool, S: Fn(u64)>(&self, sess: &Session<C, S>)
        requires
            sess.wf(),
    {
        emit_line("=================================================================");
        emit_line("         UNIVERSAL SYSTEM INSTALLER v3.2.1 (Build 1999)");
        emit_line("=================================================================");
        emit_line("");
        emit_line("*** THIS IS A SIMULATION - NO ACTUAL INSTALLATION OCCURRING ***");
        emit_line("Press Ctrl+C to exit at any time");
        emit_line("");
        flush_out();
        sess.wait_ms(1500);
    }

    /// With a fixed chance, show an easter-egg flourish on its own
    /// spinner, so it is itself cancellable.
    fn show_easter_egg<C: Fn() -> bool, S: Fn(u64)>(&self, sess: &Session<C, S>) -> (r: Result<
        (),
        Interrupted,
    >)
        requires
            sess.wf(),
        ensures
            r is Err ==> sess.may_cancel(),
    {
        if chance(15) {
            emit_line("");
            let egg = easter_egg(rand_index(5));
            let mut spinner = Spinner::new();
            spinner.animate(egg, 1500, sess)?;
            emit_line("");
        }
        Ok(())
    }

    /// With a fixed chance, show a cosmetic warning; it never changes
    /// control flow beyond its pauses.
    fn show_warning<C: Fn() -> bool, S: Fn(u64)>(&self, sess: &Session<C, S>) -> (r: Result<
        (),
        Interrupted,
    >)
        requires
            sess.wf(),
        ensures
            r is Err ==> sess.may_cancel(),
    {
        if chance(20) {
            emit_line("");
            emit_line(warning_text(rand_index(5)));
            sess.pause(1000)?;
            emit_line("Continuing anyway...");
            emit_line("");
        }
        Ok(())
    }

    /// With a fixed chance, show a retry notice with its own spinner, so it
    /// is itself cancellable.
    fn show_retry<C: Fn() -> bool, S: Fn(u64)>(&self, sess: &Session<C, S>) -> (r: Result<
        (),
        Interrupted,
    >)
        requires
            sess.wf(),
        ensures
            r is Err ==> sess.may_cancel(),
    {
        if chance(10) {
            emit_line("");
            emit_line(retry_text(rand_index(5)));
            sess.pause(800)?;
            let mut spinner = Spinner::new();
            spinner.animate("Reconnecting to mirror.oldsoft.org", 1200, sess)?;
            emit_line("");
        }
        Ok(())
    }

    /// Drive the stage list cycle after cycle: a one-time banner, then
    /// stages interleaved with random interjections, with the cancellation
    /// signal polled at the top of every cycle and before every stage.
    /// There is no natural end: the call returns `Interrupted` once the
    /// signal is observed, and the only other exit - returning success
    /// after the cycle counter is exhausted - is unreachable on any human
    /// timescale.  So success is returned only if the signal was at some
    /// point seen clear, and `Interrupted` only if it was seen set.
    pub fn run<C: Fn() -> bool, S: Fn(u64)>(&self, sess: &Session<C, S>) -> (r: Result<
        (),
        Interrupted,
    >)
        requires
            sess.wf(),
        ensures
            r is Err ==> sess.may_cancel(),
            r is Ok ==> sess.may_continue(),
    {
        self.print_header(sess);

        emit_line("Initializing installation environment...");
        sess.wait_ms(1000);
        let mut spinner = Spinner::new();
        spinner.animate("Detecting hardware configuration...", 1500, sess)?;
        emit_line("");

        let mut cycle: u64 = 1;
        while cycle < u64::MAX
            invariant
                sess.wf(),
                sess.may_continue(),
                1 <= cycle,
            decreases u64::MAX - cycle,
        {
            if sess.cancelled() {
                return Err(Interrupted);
            }

            if cycle > 1 {
                emit_line("");
                emit_line("===============================================================");
                let mut banner = "Beginning installation cycle #".to_owned();
                banner.append(u64_string(cycle).as_str());
                banner.append("...");
                emit_line(banner.as_str());
                emit_line("===============================================================");
                sess.wait_ms(1000);
            }

            let n = self.stages.len();
            let mut i: usize = 0;
            while i < n
                invariant
                    sess.wf(),
                    n == self.stages@.len(),
                    i <= n,
                decreases n - i,
            {
                if sess.cancelled() {
                    return Err(Interrupted);
                }
                self.show_easter_egg(sess)?;
                self.show_warning(sess)?;
                self.show_retry(sess)?;
                self.stages[i].run(sess)?;
                sess.wait_ms(rand_range_u64(300, 800));
                i = i + 1;
            }

            emit_line("");
            emit_line("Installation complete! Restarting installation process...");
            sess.wait_ms(2000);
            cycle = cycle + 1;
        }
        Ok(())
    }
}

/// The law the sequencer obeys: a cancellation signal that can never report
/// "keep going" - one that is set from the first poll on - leaves `run` no
/// exit but `Interrupted`, whatever the stage list holds.  The hypotheses
/// are exactly `run`'s postcondition.
pub proof fn lemma_run_only_exit_is_interrupt<C: Fn() -> bool, S: Fn(u64)>(
    sess: Session<C, S>,
    r: Result<(), Interrupted>,
)
    requires
        !sess.may_continue(),
        r is Err ==> sess.may_cancel(),
        r is Ok ==> sess.may_continue(),
    ensures
        r is Err,
        sess.may_cancel(),
{
}

impl Default for Installer {
    fn default() -> (r: Self)
        ensures
            r.stages@.len() == 11,
    {
        Installer { stages: Stage::all() }
    }
}

/// The easter-egg flourish at position `pick`.
fn easter_egg(pick: usize) -> &'static str {
    if pick == 0 {
        "Consulting the magic smoke..."
    } else if pick == 1 {
        "Reticulating splines..."
    } else if pick == 2 {
        "Warming up the flux capacitor..."
    } else if pick == 3 {
        "Asking the rubber duck for advice..."
    } else {
        "Counting backwards from infinity..."
    }
}

/// The cosmetic warning at position `pick`.
fn warning_text(pick: usize) -> &'static str {
    if pick == 0 {
        "WARNING: Low memory detected on legacy controller"
    } else if pick == 1 {
        "WARNING: Unsupported hardware revision detected"
    } else if pick == 2 {
        "WARNING: Deprecated configuration format found"
    } else if pick == 3 {
        "WARNING: Checksum mismatch in optional package cache"
    } else {
        "WARNING: Clock skew detected between subsystems"
    }
}

/// The retry notice at position `pick`.
fn retry_text(pick: usize) -> &'static str {
    if pick == 0 {
        "Connection to mirror timed out, retrying..."
    } else if pick == 1 {
        "Package server returned status 503, retrying..."
    } else if pick == 2 {
        "Transfer interrupted at 97%, retrying..."
    } else if pick == 3 {
        "Mirror handshake failed, retrying..."
    } else {
        "Repository index stale, refreshing..."
    }
}

} // verus!
