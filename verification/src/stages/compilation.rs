//! The kernel module compilation narrative: a replay of the build-log
//! corpus, with a progress bar for compiler and linker lines and a paced
//! plain print for the rest.

use crate::build_logs::BuildLogs;
use crate::rng::rand_range_u64;
use crate::session::{Interrupted, Session};
use crate::stages::emit_stage_header;
use crate::term::emit_line;
use crate::textops::trimmed_starts_with;
use crate::ui::progress::{ProgressBar, ProgressStyle};
use vstd::prelude::*;

verus! {

pub struct CompilationStage {
    pub build_logs: BuildLogs,
}

impl CompilationStage {
    /// A stage owning the corpus it will replay; the corpus is loaded once,
    /// before construction, and never re-read.
    pub fn new(build_logs: BuildLogs) -> (r: Self)
        ensures
            r.build_logs == build_logs,
    {
        CompilationStage { build_logs }
    }

    /// The display label of this stage.
    pub fn name(&self) -> &'static str {
        "Kernel Module Compilation"
    }

    /// Replay the build-log corpus in order: compiler, linker and archiver
    /// lines animate a progress bar at a randomized speed, other lines
    /// print with a randomized delay; abandoned the instant the
    /// cancellation signal is observed.
    pub fn run<C: Fn() -> bool, S: Fn(u64)>(&self, sess: &Session<C, S>) -> (r: Result<
        (),
        Interrupted,
    >)
        requires
            sess.wf(),
        ensures
            r is Ok && self.build_logs.logs@.len() > 0 ==> sess.may_continue(),
            r is Err ==> sess.may_cancel(),
    {
        emit_stage_header(self.name());
        emit_line("make[1]: Entering directory '/usr/src/linux-headers-5.4.0'");
        emit_line("");
        let logs = self.build_logs.all_logs();
        let n = logs.len();
        let mut i: usize = 0;
        while i < n
            invariant
                sess.wf(),
                n == logs@.len(),
                i <= n,
                i > 0 ==> sess.may_continue(),
            decreases n - i,
        {
            let log = &logs[i];
            let animated = trimmed_starts_with(log.as_str(), "CC") || trimmed_starts_with(
                log.as_str(),
                "LD",
            ) || trimmed_starts_with(log.as_str(), "AR");
            if animated {
                let speed = rand_range_u64(0, 10);
                let duration = if speed < 3 {
                    rand_range_u64(50, 200)
                } else if speed < 7 {
                    rand_range_u64(200, 600)
                } else {
                    rand_range_u64(600, 1500)
                };
                let bar = ProgressBar::new(ProgressStyle::Block);
                bar.animate(log.as_str(), duration, sess)?;
            } else {
                emit_line(log.as_str());
                let speed = rand_range_u64(0, 10);
                let delay = if speed < 4 {
                    rand_range_u64(10, 30)
                } else if speed < 8 {
                    rand_range_u64(30, 80)
                } else {
                    rand_range_u64(80, 200)
                };
                sess.pause(delay)?;
            }
            i = i + 1;
        }
        emit_line("");
        emit_line("make[1]: Leaving directory '/usr/src/linux-headers-5.4.0'");
        Ok(())
    }
}

impl Default for CompilationStage {
    fn default() -> (r: Self)
        ensures
            r.build_logs.logs@.len() == 86,
    {
        CompilationStage { build_logs: BuildLogs::load(None) }
    }
}

} // verus!
