//! The kernel compilation narrative: a replay of the kernel-log corpus,
//! with a progress bar for initialization-style lines and a paced plain
//! print for the rest.

use crate::kernel_logs::KernelLogs;
use crate::rng::rand_range_u64;
use crate::session::{Interrupted, Session};
use crate::stages::emit_stage_header;
use crate::term::emit_line;
use crate::textops::line_contains;
use crate::ui::progress::{ProgressBar, ProgressStyle};
use vstd::prelude::*;

verus! {

pub struct KernelStage {
    pub kernel_logs: KernelLogs,
}

impl KernelStage {
    /// A stage owning the corpus it will replay; the corpus is loaded once,
    /// before construction, and never re-read.
    pub fn new(kernel_logs: KernelLogs) -> (r: Self)
        ensures
            r.kernel_logs == kernel_logs,
    {
        KernelStage { kernel_logs }
    }

    /// The display label of this stage.
    pub fn name(&self) -> &'static str {
        "Linux Kernel Compilation"
    }

    /// Replay `logs` in order: lines that narrate an initialization step
    /// animate a progress bar at a randomized speed, other lines print
    /// with a randomized delay; abandoned the instant the cancellation
    /// signal is observed.
    pub fn display_logs<C: Fn() -> bool, S: Fn(u64)>(
        &self,
        logs: &Vec<String>,
        sess: &Session<C, S>,
    ) -> (r: Result<(), Interrupted>)
        requires
            sess.wf(),
        ensures
            r is Ok && logs@.len() > 0 ==> sess.may_continue(),
            r is Err ==> sess.may_cancel(),
    {
        let n = logs.len();
        let mut i: usize = 0;
        while i < n
            invariant
                sess.wf(),
                n == logs@.len(),
                i <= n,
                i > 0 ==> sess.may_continue(),
            decreases n - i,
        {
            let log = &logs[i];
            let animated = line_contains(log.as_str(), "Initializing") || line_contains(
                log.as_str(),
                "Loading",
            ) || line_contains(log.as_str(), "Mounting") || line_contains(log.as_str(), "Starting")
                || line_contains(log.as_str(), "Probing");
            if animated {
                let speed = rand_range_u64(0, 10);
                let duration = if speed < 3 {
                    rand_range_u64(600, 900)
                } else if speed < 7 {
                    rand_range_u64(900, 1200)
                } else {
                    rand_range_u64(1200, 3500)
                };
                let bar = ProgressBar::new(ProgressStyle::Block);
                bar.animate(log.as_str(), duration, sess)?;
            } else {
                emit_line(log.as_str());
                let speed = rand_range_u64(0, 10);
                let delay = if speed < 4 {
                    rand_range_u64(25, 50)
                } else if speed < 8 {
                    rand_range_u64(50, 100)
                } else {
                    rand_range_u64(100, 400)
                };
                sess.pause(delay)?;
            }
            i = i + 1;
        }
        Ok(())
    }

    /// The narrated kernel build: replay the whole corpus, then settle with
    /// a completion line.
    pub fn run<C: Fn() -> bool, S: Fn(u64)>(&self, sess: &Session<C, S>) -> (r: Result<
        (),
        Interrupted,
    >)
        requires
            sess.wf(),
        ensures
            r is Ok ==> sess.may_continue(),
            r is Err ==> sess.may_cancel(),
    {
        emit_stage_header(self.name());
        emit_line("Building Linux kernel from source...");
        emit_line("");
        self.display_logs(self.kernel_logs.all_logs(), sess)?;
        emit_line("");
        emit_line("Kernel build completed successfully!");
        sess.pause(500)?;
        Ok(())
    }
}

impl Default for KernelStage {
    fn default() -> (r: Self)
        ensures
            r.kernel_logs.logs@.len() == 30,
    {
        KernelStage { kernel_logs: KernelLogs::load(None) }
    }
}

} // verus!
