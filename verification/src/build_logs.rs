//! Build log messages for authentic compilation output: a corpus replayed
//! line by line by the module-compilation stage.

use crate::corpus::{LineTransform, load_corpus, load_spec};
use crate::rng::rand_index;
use vstd::prelude::*;

verus! {

/// An ordered, read-only collection of build log lines.
pub struct BuildLogs {
    pub logs: Vec<String>,
}

impl BuildLogs {
    /// Build the corpus from the text of an optional external source; an
    /// absent or unreadable source silently falls back to the built-in
    /// lines - that is not an error.
    pub fn load(source: Option<&str>) -> (r: Self)
        ensures
            match source {
                Some(content) => r.logs.deep_view() == load_spec(
                    content@,
                    LineTransform::Identity,
                ),
                None => r.logs@.len() == 86,
            },
    {
        let logs = match source {
            Some(content) => load_corpus(content, LineTransform::Identity),
            None => Self::default_logs(),
        };
        BuildLogs { logs }
    }

    /// Every line of the corpus, in replay order.
    pub fn all_logs(&self) -> (r: &Vec<String>)
        ensures
            r@ == self.logs@,
    {
        &self.logs
    }

    /// `count` lines drawn at random (repetition allowed) from the corpus;
    /// empty exactly when the corpus is empty.
    pub fn random_batch(&self, count: usize) -> (r: Vec<String>)
        ensures
            self.logs@.len() == 0 ==> r@.len() == 0,
            self.logs@.len() > 0 ==> r@.len() == count,
            forall|i: int| 0 <= i < r@.len() ==> self.logs@.contains(#[trigger] r@[i]),
    {
        let mut batch: Vec<String> = Vec::new();
        if self.logs.len() == 0 {
            return batch;
        }
        let mut i: usize = 0;
        while i < count
            invariant
                self.logs@.len() > 0,
                i <= count,
                batch@.len() == i,
                forall|j: int|
                    0 <= j < batch@.len() ==> self.logs@.contains(#[trigger] batch@[j]),
            decreases count - i,
        {
            let idx = rand_index(self.logs.len());
            batch.push(self.logs[idx].clone());
            i = i + 1;
        }
        batch
    }

    /// The built-in fallback lines used when no source is present.
    #[verifier::rlimit(60)]
    pub fn default_logs() -> (r: Vec<String>)
        ensures
            r@.len() == 86,
    {
        let mut v: Vec<String> = Vec::new();
        v.push("  CC      kernel/fork.o".to_owned());
        v.push("  CC      kernel/exec_domain.o".to_owned());
        v.push("  CC      kernel/panic.o".to_owned());
        v.push("  CC      kernel/cpu.o".to_owned());
        v.push("  CC      kernel/exit.o".to_owned());
        v.push("  CC      kernel/softirq.o".to_owned());
        v.push("  CC      kernel/resource.o".to_owned());
        v.push("  CC      kernel/sysctl.o".to_owned());
        v.push("  CC      kernel/capability.o".to_owned());
        v.push("  CC      kernel/ptrace.o".to_owned());
        v.push("  CC      kernel/signal.o".to_owned());
        v.push("  CC      kernel/sys.o".to_owned());
        v.push("  CC      kernel/umh.o".to_owned());
        v.push("  CC      kernel/workqueue.o".to_owned());
        v.push("  CC      kernel/pid.o".to_owned());
        v.push("  CC      kernel/task_work.o".to_owned());
        v.push("  CC      kernel/extable.o".to_owned());
        v.push("  CC      kernel/params.o".to_owned());
        v.push("  CC      kernel/kthread.o".to_owned());
        v.push("  CC      kernel/sys_ni.o".to_owned());
        v.push("  CC      kernel/nsproxy.o".to_owned());
        v.push("  CC      kernel/notifier.o".to_owned());
        v.push("  CC      kernel/ksysfs.o".to_owned());
        v.push("  CC      kernel/cred.o".to_owned());
        v.push("  CC      kernel/reboot.o".to_owned());
        v.push("  CC      kernel/async.o".to_owned());
        v.push("  CC      kernel/range.o".to_owned());
        v.push("  CC      kernel/smpboot.o".to_owned());
        v.push("  CC      kernel/ucount.o".to_owned());
        v.push("  CC      mm/filemap.o".to_owned());
        v.push("  CC      mm/mempool.o".to_owned());
        v.push("  CC      mm/oom_kill.o".to_owned());
        v.push("  CC      mm/maccess.o".to_owned());
        v.push("  CC      mm/page_alloc.o".to_owned());
        v.push("  CC      mm/page-writeback.o".to_owned());
        v.push("  CC      mm/readahead.o".to_owned());
        v.push("  CC      mm/swap.o".to_owned());
        v.push("  CC      mm/truncate.o".to_owned());
        v.push("  CC      mm/vmscan.o".to_owned());
        v.push("  CC      mm/shmem.o".to_owned());
        v.push("  CC      mm/util.o".to_owned());
        v.push("  CC      mm/mmzone.o".to_owned());
        v.push("  CC      mm/vmstat.o".to_owned());
        v.push("  CC      fs/open.o".to_owned());
        v.push("  CC      fs/read_write.o".to_owned());
        v.push("  CC      fs/file_table.o".to_owned());
        v.push("  CC      fs/super.o".to_owned());
        v.push("  CC      fs/char_dev.o".to_owned());
        v.push("  CC      fs/stat.o".to_owned());
        v.push("  CC      fs/exec.o".to_owned());
        v.push("  CC      fs/pipe.o".to_owned());
        v.push("  CC      fs/namei.o".to_owned());
        v.push("  CC      fs/fcntl.o".to_owned());
        v.push("  CC      fs/ioctl.o".to_owned());
        v.push("  CC      fs/readdir.o".to_owned());
        v.push("  CC      fs/select.o".to_owned());
        v.push("  CC      fs/dcache.o".to_owned());
        v.push("  CC      fs/inode.o".to_owned());
        v.push("  CC      fs/attr.o".to_owned());
        v.push("  CC      fs/bad_inode.o".to_owned());
        v.push("  CC      fs/file.o".to_owned());
        v.push("  CC      fs/filesystems.o".to_owned());
        v.push("  CC      fs/namespace.o".to_owned());
        v.push("  CC      fs/seq_file.o".to_owned());
        v.push("  CC      fs/xattr.o".to_owned());
        v.push("  CC      fs/libfs.o".to_owned());
        v.push("  CC      fs/fs-writeback.o".to_owned());
        v.push("  CC      fs/pnode.o".to_owned());
        v.push("  CC      fs/splice.o".to_owned());
        v.push("  CC      fs/sync.o".to_owned());
        v.push("  CC      fs/utimes.o".to_owned());
        v.push("  CC      fs/d_path.o".to_owned());
        v.push("  CC      fs/stack.o".to_owned());
        v.push("  CC      fs/fs_struct.o".to_owned());
        v.push("  CC      fs/statfs.o".to_owned());
        v.push("  CC      fs/fs_pin.o".to_owned());
        v.push("  CC      fs/nsfs.o".to_owned());
        v.push("  CC      fs/fs_types.o".to_owned());
        v.push("  CC      fs/fs_context.o".to_owned());
        v.push("  CC      fs/fs_parser.o".to_owned());
        v.push("  CC      fs/fsopen.o".to_owned());
        v.push("  LD      fs/built-in.a".to_owned());
        v.push("  LD      mm/built-in.a".to_owned());
        v.push("  LD      kernel/built-in.a".to_owned());
        v.push("  AR      vmlinux.a".to_owned());
        v.push("  LD      vmlinux.o".to_owned());
        v
    }
}

impl Default for BuildLogs {
    fn default() -> (r: Self)
        ensures
            r.logs@.len() == 86,
    {
        Self::load(None)
    }
}

} // verus!
