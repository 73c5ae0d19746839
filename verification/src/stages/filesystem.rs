//! The filesystem creation narrative.

use crate::numfmt::u64_string;
use crate::rng::{chance, rand_range_u64};
use crate::session::{Interrupted, Session};
use crate::stages::emit_stage_header;
use crate::term::emit_line;
use crate::textops::concat2;
use crate::ui::progress::{ProgressBar, ProgressStyle};
use vstd::prelude::*;
use vstd::string::StringExecFns;

verus! {

pub struct FilesystemStage;

/// The superblock backup block listed at position `pick`.
fn backup_block(pick: usize) -> &'static str {
    if pick == 0 {
        "        32768"
    } else if pick == 1 {
        "        98304"
    } else if pick == 2 {
        "        163840"
    } else if pick == 3 {
        "        229376"
    } else {
        "        294912"
    }
}

impl FilesystemStage {
    /// The display label of this stage.
    pub fn name(&self) -> &'static str {
        "Filesystem Operations"
    }

    /// The narrated mke2fs run: geometry, group tables, inode tables,
    /// journal and an optional check pass, abandoned the instant the
    /// cancellation signal is observed.
    pub fn run<C: Fn() -> bool, S: Fn(u64)>(&self, sess: &Session<C, S>) -> (r: Result<
        (),
        Interrupted,
    >)
        requires
            sess.wf(),
        ensures
            r is Ok ==> sess.may_continue(),
            r is Err ==> sess.may_cancel(),
    {
        emit_stage_header(self.name());
        emit_line("Creating ext4 filesystem on /dev/sda2...");
        sess.pause(600)?;
        let blocks = rand_range_u64(50000000, 100000000);
        let inodes = blocks / 4;
        emit_line("mke2fs 1.45.5 (07-Jan-2020)");
        let mut geometry = "Creating filesystem with ".to_owned();
        geometry.append(u64_string(blocks).as_str());
        geometry.append(" 4k blocks and ");
        geometry.append(u64_string(inodes).as_str());
        geometry.append(" inodes");
        emit_line(geometry.as_str());
        sess.pause(400)?;
        emit_line("Filesystem UUID: 8f3e1a2b-4c5d-6e7f-8a9b-0c1d2e3f4a5b");
        emit_line("Superblock backups stored on blocks:");
        let mut i: usize = 0;
        while i < 5
            invariant
                sess.wf(),
                i <= 5,
            decreases 5 - i,
        {
            emit_line(backup_block(i));
            sess.pause(100)?;
            i = i + 1;
        }
        emit_line("");
        let bar = ProgressBar::new(ProgressStyle::Equals);
        bar.animate("Allocating group tables:", rand_range_u64(2000, 3000), sess)?;
        let bar = ProgressBar::new(ProgressStyle::Equals);
        bar.animate("Writing inode tables:", rand_range_u64(2500, 4000), sess)?;
        emit_line("Creating journal (32768 blocks): ");
        sess.pause(rand_range_u64(800, 1200))?;
        emit_line("done");
        emit_line("Writing superblocks and filesystem accounting information: ");
        sess.pause(rand_range_u64(600, 1000))?;
        emit_line("done");
        emit_line("");
        if chance(40) {
            emit_line("Running filesystem check...");
            sess.pause(500)?;
            emit_line("e2fsck 1.45.5 (07-Jan-2020)");
            emit_line("Pass 1: Checking inodes, blocks, and sizes");
            sess.pause(rand_range_u64(800, 1500))?;
            emit_line("Pass 2: Checking directory structure");
            sess.pause(rand_range_u64(600, 1000))?;
            emit_line("Pass 3: Checking directory connectivity");
            sess.pause(rand_range_u64(400, 800))?;
            emit_line("Pass 4: Checking reference counts");
            sess.pause(rand_range_u64(400, 700))?;
            emit_line("Pass 5: Checking group summary information");
            sess.pause(rand_range_u64(300, 600))?;
            emit_line("/dev/sda2: 11/2048000 files (0.0% non-contiguous), 200000/8192000 blocks");
        }
        Ok(())
    }
}

} // verus!
