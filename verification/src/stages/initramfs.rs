//! The initial RAM filesystem build narrative.

use crate::numfmt::u64_string;
use crate::rng::rand_range_u64;
use crate::session::{Interrupted, Session};
use crate::stages::emit_stage_header;
use crate::term::emit_line;
use crate::textops::concat2;
use crate::ui::progress::{ProgressBar, ProgressStyle};
use vstd::prelude::*;
use vstd::string::StringExecFns;

verus! {

pub struct InitramfsStage;

/// The kernel module added at position `pick`.
fn module_name(pick: usize) -> &'static str {
    if pick == 0 {
        "kernel/drivers/ata/libata.ko"
    } else if pick == 1 {
        "kernel/drivers/scsi/scsi_mod.ko"
    } else if pick == 2 {
        "kernel/drivers/scsi/sd_mod.ko"
    } else if pick == 3 {
        "kernel/fs/ext4/ext4.ko"
    } else if pick == 4 {
        "kernel/fs/mbcache.ko"
    } else if pick == 5 {
        "kernel/fs/jbd2/jbd2.ko"
    } else if pick == 6 {
        "kernel/crypto/crc32c_generic.ko"
    } else if pick == 7 {
        "kernel/drivers/usb/host/xhci-hcd.ko"
    } else {
        "kernel/drivers/usb/core/usbcore.ko"
    }
}

impl InitramfsStage {
    /// The display label of this stage.
    pub fn name(&self) -> &'static str {
        "Initial RAM Filesystem"
    }

    /// The narrated initramfs build: module additions, a copy progress bar
    /// and the image summary, abandoned the instant the cancellation signal
    /// is observed.
    pub fn run<C: Fn() -> bool, S: Fn(u64)>(&self, sess: &Session<C, S>) -> (r: Result<
        (),
        Interrupted,
    >)
        requires
            sess.wf(),
        ensures
            r is Ok ==> sess.may_continue(),
            r is Err ==> sess.may_cancel(),
    {
        emit_stage_header(self.name());
        emit_line("update-initramfs: Generating /boot/initrd.img-5.4.0-42-generic");
        sess.pause(800)?;
        let mut i: usize = 0;
        while i < 9
            invariant
                sess.wf(),
                i <= 9,
            decreases 9 - i,
        {
            let line = concat2("Adding module: ", module_name(i));
            emit_line(line.as_str());
            sess.pause(rand_range_u64(100, 250))?;
            i = i + 1;
        }
        emit_line("");
        let bar = ProgressBar::new(ProgressStyle::Block);
        bar.animate("Copying binaries and libraries:", rand_range_u64(2000, 3500), sess)?;
        emit_line("");
        emit_line("Creating initramfs image...");
        sess.pause(rand_range_u64(1000, 2000))?;
        let size = u64_string(rand_range_u64(25, 45));
        let mut line = "Image size: ".to_owned();
        line.append(size.as_str());
        line.append("MB");
        emit_line(line.as_str());
        Ok(())
    }
}

} // verus!
