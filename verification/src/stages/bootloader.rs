//! The bootloader installation narrative.

use crate::numfmt::u64_string;
use crate::rng::{chance, rand_index, rand_range_u64};
use crate::session::{Interrupted, Session};
use crate::stages::emit_stage_header;
use crate::term::{emit, emit_line, flush_out};
use crate::textops::concat2;
use vstd::prelude::*;
use vstd::string::StringExecFns;

verus! {

pub struct BootloaderStage;

impl BootloaderStage {
    /// The display label of this stage.
    pub fn name(&self) -> &'static str {
        "Bootloader Installation"
    }

    /// The narrated bootloader sequence: device probe, configuration
    /// generation and staged image writes, abandoned the instant the
    /// cancellation signal is observed.
    pub fn run<C: Fn() -> bool, S: Fn(u64)>(&self, sess: &Session<C, S>) -> (r: Result<
        (),
        Interrupted,
    >)
        requires
            sess.wf(),
        ensures
            r is Ok ==> sess.may_continue(),
            r is Err ==> sess.may_cancel(),
    {
        emit_stage_header(self.name());
        emit_line("Installing GRUB2 bootloader...");
        sess.pause(800)?;
        emit_line("Probing devices for bootloader installation...");
        sess.pause(600)?;
        let device = boot_device(rand_index(3));
        let line = concat2("  Installing for x86_64-pc platform to ", device);
        emit_line(line.as_str());
        sess.pause(500)?;
        emit_line("");
        emit_line("Generating grub configuration file...");
        sess.pause(700)?;
        let mut i: usize = 0;
        while i < 3
            invariant
                sess.wf(),
                i <= 3,
            decreases 3 - i,
        {
            let suffix = kernel_suffix(i);
            let image = concat2("Found linux image: /boot/vmlinuz-", suffix);
            emit_line(image.as_str());
            let initrd = concat2("Found initrd image: /boot/initrd.img-", suffix);
            emit_line(initrd.as_str());
            sess.pause(rand_range_u64(200, 400))?;
            i = i + 1;
        }
        if chance(30) {
            emit_line("Found Windows Boot Manager on /dev/sda1");
            sess.pause(400)?;
        }
        emit_line("");
        emit_line("Installing bootloader to disk...");
        let mut stage_no: u64 = 1;
        while stage_no <= 5
            invariant
                sess.wf(),
                1 <= stage_no <= 6,
            decreases 6 - stage_no,
        {
            let num = u64_string(stage_no);
            let mut line = "\r  Writing stage ".to_owned();
            line.append(num.as_str());
            line.append(" image...");
            emit(line.as_str());
            flush_out();
            sess.pause(rand_range_u64(400, 800))?;
            stage_no = stage_no + 1;
        }
        emit_line("\r  Installation finished. No error reported.");
        sess.pause(500)?;
        Ok(())
    }
}

/// The device the bootloader narrative claims to target.
fn boot_device(pick: usize) -> &'static str {
    if pick == 0 {
        "/dev/sda"
    } else if pick == 1 {
        "/dev/nvme0n1"
    } else {
        "/dev/vda"
    }
}

/// The version suffix of one of the kernel images the narrative finds.
fn kernel_suffix(pick: usize) -> &'static str {
    if pick == 0 {
        "5.4.0-42-generic"
    } else if pick == 1 {
        "5.4.0-40-generic"
    } else {
        "5.4.0-39-generic"
    }
}

} // verus!
