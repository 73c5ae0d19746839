//! Kernel log messages for authentic system output: a corpus replayed by
//! the kernel-compilation stage, normalized by stripping the synthetic
//! `[ timestamp ]` prefix from lines that carry one.

use crate::corpus::{
    LineTransform, load_corpus, load_spec, strip_timestamp_line, strip_timestamp_spec,
};
use crate::rng::rand_index;
use vstd::prelude::*;

verus! {

/// An ordered, read-only collection of kernel log lines.
pub struct KernelLogs {
    pub logs: Vec<String>,
}

impl KernelLogs {
    /// Build the corpus from the text of an optional external source,
    /// stripping timestamps; an absent or unreadable source silently falls
    /// back to the built-in lines - that is not an error.
    pub fn load(source: Option<&str>) -> (r: Self)
        ensures
            match source {
                Some(content) => r.logs.deep_view() == load_spec(
                    content@,
                    LineTransform::StripTimestamp,
                ),
                None => r.logs@.len() == 30,
            },
    {
        let logs = match source {
            Some(content) => load_corpus(content, LineTransform::StripTimestamp),
            None => Self::default_logs(),
        };
        KernelLogs { logs }
    }

    /// Strip the kernel timestamp from a log line: `"[    0.000000] msg"`
    /// becomes `"msg"`; a line without a bracket pair is kept unchanged.
    pub fn strip_timestamp(line: &str) -> (r: String)
        ensures
            r@ == strip_timestamp_spec(line@),
    {
        strip_timestamp_line(line)
    }

    /// Every line of the corpus, in replay order.
    pub fn all_logs(&self) -> (r: &Vec<String>)
        ensures
            r@ == self.logs@,
    {
        &self.logs
    }

    /// `count` lines drawn at random (repetition allowed) from the corpus;
    /// empty exactly when the corpus is empty.
    pub fn random_batch(&self, count: usize) -> (r: Vec<String>)
        ensures
            self.logs@.len() == 0 ==> r@.len() == 0,
            self.logs@.len() > 0 ==> r@.len() == count,
            forall|i: int| 0 <= i < r@.len() ==> self.logs@.contains(#[trigger] r@[i]),
    {
        let mut batch: Vec<String> = Vec::new();
        if self.logs.len() == 0 {
            return batch;
        }
        let mut i: usize = 0;
        while i < count
            invariant
                self.logs@.len() > 0,
                i <= count,
                batch@.len() == i,
                forall|j: int|
                    0 <= j < batch@.len() ==> self.logs@.contains(#[trigger] batch@[j]),
            decreases count - i,
        {
            let idx = rand_index(self.logs.len());
            batch.push(self.logs[idx].clone());
            i = i + 1;
        }
        batch
    }

    /// The built-in fallback lines used when no source is present.
    pub fn default_logs() -> (r: Vec<String>)
        ensures
            r@.len() == 30,
    {
        vec![
            "[    0.000000] Linux version 5.4.0-42-generic (buildd@lgw01-amd64-060)".to_owned(),
            "[    0.000000] Command line: BOOT_IMAGE=/boot/vmlinuz-5.4.0-42-generic".to_owned(),
            "[    0.000000] KERNEL supported cpus:".to_owned(),
            "[    0.000000] x86/fpu: Supporting XSAVE feature 0x001: 'x87 floating point registers'".to_owned(),
            "[    0.000000] x86/fpu: Supporting XSAVE feature 0x002: 'SSE registers'".to_owned(),
            "[    0.000000] x86/fpu: Enabled xstate features 0x7, context size is 832 bytes".to_owned(),
            "[    0.000000] BIOS-provided physical RAM map:".to_owned(),
            "[    0.000000] BIOS-e820: [mem 0x0000000000000000-0x000000000009fbff] usable".to_owned(),
            "[    0.000000] NX (Execute Disable) protection: active".to_owned(),
            "[    0.000000] SMBIOS 2.8 present.".to_owned(),
            "[    0.000000] DMI: System manufacturer System Product Name/PRIME B350-PLUS".to_owned(),
            "[    0.000000] e820: update [mem 0x00000000-0x00000fff] usable ==> reserved".to_owned(),
            "[    0.000000] tsc: Fast TSC calibration using PIT".to_owned(),
            "[    0.000000] Zone ranges:".to_owned(),
            "[    0.000000]   DMA      [mem 0x0000000000001000-0x0000000000ffffff]".to_owned(),
            "[    0.000000]   DMA32    [mem 0x0000000001000000-0x00000000ffffffff]".to_owned(),
            "[    0.000000]   Normal   [mem 0x0000000100000000-0x000000041f5fffff]".to_owned(),
            "[    0.000000] Movable zone start for each node".to_owned(),
            "[    0.000000] Early memory node ranges".to_owned(),
            "[    0.000000] Initmem setup node 0 [mem 0x0000000000001000-0x000000041f5fffff]".to_owned(),
            "[    0.000000] ACPI: PM-Timer IO Port: 0x808".to_owned(),
            "[    0.000000] ACPI: LAPIC_NMI (acpi_id[0xff] high edge lint[0x1])".to_owned(),
            "[    0.000000] IOAPIC[0]: apic_id 9, version 33, address 0xfec00000, GSI 0-23".to_owned(),
            "[    0.000000] ACPI: INT_SRC_OVR (bus 0 bus_irq 0 global_irq 2 dfl dfl)".to_owned(),
            "[    0.000000] Using ACPI (MADT) for SMP configuration information".to_owned(),
            "[    0.000000] smpboot: Allowing 8 CPUs, 0 hotplug CPUs".to_owned(),
            "[    0.000000] PM: Registered nosave memory".to_owned(),
            "[    0.000000] [mem 0xf0000000-0xffffffff] available for PCI devices".to_owned(),
            "[    0.000000] clocksource: refined-jiffies: mask: 0xffffffff max_cycles".to_owned(),
            "[    0.000000] setup_percpu: NR_CPUS:8192 nr_cpumask_bits:8 nr_cpu_ids:8 nr_node_ids:1".to_owned(),
        ]
    }
}

impl Default for KernelLogs {
    fn default() -> (r: Self)
        ensures
            r.logs@.len() == 30,
    {
        Self::load(None)
    }
}

} // verus!
