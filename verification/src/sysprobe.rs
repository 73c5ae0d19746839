//! The host-machine facts the firmware narrative displays, gathered through
//! the sysinfo crate and handed to the engine as plain values.  Every probe
//! is machine-dependent, so nothing is promised of what it returns.

use vstd::prelude::*;

verus! {

#[verifier::external_type_specification]
#[verifier::external_body]
pub struct ExSystem(sysinfo::System);

/// What the firmware narrative shows of the host machine.
pub struct SystemInfo {
    pub cpu_brand: String,
    pub cpu_count: usize,
    pub cpu_freq: u64,
    pub total_memory_kb: u64,
    pub hostname: String,
    pub network_count: usize,
    pub disk_count: usize,
    pub os_name: String,
}

/// Relies on sysinfo::System::new_all: a fresh snapshot of the host.
#[verifier::external_body]
pub(crate) fn sys_new_all() -> sysinfo::System {
    sysinfo::System::new_all()
}

/// Relies on sysinfo::System::refresh_all: refreshes the snapshot in place.
#[verifier::external_body]
pub(crate) fn sys_refresh_all(sys: &mut sysinfo::System) {
    sys.refresh_all()
}

/// Relies on sysinfo::System::cpus: how many logical processors the
/// snapshot lists.
#[verifier::external_body]
pub(crate) fn sys_cpu_count(sys: &sysinfo::System) -> usize {
    sys.cpus().len()
}

/// Relies on sysinfo::Cpu::brand, read from the first listed processor.
#[verifier::external_body]
pub(crate) fn sys_cpu_brand_first(sys: &sysinfo::System) -> Option<String> {
    match sys.cpus().first() {
        Some(c) => Some(c.brand().to_owned()),
        None => None,
    }
}

/// Relies on sysinfo::Cpu::frequency (MHz), read from the first listed
/// processor.
#[verifier::external_body]
pub(crate) fn sys_cpu_frequency_first(sys: &sysinfo::System) -> Option<u64> {
    match sys.cpus().first() {
        Some(c) => Some(c.frequency()),
        None => None,
    }
}

/// Relies on sysinfo::System::total_memory: bytes of installed memory.
#[verifier::external_body]
pub(crate) fn sys_total_memory(sys: &sysinfo::System) -> u64 {
    sys.total_memory()
}

/// Relies on sysinfo::System::host_name.
#[verifier::external_body]
pub(crate) fn sys_host_name() -> Option<String> {
    sysinfo::System::host_name()
}

/// Relies on sysinfo::System::name: the host operating system's name.
#[verifier::external_body]
pub(crate) fn sys_os_name() -> Option<String> {
    sysinfo::System::name()
}

/// Relies on sysinfo::Networks::new_with_refreshed_list and
/// sysinfo::Networks::list: how many network interfaces the host has.
#[verifier::external_body]
pub(crate) fn network_count() -> usize {
    sysinfo::Networks::new_with_refreshed_list().list().len()
}

/// Relies on sysinfo::Disks::new_with_refreshed_list and
/// sysinfo::Disks::list: how many disks the host has.
#[verifier::external_body]
pub(crate) fn disk_count() -> usize {
    sysinfo::Disks::new_with_refreshed_list().list().len()
}

} // verus!
