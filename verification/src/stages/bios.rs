//! The firmware update narrative: a POST sequence built from real host
//! facts, then a staged flash rewrite.  Its pacing lives in an explicit
//! configuration value rather than inline literals.

use crate::clock::{now_date_mdy, now_time_hms};
use crate::numfmt::{dec_pad, hex_upper_string, u64_string};
use crate::rng::{chance, rand_range_u64, rand_u64};
use crate::session::{Interrupted, Session};
use crate::stages::emit_stage_header;
use crate::sysprobe::{
    SystemInfo, disk_count, network_count, sys_cpu_brand_first, sys_cpu_count,
    sys_cpu_frequency_first, sys_host_name, sys_new_all, sys_os_name, sys_refresh_all,
    sys_total_memory,
};
use crate::term::{emit, emit_line, flush_out};
use crate::textops::{concat2, string_from_chars};
use crate::ui::progress::{ProgressBar, ProgressStyle};
use crate::ui::spinner::Spinner;
use vstd::prelude::*;
use vstd::string::StringExecFns;

verus! {

/// The pacing and identity of the firmware narrative, kept as explicit
/// configuration so a caller (or a test) can substitute its own.
pub struct BiosConfig {
    pub vendor: &'static str,
    pub version: &'static str,
    pub new_version: &'static str,
    pub bios_date: &'static str,
    pub header_delay: u64,
    pub post_start_delay: u64,
    pub cpu_detect_time: u64,
    pub cpu_cores_time: u64,
    pub cpu_freq_time: u64,
    pub memory_test_time: u64,
    pub memory_details_time: u64,
    pub cmos_warning_time: u64,
    pub ide_master_time: u64,
    pub ide_slave_time: u64,
    pub pci_scan_time: u64,
    pub pci_device_time: u64,
    pub network_detect_time: u64,
    pub usb_detect_time: u64,
    pub system_info_time: u64,
    pub uuid_time: u64,
    pub boot_priority_time: u64,
    pub boot_display_time: u64,
    pub firmware_header_delay: u64,
    pub backup_time: u64,
    pub verify_time: u64,
    pub warning_delay: u64,
    pub erase_min: u64,
    pub erase_max: u64,
    pub write_min: u64,
    pub write_max: u64,
    pub verify_min: u64,
    pub verify_max: u64,
    pub complete_time: u64,
    pub escd_time: u64,
    pub success_delay: u64,
    pub cmos_error_percent: u64,
}

impl BiosConfig {
    /// Every spinner duration stays small enough for the tick counter, and
    /// every randomized range is non-empty.
    pub open spec fn wf(&self) -> bool {
        &&& self.cpu_detect_time <= 10000
        &&& self.cpu_cores_time <= 10000
        &&& self.cpu_freq_time <= 10000
        &&& self.memory_details_time <= 10000
        &&& self.network_detect_time <= 10000
        &&& self.usb_detect_time <= 10000
        &&& self.system_info_time <= 10000
        &&& self.uuid_time <= 10000
        &&& self.boot_priority_time <= 10000
        &&& self.backup_time <= 10000
        &&& self.verify_time <= 10000
        &&& self.complete_time <= 10000
        &&& self.escd_time <= 10000
        &&& self.erase_min < self.erase_max
        &&& self.write_min < self.write_max
        &&& self.verify_min < self.verify_max
    }

    /// The stock pacing and identity of the narrative.
    pub fn default_config() -> (r: Self)
        ensures
            r.wf(),
    {
        BiosConfig {
            vendor: "American Megatrends BIOS (C)2003-2025",
            version: "AMIBIOS v08.00.15",
            new_version: "v08.00.16",
            bios_date: "11/15/2025",
            header_delay: 400,
            post_start_delay: 400,
            cpu_detect_time: 800,
            cpu_cores_time: 600,
            cpu_freq_time: 500,
            memory_test_time: 1200,
            memory_details_time: 700,
            cmos_warning_time: 800,
            ide_master_time: 900,
            ide_slave_time: 400,
            pci_scan_time: 800,
            pci_device_time: 500,
            network_detect_time: 600,
            usb_detect_time: 500,
            system_info_time: 500,
            uuid_time: 700,
            boot_priority_time: 600,
            boot_display_time: 500,
            firmware_header_delay: 600,
            backup_time: 1800,
            verify_time: 1200,
            warning_delay: 800,
            erase_min: 1500,
            erase_max: 2500,
            write_min: 3000,
            write_max: 5000,
            verify_min: 2000,
            verify_max: 3500,
            complete_time: 800,
            escd_time: 1000,
            success_delay: 600,
            cmos_error_percent: 25,
        }
    }
}

pub struct BiosStage;

impl BiosStage {
    /// Probe the host machine for the plain values the POST narrative
    /// shows; every value is machine-dependent, with fixed substitutes
    /// where the host reports nothing.
    pub fn get_system_info() -> SystemInfo {
        let mut sys = sys_new_all();
        sys_refresh_all(&mut sys);
        let cpu_brand = match sys_cpu_brand_first(&sys) {
            Some(b) => b,
            None => "Unknown CPU".to_owned(),
        };
        let cpu_freq = match sys_cpu_frequency_first(&sys) {
            Some(f) => f,
            None => 0,
        };
        let total_memory_kb = sys_total_memory(&sys) / 1024;
        let cpu_count = sys_cpu_count(&sys);
        let hostname = match sys_host_name() {
            Some(h) => h,
            None => "SYSTEM-PC".to_owned(),
        };
        let nets = network_count();
        let disks = disk_count();
        let os_name = match sys_os_name() {
            Some(n) => n,
            None => "Unknown OS".to_owned(),
        };
        SystemInfo {
            cpu_brand,
            cpu_count,
            cpu_freq,
            total_memory_kb,
            hostname,
            network_count: nets,
            disk_count: disks,
            os_name,
        }
    }

    /// The display label of this stage.
    pub fn name(&self) -> &'static str {
        "BIOS/Firmware Update Sequence"
    }

    /// The narrated firmware update: POST over the real host facts, device
    /// detection, then the staged flash rewrite, abandoned the instant the
    /// cancellation signal is observed.
    pub fn run<C: Fn() -> bool, S: Fn(u64)>(&self, sess: &Session<C, S>) -> (r: Result<
        (),
        Interrupted,
    >)
        requires
            sess.wf(),
        ensures
            r is Ok ==> sess.may_continue(),
            r is Err ==> sess.may_cancel(),
    {
        emit_stage_header(self.name());
        let cfg = BiosConfig::default_config();
        let info = Self::get_system_info();
        let serial = bios_serial();

        emit_line("+===============================================================+");
        let vendor_line = concat2("|  ", cfg.vendor);
        emit_line(vendor_line.as_str());
        let version_line = concat2("|  ", cfg.version);
        emit_line(version_line.as_str());
        emit_line("+===============================================================+");
        emit_line("");
        let mut dateline = "BIOS Date: ".to_owned();
        dateline.append(cfg.bios_date);
        dateline.append("  S/N: ");
        dateline.append(serial.as_str());
        emit_line(dateline.as_str());
        let mut sysdate = "System Date: ".to_owned();
        sysdate.append(now_date_mdy().as_str());
        sysdate.append("  Time: ");
        sysdate.append(now_time_hms().as_str());
        emit_line(sysdate.as_str());
        let host_line = concat2("System Name: ", info.hostname.as_str());
        emit_line(host_line.as_str());
        sess.pause(cfg.header_delay)?;

        emit_line("");
        emit_line("Performing POST (Power-On Self Test)...");
        sess.pause(cfg.post_start_delay)?;

        let mut spinner = Spinner::new();
        let cpu_line = concat2("CPU: ", info.cpu_brand.as_str());
        spinner.animate(cpu_line.as_str(), cfg.cpu_detect_time, sess)?;
        let mut cores_line = "CPU Cores: ".to_owned();
        cores_line.append(u64_string(info.cpu_count as u64).as_str());
        cores_line.append(" physical");
        spinner.animate(cores_line.as_str(), cfg.cpu_cores_time, sess)?;

        if info.cpu_freq > 0 {
            let mut freq_line = "CPU Speed: ".to_owned();
            freq_line.append(u64_string(info.cpu_freq / 1000).as_str());
            freq_line.append(".");
            let cents = dec_pad((info.cpu_freq % 1000) / 10, 2);
            freq_line.append(string_from_chars(&cents).as_str());
            freq_line.append(" GHz");
            spinner.animate(freq_line.as_str(), cfg.cpu_freq_time, sess)?;
        }

        emit_line("");
        let memory_mb = info.total_memory_kb / 1024;
        let total_kb_text = u64_string(info.total_memory_kb);
        emit("Testing Memory: ");
        flush_out();
        let mem_bar = ProgressBar::new(ProgressStyle::Hash);
        let mem_delay = cfg.memory_test_time / 40;
        let mut i: u64 = 0;
        while i <= 40
            invariant
                sess.wf(),
                i <= 41,
            decreases 41 - i,
        {
            proof {
                assert((info.total_memory_kb as int) * (i as int) <= (u64::MAX as int) * 41)
                    by (nonlinear_arith)
                    requires
                        info.total_memory_kb as int <= u64::MAX as int,
                        0 <= i as int <= 41,
                ;
            }
            let prod: u128 = (info.total_memory_kb as u128) * (i as u128);
            let tested128: u128 = prod / 40;
            let tested_kb: u64 = #[verifier::truncate] (tested128 as u64);
            let bar_text = mem_bar.render(i, 40);
            let mut frame = "\rTesting Memory: ".to_owned();
            frame.append(bar_text.as_str());
            frame.append(" ");
            frame.append(u64_string(tested_kb).as_str());
            frame.append("/");
            frame.append(total_kb_text.as_str());
            frame.append(" KB");
            emit(frame.as_str());
            flush_out();
            sess.pause(mem_delay)?;
            i = i + 1;
        }
        emit_line(" OK");

        let mut mem_line = "Total System Memory: ".to_owned();
        mem_line.append(u64_string(memory_mb / 1024).as_str());
        mem_line.append(".");
        let mem_cents = dec_pad((memory_mb % 1024) * 100 / 1024, 2);
        mem_line.append(string_from_chars(&mem_cents).as_str());
        mem_line.append(" GB (");
        mem_line.append(u64_string(memory_mb).as_str());
        mem_line.append(" MB)");
        spinner.animate(mem_line.as_str(), cfg.memory_details_time, sess)?;

        if chance(cfg.cmos_error_percent) {
            emit_line("WARNING: CMOS checksum invalid, loading defaults");
            sess.pause(cfg.cmos_warning_time)?;
        }

        emit_line("");
        emit_line("Detecting IDE Devices...");
        emit("  Primary Master   [0x1F0-0x1F7]: ");
        flush_out();
        sess.pause(cfg.ide_master_time)?;
        emit_line("WDC WD2000JB-00GVC0");
        emit("  Primary Slave    [0x1F0-0x1F7]: ");
        flush_out();
        sess.pause(cfg.ide_slave_time)?;
        emit_line("None");
        emit("  Secondary Master [0x170-0x177]: ");
        flush_out();
        sess.pause(cfg.ide_master_time)?;
        emit_line("ATAPI CD-ROM");
        emit("  Secondary Slave  [0x170-0x177]: ");
        flush_out();
        sess.pause(cfg.ide_slave_time)?;
        emit_line("None");

        emit_line("");
        emit_line("Scanning PCI bus...");
        let pci_bar = ProgressBar::new(ProgressStyle::Block);
        emit("  Probing 00:00.0 - 00:1F.7: ");
        flush_out();
        let pci_delay = cfg.pci_scan_time / 30;
        let mut j: u64 = 0;
        while j <= 30
            invariant
                sess.wf(),
                j <= 31,
            decreases 31 - j,
        {
            let bar_text = pci_bar.render(j, 30);
            let frame = concat2("\r  Probing 00:00.0 - 00:1F.7: ", bar_text.as_str());
            emit(frame.as_str());
            flush_out();
            sess.pause(pci_delay)?;
            j = j + 1;
        }
        emit_line("");

        sess.pause(200)?;
        let vga = pci_address(rand_range_u64(0x02, 0x10));
        let eth = pci_address(rand_range_u64(0x10, 0x1F));
        let mut vga_line = "  Found ".to_owned();
        vga_line.append(vga.as_str());
        vga_line.append(" - VGA Compatible Controller");
        emit_line(vga_line.as_str());
        sess.pause(cfg.pci_device_time)?;
        let mut eth_line = "  Found ".to_owned();
        eth_line.append(eth.as_str());
        eth_line.append(" - Ethernet Controller");
        emit_line(eth_line.as_str());
        sess.pause(cfg.pci_device_time)?;
        emit_line("  Found 00:1F.3 - SMBus Controller");
        sess.pause(cfg.pci_device_time)?;

        emit_line("");
        let mut net_line = "Network Adapters: ".to_owned();
        net_line.append(u64_string(info.network_count as u64).as_str());
        net_line.append(" detected");
        spinner.animate(net_line.as_str(), cfg.network_detect_time, sess)?;
        spinner.animate("USB Controller: UHCI/EHCI Compatible", cfg.usb_detect_time, sess)?;
        spinner.animate("USB Device(s): 0 connected", cfg.usb_detect_time, sess)?;

        emit_line("");
        let os_line = concat2("Host OS: ", info.os_name.as_str());
        spinner.animate(os_line.as_str(), cfg.system_info_time, sess)?;
        let mut disk_line = "Storage Devices: ".to_owned();
        disk_line.append(u64_string(info.disk_count as u64).as_str());
        disk_line.append(" disk(s) found");
        spinner.animate(disk_line.as_str(), cfg.system_info_time, sess)?;

        let uuid = system_uuid();
        let uuid_line = concat2("System UUID: ", uuid.as_str());
        spinner.animate(uuid_line.as_str(), cfg.uuid_time, sess)?;

        emit_line("");
        spinner.animate("Boot Device Priority:", cfg.boot_priority_time, sess)?;
        emit_line("  1st: Hard Disk Drive");
        emit_line("  2nd: CD-ROM Drive");
        emit_line("  3rd: Network Boot");
        sess.pause(cfg.boot_display_time)?;

        emit_line("");
        emit_line("===============================================================");
        emit_line("  CRITICAL: Firmware Update Sequence Initiated");
        emit_line("===============================================================");
        sess.pause(cfg.firmware_header_delay)?;

        spinner.animate("Backing up current BIOS to NVRAM...", cfg.backup_time, sess)?;
        spinner.animate("Verifying backup integrity... CRC32 OK", cfg.verify_time, sess)?;

        emit_line("");
        emit_line("  WARNING: Do NOT power off or restart during this process!");
        emit_line("  System damage may occur if interrupted!");
        emit_line("");
        sess.pause(cfg.warning_delay)?;

        let flash_bar = ProgressBar::new(ProgressStyle::Block);
        flash_bar.animate(
            "Erasing flash sectors:",
            rand_range_u64(cfg.erase_min, cfg.erase_max),
            sess,
        )?;
        flash_bar.animate(
            "Writing new firmware:",
            rand_range_u64(cfg.write_min, cfg.write_max),
            sess,
        )?;
        flash_bar.animate(
            "Verifying firmware:",
            rand_range_u64(cfg.verify_min, cfg.verify_max),
            sess,
        )?;

        emit_line("");
        spinner.animate("Firmware update complete!", cfg.complete_time, sess)?;
        spinner.animate(
            "Updating ESCD (Extended System Configuration Data)...",
            cfg.escd_time,
            sess,
        )?;

        emit_line("");
        let mut done_line = "BIOS update successful - ".to_owned();
        done_line.append(cfg.version);
        done_line.append(" -> ");
        done_line.append(cfg.new_version);
        emit_line(done_line.as_str());
        emit_line("System will initialize with new firmware");
        sess.pause(cfg.success_delay)?;
        Ok(())
    }
}

/// A random firmware serial of four upper-case hexadecimal groups.
fn bios_serial() -> String {
    let mut s = hex_upper_string(rand_u64() % 0x10000, 4);
    s.append("-");
    s.append(hex_upper_string(rand_u64() % 0x10000, 4).as_str());
    s.append("-");
    s.append(hex_upper_string(rand_u64() % 0x10000, 4).as_str());
    s.append("-");
    s.append(hex_upper_string(rand_u64() % 0x10000, 4).as_str());
    s
}

/// A random system identifier in the usual five-group shape.
fn system_uuid() -> String {
    let mut s = hex_upper_string(rand_u64() % 0x100000000, 8);
    s.append("-");
    s.append(hex_upper_string(rand_u64() % 0x10000, 4).as_str());
    s.append("-");
    s.append(hex_upper_string(rand_u64() % 0x10000, 4).as_str());
    s.append("-");
    s.append(hex_upper_string(rand_u64() % 0x10000, 4).as_str());
    s.append("-");
    s.append(hex_upper_string(rand_u64() % 0x1000000000000, 12).as_str());
    s
}

/// The text of a PCI address on bus zero with the given device number.
fn pci_address(device: u64) -> (r: String)
    requires
        device < 256,
{
    let mut s = "00:".to_owned();
    s.append(hex_upper_string(device, 2).as_str());
    s.append(".0");
    s
}

} // verus!
