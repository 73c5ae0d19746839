use installer_sim::build_logs::BuildLogs;
use installer_sim::installer::{Installer, Stage};
use installer_sim::kernel_logs::KernelLogs;
use installer_sim::session::{Interrupted, Session};
use installer_sim::stages::bootloader::BootloaderStage;
use installer_sim::stages::compilation::CompilationStage;
use installer_sim::stages::database::DatabaseStage;
use installer_sim::stages::kernel::KernelStage;
use installer_sim::stages::services::ServicesStage;

#[test]
fn sequencer_with_empty_stage_list_terminates_with_interrupted() {
    // the banner itself is not cancellable; the first polled check after it
    // observes the signal and unwinds
    let installer = Installer::new(Vec::new());
    let sess = Session::new(|| true, |_ms: u64| ());
    let r = installer.run(&sess);
    assert_eq!(r, Err(Interrupted));
}

#[test]
fn sequencer_propagates_interrupt_from_inside_a_stage() {
    let polls = std::cell::Cell::new(0u32);
    let cancel = || {
        let seen = polls.get();
        polls.set(seen + 1);
        seen >= 5
    };
    let mut stages = Vec::new();
    stages.push(Stage::Services(ServicesStage));
    let installer = Installer::new(stages);
    let sess = Session::new(cancel, |_ms: u64| ());
    assert_eq!(installer.run(&sess), Err(Interrupted));
}

#[test]
fn stage_list_carries_names() {
    let all = Stage::all();
    assert_eq!(all.len(), 11);
    assert_eq!(all[0].name(), "BIOS/Firmware Update Sequence");
    assert_eq!(all[10].name(), "Database Server Installation");
}

#[test]
fn stage_run_completes_when_never_cancelled() {
    let sess = Session::new(|| false, |_ms: u64| ());
    assert!(BootloaderStage.run(&sess).is_ok());
    assert!(DatabaseStage.run(&sess).is_ok());
}

#[test]
fn stage_run_interrupts_immediately_when_cancelled() {
    let sess = Session::new(|| true, |_ms: u64| ());
    assert_eq!(BootloaderStage.run(&sess), Err(Interrupted));
    assert_eq!(DatabaseStage.run(&sess), Err(Interrupted));
}

#[test]
fn kernel_stage_replays_its_corpus_and_completes() {
    let corpus = KernelLogs::load(Some(
        "[    0.100000] quiet line\n[    0.200000] Initializing subsystem\n[    0.300000] another quiet line\n",
    ));
    let stage = KernelStage::new(corpus);
    let sess = Session::new(|| false, |_ms: u64| ());
    assert!(stage.run(&sess).is_ok());
}

#[test]
fn compilation_stage_replays_its_corpus_and_completes() {
    let corpus = BuildLogs::load(Some("  CC      a.o\nplain note\n  LD      b.a\n"));
    let stage = CompilationStage::new(corpus);
    let sess = Session::new(|| false, |_ms: u64| ());
    assert!(stage.run(&sess).is_ok());
}
