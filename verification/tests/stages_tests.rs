use installer_sim::session::{Interrupted, Session};
use installer_sim::stages::bios::BiosStage;
use installer_sim::stages::filesystem::FilesystemStage;
use installer_sim::stages::initramfs::InitramfsStage;
use installer_sim::stages::locale::LocaleStage;
use installer_sim::stages::network::NetworkStage;
use installer_sim::stages::packages::PackagesStage;
use installer_sim::stages::services::ServicesStage;

#[test]
fn narrative_stages_complete_when_never_cancelled() {
    let sess = Session::new(|| false, |_ms: u64| ());
    assert!(FilesystemStage.run(&sess).is_ok());
    assert!(InitramfsStage.run(&sess).is_ok());
    assert!(LocaleStage.run(&sess).is_ok());
    assert!(NetworkStage.run(&sess).is_ok());
    assert!(PackagesStage.run(&sess).is_ok());
    assert!(ServicesStage.run(&sess).is_ok());
}

#[test]
fn narrative_stages_interrupt_immediately_when_cancelled() {
    let sess = Session::new(|| true, |_ms: u64| ());
    assert_eq!(FilesystemStage.run(&sess), Err(Interrupted));
    assert_eq!(InitramfsStage.run(&sess), Err(Interrupted));
    assert_eq!(LocaleStage.run(&sess), Err(Interrupted));
    assert_eq!(NetworkStage.run(&sess), Err(Interrupted));
    assert_eq!(PackagesStage.run(&sess), Err(Interrupted));
    assert_eq!(ServicesStage.run(&sess), Err(Interrupted));
}

#[test]
fn firmware_stage_completes_on_the_real_host_facts() {
    let sess = Session::new(|| false, |_ms: u64| ());
    assert!(BiosStage.run(&sess).is_ok());
}

#[test]
fn firmware_stage_interrupts_immediately_when_cancelled() {
    let sess = Session::new(|| true, |_ms: u64| ());
    assert_eq!(BiosStage.run(&sess), Err(Interrupted));
}
