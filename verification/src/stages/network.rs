//! The network configuration narrative.

use crate::numfmt::u64_string;
use crate::rng::{chance, rand_index, rand_range_u64};
use crate::session::{Interrupted, Session};
use crate::stages::emit_stage_header;
use crate::term::emit_line;
use crate::textops::concat2;
use crate::ui::spinner::Spinner;
use vstd::prelude::*;
use vstd::string::StringExecFns;

verus! {

pub struct NetworkStage;

/// The interface name the narrative claims to configure.
fn interface_name(pick: usize) -> &'static str {
    if pick == 0 {
        "eth0"
    } else if pick == 1 {
        "enp0s3"
    } else {
        "wlan0"
    }
}

impl NetworkStage {
    /// The display label of this stage.
    pub fn name(&self) -> &'static str {
        "Network Configuration"
    }

    /// The narrated network setup: a DHCP lease, DNS configuration and an
    /// optional connectivity test, abandoned the instant the cancellation
    /// signal is observed.
    pub fn run<C: Fn() -> bool, S: Fn(u64)>(&self, sess: &Session<C, S>) -> (r: Result<
        (),
        Interrupted,
    >)
        requires
            sess.wf(),
        ensures
            r is Ok ==> sess.may_continue(),
            r is Err ==> sess.may_cancel(),
    {
        emit_stage_header(self.name());
        let mut spinner = Spinner::new();
        emit_line("Configuring network interfaces...");
        sess.pause(500)?;
        let interface = interface_name(rand_index(3));
        let iline = concat2("  Interface: ", interface);
        emit_line(iline.as_str());
        sess.pause(300)?;
        let lease = concat2("Requesting DHCP lease on ", interface);
        spinner.animate(lease.as_str(), 2000, sess)?;
        let oct3 = u64_string(rand_range_u64(0, 255));
        let host = u64_string(rand_range_u64(2, 254));
        let mut ip = "  IP Address: 192.168.".to_owned();
        ip.append(oct3.as_str());
        ip.append(".");
        ip.append(host.as_str());
        emit_line(ip.as_str());
        emit_line("  Netmask: 255.255.255.0");
        let gw3 = u64_string(rand_range_u64(0, 255));
        let mut gateway = "  Gateway: 192.168.".to_owned();
        gateway.append(gw3.as_str());
        gateway.append(".1");
        emit_line(gateway.as_str());
        emit_line("  DNS: 8.8.8.8, 8.8.4.4");
        sess.pause(600)?;
        emit_line("");
        spinner.animate("Configuring DNS resolution...", 1200, sess)?;
        emit_line("Updating /etc/resolv.conf");
        sess.pause(400)?;
        if chance(30) {
            emit_line("");
            spinner.animate("Testing network connectivity...", 1500, sess)?;
            emit_line("Network is reachable");
        }
        Ok(())
    }
}

} // verus!
