//! The system services startup narrative.

use crate::rng::rand_range_u64;
use crate::session::{Interrupted, Session};
use crate::stages::emit_stage_header;
use crate::term::{emit, emit_line, flush_out};
use crate::textops::concat3;
use vstd::prelude::*;

verus! {

pub struct ServicesStage;

/// The description of the service started at position `pick`.
fn service_desc(pick: usize) -> &'static str {
    if pick == 0 {
        "Network Manager"
    } else if pick == 1 {
        "Network Name Resolution"
    } else if pick == 2 {
        "OpenSSH server daemon"
    } else if pick == 3 {
        "Regular background program processing daemon"
    } else if pick == 4 {
        "System Logging Service"
    } else if pick == 5 {
        "D-Bus System Message Bus"
    } else if pick == 6 {
        "Avahi mDNS/DNS-SD Stack"
    } else if pick == 7 {
        "CUPS Scheduler"
    } else if pick == 8 {
        "Bluetooth service"
    } else {
        "The Apache HTTP Server"
    }
}

impl ServicesStage {
    /// The display label of this stage.
    pub fn name(&self) -> &'static str {
        "System Services Configuration"
    }

    /// Start ten narrated services, each with an in-place "starting" line
    /// settled to an "[ OK ]" line, abandoned the instant the cancellation
    /// signal is observed.
    pub fn run<C: Fn() -> bool, S: Fn(u64)>(&self, sess: &Session<C, S>) -> (r: Result<
        (),
        Interrupted,
    >)
        requires
            sess.wf(),
        ensures
            r is Ok ==> sess.may_continue(),
            r is Err ==> sess.may_cancel(),
    {
        emit_stage_header(self.name());
        emit_line("Starting system services...");
        emit_line("");
        let mut i: usize = 0;
        while i < 10
            invariant
                sess.wf(),
                i <= 10,
                i > 0 ==> sess.may_continue(),
            decreases 10 - i,
        {
            let desc = service_desc(i);
            let starting = concat3("[ ** ] Starting ", desc, "...");
            emit(starting.as_str());
            flush_out();
            sess.pause(rand_range_u64(300, 800))?;
            emit("\r");
            let started = concat3("[ OK ] Started ", desc, ".");
            emit_line(started.as_str());
            sess.pause(rand_range_u64(100, 300))?;
            i = i + 1;
        }
        emit_line("");
        emit_line("Loaded 10 services, 10 active");
        Ok(())
    }
}

} // verus!
