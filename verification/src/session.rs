//! The cancellation and pacing context threaded through every animation.
//!
//! The engine never owns its cancellation signal: the caller hands in a
//! zero-argument predicate that is polled before every timed step, together
//! with a sleep routine that performs the actual waiting.  Both are ordinary
//! closures, so a caller can plug in a real key-press poll and a real sleep,
//! or deterministic substitutes.

use vstd::prelude::*;

verus! {

/// The only error the engine produces: the cancellation signal was observed.
#[derive(Clone, Copy, PartialEq, Eq, Structural, Debug)]
pub struct Interrupted;

/// The externally owned cancellation predicate plus the pacing routine.
///
/// `cancel` is purely advisory: the engine polls it and never sets it.
/// `sleep` receives a duration in milliseconds and blocks for about that
/// long; the engine pre-computes every duration it passes.
pub struct Session<C, S> where C: Fn() -> bool, S: Fn(u64) {
    pub cancel: C,
    pub sleep: S,
}

impl<C: Fn() -> bool, S: Fn(u64)> Session<C, S> {
    /// Both closures can be called with any argument the engine supplies.
    pub open spec fn wf(&self) -> bool {
        &&& call_requires(self.cancel, ())
        &&& forall|ms: u64| call_requires(self.sleep, (ms,))
    }

    /// The signal admits reporting a cancellation.
    pub open spec fn may_cancel(&self) -> bool {
        call_ensures(self.cancel, (), true)
    }

    /// The signal admits reporting "keep going".
    pub open spec fn may_continue(&self) -> bool {
        call_ensures(self.cancel, (), false)
    }

    pub fn new(cancel: C, sleep: S) -> (r: Self)
        requires
            call_requires(cancel, ()),
            forall|ms: u64| call_requires(sleep, (ms,)),
        ensures
            r.wf(),
            r.cancel == cancel,
            r.sleep == sleep,
    {
        Session { cancel, sleep }
    }

    /// Poll the cancellation signal once.
    pub fn cancelled(&self) -> (r: bool)
        requires
            self.wf(),
        ensures
            call_ensures(self.cancel, (), r),
            r ==> self.may_cancel(),
            !r ==> self.may_continue(),
    {
        (self.cancel)()
    }

    /// Block for about `ms` milliseconds without polling the signal.
    pub fn wait_ms(&self, ms: u64)
        requires
            self.wf(),
    {
        (self.sleep)(ms)
    }

    /// A cancellable wait: poll the signal first and only sleep when it is
    /// clear, so no timed step runs after a cancellation was observed.
    pub fn pause(&self, ms: u64) -> (r: Result<(), Interrupted>)
        requires
            self.wf(),
        ensures
            r.is_ok() ==> self.may_continue(),
            r.is_err() ==> self.may_cancel(),
    {
        if self.cancelled() {
            Err(Interrupted)
        } else {
            self.wait_ms(ms);
            Ok(())
        }
    }
}

} // verus!
