//! The indeterminate animation primitive: a rotating four-glyph indicator
//! redrawn in place once per tick until its duration elapses or the
//! cancellation signal is observed.

use crate::session::{Interrupted, Session};
use crate::term::{emit, flush_out};
use crate::textops::string_from_chars;
use vstd::prelude::*;
use vstd::string::StringExecFns;

verus! {

/// One animation tick lasts this many milliseconds.
pub const TICK_MS: u64 = 100;

/// A rotating indicator. `index` selects the glyph the next tick shows;
/// `ticks` counts every tick ever rendered by this spinner.
pub struct Spinner {
    pub chars: Vec<char>,
    pub index: usize,
    pub ticks: u64,
}

/// Everything `animate` promises about a finished call: how far the glyph
/// wheel turned, how many ticks were rendered, and what was learnt about the
/// cancellation signal.
///
/// * On success every one of the `duration_ms / TICK_MS` ticks was rendered, and
///   if there was at least one, the signal was seen clear.
/// * On interruption the signal was seen set, not every tick was rendered,
///   and if any tick was rendered at all, the signal was also seen clear
///   earlier - so a signal that is set from the start stops the spinner
///   before its first tick.
pub open spec fn animate_post<C: Fn() -> bool, S: Fn(u64)>(
    pre: Spinner,
    post: Spinner,
    sess: Session<C, S>,
    duration_ms: u64,
    r: Result<(), Interrupted>,
) -> bool {
    let steps = duration_ms / TICK_MS;
    &&& post.wf()
    &&& pre.ticks <= post.ticks
    &&& post.index as int == (pre.index + (post.ticks - pre.ticks)) % 4
    &&& if r is Ok {
        &&& post.ticks == pre.ticks + steps
        &&& steps > 0 ==> sess.may_continue()
    } else {
        &&& sess.may_cancel()
        &&& post.ticks < pre.ticks + steps
        &&& post.ticks > pre.ticks ==> sess.may_continue()
    }
}

impl Spinner {
    /// The glyph wheel always holds the four rotation glyphs and `index`
    /// stays inside it.
    pub open spec fn wf(&self) -> bool {
        &&& self.chars@ == seq!['|', '/', '-', '\\']
        &&& self.index < 4
    }

    pub open spec fn spec_index(&self) -> usize {
        self.index
    }

    pub open spec fn spec_ticks(&self) -> u64 {
        self.ticks
    }

    pub fn new() -> (r: Self)
        ensures
            r.wf(),
            r.index == 0,
            r.ticks == 0,
    {
        Spinner { chars: vec!['|', '/', '-', '\\'], index: 0, ticks: 0 }
    }

    /// How many ticks this spinner has rendered over its lifetime.
    pub fn ticks(&self) -> (r: u64)
        ensures
            r == self.ticks,
    {
        self.ticks
    }

    /// Return the current glyph and advance the wheel by one position.
    pub fn next(&mut self) -> (c: char)
        requires
            old(self).wf(),
        ensures
            final(self).wf(),
            final(self).ticks == old(self).ticks,
            c == old(self).chars@[old(self).index as int],
            final(self).index == (old(self).index + 1) % 4,
    {
        let c = self.chars[self.index];
        self.index = (self.index + 1) % 4;
        c
    }

    /// Animate `message` for `duration_ms / TICK_MS` ticks: before every tick the
    /// cancellation signal is polled, and the instant it is observed set the
    /// call returns `Interrupted` without rendering that tick.  A completed
    /// run settles the line with a fixed placeholder and a newline.
    pub fn animate<C: Fn() -> bool, S: Fn(u64)>(
        &mut self,
        message: &str,
        duration_ms: u64,
        sess: &Session<C, S>,
    ) -> (r: Result<(), Interrupted>)
        requires
            old(self).wf(),
            sess.wf(),
            old(self).ticks + duration_ms / TICK_MS <= u64::MAX,
        ensures
            animate_post(*old(self), *final(self), *sess, duration_ms, r),
    {
        let steps: u64 = duration_ms / TICK_MS;
        let ghost pre = *self;
        let mut i: u64 = 0;
        while i < steps
            invariant
                self.wf(),
                sess.wf(),
                i <= steps,
                steps == duration_ms / TICK_MS,
                pre == *old(self),
                pre.wf(),
                pre.ticks + steps <= u64::MAX,
                self.ticks == pre.ticks + i,
                self.index as int == (pre.index + i) % 4,
                i > 0 ==> sess.may_continue(),
            decreases steps - i,
        {
            if sess.cancelled() {
                return Err(Interrupted);
            }
            let g = self.next();
            let line = tick_line(g, message);
            emit(line.as_str());
            flush_out();
            sess.wait_ms(TICK_MS);
            proof {
                vstd::arithmetic::div_mod::lemma_add_mod_noop(
                    pre.index + i as int,
                    1,
                    4,
                );
            }
            self.ticks = self.ticks + 1;
            i = i + 1;
        }
        let line = settled_line(message);
        emit(line.as_str());
        flush_out();
        Ok(())
    }
}

impl Default for Spinner {
    fn default() -> (r: Self)
        ensures
            r.wf(),
            r.index == 0,
            r.ticks == 0,
    {
        Spinner::new()
    }
}

/// If the cancellation signal can never report true, an animate call renders
/// every tick of its duration and succeeds.
pub proof fn lemma_animate_runs_to_completion<C: Fn() -> bool, S: Fn(u64)>(
    pre: Spinner,
    post: Spinner,
    sess: Session<C, S>,
    duration_ms: u64,
    r: Result<(), Interrupted>,
)
    requires
        !sess.may_cancel(),
        animate_post(pre, post, sess, duration_ms, r),
    ensures
        r is Ok,
        post.spec_ticks() == pre.spec_ticks() + duration_ms / TICK_MS,
{
}

/// If the cancellation signal can never report false and there is at least
/// one tick to render, an animate call is interrupted before rendering any
/// tick at all.
pub proof fn lemma_animate_interrupted_at_once<C: Fn() -> bool, S: Fn(u64)>(
    pre: Spinner,
    post: Spinner,
    sess: Session<C, S>,
    duration_ms: u64,
    r: Result<(), Interrupted>,
)
    requires
        pre.wf(),
        !sess.may_continue(),
        duration_ms / TICK_MS >= 1,
        animate_post(pre, post, sess, duration_ms, r),
    ensures
        r is Err,
        post.spec_ticks() == pre.spec_ticks(),
        post.spec_index() == pre.spec_index(),
{
}

/// The in-place tick line: carriage return, the glyph, a space, the message.
fn tick_line(glyph: char, message: &str) -> (r: String)
    ensures
        r@ == seq!['\r', glyph, ' '] + message@,
{
    let mut cs: Vec<char> = Vec::new();
    cs.push('\r');
    cs.push(glyph);
    cs.push(' ');
    proof {
        assert(cs@ =~= seq!['\r', glyph, ' ']);
    }
    let mut line = string_from_chars(&cs);
    line.append(message);
    line
}

/// The settled line that replaces the spinner once a run completes: the
/// rotating glyph gives way to fixed blanks and the line gains its newline.
fn settled_line(message: &str) -> (r: String)
    ensures
        r@ == seq!['\r', ' ', ' '] + message@ + seq!['\n'],
{
    let mut cs: Vec<char> = Vec::new();
    cs.push('\r');
    cs.push(' ');
    cs.push(' ');
    proof {
        assert(cs@ =~= seq!['\r', ' ', ' ']);
    }
    let mut line = string_from_chars(&cs);
    line.append(message);
    line.append("\n");
    proof {
        reveal_strlit("\n");
        assert(line@ =~= seq!['\r', ' ', ' '] + message@ + seq!['\n']);
    }
    line
}

} // verus!
