//! The localization configuration narrative.

use crate::rng::{rand_index, rand_range_u64};
use crate::session::{Interrupted, Session};
use crate::stages::emit_stage_header;
use crate::term::emit_line;
use crate::textops::{concat2, concat3};
use crate::ui::progress::{ProgressBar, ProgressStyle};
use vstd::prelude::*;

verus! {

pub struct LocaleStage;

/// The locale generated at position `pick`.
fn locale_name(pick: usize) -> &'static str {
    if pick == 0 {
        "en_US.UTF-8"
    } else if pick == 1 {
        "en_GB.UTF-8"
    } else if pick == 2 {
        "de_DE.UTF-8"
    } else if pick == 3 {
        "fr_FR.UTF-8"
    } else if pick == 4 {
        "es_ES.UTF-8"
    } else if pick == 5 {
        "ja_JP.UTF-8"
    } else {
        "zh_CN.UTF-8"
    }
}

/// The timezone the narrative claims to pick.
fn timezone_name(pick: usize) -> &'static str {
    if pick == 0 {
        "America/New_York"
    } else if pick == 1 {
        "America/Los_Angeles"
    } else if pick == 2 {
        "Europe/London"
    } else if pick == 3 {
        "Europe/Berlin"
    } else {
        "Asia/Tokyo"
    }
}

impl LocaleStage {
    /// The display label of this stage.
    pub fn name(&self) -> &'static str {
        "Localization Configuration"
    }

    /// Generate seven narrated locales, build the locale archive and pick a
    /// timezone, abandoned the instant the cancellation signal is observed.
    pub fn run<C: Fn() -> bool, S: Fn(u64)>(&self, sess: &Session<C, S>) -> (r: Result<
        (),
        Interrupted,
    >)
        requires
            sess.wf(),
        ensures
            r is Ok ==> sess.may_continue(),
            r is Err ==> sess.may_cancel(),
    {
        emit_stage_header(self.name());
        emit_line("Generating locales...");
        sess.pause(500)?;
        let mut i: usize = 0;
        while i < 7
            invariant
                sess.wf(),
                i <= 7,
            decreases 7 - i,
        {
            let line = concat3("Generating locale ", locale_name(i), "... ");
            emit_line(line.as_str());
            sess.pause(rand_range_u64(300, 700))?;
            emit_line("done");
            i = i + 1;
        }
        emit_line("");
        let bar = ProgressBar::new(ProgressStyle::Hash);
        bar.animate("Building locale archive:", rand_range_u64(2000, 3000), sess)?;
        emit_line("");
        emit_line("Configuring timezone...");
        let tz = timezone_name(rand_index(5));
        let tz_line = concat2("  Timezone set to: ", tz);
        emit_line(tz_line.as_str());
        sess.pause(600)?;
        Ok(())
    }
}

} // verus!
