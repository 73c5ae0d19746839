//! The determinate animation primitive: a proportional bar of fixed width.
//!
//! A fraction is a pair `step / total` of integers, so the fill arithmetic
//! is exact: the filled segment holds `round(step / total * BAR_WIDTH)`
//! glyphs.  Three styles select the glyph pair; the width never varies.

use crate::session::{Interrupted, Session};
use crate::term::{emit, flush_out};
use crate::textops::string_from_chars;
use vstd::arithmetic::div_mod::{
    lemma_div_is_ordered, lemma_div_denominator, lemma_div_multiples_vanish, lemma_basic_div,
};
use vstd::prelude::*;
use vstd::string::StringExecFns;

verus! {

/// Every bar is this many glyphs wide, whatever its style or fraction.
pub const BAR_WIDTH: u64 = 20;

/// The glyph pair used for the filled and empty segments.
#[derive(Clone, Copy, PartialEq, Eq, Structural, Debug)]
pub enum ProgressStyle {
    Block,
    Hash,
    Equals,
}

pub open spec fn filled_glyph(style: ProgressStyle) -> char {
    match style {
        ProgressStyle::Block => '#',
        ProgressStyle::Hash => '*',
        ProgressStyle::Equals => '=',
    }
}

pub open spec fn empty_glyph(style: ProgressStyle) -> char {
    match style {
        ProgressStyle::Block => '.',
        ProgressStyle::Hash => '-',
        ProgressStyle::Equals => ' ',
    }
}

/// How many of the `BAR_WIDTH` glyphs are filled for the fraction
/// `step / total`, clamped to one, rounded to the nearest glyph.
pub open spec fn filled_count(step: int, total: int) -> int
    recommends
        total >= 1,
{
    let s = if step < total {
        step
    } else {
        total
    };
    (2 * s * (BAR_WIDTH as int) + total) / (2 * total)
}

/// The exact text of a rendered bar: the filled glyphs, then the empty ones,
/// wrapped in fixed boundary characters.
pub open spec fn render_spec(style: ProgressStyle, step: int, total: int) -> Seq<char> {
    let k = filled_count(step, total);
    seq!['['] + Seq::new(BAR_WIDTH as nat, |i: int| if i < k {
        filled_glyph(style)
    } else {
        empty_glyph(style)
    }) + seq![']']
}

/// Scaling a quotient's numerator and denominator by a positive factor does
/// not change its floor.
proof fn lemma_div_scaled(a: int, b: int, m: int)
    requires
        a >= 0,
        b >= 1,
        m >= 1,
    ensures
        (m * a) / (m * b) == a / b,
{
    lemma_div_denominator(m * a, m, b);
    lemma_div_multiples_vanish(a, m);
}

/// The filled count never leaves the bar: it lies between zero and
/// `BAR_WIDTH` for every fraction.
pub proof fn lemma_filled_bounds(step: int, total: int)
    requires
        step >= 0,
        total >= 1,
    ensures
        0 <= filled_count(step, total) <= BAR_WIDTH,
{
    let w = BAR_WIDTH as int;
    let s = if step < total {
        step
    } else {
        total
    };
    lemma_div_is_ordered(0, 2 * s * w + total, 2 * total);
    lemma_basic_div(0, 2 * total);
    assert(2 * s * w <= 2 * total * w) by (nonlinear_arith)
        requires
            0 <= s <= total,
            w >= 0,
    ;
    lemma_div_is_ordered(2 * s * w + total, total * (2 * w + 1), 2 * total);
    assert(total * (2 * w + 1) == total * (2 * w + 1)) by (nonlinear_arith);
    assert((total * (2 * w + 1)) / (total * 2) == (2 * w + 1) / 2) by {
        lemma_div_scaled(2 * w + 1, 2, total);
    }
    assert(total * 2 == 2 * total) by (nonlinear_arith);
}

/// A zero fraction fills nothing.
pub proof fn lemma_filled_zero(total: int)
    requires
        total >= 1,
    ensures
        filled_count(0, total) == 0,
{
    lemma_basic_div(total, 2 * total);
}

/// A full (or clamped overfull) fraction fills the whole bar.
pub proof fn lemma_filled_full(step: int, total: int)
    requires
        total >= 1,
        step >= total,
    ensures
        filled_count(step, total) == BAR_WIDTH,
{
    let w = BAR_WIDTH as int;
    assert(2 * total * w + total == total * (2 * w + 1)) by (nonlinear_arith);
    assert((total * (2 * w + 1)) / (total * 2) == (2 * w + 1) / 2) by {
        lemma_div_scaled(2 * w + 1, 2, total);
    }
    assert(total * 2 == 2 * total) by (nonlinear_arith);
}

/// Raising the fraction never empties glyphs: if `s1 / t1 <= s2 / t2` then
/// the first bar's filled segment is no longer than the second's, whatever
/// the two denominators are.
pub proof fn lemma_filled_monotonic(s1: int, t1: int, s2: int, t2: int)
    requires
        0 <= s1 <= t1,
        0 <= s2 <= t2,
        t1 >= 1,
        t2 >= 1,
        s1 * t2 <= s2 * t1,
    ensures
        filled_count(s1, t1) <= filled_count(s2, t2),
{
    let w = BAR_WIDTH as int;
    let a1 = 2 * s1 * w + t1;
    let b1 = 2 * t1;
    let a2 = 2 * s2 * w + t2;
    let b2 = 2 * t2;
    assert(a1 * b2 <= a2 * b1) by (nonlinear_arith)
        requires
            a1 == 2 * s1 * w + t1,
            b1 == 2 * t1,
            a2 == 2 * s2 * w + t2,
            b2 == 2 * t2,
            s1 * t2 <= s2 * t1,
            w >= 0,
            t1 >= 1,
            t2 >= 1,
    ;
    assert(b1 * b2 > 0) by (nonlinear_arith)
        requires
            b1 == 2 * t1,
            b2 == 2 * t2,
            t1 >= 1,
            t2 >= 1,
    ;
    lemma_div_is_ordered(a1 * b2, a2 * b1, b1 * b2);
    assert((a1 * b2) / (b1 * b2) == (b2 * a1) / (b2 * b1)) by (nonlinear_arith)
        requires
            a1 * b2 == b2 * a1,
            b1 * b2 == b2 * b1,
    ;
    lemma_div_scaled(a1, b1, b2);
    assert((a2 * b1) / (b1 * b2) == (b1 * a2) / (b1 * b2)) by (nonlinear_arith)
        requires
            a2 * b1 == b1 * a2,
    ;
    lemma_div_scaled(a2, b2, b1);
}

/// A fixed-width proportional bar with a glyph style and a step granularity
/// for its timed animation.
pub struct ProgressBar {
    pub style: ProgressStyle,
    pub steps: u64,
}

impl ProgressBar {
    /// The animation granularity is at least one step.
    pub open spec fn wf(&self) -> bool {
        self.steps >= 1
    }

    pub open spec fn spec_style(&self) -> ProgressStyle {
        self.style
    }

    pub open spec fn spec_steps(&self) -> u64 {
        self.steps
    }

    pub fn new(style: ProgressStyle) -> (r: Self)
        ensures
            r.wf(),
            r.style == style,
            r.steps == 20,
    {
        ProgressBar { style, steps: 20 }
    }

    /// A bar with a caller-chosen animation granularity: more steps for a
    /// longer bar, fewer for a short one.
    pub fn with_steps(style: ProgressStyle, steps: u64) -> (r: Self)
        requires
            steps >= 1,
        ensures
            r.wf(),
            r.style == style,
            r.steps == steps,
    {
        ProgressBar { style, steps }
    }

    /// Render the bar for the fraction `step / total`.  Pure: the text is
    /// exactly `render_spec`, and its length never depends on the fraction.
    pub fn render(&self, step: u64, total: u64) -> (r: String)
        requires
            total >= 1,
        ensures
            r@ == render_spec(self.style, step as int, total as int),
            r@.len() == BAR_WIDTH + 2,
    {
        let s: u64 = if step < total {
            step
        } else {
            total
        };
        let num: u128 = 2 * (s as u128) * (BAR_WIDTH as u128) + (total as u128);
        let den: u128 = 2 * (total as u128);
        proof {
            lemma_filled_bounds(step as int, total as int);
        }
        let k: u64 = (num / den) as u64;
        let fg = filled_char(self.style);
        let eg = empty_char(self.style);
        let mut cs: Vec<char> = Vec::new();
        cs.push('[');
        let mut i: u64 = 0;
        while i < BAR_WIDTH
            invariant
                i <= BAR_WIDTH,
                k == filled_count(step as int, total as int),
                fg == filled_glyph(self.style),
                eg == empty_glyph(self.style),
                cs@.len() == i + 1,
                cs@[0] == '[',
                forall|j: int| 1 <= j < cs@.len() ==> cs@[j] == (if j - 1 < k {
                    filled_glyph(self.style)
                } else {
                    empty_glyph(self.style)
                }),
            decreases BAR_WIDTH - i,
        {
            if i < k {
                cs.push(fg);
            } else {
                cs.push(eg);
            }
            i = i + 1;
        }
        cs.push(']');
        proof {
            assert(cs@ =~= render_spec(self.style, step as int, total as int));
        }
        string_from_chars(&cs)
    }

    /// Animate `label` and the bar from empty to full over
    /// `total_duration_ms`, one frame per step plus the final full frame,
    /// polling the cancellation signal before every frame and returning
    /// `Interrupted` the instant it is observed set.
    pub fn animate<C: Fn() -> bool, S: Fn(u64)>(
        &self,
        label: &str,
        total_duration_ms: u64,
        sess: &Session<C, S>,
    ) -> (r: Result<(), Interrupted>)
        requires
            self.wf(),
            sess.wf(),
        ensures
            r is Ok ==> sess.may_continue(),
            r is Err ==> sess.may_cancel(),
    {
        let n = self.steps;
        let delay = total_duration_ms / n;
        let mut i: u64 = 0;
        while i < n
            invariant
                self.wf(),
                sess.wf(),
                n == self.steps,
                i <= n,
            decreases n - i,
        {
            if sess.cancelled() {
                return Err(Interrupted);
            }
            self.frame(label, i, n);
            sess.wait_ms(delay);
            i = i + 1;
        }
        if sess.cancelled() {
            return Err(Interrupted);
        }
        self.frame(label, n, n);
        sess.wait_ms(delay);
        emit(" OK\n");
        flush_out();
        Ok(())
    }

    /// Overwrite the current line with `label` and the bar at `step / total`.
    fn frame(&self, label: &str, step: u64, total: u64)
        requires
            total >= 1,
    {
        let bar = self.render(step, total);
        let mut cs: Vec<char> = Vec::new();
        cs.push('\r');
        let mut line = string_from_chars(&cs);
        line.append(label);
        line.append(" ");
        line.append(bar.as_str());
        emit(line.as_str());
        flush_out();
    }
}

/// The executable twin of `filled_glyph`.
fn filled_char(style: ProgressStyle) -> (r: char)
    ensures
        r == filled_glyph(style),
{
    match style {
        ProgressStyle::Block => '#',
        ProgressStyle::Hash => '*',
        ProgressStyle::Equals => '=',
    }
}

/// The executable twin of `empty_glyph`.
fn empty_char(style: ProgressStyle) -> (r: char)
    ensures
        r == empty_glyph(style),
{
    match style {
        ProgressStyle::Block => '.',
        ProgressStyle::Hash => '-',
        ProgressStyle::Equals => ' ',
    }
}

} // verus!
