//! Synthetic log decorations: a strictly increasing simulated timestamp, a
//! random hexadecimal address, a random version triple, and a progress
//! ratio.  Simulated time lives behind a single owned accumulator so that
//! no call can ever observe or produce a decrease.

use crate::numfmt::{
    dec_pad, dec_pad_spec, dec_spec, dec_u64, extend_chars, hex_pad, hex_pad_spec,
    lemma_hex_pad_len, pad_left, pad_left_spec,
};
use crate::rng::{rand_range_u64, rand_u64};
use crate::textops::string_from_chars;
use vstd::arithmetic::div_mod::{lemma_div_is_ordered, lemma_div_multiples_vanish};
use vstd::prelude::*;

verus! {

/// The smallest simulated-time advance of one timestamp call, in
/// microseconds.
pub const MIN_STEP_US: u64 = 10000;

/// The largest simulated-time advance of one timestamp call, in
/// microseconds (exclusive).
pub const MAX_STEP_US: u64 = 500000;

/// The single point of truth for simulated time: `last_us` only ever grows.
pub struct LogGenerator {
    pub last_us: u64,
}

/// The bracketed timestamp text for a simulated time of `us` microseconds:
/// seconds right-aligned to five columns, a point, six fractional digits.
pub open spec fn timestamp_spec(us: int) -> Seq<char> {
    seq!['['] + pad_left_spec(dec_spec(us / 1000000), 5, ' ') + seq!['.'] + dec_pad_spec(
        us % 1000000,
        6,
    ) + seq![']']
}

/// The text of a random sixteen-digit address: `0x`, then the digits.
pub open spec fn hex_addr_spec(n: int) -> Seq<char> {
    seq!['0', 'x'] + hex_pad_spec(n, 16)
}

/// The text of a version triple.
pub open spec fn version_spec(a: int, b: int, c: int) -> Seq<char> {
    seq!['v'] + dec_spec(a) + seq!['.'] + dec_spec(b) + seq!['.'] + dec_spec(c)
}

/// The text of a progress ratio: the truncated percentage, then
/// `(current/total)`.
pub open spec fn progress_spec(current: int, total: int) -> Seq<char> {
    dec_spec((current * 100) / total) + seq!['%', ' ', '('] + dec_spec(current) + seq!['/']
        + dec_spec(total) + seq![')']
}

impl LogGenerator {
    pub fn new() -> (r: Self)
        ensures
            r.last_us == 0,
    {
        LogGenerator { last_us: 0 }
    }

    /// Advance simulated time by a random amount and render the new time.
    /// Every call strictly increases `last_us`, so timestamps drawn from one
    /// generator form a strictly increasing sequence.
    pub fn timestamp(&mut self) -> (r: String)
        requires
            old(self).last_us + MAX_STEP_US <= u64::MAX,
        ensures
            old(self).last_us + MIN_STEP_US <= final(self).last_us,
            final(self).last_us < old(self).last_us + MAX_STEP_US,
            old(self).last_us < final(self).last_us,
            r@ == timestamp_spec(final(self).last_us as int),
    {
        let delta = rand_range_u64(MIN_STEP_US, MAX_STEP_US);
        self.last_us = self.last_us + delta;
        let us = self.last_us;
        let secs = us / 1000000;
        let frac = us % 1000000;
        let mut cs: Vec<char> = Vec::new();
        cs.push('[');
        let secs_digits = pad_left(dec_u64(secs), 5, ' ');
        extend_chars(&mut cs, &secs_digits);
        cs.push('.');
        let frac_digits = dec_pad(frac, 6);
        extend_chars(&mut cs, &frac_digits);
        cs.push(']');
        proof {
            assert(cs@ =~= timestamp_spec(us as int));
        }
        string_from_chars(&cs)
    }

    /// A random address: nothing is promised of the digits beyond their
    /// shape and count.
    pub fn hex_addr() -> (r: String)
        ensures
            exists|n: u64| r@ == hex_addr_spec(n as int),
            r@.len() == 18,
    {
        let n = rand_u64();
        let mut cs: Vec<char> = Vec::new();
        cs.push('0');
        cs.push('x');
        let digits = hex_pad(n, 16);
        extend_chars(&mut cs, &digits);
        proof {
            lemma_hex_pad_len(n as int, 16);
            assert(cs@ =~= hex_addr_spec(n as int));
        }
        string_from_chars(&cs)
    }

    /// A random version triple `vA.B.C` with `A` in `[1, 10)`, `B` in
    /// `[0, 20)` and `C` in `[0, 50)`.
    pub fn version() -> (r: String)
        ensures
            exists|a: u64, b: u64, c: u64|
                1 <= a < 10 && b < 20 && c < 50 && r@ == version_spec(a as int, b as int, c as int),
    {
        let a = rand_range_u64(1, 10);
        let b = rand_range_u64(0, 20);
        let c = rand_range_u64(0, 50);
        let mut cs: Vec<char> = Vec::new();
        cs.push('v');
        let da = dec_u64(a);
        extend_chars(&mut cs, &da);
        cs.push('.');
        let db = dec_u64(b);
        extend_chars(&mut cs, &db);
        cs.push('.');
        let dc = dec_u64(c);
        extend_chars(&mut cs, &dc);
        proof {
            assert(cs@ =~= version_spec(a as int, b as int, c as int));
        }
        string_from_chars(&cs)
    }

    /// The progress ratio `current` out of `total`, as truncated percentage
    /// and explicit counts.
    pub fn progress(current: usize, total: usize) -> (r: String)
        requires
            1 <= total,
            current <= total,
        ensures
            r@ == progress_spec(current as int, total as int),
    {
        let pct_wide: u128 = (current as u128) * 100 / (total as u128);
        proof {
            lemma_div_is_ordered(
                current as int * 100,
                total as int * 100,
                total as int,
            );
            lemma_div_multiples_vanish(100, total as int);
            assert(current as int * 100 <= total as int * 100) by (nonlinear_arith)
                requires
                    current as int <= total as int,
            ;
        }
        let pct: u64 = pct_wide as u64;
        let mut cs = dec_u64(pct);
        cs.push('%');
        cs.push(' ');
        cs.push('(');
        let dcur = dec_u64(current as u64);
        extend_chars(&mut cs, &dcur);
        cs.push('/');
        let dtot = dec_u64(total as u64);
        extend_chars(&mut cs, &dtot);
        cs.push(')');
        proof {
            assert(cs@ =~= progress_spec(current as int, total as int));
        }
        string_from_chars(&cs)
    }
}

} // verus!
