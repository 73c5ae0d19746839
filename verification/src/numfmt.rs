//! Exact decimal and hexadecimal text for unsigned values: variable-width
//! decimal, fixed-width zero-padded decimal and hexadecimal, and left
//! padding.  Every renderer is pure and pinned to its specification.

use crate::textops::string_from_chars;
use vstd::prelude::*;

verus! {

/// Render `n` in decimal, as a string.
pub fn u64_string(n: u64) -> (r: String)
    ensures
        r@ == dec_spec(n as int),
{
    let digits = dec_u64(n);
    string_from_chars(&digits)
}

/// The character for one digit value below sixteen: `0`-`9`, then `a`-`f`.
pub open spec fn digit_spec(d: int) -> char
    recommends
        0 <= d < 16,
{
    if d < 10 {
        ((d + 0x30) as u8) as char
    } else {
        ((d + 0x57) as u8) as char
    }
}

fn digit_char(d: u64) -> (c: char)
    requires
        d < 16,
    ensures
        c == digit_spec(d as int),
{
    if d < 10 {
        (0x30u8 + (d as u8)) as char
    } else {
        (0x57u8 + (d as u8)) as char
    }
}

/// The ordinary decimal rendering of `n`, most significant digit first.
pub open spec fn dec_spec(n: int) -> Seq<char>
    recommends
        n >= 0,
    decreases n,
{
    if n < 10 {
        seq![digit_spec(n)]
    } else {
        dec_spec(n / 10).push(digit_spec(n % 10))
    }
}

/// Render `n` in decimal.
pub fn dec_u64(n: u64) -> (r: Vec<char>)
    ensures
        r@ == dec_spec(n as int),
    decreases n,
{
    if n < 10 {
        let mut v: Vec<char> = Vec::new();
        v.push(digit_char(n));
        proof {
            assert(v@ =~= seq![digit_spec(n as int)]);
        }
        v
    } else {
        let mut v = dec_u64(n / 10);
        v.push(digit_char(n % 10));
        v
    }
}

/// The low `w` decimal digits of `n`, zero padded to exactly `w` characters.
pub open spec fn dec_pad_spec(n: int, w: nat) -> Seq<char>
    decreases w,
{
    if w == 0 {
        Seq::empty()
    } else {
        dec_pad_spec(n / 10, (w - 1) as nat).push(digit_spec(n % 10))
    }
}

/// Render the low `w` decimal digits of `n`, zero padded.
pub fn dec_pad(n: u64, w: usize) -> (r: Vec<char>)
    ensures
        r@ == dec_pad_spec(n as int, w as nat),
    decreases w,
{
    if w == 0 {
        let v: Vec<char> = Vec::new();
        proof {
            assert(v@ =~= dec_pad_spec(n as int, 0));
        }
        v
    } else {
        let mut v = dec_pad(n / 10, w - 1);
        v.push(digit_char(n % 10));
        v
    }
}

/// The low `w` hexadecimal digits of `n`, zero padded to exactly `w`
/// characters.
pub open spec fn hex_pad_spec(n: int, w: nat) -> Seq<char>
    decreases w,
{
    if w == 0 {
        Seq::empty()
    } else {
        hex_pad_spec(n / 16, (w - 1) as nat).push(digit_spec(n % 16))
    }
}

pub proof fn lemma_hex_pad_len(n: int, w: nat)
    ensures
        hex_pad_spec(n, w).len() == w,
    decreases w,
{
    if w > 0 {
        lemma_hex_pad_len(n / 16, (w - 1) as nat);
    }
}

/// Render the low `w` hexadecimal digits of `n`, zero padded.
pub fn hex_pad(n: u64, w: usize) -> (r: Vec<char>)
    ensures
        r@ == hex_pad_spec(n as int, w as nat),
    decreases w,
{
    if w == 0 {
        let v: Vec<char> = Vec::new();
        proof {
            assert(v@ =~= hex_pad_spec(n as int, 0));
        }
        v
    } else {
        let mut v = hex_pad(n / 16, w - 1);
        v.push(digit_char(n % 16));
        v
    }
}

/// The character for one digit value below sixteen, upper case: `0`-`9`,
/// then `A`-`F`.
pub open spec fn digit_upper_spec(d: int) -> char
    recommends
        0 <= d < 16,
{
    if d < 10 {
        ((d + 0x30) as u8) as char
    } else {
        ((d + 0x37) as u8) as char
    }
}

fn digit_upper_char(d: u64) -> (c: char)
    requires
        d < 16,
    ensures
        c == digit_upper_spec(d as int),
{
    if d < 10 {
        (0x30u8 + (d as u8)) as char
    } else {
        (0x37u8 + (d as u8)) as char
    }
}

/// The low `w` hexadecimal digits of `n`, upper case, zero padded to
/// exactly `w` characters.
pub open spec fn hex_pad_upper_spec(n: int, w: nat) -> Seq<char>
    decreases w,
{
    if w == 0 {
        Seq::empty()
    } else {
        hex_pad_upper_spec(n / 16, (w - 1) as nat).push(digit_upper_spec(n % 16))
    }
}

/// Render the low `w` hexadecimal digits of `n`, upper case, zero padded.
pub fn hex_pad_upper(n: u64, w: usize) -> (r: Vec<char>)
    ensures
        r@ == hex_pad_upper_spec(n as int, w as nat),
    decreases w,
{
    if w == 0 {
        let v: Vec<char> = Vec::new();
        proof {
            assert(v@ =~= hex_pad_upper_spec(n as int, 0));
        }
        v
    } else {
        let mut v = hex_pad_upper(n / 16, w - 1);
        v.push(digit_upper_char(n % 16));
        v
    }
}

/// Render the low `w` upper-case hexadecimal digits of `n`, as a string.
pub fn hex_upper_string(n: u64, w: usize) -> (r: String)
    ensures
        r@ == hex_pad_upper_spec(n as int, w as nat),
{
    let digits = hex_pad_upper(n, w);
    string_from_chars(&digits)
}

/// `s`, preceded by as many copies of `c` as it takes to reach width `w`;
/// text already that wide is kept as it is.
pub open spec fn pad_left_spec(s: Seq<char>, w: nat, c: char) -> Seq<char> {
    if s.len() >= w {
        s
    } else {
        Seq::new((w - s.len()) as nat, |i: int| c) + s
    }
}

/// Left-pad `v` to width `w` with copies of `c`.
pub fn pad_left(v: Vec<char>, w: usize, c: char) -> (r: Vec<char>)
    ensures
        r@ == pad_left_spec(v@, w as nat, c),
{
    let n = v.len();
    if n >= w {
        return v;
    }
    let pad = w - n;
    let mut out: Vec<char> = Vec::new();
    let mut i: usize = 0;
    while i < pad
        invariant
            i <= pad,
            out@ =~= Seq::new(i as nat, |j: int| c),
        decreases pad - i,
    {
        out.push(c);
        proof {
            assert(out@ =~= Seq::new((i + 1) as nat, |j: int| c));
        }
        i = i + 1;
    }
    extend_chars(&mut out, &v);
    proof {
        assert(out@ =~= pad_left_spec(v@, w as nat, c));
    }
    out
}

/// Append every character of `src` to `dst`, in order.
pub fn extend_chars(dst: &mut Vec<char>, src: &Vec<char>)
    ensures
        final(dst)@ == old(dst)@ + src@,
{
    let n = src.len();
    let mut i: usize = 0;
    while i < n
        invariant
            n == src@.len(),
            i <= n,
            dst@ =~= old(dst)@ + src@.take(i as int),
        decreases n - i,
    {
        dst.push(src[i]);
        proof {
            assert(src@.take((i + 1) as int) =~= src@.take(i as int).push(src@[i as int]));
        }
        i = i + 1;
    }
    proof {
        assert(src@.take(n as int) =~= src@);
    }
}

} // verus!
