//! Character-level text utilities shared by the corpus loader and the
//! renderers, plus the two conversions between `String` and `Vec<char>`.

use vstd::prelude::*;
use vstd::std_specs::iter::IteratorSpec;
use vstd::string::StringExecFns;

verus! {

/// The concatenation of two texts.
pub fn concat2(a: &str, b: &str) -> (r: String)
    ensures
        r@ == a@ + b@,
{
    let mut s = a.to_owned();
    s.append(b);
    s
}

/// The concatenation of three texts.
pub fn concat3(a: &str, b: &str, c: &str) -> (r: String)
    ensures
        r@ == a@ + b@ + c@,
{
    let mut s = a.to_owned();
    s.append(b);
    s.append(c);
    s
}

/// The characters of the string, in order.
pub(crate) fn chars_of(s: &str) -> (r: Vec<char>)
    ensures
        r@ == s@,
{
    broadcast use vstd::string::axiom_spec_iter;
    broadcast use vstd::string::next_postcondition;

    let mut it = s.chars();
    let mut v: Vec<char> = Vec::new();
    loop
        invariant
            it.obeys_prophetic_iter_laws(),
            it.decrease() is Some,
            v@ + it.remaining() == s@,
        decreases it.decrease()->0,
    {
        match it.next() {
            Some(c) => {
                v.push(c);
            },
            None => {
                proof {
                    assert(v@ =~= s@);
                }
                return v;
            },
        }
    }
}

/// Relies on String::from_iter over characters: the resulting string holds
/// exactly the characters handed in, in order.
#[verifier::external_body]
pub(crate) fn string_from_chars(cs: &Vec<char>) -> (r: String)
    ensures
        r@ == cs@,
{
    cs.iter().collect()
}

/// The Unicode White_Space characters.
pub open spec fn is_space_spec(c: char) -> bool {
    let u = c as u32;
    ||| u == 0x09
    ||| u == 0x0A
    ||| u == 0x0B
    ||| u == 0x0C
    ||| u == 0x0D
    ||| u == 0x20
    ||| u == 0x85
    ||| u == 0xA0
    ||| u == 0x1680
    ||| (0x2000 <= u && u <= 0x200A)
    ||| u == 0x2028
    ||| u == 0x2029
    ||| u == 0x202F
    ||| u == 0x205F
    ||| u == 0x3000
}

pub fn is_space(c: char) -> (r: bool)
    ensures
        r == is_space_spec(c),
{
    let u = c as u32;
    u == 0x09 || u == 0x0A || u == 0x0B || u == 0x0C || u == 0x0D || u == 0x20 || u == 0x85
        || u == 0xA0 || u == 0x1680 || (0x2000 <= u && u <= 0x200A) || u == 0x2028 || u == 0x2029
        || u == 0x202F || u == 0x205F || u == 0x3000
}

/// A line is blank when every character is whitespace - exactly the lines
/// the corpus loader discards.
pub open spec fn is_blank_spec(s: Seq<char>) -> bool {
    forall|i: int| 0 <= i < s.len() ==> is_space_spec(s[i])
}

pub fn is_blank(line: &str) -> (r: bool)
    ensures
        r == is_blank_spec(line@),
{
    let cs = chars_of(line);
    let n = cs.len();
    let mut i: usize = 0;
    while i < n
        invariant
            n == cs@.len(),
            cs@ == line@,
            i <= n,
            forall|j: int| 0 <= j < i ==> is_space_spec(cs@[j]),
        decreases n - i,
    {
        if !is_space(cs[i]) {
            return false;
        }
        i = i + 1;
    }
    true
}

/// The text with its leading whitespace removed.
pub open spec fn trim_start_spec(s: Seq<char>) -> Seq<char>
    decreases s.len(),
{
    if s.len() > 0 && is_space_spec(s[0]) {
        trim_start_spec(s.drop_first())
    } else {
        s
    }
}

/// If every character before `p` is whitespace and the one at `p` (when
/// there is one) is not, trimming drops exactly the first `p` characters.
pub proof fn lemma_trim_start_at(s: Seq<char>, p: int)
    requires
        0 <= p <= s.len(),
        forall|j: int| 0 <= j < p ==> is_space_spec(s[j]),
        p < s.len() ==> !is_space_spec(s[p]),
    ensures
        trim_start_spec(s) == s.skip(p),
    decreases p,
{
    if p == 0 {
        assert(s.skip(0) =~= s);
    } else {
        let t = s.drop_first();
        assert(forall|j: int| 0 <= j < p - 1 ==> is_space_spec(t[j]));
        lemma_trim_start_at(t, p - 1);
        assert(t.skip(p - 1) =~= s.skip(p));
    }
}

/// `pat` occurs in `s` starting at position `i`.
pub open spec fn match_at(s: Seq<char>, pat: Seq<char>, i: int) -> bool {
    &&& 0 <= i
    &&& i + pat.len() <= s.len()
    &&& s.subrange(i, i + pat.len() as int) == pat
}

/// `pat` occurs somewhere in `s`.
pub open spec fn contains_spec(s: Seq<char>, pat: Seq<char>) -> bool {
    exists|i: int| match_at(s, pat, i)
}

/// `p` is a prefix of `s`.
pub open spec fn has_prefix(s: Seq<char>, p: Seq<char>) -> bool {
    p.len() <= s.len() && s.subrange(0, p.len() as int) == p
}

/// Whether `pat` occurs as a substring of `line`.
pub fn line_contains(line: &str, pat: &str) -> (r: bool)
    ensures
        r == contains_spec(line@, pat@),
{
    let cs = chars_of(line);
    let ps = chars_of(pat);
    let n = cs.len();
    let m = ps.len();
    if m > n {
        return false;
    }
    if m == 0 {
        proof {
            assert(cs@.subrange(0, 0) =~= ps@);
            assert(match_at(cs@, ps@, 0));
        }
        return true;
    }
    let mut i: usize = 0;
    while i <= n - m
        invariant
            cs@ == line@,
            ps@ == pat@,
            n == cs@.len(),
            m == ps@.len(),
            1 <= m <= n,
            i <= n - m + 1,
            forall|q: int| 0 <= q < i ==> !match_at(cs@, ps@, q),
        decreases n - m + 1 - i,
    {
        if match_here(&cs, &ps, i) {
            return true;
        }
        i = i + 1;
    }
    assert(forall|q: int| match_at(cs@, ps@, q) ==> 0 <= q <= n - m);
    false
}

/// Whether `line`, once its leading whitespace is dropped, starts with `pat`.
pub fn trimmed_starts_with(line: &str, pat: &str) -> (r: bool)
    ensures
        r == has_prefix(trim_start_spec(line@), pat@),
{
    let cs = chars_of(line);
    let ps = chars_of(pat);
    let n = cs.len();
    let mut p: usize = 0;
    while p < n && is_space(cs[p])
        invariant
            cs@ == line@,
            n == cs@.len(),
            p <= n,
            forall|j: int| 0 <= j < p ==> is_space_spec(cs@[j]),
        decreases n - p,
    {
        p = p + 1;
    }
    proof {
        lemma_trim_start_at(cs@, p as int);
    }
    let m = ps.len();
    if m > n - p {
        return false;
    }
    let r = match_here(&cs, &ps, p);
    proof {
        assert(cs@.skip(p as int).subrange(0, m as int) =~= cs@.subrange(
            p as int,
            p + m as int,
        ));
    }
    r
}

/// Whether `pat` matches inside `cs` at exactly position `at`.
fn match_here(cs: &Vec<char>, ps: &Vec<char>, at: usize) -> (r: bool)
    requires
        at + ps@.len() <= cs@.len(),
    ensures
        r == match_at(cs@, ps@, at as int),
{
    let n = cs.len();
    let m = ps.len();
    let mut j: usize = 0;
    while j < m
        invariant
            n == cs@.len(),
            m == ps@.len(),
            at + m <= n,
            j <= m,
            forall|q: int| 0 <= q < j ==> cs@[at + q] == ps@[q],
        decreases m - j,
    {
        if cs[at + j] != ps[j] {
            proof {
                assert(cs@.subrange(at as int, at + m as int)[j as int] != ps@[j as int]);
            }
            return false;
        }
        j = j + 1;
    }
    proof {
        assert(cs@.subrange(at as int, at + m as int) =~= ps@);
    }
    true
}

} // verus!
