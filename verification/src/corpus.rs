//! The corpus loader: an ordered, read-only list of replayable text lines.
//!
//! A corpus is built once from the raw lines of an optional external source
//! (or from a built-in fallback when there is none): blank lines are
//! discarded, an optional per-line transform is applied, and the original
//! relative order is kept.

use crate::textops::{
    chars_of, is_blank, is_blank_spec, is_space, is_space_spec, lemma_trim_start_at,
    string_from_chars, trim_start_spec,
};
use vstd::prelude::*;
use vstd::seq_lib::*;

verus! {

/// The optional per-line normalization applied while loading a corpus.
#[derive(Clone, Copy, PartialEq, Eq, Structural, Debug)]
pub enum LineTransform {
    /// Keep each line as it is.
    Identity,
    /// Strip a leading kernel-style `[ timestamp ]` prefix.
    StripTimestamp,
}

/// What stripping the timestamp leaves of a line: everything after the first
/// `]` that follows the first `[`, with the whitespace right after it
/// removed; a line without such a bracket pair is kept unchanged.
pub open spec fn strip_timestamp_spec(s: Seq<char>) -> Seq<char> {
    match s.index_of_first('[') {
        Option::None => s,
        Option::Some(i) => match s.skip(i).index_of_first(']') {
            Option::None => s,
            Option::Some(j) => trim_start_spec(s.skip(i + j + 1)),
        },
    }
}

pub open spec fn apply_transform_spec(t: LineTransform, s: Seq<char>) -> Seq<char> {
    match t {
        LineTransform::Identity => s,
        LineTransform::StripTimestamp => strip_timestamp_spec(s),
    }
}

/// The corpus a raw line list loads to: its non-blank lines, in order, each
/// passed through the transform.
pub open spec fn corpus_spec(lines: Seq<Seq<char>>, t: LineTransform) -> Seq<Seq<char>> {
    lines.filter(|l: Seq<char>| !is_blank_spec(l)).map_values(
        |l: Seq<char>| apply_transform_spec(t, l),
    )
}

/// The position of the first newline in `s`, or `s.len()` when there is
/// none.
pub open spec fn first_newline_spec(s: Seq<char>) -> nat
    decreases s.len(),
{
    if s.len() == 0 {
        0
    } else if s[0] == '\n' {
        0
    } else {
        1 + first_newline_spec(s.drop_first())
    }
}

pub proof fn lemma_first_newline(s: Seq<char>)
    ensures
        first_newline_spec(s) <= s.len(),
        first_newline_spec(s) < s.len() ==> s[first_newline_spec(s) as int] == '\n',
        forall|j: int| 0 <= j < first_newline_spec(s) ==> s[j] != '\n',
    decreases s.len(),
{
    if s.len() > 0 && s[0] != '\n' {
        lemma_first_newline(s.drop_first());
        assert forall|j: int| 0 <= j < first_newline_spec(s) implies s[j] != '\n' by {
            if j > 0 {
                assert(s.drop_first()[j - 1] == s[j]);
            }
        }
    }
}

/// A line with one trailing carriage return removed, so that a source with
/// Windows line endings splits into the same lines.
pub open spec fn strip_cr_spec(s: Seq<char>) -> Seq<char> {
    if s.len() > 0 && s[s.len() - 1] == '\r' {
        s.drop_last()
    } else {
        s
    }
}

/// The lines of a text: split at every newline, one trailing carriage
/// return stripped per line, and no empty final line for a text that ends
/// with a newline.
pub open spec fn split_lines_spec(s: Seq<char>) -> Seq<Seq<char>>
    decreases s.len(),
{
    if s.len() == 0 {
        Seq::empty()
    } else {
        let i = first_newline_spec(s);
        if i >= s.len() {
            seq![strip_cr_spec(s)]
        } else {
            seq![strip_cr_spec(s.take(i as int))] + split_lines_spec(s.skip(i as int + 1))
        }
    }
}

/// Split a text into its lines.
pub fn split_lines(content: &str) -> (r: Vec<String>)
    ensures
        r.deep_view() == split_lines_spec(content@),
{
    let cs = chars_of(content);
    let n = cs.len();
    let mut out: Vec<String> = Vec::new();
    let mut start: usize = 0;
    proof {
        assert(cs@.skip(0) =~= cs@);
    }
    while start < n
        invariant
            cs@ == content@,
            n == cs@.len(),
            start <= n,
            out.deep_view() + split_lines_spec(cs@.skip(start as int)) == split_lines_spec(cs@),
        decreases n - start,
    {
        let ghost rest = cs@.skip(start as int);
        let ghost out0 = out.deep_view();
        let mut nl: usize = start;
        while nl < n && cs[nl] != '\n'
            invariant
                cs@ == content@,
                n == cs@.len(),
                start <= nl <= n,
                forall|j: int| start <= j < nl ==> cs@[j] != '\n',
            decreases n - nl,
        {
            nl = nl + 1;
        }
        proof {
            lemma_first_newline(rest);
            let fnl = first_newline_spec(rest);
            assert forall|j: int| 0 <= j < nl - start implies rest[j] != '\n' by {
                assert(rest[j] == cs@[start + j]);
            }
            if fnl < nl - start {
                assert(rest[fnl as int] != '\n');
            }
            if nl < n && fnl > nl - start {
                assert(rest[(nl - start) as int] == cs@[nl as int]);
            }
            assert(fnl == nl - start);
        }
        let mut seg: Vec<char> = Vec::new();
        let mut q: usize = start;
        while q < nl
            invariant
                cs@ == content@,
                n == cs@.len(),
                start <= q <= nl <= n,
                seg@ =~= cs@.subrange(start as int, q as int),
            decreases nl - q,
        {
            seg.push(cs[q]);
            q = q + 1;
        }
        if seg.len() > 0 && seg[seg.len() - 1] == '\r' {
            seg.pop();
        }
        proof {
            assert(cs@.subrange(start as int, nl as int) =~= rest.take((nl - start) as int));
            if nl == n {
                assert(rest.take((nl - start) as int) =~= rest);
            }
            assert(seg@ == strip_cr_spec(rest.take((nl - start) as int)));
        }
        out.push(string_from_chars(&seg));
        proof {
            assert(out.deep_view() =~= out0.push(seg@));
            if nl == n {
                assert(rest.take((nl - start) as int) =~= rest);
                assert(split_lines_spec(rest) =~= seq![strip_cr_spec(rest)]);
                assert(cs@.skip(n as int) =~= Seq::<char>::empty());
                assert(out.deep_view() + split_lines_spec(cs@.skip(n as int))
                    =~= out0 + split_lines_spec(rest));
            } else {
                assert(rest.skip((nl - start + 1) as int) =~= cs@.skip(nl + 1));
                assert(split_lines_spec(rest) =~= seq![
                    strip_cr_spec(rest.take((nl - start) as int)),
                ] + split_lines_spec(cs@.skip(nl + 1)));
                assert(out.deep_view() + split_lines_spec(cs@.skip(nl + 1))
                    =~= out0 + split_lines_spec(rest));
            }
        }
        if nl == n {
            start = n;
        } else {
            start = nl + 1;
        }
    }
    proof {
        assert(cs@.skip(start as int) =~= Seq::<char>::empty());
        assert(out.deep_view() =~= split_lines_spec(cs@));
    }
    out
}

/// What a corpus source loads to: its lines, filtered and transformed.
pub open spec fn load_spec(content: Seq<char>, t: LineTransform) -> Seq<Seq<char>> {
    corpus_spec(split_lines_spec(content), t)
}

/// Build a corpus from the whole text of a source.
pub fn load_corpus(content: &str, t: LineTransform) -> (r: Vec<String>)
    ensures
        r.deep_view() == load_spec(content@, t),
{
    let raw = split_lines(content);
    build_corpus(&raw, t)
}

/// Strip a kernel-style timestamp prefix from one line.
pub fn strip_timestamp_line(line: &str) -> (r: String)
    ensures
        r@ == strip_timestamp_spec(line@),
{
    let cs = chars_of(line);
    let n = cs.len();
    let mut i: usize = 0;
    while i < n && cs[i] != '['
        invariant
            cs@ == line@,
            n == cs@.len(),
            i <= n,
            forall|q: int| 0 <= q < i ==> cs@[q] != '[',
        decreases n - i,
    {
        i = i + 1;
    }
    proof {
        cs@.index_of_first_ensures('[');
    }
    if i == n {
        proof {
            assert(!cs@.contains('['));
        }
        return line.to_owned();
    }
    proof {
        assert(cs@.contains('[')) by {
            assert(cs@[i as int] == '[');
        }
        assert(cs@.index_of_first('[') == Some(i as int));
    }
    let mut k: usize = i + 1;
    while k < n && cs[k] != ']'
        invariant
            cs@ == line@,
            n == cs@.len(),
            i < n,
            cs@[i as int] == '[',
            i < k <= n,
            forall|q: int| i <= q < k ==> cs@[q] != ']',
        decreases n - k,
    {
        k = k + 1;
    }
    let ghost tail = cs@.skip(i as int);
    proof {
        tail.index_of_first_ensures(']');
        assert(forall|q: int| 0 <= q < k - i ==> tail[q] != ']');
    }
    if k == n {
        proof {
            assert(!tail.contains(']')) by {
                assert(forall|q: int| 0 <= q < tail.len() ==> tail[q] != ']');
            }
        }
        return line.to_owned();
    }
    proof {
        assert(tail[(k - i) as int] == ']');
        assert(tail.contains(']'));
        let idx = tail.index_of_first(']') -> 0;
        assert(idx == k - i) by {
            if idx < k - i {
                assert(tail[idx] != ']');
            }
            if idx > k - i {
                assert(tail[(k - i) as int] != ']');
            }
        }
        assert(tail.index_of_first(']') == Some((k - i) as int));
    }
    let mut p: usize = k + 1;
    while p < n && is_space(cs[p])
        invariant
            cs@ == line@,
            n == cs@.len(),
            k < p <= n,
            forall|q: int| k + 1 <= q < p ==> is_space_spec(cs@[q]),
        decreases n - p,
    {
        p = p + 1;
    }
    proof {
        lemma_trim_start_at(cs@.skip(k + 1), p - (k + 1));
        assert(cs@.skip(k + 1).skip(p - (k + 1)) =~= cs@.skip(p as int));
    }
    let mut outv: Vec<char> = Vec::new();
    let mut q: usize = p;
    while q < n
        invariant
            cs@ == line@,
            n == cs@.len(),
            p <= q <= n,
            outv@ =~= cs@.subrange(p as int, q as int),
        decreases n - q,
    {
        outv.push(cs[q]);
        q = q + 1;
    }
    proof {
        assert(outv@ =~= cs@.skip(p as int));
    }
    string_from_chars(&outv)
}

/// Apply the chosen transform to one line.
pub fn apply_transform(t: LineTransform, line: &str) -> (r: String)
    ensures
        r@ == apply_transform_spec(t, line@),
{
    match t {
        LineTransform::Identity => line.to_owned(),
        LineTransform::StripTimestamp => strip_timestamp_line(line),
    }
}

/// Build a corpus from raw source lines: keep exactly the non-blank lines,
/// in their original relative order, transformed.
pub fn build_corpus(lines: &Vec<String>, t: LineTransform) -> (r: Vec<String>)
    ensures
        r.deep_view() == corpus_spec(lines.deep_view(), t),
{
    let ghost lv = lines.deep_view();
    let ghost pred = |l: Seq<char>| !is_blank_spec(l);
    let ghost f = |l: Seq<char>| apply_transform_spec(t, l);
    let n = lines.len();
    let mut out: Vec<String> = Vec::new();
    proof {
        assert(lv.take(0) =~= Seq::<Seq<char>>::empty());
        reveal(Seq::filter);
        assert(out.deep_view() =~= lv.take(0).filter(pred).map_values(f));
    }
    let mut i: usize = 0;
    while i < n
        invariant
            n == lines@.len(),
            lv == lines.deep_view(),
            pred == (|l: Seq<char>| !is_blank_spec(l)),
            f == (|l: Seq<char>| apply_transform_spec(t, l)),
            i <= n,
            out.deep_view() == lv.take(i as int).filter(pred).map_values(f),
        decreases n - i,
    {
        let ghost prefix = lv.take(i as int);
        let ghost next = lv.take(i + 1);
        let ghost out0 = out.deep_view();
        let keep = !is_blank(lines[i].as_str());
        if keep {
            let mapped = apply_transform(t, lines[i].as_str());
            out.push(mapped);
        }
        proof {
            assert(lines@[i as int]@ == lv[i as int]);
            assert(next.drop_last() =~= prefix);
            assert(next.last() == lv[i as int]);
            reveal(Seq::filter);
            if keep {
                assert(next.filter(pred) == prefix.filter(pred).push(lv[i as int]));
                assert(out.deep_view() =~= out0.push(f(lv[i as int])));
                assert(out.deep_view() =~= next.filter(pred).map_values(f));
            } else {
                assert(next.filter(pred) == prefix.filter(pred));
                assert(out.deep_view() =~= next.filter(pred).map_values(f));
            }
        }
        i = i + 1;
    }
    proof {
        assert(lv.take(n as int) =~= lv);
    }
    out
}

/// The law the loader obeys, stated for the identity transform: the corpus
/// is exactly the subsequence of non-blank source lines - so it has as many
/// entries as the source has non-blank lines, every entry is non-blank,
/// every non-blank source line is kept, and the original relative order is
/// the filter's.
pub proof fn lemma_corpus_keeps_nonblank_lines(lines: Seq<Seq<char>>)
    ensures
        corpus_spec(lines, LineTransform::Identity) == lines.filter(
            |l: Seq<char>| !is_blank_spec(l),
        ),
        corpus_spec(lines, LineTransform::Identity).len() <= lines.len(),
        forall|i: int|
            0 <= i < corpus_spec(lines, LineTransform::Identity).len() ==> !is_blank_spec(
                #[trigger] corpus_spec(lines, LineTransform::Identity)[i],
            ),
        forall|i: int|
            0 <= i < lines.len() && !is_blank_spec(#[trigger] lines[i]) ==> corpus_spec(
                lines,
                LineTransform::Identity,
            ).contains(lines[i]),
{
    let pred = |l: Seq<char>| !is_blank_spec(l);
    let f = |l: Seq<char>| apply_transform_spec(LineTransform::Identity, l);
    let filtered = lines.filter(pred);
    assert(filtered.map_values(f) =~= filtered);
    lines.lemma_filter_len(pred);
    assert forall|i: int|
        0 <= i < corpus_spec(lines, LineTransform::Identity).len() implies !is_blank_spec(
        corpus_spec(lines, LineTransform::Identity)[i],
    ) by {
        lines.lemma_filter_pred(pred, i);
    }
    assert forall|i: int|
        0 <= i < lines.len() && !is_blank_spec(lines[i]) implies corpus_spec(
        lines,
        LineTransform::Identity,
    ).contains(lines[i]) by {
        lines.lemma_filter_contains(pred, i);
    }
}

} // verus!
