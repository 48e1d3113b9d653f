//! Character-sequence helpers: equality and substring search on strings, and
//! splitting registry text into lines.

use vstd::prelude::*;
use vstd::string::*;

verus! {

/// The part of `s` after the last occurrence of `c` (all of `s` when `c`
/// does not occur; empty when `s` ends with `c`).
pub open spec fn after_last(s: Seq<char>, c: char) -> Seq<char>
    decreases s.len(),
{
    if s.len() == 0 {
        Seq::empty()
    } else if s.last() == c {
        Seq::empty()
    } else {
        after_last(s.drop_last(), c).push(s.last())
    }
}

/// The part of `s` before the first occurrence of `c` (all of `s` when `c`
/// does not occur).
pub open spec fn before_first(s: Seq<char>, c: char) -> Seq<char>
    decreases s.len(),
{
    if s.len() == 0 {
        Seq::empty()
    } else if s[0] == c {
        Seq::empty()
    } else {
        seq![s[0]] + before_first(s.drop_first(), c)
    }
}

/// Whether `n` occurs in `h` as a contiguous run.
pub open spec fn contains_seq(h: Seq<char>, n: Seq<char>) -> bool {
    exists|i: int| 0 <= i && i + n.len() <= h.len() && #[trigger] h.subrange(i, i + n.len()) == n
}

/// One trailing carriage return stripped from `l`.
pub open spec fn strip_cr(l: Seq<char>) -> Seq<char> {
    if l.len() > 0 && l.last() == '\r' {
        l.drop_last()
    } else {
        l
    }
}

/// `strip_cr(pending)` made into a line if it is non-empty, else nothing.
pub open spec fn flushed(pending: Seq<char>) -> Seq<Seq<char>> {
    if strip_cr(pending).len() > 0 {
        seq![strip_cr(pending)]
    } else {
        Seq::empty()
    }
}

/// The non-empty lines of `pending + rest`, where `pending` is the part of
/// the current line already read: lines are cut at each newline, one
/// trailing carriage return is stripped from each, and empty lines are
/// dropped.
pub open spec fn lines_from(pending: Seq<char>, rest: Seq<char>) -> Seq<Seq<char>>
    decreases rest.len(),
{
    if rest.len() == 0 {
        flushed(pending)
    } else if rest[0] == '\n' {
        flushed(pending) + lines_from(Seq::empty(), rest.drop_first())
    } else {
        lines_from(pending.push(rest[0]), rest.drop_first())
    }
}

/// The non-empty lines of `s`.
pub open spec fn lines_of(s: Seq<char>) -> Seq<Seq<char>> {
    lines_from(Seq::empty(), s)
}

/// Equality of two string slices, compared character by character.
pub fn str_eq(a: &str, b: &str) -> (r: bool)
    ensures
        r == (a@ == b@),
{
    let alen = a.unicode_len();
    let blen = b.unicode_len();
    if alen != blen {
        return false;
    }
    let mut i: usize = 0;
    while i < alen
        invariant
            i <= alen,
            alen == a@.len(),
            blen == b@.len(),
            alen == blen,
            forall|j: int| 0 <= j < i ==> a@[j] == b@[j],
        decreases alen - i,
    {
        if a.get_char(i) != b.get_char(i) {
            return false;
        }
        i += 1;
    }
    proof {
        assert(a@ =~= b@);
    }
    true
}

/// Whether `needle` occurs inside `hay` as a contiguous run.
pub fn str_contains(hay: &str, needle: &str) -> (r: bool)
    ensures
        r == contains_seq(hay@, needle@),
{
    let hlen = hay.unicode_len();
    let nlen = needle.unicode_len();
    if nlen > hlen {
        return false;
    }
    let bound = hlen - nlen;
    let mut i: usize = 0;
    while i < bound
        invariant
            nlen == needle@.len(),
            hlen == hay@.len(),
            nlen <= hlen,
            bound == hlen - nlen,
            i <= bound,
            forall|j: int| 0 <= j < i ==> #[trigger] hay@.subrange(j, j + needle@.len())
                != needle@,
        decreases bound - i,
    {
        if match_at(hay, needle, i) {
            return true;
        }
        i += 1;
    }
    match_at(hay, needle, bound)
}

/// Whether `needle` occurs in `hay` starting at character position `at`.
fn match_at(hay: &str, needle: &str, at: usize) -> (r: bool)
    requires
        at + needle@.len() <= hay@.len(),
    ensures
        r == (hay@.subrange(at as int, at + needle@.len()) == needle@),
        r ==> contains_seq(hay@, needle@),
{
    let nlen = needle.unicode_len();
    let hlen = hay.unicode_len();
    proof {
        assert(at + nlen <= hlen);
    }
    let piece = hay.substring_char(at, at + nlen);
    str_eq(piece, needle)
}

/// Append `pending` to `out` as one line, with a trailing carriage return
/// stripped, unless the stripped line is empty.
fn flush_line(pending: &str, out: &mut Vec<String>)
    ensures
        final(out).deep_view() == old(out).deep_view() + flushed(pending@),
{
    let plen = pending.unicode_len();
    let stripped: &str = if plen > 0 && pending.get_char(plen - 1) == '\r' {
        proof {
            assert(pending@.subrange(0, plen - 1) =~= pending@.drop_last());
        }
        pending.substring_char(0, plen - 1)
    } else {
        pending
    };
    if stripped.unicode_len() > 0 {
        out.push(String::from_str(stripped));
        proof {
            assert(out.deep_view() =~= old(out).deep_view() + flushed(pending@));
        }
    } else {
        proof {
            assert(out.deep_view() =~= old(out).deep_view() + flushed(pending@));
        }
    }
}

/// The non-empty lines of `text`, in order.
pub fn split_lines(text: &str) -> (r: Vec<String>)
    ensures
        r.deep_view() == lines_of(text@),
{
    let tlen = text.unicode_len();
    let mut out: Vec<String> = Vec::new();
    let mut start: usize = 0;
    let mut i: usize = 0;
    proof {
        assert(text@.subrange(0, tlen as int) =~= text@);
        assert(text@.subrange(0, 0) =~= Seq::<char>::empty());
        assert(out.deep_view() =~= Seq::<Seq<char>>::empty());
    }
    while i < tlen
        invariant
            start <= i <= tlen,
            tlen == text@.len(),
            lines_of(text@) == out.deep_view() + lines_from(
                text@.subrange(start as int, i as int),
                text@.subrange(i as int, tlen as int),
            ),
        decreases tlen - i,
    {
        let ghost rest = text@.subrange(i as int, tlen as int);
        proof {
            assert(rest[0] == text@[i as int]);
            assert(rest.drop_first() =~= text@.subrange(i + 1, tlen as int));
        }
        let c = text.get_char(i);
        if c == '\n' {
            flush_line(text.substring_char(start, i), &mut out);
            start = i + 1;
            proof {
                assert(text@.subrange(start as int, i + 1) =~= Seq::<char>::empty());
            }
        } else {
            proof {
                assert(text@.subrange(start as int, i + 1) =~= text@.subrange(
                    start as int,
                    i as int,
                ).push(rest[0]));
            }
        }
        i += 1;
    }
    proof {
        assert(text@.subrange(tlen as int, tlen as int) =~= Seq::<char>::empty());
    }
    flush_line(text.substring_char(start, tlen), &mut out);
    proof {
        assert(out.deep_view() =~= lines_of(text@));
    }
    out
}

} // verus!
