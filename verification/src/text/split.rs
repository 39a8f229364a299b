//! Splitting, trimming and joining.

use vstd::prelude::*;

use crate::text::chars;
use crate::text::chars::{from_range, to_chars};
use crate::text::search;
use crate::text::search::find_from;

verus! {

/// The pieces of `s` between the occurrences of `sep`; one piece more than
/// there are occurrences.
pub open spec fn split_spec(s: Seq<char>, sep: char) -> Seq<Seq<char>> {
    split_from(s, sep, 0)
}

/// The pieces of `s` from index `from` on.
pub open spec fn split_from(s: Seq<char>, sep: char, from: int) -> Seq<Seq<char>>
    decreases s.len() - from,
    when 0 <= from <= s.len()
    via split_from_decreases
{
    let at = search::index_from(s, sep, from);
    if at >= s.len() {
        seq![s.subrange(from, s.len() as int)]
    } else {
        seq![s.subrange(from, at)] + split_from(s, sep, at + 1)
    }
}

#[via_fn]
proof fn split_from_decreases(s: Seq<char>, sep: char, from: int) {
    search::lemma_index_from(s, sep, from);
}

/// Splits `s` at every `sep`.
pub fn split(s: &str, sep: char) -> (r: Vec<String>)
    ensures
        chars::views(r@) == split_spec(s@, sep),
        r@.len() >= 1,
{
    let v = to_chars(s);
    let mut r: Vec<String> = Vec::new();
    let mut from: usize = 0;
    loop
        invariant_except_break
            split_spec(s@, sep) == chars::views(r@) + split_from(s@, sep, from as int),
        invariant
            v@ == s@,
            from <= v@.len(),
        ensures
            chars::views(r@) == split_spec(s@, sep),
            r@.len() >= 1,
        decreases v@.len() - from,
    {
        let at = find_from(&v, sep, from);
        let ghost before = r@;
        let piece = from_range(&v, from, at);
        r.push(piece);
        assert(chars::views(r@) =~= chars::views(before).push(piece@));
        if at == v.len() {
            break;
        }
        assert(split_from(s@, sep, from as int) == seq![s@.subrange(from as int, at as int)]
            + split_from(s@, sep, at + 1));
        assert(chars::views(before) + split_from(s@, sep, from as int) =~= chars::views(r@) + split_from(
            s@,
            sep,
            at + 1,
        ));
        from = at + 1;
    }
    r
}

/// The piece before the first `sep` and the piece behind it, where there is
/// one.
pub open spec fn split_once_spec(s: Seq<char>, sep: char) -> Option<(Seq<char>, Seq<char>)> {
    let at = search::index_from(s, sep, 0);
    if at >= s.len() {
        None
    } else {
        Some((s.subrange(0, at), s.subrange(at + 1, s.len() as int)))
    }
}

/// Splits `s` at its first `sep`.
pub fn split_once(s: &str, sep: char) -> (r: Option<(String, String)>)
    ensures
        r is Some <==> split_once_spec(s@, sep) is Some,
        r matches Some(p) ==> split_once_spec(s@, sep) == Some((p.0@, p.1@)),
{
    let v = to_chars(s);
    let at = find_from(&v, sep, 0);
    if at == v.len() {
        None
    } else {
        Some((from_range(&v, 0, at), from_range(&v, at + 1, v.len())))
    }
}

/// The characters with the Unicode property White_Space.
pub open spec fn is_white_space(c: char) -> bool {
    ||| '\u{9}' <= c <= '\u{d}'
    ||| c == ' '
    ||| c == '\u{85}'
    ||| c == '\u{a0}'
    ||| c == '\u{1680}'
    ||| '\u{2000}' <= c <= '\u{200a}'
    ||| c == '\u{2028}'
    ||| c == '\u{2029}'
    ||| c == '\u{202f}'
    ||| c == '\u{205f}'
    ||| c == '\u{3000}'
}

/// Whether `c` has the Unicode property White_Space.
pub fn white_space(c: char) -> (r: bool)
    ensures
        r == is_white_space(c),
{
    ('\u{9}' <= c && c <= '\u{d}') || c == ' ' || c == '\u{85}' || c == '\u{a0}' || c == '\u{1680}'
        || ('\u{2000}' <= c && c <= '\u{200a}') || c == '\u{2028}' || c == '\u{2029}' || c
        == '\u{202f}' || c == '\u{205f}' || c == '\u{3000}'
}

/// `s` without the white space at its start.
pub open spec fn trim_start_spec(s: Seq<char>) -> Seq<char>
    decreases s.len(),
{
    if s.len() > 0 && is_white_space(s[0]) {
        trim_start_spec(s.subrange(1, s.len() as int))
    } else {
        s
    }
}

/// `s` without the white space at its end.
pub open spec fn trim_end_spec(s: Seq<char>) -> Seq<char>
    decreases s.len(),
{
    if s.len() > 0 && is_white_space(s[s.len() - 1]) {
        trim_end_spec(s.subrange(0, s.len() - 1))
    } else {
        s
    }
}

/// `s` without the white space at both ends.
pub open spec fn trim_spec(s: Seq<char>) -> Seq<char> {
    trim_end_spec(trim_start_spec(s))
}

/// Trims white space at both ends.
pub fn trim(s: &str) -> (r: String)
    ensures
        r@ == trim_spec(s@),
{
    let v = to_chars(s);
    let mut from: usize = 0;
    assert(s@ =~= v@.subrange(0, v@.len() as int));
    while from < v.len() && white_space(v[from])
        invariant
            v@ == s@,
            from <= v@.len(),
            trim_start_spec(s@) == trim_start_spec(v@.subrange(from as int, v@.len() as int)),
        decreases v@.len() - from,
    {
        assert(v@.subrange(from as int, v@.len() as int).subrange(
            1,
            v@.len() - from,
        ) =~= v@.subrange(from + 1, v@.len() as int));
        from = from + 1;
    }
    let ghost rest = v@.subrange(from as int, v@.len() as int);
    assert(trim_start_spec(s@) == rest);
    let mut to: usize = v.len();
    while to > from && white_space(v[to - 1])
        invariant
            v@ == s@,
            from <= to <= v@.len(),
            trim_end_spec(rest) == trim_end_spec(v@.subrange(from as int, to as int)),
        decreases to - from,
    {
        assert(v@.subrange(from as int, to as int).subrange(0, to - from - 1) =~= v@.subrange(
            from as int,
            to - 1,
        ));
        to = to - 1;
    }
    from_range(&v, from, to)
}

/// The pieces of `v` with `sep` between any two of them.
pub open spec fn join_spec(v: Seq<Seq<char>>, sep: Seq<char>) -> Seq<char>
    decreases v.len(),
{
    if v.len() == 0 {
        Seq::empty()
    } else if v.len() == 1 {
        v[0]
    } else {
        join_spec(v.drop_last(), sep) + sep + v.last()
    }
}

/// Joins `v[from..]` with `sep`.
pub fn join_from(v: &Vec<String>, from: usize, sep: &str) -> (r: String)
    requires
        from <= v@.len(),
    ensures
        r@ == join_spec(chars::views(v@).subrange(from as int, v@.len() as int), sep@),
{
    let mut r = String::new();
    let mut i: usize = from;
    while i < v.len()
        invariant
            from <= i <= v@.len(),
            r@ == join_spec(chars::views(v@).subrange(from as int, i as int), sep@),
        decreases v@.len() - i,
    {
        let ghost next = chars::views(v@).subrange(from as int, i + 1);
        assert(next.drop_last() =~= chars::views(v@).subrange(from as int, i as int));
        if i > from {
            r.append(sep);
        }
        r.append(v[i].as_str());
        if i == from {
            assert(r@ =~= v@[i as int]@);
        }
        i = i + 1;
    }
    r
}

/// Joins all of `v` with `sep`.
pub fn join(v: &Vec<String>, sep: &str) -> (r: String)
    ensures
        r@ == join_spec(chars::views(v@), sep@),
{
    assert(chars::views(v@).subrange(0, v@.len() as int) =~= chars::views(v@));
    join_from(v, 0, sep)
}

/// The lines of `s`: the pieces between line feeds, each without one carriage
/// return at its end, and without the empty piece behind a final line feed.
pub open spec fn lines_spec(s: Seq<char>) -> Seq<Seq<char>> {
    let pieces = split_spec(s, '\n');
    let kept = if pieces.last().len() == 0 {
        pieces.drop_last()
    } else {
        pieces
    };
    Seq::new(
        kept.len(),
        |i: int|
            if i + 1 < pieces.len() {
                without_cr(kept[i])
            } else {
                kept[i]
            },
    )
}

/// `s` without one carriage return at its end.
pub open spec fn without_cr(s: Seq<char>) -> Seq<char> {
    if s.len() > 0 && s.last() == '\r' {
        s.drop_last()
    } else {
        s
    }
}

/// Splits `s` into lines.
pub fn lines(s: &str) -> (r: Vec<String>)
    ensures
        chars::views(r@) == lines_spec(s@),
{
    let pieces = split(s, '\n');
    let ghost all = split_spec(s@, '\n');
    let mut r: Vec<String> = Vec::new();
    let n = pieces.len();
    let mut i: usize = 0;
    while i < n
        invariant
            n == pieces@.len(),
            i <= n,
            chars::views(pieces@) == all,
            r@.len() == if i == n && all.last().len() == 0 { n - 1 } else { i as int },
            forall|j: int|
                0 <= j < r@.len() ==> (#[trigger] r@[j])@ == if j + 1 < n {
                    without_cr(all[j])
                } else {
                    all[j]
                },
        decreases n - i,
    {
        let v = to_chars(pieces[i].as_str());
        assert(v@ == all[i as int]);
        let m = v.len();
        if i + 1 < n {
            if m > 0 && v[m - 1] == '\r' {
                r.push(from_range(&v, 0, m - 1));
                assert(v@.subrange(0, m - 1) =~= v@.drop_last());
            } else {
                r.push(pieces[i].clone());
            }
        } else if m > 0 {
            r.push(pieces[i].clone());
        }
        i = i + 1;
    }
    assert(chars::views(r@) =~= lines_spec(s@));
    r
}

proof fn lemma_split_one_more(a: Seq<char>, b: Seq<char>, sep: char, from: int)
    requires
        0 <= from <= a.len(),
        !b.contains(sep),
    ensures
        split_from(a.push(sep) + b, sep, from) == split_from(a, sep, from).push(b),
    decreases a.len() - from,
{
    let s = a.push(sep) + b;
    let at = search::index_from(a, sep, from);
    let here = search::index_from(s, sep, from);
    search::lemma_index_from(a, sep, from);
    search::lemma_index_from(s, sep, from);
    assert(s[a.len() as int] == sep);
    if at < a.len() {
        assert(s[at] == sep);
        assert(here == at) by {
            if here < at {
                assert(s[here] == a[here]);
            }
        }
        lemma_split_one_more(a, b, sep, at + 1);
        assert(s.subrange(from, at) =~= a.subrange(from, at));
        let rest = split_from(a, sep, at + 1);
        assert(seq![a.subrange(from, at)] + rest.push(b) =~= (seq![a.subrange(from, at)] + rest).push(
            b,
        ));
    } else {
        assert(here == a.len()) by {
            if here < a.len() {
                assert(s[here] == a[here]);
            }
        }
        let next = a.len() as int + 1;
        search::lemma_index_from(s, sep, next);
        let last = search::index_from(s, sep, next);
        if last < s.len() {
            assert(b[last - next] == sep);
            assert(b.contains(sep));
        }
        assert(s.subrange(next, s.len() as int) =~= b);
        assert(s.subrange(from, a.len() as int) =~= a.subrange(from, a.len() as int));
        assert(split_from(s, sep, next) =~= seq![b]);
        assert(seq![a.subrange(from, a.len() as int)] + seq![b] =~= seq![
            a.subrange(from, a.len() as int),
        ].push(b));
    }
}

/// Joining pieces and splitting the text again gives the pieces back, where
/// none of them holds the separator.
pub proof fn split_undoes_join(pieces: Seq<Seq<char>>, sep: char)
    requires
        pieces.len() > 0,
        forall|i: int| 0 <= i < pieces.len() ==> !(#[trigger] pieces[i]).contains(sep),
    ensures
        split_spec(join_spec(pieces, seq![sep]), sep) == pieces,
    decreases pieces.len(),
{
    let less = pieces.drop_last();
    let b = pieces.last();
    assert(!pieces[pieces.len() - 1].contains(sep));
    if less.len() == 0 {
        let s = join_spec(pieces, seq![sep]);
        search::lemma_index_from(s, sep, 0);
        assert(s =~= b);
        let at = search::index_from(s, sep, 0);
        if at < s.len() {
            assert(s.contains(s[at]));
        }
        assert(s.subrange(0, s.len() as int) =~= s);
        assert(split_spec(s, sep) =~= pieces);
    } else {
        assert forall|i: int| 0 <= i < less.len() implies !(#[trigger] less[i]).contains(sep) by {
            assert(!pieces[i].contains(sep));
        }
        split_undoes_join(less, sep);
        let a = join_spec(less, seq![sep]);
        assert(a + seq![sep] + b =~= a.push(sep) + b);
        lemma_split_one_more(a, b, sep, 0);
        assert(less.push(b) =~= pieces);
    }
}

/// A text that neither begins nor ends with white space is as it is when it is
/// trimmed.
pub proof fn trimmed_stays(s: Seq<char>)
    requires
        s.len() > 0 ==> !is_white_space(s[0]) && !is_white_space(s.last()),
    ensures
        trim_spec(s) == s,
{
}

} // verus!
