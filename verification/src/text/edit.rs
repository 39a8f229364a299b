//! Replacement, words, affixes and case-blind comparison.

use vstd::prelude::*;

use crate::text::case;
use crate::text::chars;
use crate::text::chars::{from_chars, from_range, push_range, to_chars};
use crate::text::search;
use crate::text::search::matches_at;
use crate::text::split;
use crate::text::split::white_space;

verus! {

/// `s` with every `a` turned into `b`.
pub open spec fn replace_char_spec(s: Seq<char>, a: char, b: char) -> Seq<char> {
    s.map_values(
        |c: char|
            if c == a {
                b
            } else {
                c
            },
    )
}

/// Replaces every `a` by `b`.
pub fn replace_char(s: &str, a: char, b: char) -> (r: String)
    ensures
        r@ == replace_char_spec(s@, a, b),
{
    let v = to_chars(s);
    let mut r = String::new();
    let mut i: usize = 0;
    while i < v.len()
        invariant
            v@ == s@,
            i <= v@.len(),
            r@ == replace_char_spec(s@.take(i as int), a, b),
        decreases v@.len() - i,
    {
        let c = if v[i] == a {
            b
        } else {
            v[i]
        };
        r.push(c);
        i = i + 1;
        assert(r@ =~= replace_char_spec(s@.take(i as int), a, b));
    }
    assert(s@.take(s@.len() as int) =~= s@);
    r
}

/// `s` from index `i` on, with each `p` in turn, from the left, turned into
/// `w`.
pub open spec fn replace_from(s: Seq<char>, p: Seq<char>, w: Seq<char>, i: int) -> Seq<char>
    decreases s.len() - i,
{
    if p.len() == 0 || i < 0 || i + p.len() > s.len() {
        s.subrange(i, s.len() as int)
    } else if search::occurs_at(s, p, i) {
        w + replace_from(s, p, w, i + p.len())
    } else {
        seq![s[i]] + replace_from(s, p, w, i + 1)
    }
}

/// Replaces every `p`, which must not be empty, by `w`.
pub fn replace_all(s: &str, p: &str, w: &str) -> (r: String)
    requires
        p@.len() > 0,
    ensures
        r@ == replace_from(s@, p@, w@, 0),
{
    let v = to_chars(s);
    let pv = to_chars(p);
    let n = v.len();
    let m = pv.len();
    let mut r = String::new();
    let mut i: usize = 0;
    while i < n && m <= n - i
        invariant
            v@ == s@,
            pv@ == p@,
            n == v@.len(),
            m == pv@.len(),
            m > 0,
            i <= n,
            replace_from(s@, p@, w@, 0) == r@ + replace_from(s@, p@, w@, i as int),
        decreases n - i,
    {
        let ghost before = r@;
        if matches_at(&v, &pv, i) {
            r.append(w);
            assert(before + (w@ + replace_from(s@, p@, w@, i + m)) =~= r@ + replace_from(
                s@,
                p@,
                w@,
                i + m,
            ));
            i = i + m;
        } else {
            r.push(v[i]);
            assert(before + (seq![s@[i as int]] + replace_from(s@, p@, w@, i + 1)) =~= r@
                + replace_from(s@, p@, w@, i + 1));
            i = i + 1;
        }
    }
    push_range(&mut r, &v, i, n);
    r
}

/// The words of `s` from index `i` on, where the current word began at
/// `start`.
pub open spec fn words_from(s: Seq<char>, start: int, i: int) -> Seq<Seq<char>>
    decreases s.len() - i,
{
    let here = if start < i {
        seq![s.subrange(start, i)]
    } else {
        seq![]
    };
    if i >= s.len() {
        here
    } else if split::is_white_space(s[i]) {
        here + words_from(s, i + 1, i + 1)
    } else {
        words_from(s, start, i + 1)
    }
}

/// The runs of `s` without white space.
pub open spec fn words_spec(s: Seq<char>) -> Seq<Seq<char>> {
    words_from(s, 0, 0)
}

/// Splits `s` at white space.
pub fn words(s: &str) -> (r: Vec<String>)
    ensures
        chars::views(r@) == words_spec(s@),
{
    let v = to_chars(s);
    let mut r: Vec<String> = Vec::new();
    let mut start: usize = 0;
    let mut i: usize = 0;
    assert(chars::views(r@) + words_spec(s@) =~= words_spec(s@));
    while i < v.len()
        invariant
            v@ == s@,
            start <= i <= v@.len(),
            words_spec(s@) == chars::views(r@) + words_from(s@, start as int, i as int),
        decreases v@.len() - i,
    {
        if white_space(v[i]) {
            let ghost before = chars::views(r@);
            if start < i {
                let w = from_range(&v, start, i);
                r.push(w);
                assert(chars::views(r@) =~= before.push(w@));
            }
            assert(before + words_from(s@, start as int, i as int) =~= chars::views(r@)
                + words_from(s@, i + 1, i + 1));
            start = i + 1;
        }
        i = i + 1;
    }
    if start < i {
        let ghost before = chars::views(r@);
        let w = from_range(&v, start, i);
        r.push(w);
        assert(chars::views(r@) =~= before.push(w@));
    }
    assert(chars::views(r@) =~= words_spec(s@));
    r
}

/// `s` without the prefix `p`, where it has it.
pub open spec fn strip_prefix_spec(s: Seq<char>, p: Seq<char>) -> Option<Seq<char>> {
    if search::has_prefix(s, p) {
        Some(s.subrange(p.len() as int, s.len() as int))
    } else {
        None
    }
}

/// `s` without the suffix `p`, where it has it.
pub open spec fn strip_suffix_spec(s: Seq<char>, p: Seq<char>) -> Option<Seq<char>> {
    if search::has_suffix(s, p) {
        Some(s.subrange(0, s.len() - p.len()))
    } else {
        None
    }
}

/// Takes the prefix `p` off.
pub fn strip_prefix(s: &str, p: &str) -> (r: Option<String>)
    ensures
        chars::opt_view(r) == strip_prefix_spec(s@, p@),
{
    let v = to_chars(s);
    let pv = to_chars(p);
    if matches_at(&v, &pv, 0) {
        Some(from_range(&v, pv.len(), v.len()))
    } else {
        None
    }
}

/// Takes the suffix `p` off.
pub fn strip_suffix(s: &str, p: &str) -> (r: Option<String>)
    ensures
        chars::opt_view(r) == strip_suffix_spec(s@, p@),
{
    let v = to_chars(s);
    let pv = to_chars(p);
    if pv.len() <= v.len() && matches_at(&v, &pv, v.len() - pv.len()) {
        Some(from_range(&v, 0, v.len() - pv.len()))
    } else {
        None
    }
}

/// `s` without the `c` at its start.
pub open spec fn trim_start_char_spec(s: Seq<char>, c: char) -> Seq<char>
    decreases s.len(),
{
    if s.len() > 0 && s[0] == c {
        trim_start_char_spec(s.subrange(1, s.len() as int), c)
    } else {
        s
    }
}

/// Takes every `c` at the start off.
pub fn trim_start_char(s: &str, c: char) -> (r: String)
    ensures
        r@ == trim_start_char_spec(s@, c),
{
    let v = to_chars(s);
    let n = v.len();
    let mut i: usize = 0;
    assert(v@.subrange(0, n as int) =~= v@);
    while i < n && v[i] == c
        invariant
            v@ == s@,
            n == v@.len(),
            i <= n,
            trim_start_char_spec(s@, c) == trim_start_char_spec(v@.subrange(i as int, n as int), c),
        decreases n - i,
    {
        assert(v@.subrange(i as int, n as int).subrange(1, n - i) =~= v@.subrange(
            i + 1,
            n as int,
        ));
        i = i + 1;
    }
    from_range(&v, i, n)
}

/// `s` without the `c` at its end.
pub open spec fn trim_end_char_spec(s: Seq<char>, c: char) -> Seq<char>
    decreases s.len(),
{
    if s.len() > 0 && s.last() == c {
        trim_end_char_spec(s.drop_last(), c)
    } else {
        s
    }
}

/// Takes every `c` at the end off.
pub fn trim_end_char(s: &str, c: char) -> (r: String)
    ensures
        r@ == trim_end_char_spec(s@, c),
{
    let v = to_chars(s);
    let mut n = v.len();
    assert(v@.take(n as int) =~= v@);
    while n > 0 && v[n - 1] == c
        invariant
            v@ == s@,
            n <= v@.len(),
            trim_end_char_spec(s@, c) == trim_end_char_spec(v@.take(n as int), c),
        decreases n,
    {
        assert(v@.take(n as int).drop_last() =~= v@.take(n - 1));
        n = n - 1;
    }
    let r = from_range(&v, 0, n);
    assert(r@ =~= v@.take(n as int));
    r
}

/// The two texts are equal when ASCII capitals count as small letters.
pub open spec fn eq_ignore_case(a: Seq<char>, b: Seq<char>) -> bool {
    a.map_values(|c: char| case::ascii_lower(c)) == b.map_values(|c: char| case::ascii_lower(c))
}

/// `c` with an ASCII capital turned into the small letter.
pub fn lower_char(c: char) -> (r: char)
    ensures
        r == case::ascii_lower(c),
{
    if 'A' <= c && c <= 'Z' {
        (c as u8 + 32) as char
    } else {
        c
    }
}

/// `s` with its ASCII capitals turned into small letters.
pub fn lower_ascii(s: &str) -> (r: String)
    ensures
        r@ == s@.map_values(|c: char| case::ascii_lower(c)),
{
    let v = to_chars(s);
    let mut out: Vec<char> = Vec::new();
    let mut i: usize = 0;
    while i < v.len()
        invariant
            v@ == s@,
            i <= v@.len(),
            out@ == s@.take(i as int).map_values(|c: char| case::ascii_lower(c)),
        decreases v@.len() - i,
    {
        out.push(lower_char(v[i]));
        i = i + 1;
        assert(out@ =~= s@.take(i as int).map_values(|c: char| case::ascii_lower(c)));
    }
    assert(s@.take(s@.len() as int) =~= s@);
    from_chars(&out)
}

/// Compares two texts without regard to the case of ASCII letters.
pub fn eq_ignore_ascii_case(a: &str, b: &str) -> (r: bool)
    ensures
        r == eq_ignore_case(a@, b@),
{
    lower_ascii(a) == lower_ascii(b)
}

} // verus!
