//! What the text primitives do, said of the texts alone.

use vstd::prelude::*;

use crate::text::chars;
use crate::text::edit;
use crate::text::number;
use crate::text::search;
use crate::text::split;

verus! {

/// The search for a character stops at the first one from the given index on,
/// and behind the text where there is none.
pub proof fn first_character_is_found(s: Seq<char>, c: char, from: int, i: int)
    requires
        0 <= from <= i <= s.len(),
    ensures
        search::index_from(s, c, from) == i <==> (i < s.len() ==> s[i] == c) && forall|j: int|
            from <= j < i ==> s[j] != c,
{
    search::lemma_index_from(s, c, from);
}

/// A text stands in another one exactly where the other one is made of
/// something before it, the text, and something behind it.
pub proof fn part_stands_between(a: Seq<char>, p: Seq<char>, b: Seq<char>, s: Seq<char>)
    ensures
        search::has_substring(a + p + b, p),
        search::has_prefix(p + b, p),
        search::has_suffix(a + p, p),
        search::has_substring(s, p) ==> exists|x: Seq<char>, y: Seq<char>| s == #[trigger] (x + p + y),
        search::has_prefix(s, p) <==> p.len() <= s.len() && forall|i: int|
            0 <= i < p.len() ==> s[i] == p[i],
        search::has_suffix(s, p) <==> p.len() <= s.len() && forall|i: int|
            0 <= i < p.len() ==> s[s.len() - p.len() + i] == p[i],
{
    let whole = a + p + b;
    assert(whole.subrange(a.len() as int, a.len() + p.len() as int) =~= p);
    assert(search::occurs_at(whole, p, a.len() as int));
    assert((p + b).subrange(0, p.len() as int) =~= p);
    assert((a + p).subrange(a.len() as int, (a + p).len() as int) =~= p);
    if search::has_substring(s, p) {
        let i = choose|i: int| search::occurs_at(s, p, i);
        let x = s.subrange(0, i);
        let y = s.subrange(i + p.len(), s.len() as int);
        assert(s.subrange(i, i + p.len()) == p);
        assert forall|k: int| 0 <= k < p.len() implies s[i + k] == p[k] by {
            assert(s.subrange(i, i + p.len())[k] == p[k]);
        }
        assert(s =~= x + p + y);
    }
    if search::has_prefix(s, p) {
        assert forall|i: int| 0 <= i < p.len() implies s[i] == p[i] by {
            assert(s.subrange(0, p.len() as int)[i] == p[i]);
        }
    }
    if p.len() <= s.len() && forall|i: int| 0 <= i < p.len() ==> s[i] == p[i] {
        assert(s.subrange(0, p.len() as int) =~= p);
    }
    let at = s.len() - p.len();
    if search::has_suffix(s, p) {
        assert forall|i: int| 0 <= i < p.len() implies s[at + i] == p[i] by {
            assert(s.subrange(at, at + p.len())[i] == p[i]);
        }
    }
    if p.len() <= s.len() && forall|i: int| 0 <= i < p.len() ==> s[at + i] == p[i] {
        assert(s.subrange(at, at + p.len()) =~= p);
    }
}

/// The pieces that a text is joined of stand in it one behind the other, with
/// the separator between any two.
pub proof fn pieces_stand_in_order(v: Seq<Seq<char>>, p: Seq<char>, sep: Seq<char>)
    ensures
        split::join_spec(Seq::<Seq<char>>::empty(), sep).len() == 0,
        split::join_spec(seq![p], sep) == p,
        v.len() > 0 ==> split::join_spec(v.push(p), sep) == split::join_spec(v, sep) + sep + p,
{
    assert(v.push(p).drop_last() =~= v);
}

proof fn lemma_split_from(s: Seq<char>, sep: char, from: int)
    requires
        0 <= from <= s.len(),
    ensures
        split::split_from(s, sep, from).len() > 0,
        split::join_spec(split::split_from(s, sep, from), seq![sep]) == s.subrange(
            from,
            s.len() as int,
        ),
        forall|i: int|
            0 <= i < split::split_from(s, sep, from).len() ==> !(#[trigger] split::split_from(
                s,
                sep,
                from,
            )[i]).contains(sep),
    decreases s.len() - from,
{
    let at = search::index_from(s, sep, from);
    search::lemma_index_from(s, sep, from);
    let all = split::split_from(s, sep, from);
    if at >= s.len() {
        assert(all =~= seq![s.subrange(from, s.len() as int)]);
    } else {
        lemma_split_from(s, sep, at + 1);
        let rest = split::split_from(s, sep, at + 1);
        let head = s.subrange(from, at);
        assert(all =~= seq![head] + rest);
        first_piece_stands_first(head, rest, seq![sep]);
        assert(s.subrange(from, s.len() as int) =~= head + seq![sep] + s.subrange(
            at + 1,
            s.len() as int,
        ));
        assert forall|i: int| 0 <= i < all.len() implies !(#[trigger] all[i]).contains(sep) by {
            if i > 0 {
                assert(all[i] == rest[i - 1]);
            }
        }
    }
}

/// The first of several pieces stands first in what they are joined to.
pub proof fn first_piece_stands_first(head: Seq<char>, rest: Seq<Seq<char>>, sep: Seq<char>)
    requires
        rest.len() > 0,
    ensures
        split::join_spec(seq![head] + rest, sep) == head + sep + split::join_spec(rest, sep),
    decreases rest.len(),
{
    let all = seq![head] + rest;
    if rest.len() == 1 {
        assert(all.drop_last() =~= seq![head]);
        assert(split::join_spec(seq![head], sep) == head);
        assert(split::join_spec(rest, sep) == rest[0]);
        assert(all.last() == rest[0]);
    } else {
        first_piece_stands_first(head, rest.drop_last(), sep);
        assert(all.drop_last() =~= seq![head] + rest.drop_last());
        assert(split::join_spec(all, sep) =~= head + sep + split::join_spec(rest, sep));
    }
}

/// The pieces of a text at a separator hold no separator, and joined with it
/// they are the text.
pub proof fn join_undoes_split(s: Seq<char>, sep: char, i: int)
    ensures
        split::split_spec(s, sep).len() > 0,
        split::join_spec(split::split_spec(s, sep), seq![sep]) == s,
        0 <= i < split::split_spec(s, sep).len() ==> !split::split_spec(s, sep)[i].contains(sep),
{
    lemma_split_from(s, sep, 0);
    assert(s.subrange(0, s.len() as int) =~= s);
}

/// A text is cut in two at the first separator, and not at all where it holds
/// none.
pub proof fn first_separator_cuts(a: Seq<char>, b: Seq<char>, sep: char)
    requires
        !a.contains(sep),
    ensures
        split::split_once_spec(a.push(sep) + b, sep) == Some((a, b)),
        split::split_once_spec(a, sep) is None,
{
    let s = a.push(sep) + b;
    assert(s[a.len() as int] == sep);
    assert forall|j: int| 0 <= j < a.len() implies s[j] != sep by {
        assert(s[j] == a[j]);
        assert(a.contains(a[j]));
    }
    first_character_is_found(s, sep, 0, a.len() as int);
    assert(s.subrange(0, a.len() as int) =~= a);
    assert(s.subrange(a.len() as int + 1, s.len() as int) =~= b);
    assert forall|j: int| 0 <= j < a.len() implies a[j] != sep by {
        assert(a.contains(a[j]));
    }
    first_character_is_found(a, sep, 0, a.len() as int);
}

/// Among the ASCII characters, the space and those from the tabulator to the
/// carriage return are white space, and no others.
pub proof fn ascii_white_space(c: char)
    requires
        (c as u32) < 128,
    ensures
        split::is_white_space(c) <==> c as u32 == 32 || 9 <= c as u32 <= 13,
{
}

proof fn lemma_trim_start(s: Seq<char>) -> (n: int)
    ensures
        0 <= n <= s.len(),
        split::trim_start_spec(s) == s.skip(n),
        forall|i: int| 0 <= i < n ==> split::is_white_space(#[trigger] s[i]),
        n < s.len() ==> !split::is_white_space(s[n]),
    decreases s.len(),
{
    if s.len() > 0 && split::is_white_space(s[0]) {
        let rest = s.subrange(1, s.len() as int);
        let m = lemma_trim_start(rest);
        assert(rest.skip(m) =~= s.skip(m + 1));
        assert forall|i: int| 0 <= i < m + 1 implies split::is_white_space(#[trigger] s[i]) by {
            if i > 0 {
                assert(rest[i - 1] == s[i]);
            }
        }
        m + 1
    } else {
        assert(s.skip(0) =~= s);
        0
    }
}

proof fn lemma_trim_end(s: Seq<char>) -> (n: int)
    ensures
        0 <= n <= s.len(),
        split::trim_end_spec(s) == s.take(n),
        forall|i: int| n <= i < s.len() ==> split::is_white_space(#[trigger] s[i]),
        n > 0 ==> !split::is_white_space(s[n - 1]),
    decreases s.len(),
{
    if s.len() > 0 && split::is_white_space(s[s.len() - 1]) {
        let rest = s.subrange(0, s.len() - 1);
        let m = lemma_trim_end(rest);
        assert(rest.take(m) =~= s.take(m));
        assert forall|i: int| m <= i < s.len() implies split::is_white_space(#[trigger] s[i]) by {
            if i < s.len() - 1 {
                assert(rest[i] == s[i]);
            }
        }
        m
    } else {
        assert(s.take(s.len() as int) =~= s);
        s.len() as int
    }
}

/// Trimming takes the white space off both ends, and nothing else.
pub proof fn trimming_takes_white_space(a: Seq<char>, s: Seq<char>, b: Seq<char>)
    requires
        forall|i: int| 0 <= i < a.len() ==> split::is_white_space(#[trigger] a[i]),
        forall|i: int| 0 <= i < b.len() ==> split::is_white_space(#[trigger] b[i]),
        s.len() > 0 ==> !split::is_white_space(s[0]) && !split::is_white_space(s.last()),
    ensures
        split::trim_spec(a + s + b) == s,
{
    let whole = a + s + b;
    let n = lemma_trim_start(whole);
    let m = lemma_trim_end(whole.skip(n));
    if s.len() > 0 {
        assert(whole[a.len() as int] == s[0]);
        assert(n == a.len()) by {
            if n > a.len() {
                assert(split::is_white_space(whole[a.len() as int]));
            }
            if n < a.len() {
                assert(whole[n] == a[n]);
            }
        }
        let rest = whole.skip(n);
        assert(rest =~= s + b);
        assert(rest[s.len() - 1] == s.last());
        assert(m == s.len()) by {
            if m > s.len() {
                assert(rest[m - 1] == b[m - 1 - s.len()]);
            }
            if m < s.len() {
                assert(split::is_white_space(rest[s.len() - 1]));
            }
        }
        assert(rest.take(m) =~= s);
    } else {
        assert(n == whole.len()) by {
            if n < whole.len() {
                if n < a.len() {
                    assert(whole[n] == a[n]);
                } else {
                    assert(whole[n] == b[n - a.len()]);
                }
            }
        }
        assert(split::trim_spec(whole) =~= s);
    }
}

/// Every text is a trimmed text with white space around it.
pub proof fn trimmed_text_stands_within(s: Seq<char>)
    ensures
        exists|a: Seq<char>, b: Seq<char>|
            #![trigger a + split::trim_spec(s) + b]
            s == a + split::trim_spec(s) + b && (forall|i: int|
                0 <= i < a.len() ==> split::is_white_space(#[trigger] a[i])) && forall|i: int|
                0 <= i < b.len() ==> split::is_white_space(#[trigger] b[i]),
        split::trim_spec(s).len() > 0 ==> !split::is_white_space(split::trim_spec(s)[0])
            && !split::is_white_space(split::trim_spec(s).last()),
{
    let n = lemma_trim_start(s);
    let rest = s.skip(n);
    let m = lemma_trim_end(rest);
    let a = s.take(n);
    let b = rest.skip(m);
    let t = split::trim_spec(s);
    assert(t =~= rest.take(m));
    assert(s =~= a + t + b);
    assert forall|i: int| 0 <= i < b.len() implies split::is_white_space(#[trigger] b[i]) by {
        assert(b[i] == rest[m + i]);
    }
    assert forall|i: int| 0 <= i < a.len() implies split::is_white_space(#[trigger] a[i]) by {
        assert(a[i] == s[i]);
    }
    if t.len() > 0 {
        assert(t[0] == s[n]);
        assert(t.last() == rest[m - 1]);
    }
}

/// Lines that are written one below the other are read as they are, with and
/// without a line feed behind the last one.
pub proof fn lines_read_back(v: Seq<Seq<char>>)
    requires
        v.len() > 0,
        v.last().len() > 0,
        forall|i: int|
            0 <= i < v.len() ==> !(#[trigger] v[i]).contains('\n') && (v[i].len() > 0
                ==> v[i].last() != '\r'),
    ensures
        split::lines_spec(split::join_spec(v, seq!['\n'])) == v,
        split::lines_spec(split::join_spec(v, seq!['\n']).push('\n')) == v,
{
    let s = split::join_spec(v, seq!['\n']);
    split::split_undoes_join(v, '\n');
    assert(split::lines_spec(s) =~= v);
    let more = v.push(Seq::empty());
    assert forall|i: int| 0 <= i < more.len() implies !(#[trigger] more[i]).contains('\n') by {
        if i < v.len() {
            assert(more[i] == v[i]);
        }
    }
    split::split_undoes_join(more, '\n');
    pieces_stand_in_order(v, Seq::empty(), seq!['\n']);
    assert(s.push('\n') =~= split::join_spec(more, seq!['\n']));
    let pieces = split::split_spec(s.push('\n'), '\n');
    assert(pieces == more);
    assert(pieces.drop_last() =~= v);
    assert(split::lines_spec(s.push('\n')) =~= v);
}

/// A line that ends with a carriage return and a line feed is read without
/// both.
pub proof fn carriage_return_is_dropped(line: Seq<char>)
    requires
        !line.contains('\n'),
    ensures
        split::lines_spec(line.push('\r').push('\n')) == seq![line],
        split::lines_spec(Seq::<char>::empty()).len() == 0,
{
    let more = seq![line.push('\r'), Seq::<char>::empty()];
    assert(!more[0].contains('\n')) by {
        if more[0].contains('\n') {
            let i = choose|i: int| 0 <= i < more[0].len() && more[0][i] == '\n';
            assert(line[i] == '\n');
        }
    }
    split::split_undoes_join(more, '\n');
    assert(more.drop_last() =~= seq![line.push('\r')]);
    let s = line.push('\r').push('\n');
    assert(s =~= split::join_spec(more, seq!['\n'])) by {
        reveal_with_fuel(split::join_spec, 3);
    }
    assert(line.push('\r').drop_last() =~= line);
    assert(split::lines_spec(s) =~= seq![line]);
    let none = seq![Seq::<char>::empty()];
    split::split_undoes_join(none, '\n');
    assert(split::join_spec(none, seq!['\n']) =~= Seq::<char>::empty());
}

proof fn lemma_word(s: Seq<char>, start: int, i: int)
    requires
        0 <= start <= i <= s.len(),
        forall|j: int| start <= j < s.len() ==> !split::is_white_space(#[trigger] s[j]),
        start < s.len(),
    ensures
        edit::words_from(s, start, i) == seq![s.subrange(start, s.len() as int)],
    decreases s.len() - i,
{
    if i < s.len() {
        lemma_word(s, start, i + 1);
    }
}

proof fn lemma_words_apart(a: Seq<char>, c: char, b: Seq<char>, start: int, i: int)
    requires
        0 <= start <= i <= a.len(),
        split::is_white_space(c),
    ensures
        edit::words_from(a.push(c) + b, start, i) == edit::words_from(a, start, i)
            + edit::words_from(b, 0, 0),
    decreases a.len() - i,
{
    let s = a.push(c) + b;
    assert(start < i ==> s.subrange(start, i) =~= a.subrange(start, i));
    if i == a.len() {
        assert(s[i] == c);
        assert(s.skip(s.len() - b.len()) =~= b);
        lemma_words_shift(s, b, i + 1, i + 1, 0, 0);
        assert(edit::words_from(s, start, i) =~= edit::words_from(a, start, i) + edit::words_from(
            b,
            0,
            0,
        ));
    } else {
        assert(s[i] == a[i]);
        if split::is_white_space(a[i]) {
            lemma_words_apart(a, c, b, i + 1, i + 1);
        } else {
            lemma_words_apart(a, c, b, start, i + 1);
        }
        assert(edit::words_from(s, start, i) =~= edit::words_from(a, start, i) + edit::words_from(
            b,
            0,
            0,
        ));
    }
}

proof fn lemma_words_shift(s: Seq<char>, b: Seq<char>, start: int, i: int, bstart: int, bi: int)
    requires
        b.len() <= s.len(),
        s.skip(s.len() - b.len()) == b,
        0 <= bstart <= bi <= b.len(),
        start == s.len() - b.len() + bstart,
        i == s.len() - b.len() + bi,
    ensures
        edit::words_from(s, start, i) == edit::words_from(b, bstart, bi),
    decreases b.len() - bi,
{
    let off = s.len() - b.len();
    assert forall|k: int| 0 <= k < b.len() implies s[off + k] == b[k] by {
        assert(s.skip(off)[k] == b[k]);
    }
    assert(start < i ==> s.subrange(start, i) =~= b.subrange(bstart, bi));
    if bi < b.len() {
        assert(s[i] == b[bi]);
        if split::is_white_space(b[bi]) {
            lemma_words_shift(s, b, i + 1, i + 1, bi + 1, bi + 1);
        } else {
            lemma_words_shift(s, b, start, i + 1, bstart, bi + 1);
        }
    }
}

/// The words of a text are found on both sides of any white space, and a text
/// without white space is one word.
pub proof fn white_space_parts_words(a: Seq<char>, c: char, b: Seq<char>, word: Seq<char>)
    requires
        split::is_white_space(c),
        word.len() > 0,
        forall|i: int| 0 <= i < word.len() ==> !split::is_white_space(#[trigger] word[i]),
    ensures
        edit::words_spec(a.push(c) + b) == edit::words_spec(a) + edit::words_spec(b),
        edit::words_spec(word) == seq![word],
        edit::words_spec(Seq::<char>::empty()).len() == 0,
{
    assert((a.push(c) + b).skip((a.push(c) + b).len() - b.len()) =~= b);
    lemma_words_apart(a, c, b, 0, 0);
    lemma_word(word, 0, 0);
    assert(word.subrange(0, word.len() as int) =~= word);
}

/// A prefix or a suffix that is taken off is the one that was put on.
pub proof fn affixes_come_off(p: Seq<char>, s: Seq<char>)
    ensures
        edit::strip_prefix_spec(p + s, p) == Some(s),
        edit::strip_suffix_spec(s + p, p) == Some(s),
        edit::strip_prefix_spec(s, p) matches Some(r) ==> s == p + r,
        edit::strip_suffix_spec(s, p) matches Some(r) ==> s == r + p,
{
    part_stands_between(s, p, s, s);
    assert((p + s).subrange(p.len() as int, (p + s).len() as int) =~= s);
    assert((s + p).subrange(0, s.len() as int) =~= s);
    if let Some(r) = edit::strip_prefix_spec(s, p) {
        assert(s =~= p + r);
    }
    if let Some(r) = edit::strip_suffix_spec(s, p) {
        assert forall|i: int| 0 <= i < p.len() implies s[s.len() - p.len() + i] == p[i] by {}
        assert(s =~= r + p);
    }
}

/// All of one character goes from the end, or from the start, and nothing
/// else.
pub proof fn characters_go_from_the_ends(s: Seq<char>, c: char, n: nat)
    requires
        s.len() > 0 ==> s[0] != c && s.last() != c,
    ensures
        edit::trim_end_char_spec(s + Seq::new(n, |i: int| c), c) == s,
        edit::trim_start_char_spec(Seq::new(n, |i: int| c) + s, c) == s,
    decreases n,
{
    let cs = Seq::new(n, |i: int| c);
    if n > 0 {
        let less = Seq::new((n - 1) as nat, |i: int| c);
        characters_go_from_the_ends(s, c, (n - 1) as nat);
        assert((s + cs).drop_last() =~= s + less);
        assert((cs + s).subrange(1, (cs + s).len() as int) =~= less + s);
    } else {
        assert(s + cs =~= s);
        assert(cs + s =~= s);
    }
}

proof fn lemma_replaced_until(s: Seq<char>, p: Seq<char>, w: Seq<char>, from: int, i: int)
    requires
        p.len() > 0,
        0 <= from <= i,
        i + p.len() <= s.len(),
        search::occurs_at(s, p, i),
        forall|j: int| from <= j < i ==> !search::occurs_at(s, p, j),
    ensures
        edit::replace_from(s, p, w, from) == s.subrange(from, i) + w + edit::replace_from(
            s,
            p,
            w,
            i + p.len(),
        ),
    decreases i - from,
{
    if from < i {
        assert(!search::occurs_at(s, p, from));
        lemma_replaced_until(s, p, w, from + 1, i);
        assert(s.subrange(from, i) =~= seq![s[from]] + s.subrange(from + 1, i));
    } else {
        assert(s.subrange(from, i) =~= Seq::<char>::empty());
        assert(edit::replace_from(s, p, w, from) =~= s.subrange(from, i) + w + edit::replace_from(
            s,
            p,
            w,
            i + p.len(),
        ));
    }
}

proof fn lemma_nothing_replaced(s: Seq<char>, p: Seq<char>, w: Seq<char>, from: int)
    requires
        0 <= from <= s.len(),
        forall|j: int| from <= j ==> !search::occurs_at(s, p, j),
    ensures
        edit::replace_from(s, p, w, from) == s.subrange(from, s.len() as int),
    decreases s.len() - from,
{
    if p.len() > 0 && from + p.len() <= s.len() {
        assert(!search::occurs_at(s, p, from));
        lemma_nothing_replaced(s, p, w, from + 1);
        assert(s.subrange(from, s.len() as int) =~= seq![s[from]] + s.subrange(
            from + 1,
            s.len() as int,
        ));
    }
}

/// Everywhere from the left, what is to be replaced gives way to what replaces
/// it; what stands between stays.
pub proof fn parts_are_replaced(s: Seq<char>, p: Seq<char>, w: Seq<char>, from: int, i: int)
    requires
        p.len() > 0,
        0 <= from <= i,
        from <= s.len(),
    ensures
        search::occurs_at(s, p, i) && (forall|j: int|
            from <= j < i ==> !search::occurs_at(s, p, j)) ==> edit::replace_from(s, p, w, from)
            == s.subrange(from, i) + w + edit::replace_from(s, p, w, i + p.len()),
        (forall|j: int| from <= j ==> !search::occurs_at(s, p, j)) ==> edit::replace_from(
            s,
            p,
            w,
            from,
        ) == s.subrange(from, s.len() as int),
{
    if search::occurs_at(s, p, i) && forall|j: int| from <= j < i ==> !search::occurs_at(s, p, j) {
        lemma_replaced_until(s, p, w, from, i);
    }
    if forall|j: int| from <= j ==> !search::occurs_at(s, p, j) {
        lemma_nothing_replaced(s, p, w, from);
    }
}

/// One character becomes another one wherever it stands, and no other does.
pub proof fn character_is_replaced(s: Seq<char>, a: char, b: char, i: int)
    requires
        0 <= i < s.len(),
    ensures
        edit::replace_char_spec(s, a, b).len() == s.len(),
        s[i] == a ==> edit::replace_char_spec(s, a, b)[i] == b,
        s[i] != a ==> edit::replace_char_spec(s, a, b)[i] == s[i],
{
}

/// Texts count as equal without regard to case exactly where they are as long
/// and differ at most in the case of ASCII letters.
pub proof fn case_is_disregarded(a: Seq<char>, b: Seq<char>)
    ensures
        edit::eq_ignore_case(a, b) <==> a.len() == b.len() && forall|i: int|
            0 <= i < a.len() ==> #[trigger] a[i] == b[i] || ('A' <= a[i] <= 'Z' && b[i] as u32
                == a[i] as u32 + 32) || ('A' <= b[i] <= 'Z' && a[i] as u32 == b[i] as u32 + 32),
{
    let la = a.map_values(|c: char| crate::text::case::ascii_lower(c));
    let lb = b.map_values(|c: char| crate::text::case::ascii_lower(c));
    if la == lb {
        assert(la.len() == lb.len());
        assert forall|i: int| 0 <= i < a.len() implies #[trigger] a[i] == b[i] || ('A' <= a[i] <= 'Z'
            && b[i] as u32 == a[i] as u32 + 32) || ('A' <= b[i] <= 'Z' && a[i] as u32 == b[i] as u32
            + 32) by {
            assert(la[i] == lb[i]);
        }
    }
    if a.len() == b.len() && forall|i: int|
        0 <= i < a.len() ==> #[trigger] a[i] == b[i] || ('A' <= a[i] <= 'Z' && b[i] as u32
            == a[i] as u32 + 32) || ('A' <= b[i] <= 'Z' && a[i] as u32 == b[i] as u32 + 32) {
        assert forall|i: int| 0 <= i < a.len() implies la[i] == lb[i] by {
            assert(a[i] == b[i] || ('A' <= a[i] <= 'Z' && b[i] as u32 == a[i] as u32 + 32) || ('A'
                <= b[i] <= 'Z' && a[i] as u32 == b[i] as u32 + 32));
        }
        assert(la =~= lb);
    }
}

/// The decimal form of a number ends with its last digit, before which stands
/// the decimal form of the rest.
pub proof fn decimal_digits(n: nat)
    ensures
        number::decimal_spec(n).last() as u32 == 48 + n % 10,
        n < 10 ==> number::decimal_spec(n).len() == 1,
        n >= 10 ==> number::decimal_spec(n).drop_last() == number::decimal_spec(n / 10),
        number::signed_decimal_spec(n as int) == number::decimal_spec(n),
        n > 0 ==> number::signed_decimal_spec(-n) == "-"@ + number::decimal_spec(n),
{
    if n >= 10 {
        assert(number::decimal_spec(n).drop_last() =~= number::decimal_spec(n / 10));
    }
}

/// Only digits, with at most a plus sign before them, write a number, and only
/// one that is not too large. One more digit makes it ten times as large, and
/// adds the digit.
pub proof fn digits_write_numbers(s: Seq<char>, c: char, max: int)
    requires
        s.len() > 0,
    ensures
        number::parse_spec(Seq::<char>::empty(), max) is None,
        number::parse_spec(seq!['+'], max) is None,
        !('0' <= c <= '9') ==> number::parse_spec(s.push(c), max) is None,
        '0' <= c <= '9' ==> number::parse_spec(s.push(c), max) == (match number::parse_spec(s, max) {
            Some(n) => if 10 * n + (c as int - 48) <= max {
                Some(10 * n + (c as int - 48))
            } else {
                None::<int>
            },
            None => if s == seq!['+'] && c as int - 48 <= max {
                Some(c as int - 48)
            } else {
                None
            },
        }),
        '0' <= c <= '9' && c as int - 48 <= max ==> number::parse_spec(seq![c], max) == Some(
            c as int - 48,
        ),
{
    reveal_with_fuel(number::digits_value, 3);
    let t = s.push(c);
    let d = number::unsigned_digits(s);
    let e = number::unsigned_digits(t);
    assert(e =~= d.push(c));
    assert(e.drop_last() =~= d);
    assert(e[d.len() as int] == c);
    if number::all_digits(d) && '0' <= c <= '9' {
        number::lemma_digits_value_grows(e, d.len() as int);
        number::lemma_digits_value_grows(d, d.len() as int);
        assert(d.take(d.len() as int) =~= d);
        assert(e.take(d.len() as int) =~= d);
        assert(number::all_digits(e));
    }
    if number::all_digits(e) {
        assert forall|i: int| 0 <= i < d.len() implies '0' <= #[trigger] d[i] <= '9' by {
            assert(e[i] == d[i]);
        }
    }
    if d.len() == 0 {
        assert(s =~= seq!['+']);
    }
    assert(number::unsigned_digits(seq!['+']).len() == 0);
    let one = seq![c];
    assert(one.drop_last() =~= Seq::<char>::empty());
}

/// A minus sign makes a number negative.
pub proof fn minus_sign_negates(d: Seq<char>, min: int, max: int)
    requires
        d.len() > 0,
        d[0] != '+',
        d[0] != '-',
    ensures
        number::parse_between(seq!['-'] + d, min, max) == (match number::parse_spec(d, -min) {
            Some(n) => Some(-n),
            None => None::<int>,
        }),
        number::parse_between(d, min, max) == number::parse_spec(d, max),
{
    let s = seq!['-'] + d;
    assert(s.subrange(1, s.len() as int) =~= d);
}

/// The first and the last characters of a text are as many as are asked for,
/// or all there are, in their places.
pub proof fn ends_of_a_text(s: Seq<char>, n: nat, i: int)
    ensures
        chars::first_chars_spec(s, n).len() == if n <= s.len() {
            n
        } else {
            s.len()
        },
        chars::last_chars_spec(s, n).len() == chars::first_chars_spec(s, n).len(),
        0 <= i < n && i < s.len() ==> chars::first_chars_spec(s, n)[i] == s[i],
        0 <= i < n && i < s.len() ==> chars::last_chars_spec(s, n)[chars::last_chars_spec(
            s,
            n,
        ).len() - 1 - i] == s[s.len() - 1 - i],
{
}

/// What is said of the contents of strings is said of the strings, one by one.
pub proof fn contents_are_those_of_the_strings(
    v: Seq<String>,
    o: Option<String>,
    p: Seq<(String, String)>,
    b: Option<Vec<u8>>,
    i: int,
)
    ensures
        chars::views(v).len() == v.len(),
        0 <= i < v.len() ==> chars::views(v)[i] == v[i]@,
        chars::opt_view(o) is Some <==> o is Some,
        o is Some ==> chars::opt_view(o) == Some(o->0@),
        chars::pairs(p).len() == p.len(),
        0 <= i < p.len() ==> chars::pairs(p)[i] == (p[i].0@, p[i].1@),
        chars::opt_bytes(b) is Some <==> b is Some,
        b is Some ==> chars::opt_bytes(b) == Some(b->0@),
{
}

} // verus!
