//! Texts measured in the bytes of their UTF-8 form.

use vstd::prelude::*;

use crate::text::chars::{from_range, to_chars};

verus! {

/// The number of bytes that UTF-8 spends on `c`.
pub open spec fn width(c: char) -> int {
    if (c as u32) < 0x80 {
        1
    } else if (c as u32) < 0x800 {
        2
    } else if (c as u32) < 0x1_0000 {
        3
    } else {
        4
    }
}

/// The number of bytes of the UTF-8 form of `s`.
pub open spec fn byte_len(s: Seq<char>) -> int
    decreases s.len(),
{
    if s.len() == 0 {
        0
    } else {
        byte_len(s.drop_last()) + width(s.last())
    }
}

/// `p` is the longest prefix of `s` that takes at most `limit` bytes.
pub open spec fn is_byte_prefix(p: Seq<char>, s: Seq<char>, limit: int) -> bool {
    &&& p.len() <= s.len()
    &&& p == s.take(p.len() as int)
    &&& byte_len(p) <= limit
    &&& p.len() < s.len() ==> byte_len(p) + width(s[p.len() as int]) > limit
}

/// The longest prefix of `s` that takes at most `limit` bytes.
pub open spec fn byte_prefix_spec(s: Seq<char>, limit: int) -> Seq<char>
    decreases s.len(),
{
    if byte_len(s) <= limit || s.len() == 0 {
        s
    } else {
        byte_prefix_spec(s.drop_last(), limit)
    }
}

proof fn lemma_byte_len_grows(s: Seq<char>, n: int)
    requires
        0 <= n <= s.len(),
    ensures
        0 <= byte_len(s.take(n)) <= byte_len(s),
    decreases s.len(),
{
    if n < s.len() {
        assert(s.drop_last().take(n) =~= s.take(n));
        lemma_byte_len_grows(s.drop_last(), n);
    } else {
        assert(s.take(n) =~= s);
        if s.len() > 0 {
            lemma_byte_len_grows(s.drop_last(), s.len() - 1);
            assert(s.drop_last().take(s.len() - 1) =~= s.drop_last());
        }
    }
}

proof fn lemma_prefix(s: Seq<char>, p: Seq<char>, limit: int)
    requires
        is_byte_prefix(p, s, limit),
    ensures
        byte_prefix_spec(s, limit) == p,
    decreases s.len(),
{
    if p.len() == s.len() {
        assert(p =~= s);
    } else {
        let more = s.take(p.len() as int + 1);
        assert(more.drop_last() =~= p);
        lemma_byte_len_grows(s, p.len() as int + 1);
        assert(s.drop_last().take(p.len() as int) =~= p);
        lemma_prefix(s.drop_last(), p, limit);
    }
}

/// The number of bytes that UTF-8 spends on `c`.
pub fn char_width(c: char) -> (r: u64)
    ensures
        r == width(c),
        1 <= r <= 4,
{
    let n: u32 = c as u32;
    if n < 0x80 {
        1
    } else if n < 0x800 {
        2
    } else if n < 0x1_0000 {
        3
    } else {
        4
    }
}

/// The longest prefix of `s` that takes at most `limit` bytes.
pub fn byte_prefix(s: &str, limit: u32) -> (r: String)
    ensures
        r@ == byte_prefix_spec(s@, limit as int),
{
    let v = to_chars(s);
    let mut used: u64 = 0;
    let mut i: usize = 0;
    while i < v.len() && used + char_width(v[i]) <= limit as u64
        invariant
            v@ == s@,
            i <= v@.len(),
            used <= limit,
            used == byte_len(v@.take(i as int)),
        decreases v@.len() - i,
    {
        assert(v@.take(i + 1).drop_last() =~= v@.take(i as int));
        used = used + char_width(v[i]);
        i = i + 1;
    }
    let r = from_range(&v, 0, i);
    proof {
        assert(r@ =~= s@.take(i as int));
        lemma_prefix(s@, r@, limit as int);
    }
    r
}

} // verus!
