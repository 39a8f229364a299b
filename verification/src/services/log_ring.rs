//! The last lines of a log.

use vstd::prelude::*;

use crate::text::chars;

verus! {

/// How many lines are kept.
pub const MAX_LINES: usize = 5000;

/// The last lines of a log.
#[derive(Debug)]
pub struct LogRing {
    lines: Vec<String>,
}

/// The last `n` elements.
pub open spec fn last_of<T>(s: Seq<T>, n: int) -> Seq<T> {
    if s.len() <= n {
        s
    } else {
        s.subrange(s.len() - n, s.len() as int)
    }
}

/// How many lines a request for `tail` of them gets at most.
pub open spec fn clamped(tail: usize) -> int {
    if tail < 1 {
        1
    } else if tail > MAX_LINES {
        MAX_LINES as int
    } else {
        tail as int
    }
}

impl View for LogRing {
    type V = Seq<Seq<char>>;

    closed spec fn view(&self) -> Seq<Seq<char>> {
        chars::views(self.lines@)
    }
}

impl LogRing {
    #[verifier::type_invariant]
    spec fn bounded(self) -> bool {
        self.lines@.len() <= MAX_LINES
    }

    /// A log without lines.
    pub fn new() -> (r: LogRing)
        ensures
            r@ == Seq::<Seq<char>>::empty(),
    {
        let r = LogRing { lines: Vec::new() };
        assert(r@ =~= Seq::<Seq<char>>::empty());
        r
    }

    /// Adds a line; the oldest ones go where there would be too many.
    pub fn push(&mut self, line: String)
        ensures
            final(self)@ == last_of(old(self)@.push(line@), MAX_LINES as int),
            final(self)@.len() <= MAX_LINES,
    {
        proof {
            use_type_invariant(&*self);
        }
        let ghost before = self.lines@;
        let mut lines: Vec<String> = Vec::new();
        std::mem::swap(&mut lines, &mut self.lines);
        lines.push(line);
        if lines.len() > MAX_LINES {
            lines.remove(0);
        }
        self.lines = lines;
        assert(self@ =~= last_of(chars::views(before).push(line@), MAX_LINES as int));
    }

    /// The last `tail` lines, at least one and at most as many as are kept.
    pub fn tail(&self, tail: usize) -> (r: Vec<String>)
        ensures
            chars::views(r@) == last_of(self@, clamped(tail)),
    {
        let wanted = if tail < 1 {
            1
        } else if tail > MAX_LINES {
            MAX_LINES
        } else {
            tail
        };
        let n = self.lines.len();
        let start = if n <= wanted {
            0
        } else {
            n - wanted
        };
        let mut r: Vec<String> = Vec::new();
        let mut i: usize = start;
        while i < n
            invariant
                n == self.lines@.len(),
                start <= i <= n,
                r@ == self.lines@.subrange(start as int, i as int),
            decreases n - i,
        {
            r.push(self.lines[i].clone());
            i = i + 1;
            assert(r@ =~= self.lines@.subrange(start as int, i as int));
        }
        assert(chars::views(r@) =~= last_of(self@, clamped(tail)));
        r
    }
}

/// What a tail shows stands at the end of the log, in order, and the longest
/// tail shows everything that is kept.
pub proof fn tail_is_suffix(lines: Seq<Seq<char>>, tail: usize, i: int)
    requires
        0 <= i < last_of(lines, clamped(tail)).len(),
    ensures
        last_of(lines, clamped(tail))[i] == lines[lines.len() - last_of(lines, clamped(tail)).len()
            + i],
        lines.len() <= MAX_LINES ==> last_of(lines, clamped(MAX_LINES)) == lines,
{
}

} // verus!
