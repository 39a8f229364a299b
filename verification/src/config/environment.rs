//! The environment variables that the agent is configured by.

use vstd::prelude::*;

use crate::text::chars;
use crate::text::chars::str_eq;
use crate::text::edit;
use crate::text::edit::eq_ignore_ascii_case;
use crate::text::number;
use crate::text::number::{parse_u16, parse_u64, parse_usize};

verus! {

/// A snapshot of the environment: the variables in the order in which they
/// are listed, and the name of the host.
pub struct Environment {
    pub vars: Vec<(String, String)>,
    pub hostname: Option<String>,
}

/// The value of the first variable called `name`.
pub open spec fn lookup(vars: Seq<(String, String)>, name: Seq<char>) -> Option<Seq<char>>
    decreases vars.len(),
{
    if vars.len() == 0 {
        None
    } else if vars[0].0@ == name {
        Some(vars[0].1@)
    } else {
        lookup(vars.subrange(1, vars.len() as int), name)
    }
}

/// The switch value `s` means "on".
pub open spec fn says_on(s: Seq<char>) -> bool {
    s == "1"@ || edit::eq_ignore_case(s, "true"@)
}

impl Environment {
    /// The value of a variable.
    pub open spec fn value(&self, name: Seq<char>) -> Option<Seq<char>> {
        lookup(self.vars@, name)
    }

    /// The value of a variable, or a default.
    pub open spec fn text_or(&self, name: Seq<char>, default: Seq<char>) -> Seq<char> {
        match self.value(name) {
            Some(s) => s,
            None => default,
        }
    }

    /// The value of a variable that is not empty.
    pub open spec fn nonempty(&self, name: Seq<char>) -> Option<Seq<char>> {
        match self.value(name) {
            Some(s) => if s.len() == 0 {
                None
            } else {
                Some(s)
            },
            None => None,
        }
    }

    /// The number that a variable writes, at most `max`, or a default.
    pub open spec fn number_or(&self, name: Seq<char>, max: int, default: int) -> int {
        match self.value(name) {
            Some(s) => match number::parse_spec(s, max) {
                Some(n) => n,
                None => default,
            },
            None => default,
        }
    }

    /// Whether a variable says "1" or "true", in any case of letters, or a
    /// default where it is not set.
    pub open spec fn switch(&self, name: Seq<char>, default: bool) -> bool {
        match self.value(name) {
            Some(s) => says_on(s),
            None => default,
        }
    }

    /// Whether a variable says exactly "true" or "1".
    pub open spec fn exact_switch(&self, name: Seq<char>) -> bool {
        self.value(name) == Some("true"@) || self.value(name) == Some("1"@)
    }

    /// The name of the host, or "unknown".
    pub open spec fn host(&self) -> Seq<char> {
        match self.hostname {
            Some(h) => h@,
            None => "unknown"@,
        }
    }

    /// Reads a variable.
    pub fn var(&self, name: &str) -> (r: Option<String>)
        ensures
            chars::opt_view(r) == self.value(name@),
    {
        let mut i: usize = 0;
        assert(self.vars@.subrange(0, self.vars@.len() as int) =~= self.vars@);
        while i < self.vars.len()
            invariant
                i <= self.vars@.len(),
                self.value(name@) == lookup(
                    self.vars@.subrange(i as int, self.vars@.len() as int),
                    name@,
                ),
            decreases self.vars@.len() - i,
        {
            let ghost rest = self.vars@.subrange(i as int, self.vars@.len() as int);
            if str_eq(self.vars[i].0.as_str(), name) {
                assert(rest[0] == self.vars@[i as int]);
                return Some(self.vars[i].1.clone());
            }
            assert(rest[0] == self.vars@[i as int]);
            assert(rest.subrange(1, rest.len() as int) =~= self.vars@.subrange(
                i + 1,
                self.vars@.len() as int,
            ));
            i = i + 1;
        }
        None
    }

    /// Reads a variable, or takes a default.
    pub fn get_text(&self, name: &str, default: &str) -> (r: String)
        ensures
            r@ == self.text_or(name@, default@),
    {
        match self.var(name) {
            Some(s) => s,
            None => default.to_owned(),
        }
    }

    /// Reads a variable that is not empty.
    pub fn get_nonempty(&self, name: &str) -> (r: Option<String>)
        ensures
            chars::opt_view(r) == self.nonempty(name@),
    {
        match self.var(name) {
            Some(s) => if s.as_str().is_empty() {
                None
            } else {
                Some(s)
            },
            None => None,
        }
    }

    /// Reads a `u16`, or takes a default.
    pub fn get_u16(&self, name: &str, default: u16) -> (r: u16)
        ensures
            r == self.number_or(name@, u16::MAX as int, default as int),
    {
        match self.var(name) {
            Some(s) => match parse_u16(s.as_str()) {
                Some(n) => n,
                None => default,
            },
            None => default,
        }
    }

    /// Reads a `u64`, or takes a default.
    pub fn get_u64(&self, name: &str, default: u64) -> (r: u64)
        ensures
            r == self.number_or(name@, u64::MAX as int, default as int),
    {
        match self.var(name) {
            Some(s) => match parse_u64(s.as_str()) {
                Some(n) => n,
                None => default,
            },
            None => default,
        }
    }

    /// Reads a `usize`, or takes a default.
    pub fn get_usize(&self, name: &str, default: usize) -> (r: usize)
        ensures
            r == self.number_or(name@, usize::MAX as int, default as int),
    {
        match self.var(name) {
            Some(s) => match parse_usize(s.as_str()) {
                Some(n) => n,
                None => default,
            },
            None => default,
        }
    }

    /// Reads a switch: "1", or "true" in any case of letters.
    pub fn get_switch(&self, name: &str, default: bool) -> (r: bool)
        ensures
            r == self.switch(name@, default),
    {
        match self.var(name) {
            Some(s) => str_eq(s.as_str(), "1") || eq_ignore_ascii_case(s.as_str(), "true"),
            None => default,
        }
    }

    /// Reads a switch that is on at exactly "true" or "1".
    pub fn get_exact_switch(&self, name: &str) -> (r: bool)
        ensures
            r == self.exact_switch(name@),
    {
        match self.var(name) {
            Some(s) => str_eq(s.as_str(), "true") || str_eq(s.as_str(), "1"),
            None => false,
        }
    }

    /// The name of the host, or "unknown".
    pub fn host_name(&self) -> (r: String)
        ensures
            r@ == self.host(),
    {
        match &self.hostname {
            Some(h) => h.clone(),
            None => "unknown".to_owned(),
        }
    }

    /// The value of `primary`, or that of `fallback`.
    pub open spec fn either(&self, primary: Seq<char>, fallback: Seq<char>) -> Option<Seq<char>> {
        match self.value(primary) {
            Some(s) => Some(s),
            None => self.value(fallback),
        }
    }

    /// Reads `primary`, or `fallback` where that is not set.
    pub fn load_with_fallback(&self, primary: &str, fallback: &str) -> (r: Option<String>)
        ensures
            chars::opt_view(r) == self.either(primary@, fallback@),
    {
        match self.var(primary) {
            Some(s) => Some(s),
            None => self.var(fallback),
        }
    }
}

} // verus!
