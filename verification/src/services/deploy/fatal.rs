//! Signs of a fatal error in a container's log.

use vstd::prelude::*;

use crate::text::bytes;
use crate::text::bytes::byte_prefix;
use crate::text::case;
use crate::text::case::to_lowercase;
use crate::text::chars;
use crate::text::chars::{concat4, strings};
use crate::text::search;
use crate::text::search::contains;
use crate::text::split;
use crate::text::split::lines;

verus! {

/// The lower-case texts that mark a fatal error, in the order in which they
/// are looked for.
pub open spec fn fatal_patterns() -> Seq<Seq<char>> {
    seq![
        "panic"@,
        "fatal error"@,
        "segmentation fault"@,
        "core dumped"@,
        "killed"@,
        "out of memory"@,
        "oom"@,
        "overlapping"@,
        "route conflict"@,
        "handler already registered"@,
        "duplicate route"@,
        "thread.*panicked"@,
        "called `result::unwrap()` on an `err`"@,
        "called `option::unwrap()` on a `none`"@,
        "stack backtrace"@,
        "assertion failed"@,
        "index out of bounds"@,
        "sigabrt"@,
        "sigsegv"@,
        "sigkill"@,
        "signal 6"@,
        "signal 9"@,
        "signal 11"@,
        "exit code 134"@,
        "exit code 139"@,
        "exited with code 1"@,
        "connection refused"@,
        "connection reset by peer"@,
        "database.*unavailable"@,
        "migration failed"@,
        "cannot start service"@,
        "no such host"@,
    ]
}

/// The lower-case line is information only, whatever else it holds.
pub open spec fn is_ignored(lower: Seq<char>) -> bool {
    ||| search::has_substring(lower, "already exists, skipping"@)
    ||| search::has_substring(lower, "if not exists"@)
    ||| search::has_substring(lower, "or replace"@)
    ||| search::has_substring(lower, "on conflict"@)
}

/// The first of the patterns from index `i` on that stands in `lower`.
pub open spec fn first_pattern_from(
    lower: Seq<char>,
    patterns: Seq<Seq<char>>,
    i: int,
) -> Option<Seq<char>>
    decreases patterns.len() - i,
{
    if i < 0 || i >= patterns.len() {
        None
    } else if search::has_substring(lower, patterns[i]) {
        Some(patterns[i])
    } else {
        first_pattern_from(lower, patterns, i + 1)
    }
}

/// The first fatal pattern that stands in the lower-case text.
pub open spec fn first_pattern(lower: Seq<char>) -> Option<Seq<char>> {
    first_pattern_from(lower, fatal_patterns(), 0)
}

/// Lists the fatal patterns.
fn fatal_pattern_list() -> (r: Vec<String>)
    ensures
        chars::views(r@) == fatal_patterns(),
{
    let r = strings(
        &[
            "panic",
            "fatal error",
            "segmentation fault",
            "core dumped",
            "killed",
            "out of memory",
            "oom",
            "overlapping",
            "route conflict",
            "handler already registered",
            "duplicate route",
            "thread.*panicked",
            "called `result::unwrap()` on an `err`",
            "called `option::unwrap()` on a `none`",
            "stack backtrace",
            "assertion failed",
            "index out of bounds",
            "sigabrt",
            "sigsegv",
            "sigkill",
            "signal 6",
            "signal 9",
            "signal 11",
            "exit code 134",
            "exit code 139",
            "exited with code 1",
            "connection refused",
            "connection reset by peer",
            "database.*unavailable",
            "migration failed",
            "cannot start service",
            "no such host",
        ],
    );
    assert(chars::views(r@) =~= fatal_patterns());
    r
}

/// Looks for the first fatal pattern in a lower-case text.
pub fn find_pattern(lower: &str) -> (r: Option<String>)
    ensures
        chars::opt_view(r) == first_pattern(lower@),
{
    let patterns = fatal_pattern_list();
    let mut i: usize = 0;
    while i < patterns.len()
        invariant
            i <= patterns@.len(),
            chars::views(patterns@) == fatal_patterns(),
            first_pattern(lower@) == first_pattern_from(lower@, fatal_patterns(), i as int),
        decreases patterns@.len() - i,
    {
        assert(patterns@[i as int]@ == chars::views(patterns@)[i as int]);
        if contains(lower, patterns[i].as_str()) {
            return Some(patterns[i].clone());
        }
        i = i + 1;
    }
    None
}

/// What is reported of a line, whose lower-case form is `lower`.
pub open spec fn line_report(line: Seq<char>, lower: Seq<char>) -> Option<Seq<char>> {
    if is_ignored(lower) {
        None
    } else {
        match first_pattern(lower) {
            Some(p) => Some(p + " (in: "@ + bytes::byte_prefix_spec(line, 80) + ")"@),
            None => None,
        }
    }
}

/// Judges a line whose lower-case form is at hand.
pub fn report_line(line: &str, lower: &str) -> (r: Option<String>)
    ensures
        chars::opt_view(r) == line_report(line@, lower@),
{
    if contains(lower, "already exists, skipping") || contains(lower, "if not exists") || contains(
        lower,
        "or replace",
    ) || contains(lower, "on conflict") {
        return None;
    }
    match find_pattern(lower) {
        Some(p) => Some(concat4(p.as_str(), " (in: ", byte_prefix(line, 80).as_str(), ")")),
        None => None,
    }
}

/// The report of the first line from index `i` on that has one.
pub open spec fn first_report(all: Seq<Seq<char>>, i: int) -> Option<Seq<char>>
    decreases all.len() - i,
{
    if i < 0 || i >= all.len() {
        None
    } else {
        match line_report(all[i], case::lowercase_of(all[i])) {
            Some(r) => Some(r),
            None => first_report(all, i + 1),
        }
    }
}

/// The report of a log: both outputs, line by line.
pub open spec fn log_report(stdout: Seq<char>, stderr: Seq<char>) -> Option<Seq<char>> {
    first_report(split::lines_spec(stdout) + split::lines_spec(stderr), 0)
}

/// Looks for the first line of a log that tells of a fatal error.
pub fn check_log(stdout: &str, stderr: &str) -> (r: Option<String>)
    ensures
        chars::opt_view(r) == log_report(stdout@, stderr@),
{
    let ghost all = split::lines_spec(stdout@) + split::lines_spec(stderr@);
    let mut list = lines(stdout);
    let mut more = lines(stderr);
    let ghost first = list@;
    let ghost second = more@;
    list.append(&mut more);
    assert(chars::views(list@) =~= chars::views(first) + chars::views(second));
    let mut i: usize = 0;
    while i < list.len()
        invariant
            i <= list@.len(),
            all == split::lines_spec(stdout@) + split::lines_spec(stderr@),
            chars::views(list@) == all,
            log_report(stdout@, stderr@) == first_report(all, i as int),
        decreases list@.len() - i,
    {
        assert(list@[i as int]@ == chars::views(list@)[i as int]);
        let line = list[i].as_str();
        if let Some(r) = report_line(line, to_lowercase(line).as_str()) {
            return Some(r);
        }
        i = i + 1;
    }
    None
}

} // verus!
