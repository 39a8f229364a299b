//! What a canary must have shown before its check passes, said of the commands
//! that were run and of what they gave back.

use vstd::prelude::*;

use crate::services::deploy::action;
use crate::services::deploy::canary;
use crate::services::deploy::fatal;
use crate::text::case;
use crate::text::chars;
use crate::text::number;
use crate::text::search;
use crate::text::split;

verus! {

/// Something that happens to a check: the command that it waits for came back,
/// or the pause that it waits for is over.
pub ghost enum CanaryEvent {
    Output(Result<action::OutputView, Seq<char>>),
    Wake,
}

/// What an event leads to.
pub open spec fn step(s: canary::CanaryView, event: CanaryEvent, clock: u64) -> canary::StepView {
    match event {
        CanaryEvent::Output(r) => s.on_output_spec(r, clock),
        CanaryEvent::Wake => s.on_wake_spec(clock),
    }
}

/// What the check has come to after its first `n` events.
#[verifier::opaque]
pub open spec fn reached(
    c: canary::CanaryView,
    events: Seq<(CanaryEvent, u64)>,
    n: int,
) -> canary::StepView
    decreases n,
{
    if n <= 0 {
        c.begin_spec()
    } else {
        step(reached(c, events, n - 1).state, events[n - 1].0, events[n - 1].1)
    }
}

/// Each event is what the check waits for: the end of a pause, or of a command.
#[verifier::opaque]
pub open spec fn in_turn(c: canary::CanaryView, events: Seq<(CanaryEvent, u64)>) -> bool {
    forall|i: int|
        0 <= i < events.len() ==> ((#[trigger] events[i]).0 is Wake <==> awaited(c, events, i) is Sleep)
}

/// What the check was waiting for when the event at `i` happened.
pub open spec fn awaited(
    c: canary::CanaryView,
    events: Seq<(CanaryEvent, u64)>,
    i: int,
) -> action::ActionView {
    reached(c, events, i).actions.last()
}

/// The output that the event at `i` brought, of a command that ended with exit
/// code 0.
pub open spec fn succeeded(events: Seq<(CanaryEvent, u64)>, i: int) -> bool {
    events[i].0 matches CanaryEvent::Output(Ok(o)) && o.code == Some(0i32)
}

/// The output that the event at `i` brought.
pub open spec fn output(events: Seq<(CanaryEvent, u64)>, i: int) -> action::OutputView {
    events[i].0->Output_0->Ok_0
}

/// At `i` compose had started the canary.
#[verifier::opaque]
pub open spec fn was_started(
    c: canary::CanaryView,
    events: Seq<(CanaryEvent, u64)>,
    i: int,
) -> bool {
    &&& awaited(c, events, i) matches action::ActionView::Run { program, args, dir } && {
        &&& dir == Some(c.work_dir)
        &&& c.compose is Standalone ==> program == "docker-compose"@ && args
            == start_arguments(c)
        &&& c.compose is Plugin ==> program == "docker"@ && args == seq!["compose"@]
            + start_arguments(c)
    }
    &&& succeeded(events, i)
}

/// How compose starts a canary: detached, alone, under its name, with the port
/// of the health check published on port 19999.
pub open spec fn start_arguments(c: canary::CanaryView) -> Seq<Seq<char>> {
    seq![
        "-f"@,
        c.compose_path,
        "run"@,
        "-d"@,
        "--name"@,
        c.name,
        "--no-deps"@,
        "-p"@,
        "19999:"@ + number::decimal_spec(c.health_port as nat),
        if c.service is Some {
            c.service->0
        } else {
            "xjp-backend"@
        },
    ]
}

/// At `i` docker was asked for the state of the canary and said that it is
/// healthy; or that it runs and has no health check, three seconds or more
/// after it was started at `m`.
#[verifier::opaque]
pub open spec fn was_healthy(
    c: canary::CanaryView,
    events: Seq<(CanaryEvent, u64)>,
    m: int,
    i: int,
) -> bool {
    &&& awaited(c, events, i) == (action::ActionView::Run {
        program: "docker"@,
        args: seq![
            "inspect"@,
            "--format"@,
            "{{.State.Status}}|{{.State.Health.Status}}|{{.State.ExitCode}}"@,
            c.name,
        ],
        dir: None,
    })
    &&& succeeded(events, i)
    &&& {
        let parts = split::split_spec(split::trim_spec(output(events, i).stdout), '|');
        &&& parts.len() > 0
        &&& parts[0] != "exited"@
        &&& parts[0] != "dead"@
        &&& {
            ||| parts.len() > 1 && parts[1] == "healthy"@
            ||| {
                &&& parts.len() == 1 || parts[1] == "none"@ || parts[1] == ""@
                &&& parts[0] == "running"@
                &&& events[i].1 - events[m].1 >= 3_000_000_000
            }
        }
    }
}

/// At `i` the canary had been asked over HTTP, and the request succeeded.
#[verifier::opaque]
pub open spec fn had_answered(
    c: canary::CanaryView,
    events: Seq<(CanaryEvent, u64)>,
    i: int,
) -> bool {
    &&& awaited(c, events, i) == (action::ActionView::Run {
        program: "curl"@,
        args: seq!["-sf"@, "--max-time"@, "5"@, "http://127.0.0.1:19999/health"@],
        dir: None,
    })
    &&& succeeded(events, i)
}

/// At `i` the last hundred lines of the log of the canary had been asked for,
/// and what came back shows nothing fatal.
#[verifier::opaque]
pub open spec fn log_was_clean(
    c: canary::CanaryView,
    events: Seq<(CanaryEvent, u64)>,
    i: int,
) -> bool {
    &&& awaited(c, events, i) == (action::ActionView::Run {
        program: "docker"@,
        args: seq!["logs"@, "--tail"@, "100"@, c.name],
        dir: None,
    })
    &&& events[i].0 matches CanaryEvent::Output(r) && (r matches Ok(o) ==> !shows_fatal(
        o.stdout,
        o.stderr,
    ))
}

/// A line of one of the outputs is fatal.
pub open spec fn shows_fatal(stdout: Seq<char>, stderr: Seq<char>) -> bool {
    exists|i: int| 0 <= i < (split::lines_spec(stdout) + split::lines_spec(stderr)).len()
        && #[trigger] is_fatal((split::lines_spec(stdout) + split::lines_spec(stderr))[i])
}

/// The line holds one of the fatal patterns, in whatever case, and none of the
/// texts that mark it as information.
pub open spec fn is_fatal(line: Seq<char>) -> bool {
    let lower = case::lowercase_of(line);
    &&& !search::has_substring(lower, "already exists, skipping"@)
    &&& !search::has_substring(lower, "if not exists"@)
    &&& !search::has_substring(lower, "or replace"@)
    &&& !search::has_substring(lower, "on conflict"@)
    &&& {
        ||| search::has_substring(lower, "panic"@)
        ||| search::has_substring(lower, "fatal error"@)
        ||| search::has_substring(lower, "segmentation fault"@)
        ||| search::has_substring(lower, "core dumped"@)
        ||| search::has_substring(lower, "killed"@)
        ||| search::has_substring(lower, "out of memory"@)
        ||| search::has_substring(lower, "oom"@)
        ||| search::has_substring(lower, "overlapping"@)
        ||| search::has_substring(lower, "route conflict"@)
        ||| search::has_substring(lower, "handler already registered"@)
        ||| search::has_substring(lower, "duplicate route"@)
        ||| search::has_substring(lower, "thread.*panicked"@)
        ||| search::has_substring(lower, "called `result::unwrap()` on an `err`"@)
        ||| search::has_substring(lower, "called `option::unwrap()` on a `none`"@)
        ||| search::has_substring(lower, "stack backtrace"@)
        ||| search::has_substring(lower, "assertion failed"@)
        ||| search::has_substring(lower, "index out of bounds"@)
        ||| search::has_substring(lower, "sigabrt"@)
        ||| search::has_substring(lower, "sigsegv"@)
        ||| search::has_substring(lower, "sigkill"@)
        ||| search::has_substring(lower, "signal 6"@)
        ||| search::has_substring(lower, "signal 9"@)
        ||| search::has_substring(lower, "signal 11"@)
        ||| search::has_substring(lower, "exit code 134"@)
        ||| search::has_substring(lower, "exit code 139"@)
        ||| search::has_substring(lower, "exited with code 1"@)
        ||| search::has_substring(lower, "connection refused"@)
        ||| search::has_substring(lower, "connection reset by peer"@)
        ||| search::has_substring(lower, "database.*unavailable"@)
        ||| search::has_substring(lower, "migration failed"@)
        ||| search::has_substring(lower, "cannot start service"@)
        ||| search::has_substring(lower, "no such host"@)
    }
}

proof fn lemma_first_pattern(lower: Seq<char>, patterns: Seq<Seq<char>>, i: int)
    requires
        0 <= i <= patterns.len(),
    ensures
        fatal::first_pattern_from(lower, patterns, i) is Some <==> exists|j: int|
            i <= j < patterns.len() && search::has_substring(lower, #[trigger] patterns[j]),
        fatal::first_pattern_from(lower, patterns, i) matches Some(p) ==> patterns.contains(p)
            && search::has_substring(lower, p),
    decreases patterns.len() - i,
{
    if i < patterns.len() {
        lemma_first_pattern(lower, patterns, i + 1);
        if search::has_substring(lower, patterns[i]) {
            assert(patterns.contains(patterns[i]));
        }
    }
}

/// A line is reported exactly where it is fatal; and what is reported names a
/// pattern that it holds, and its beginning.
pub proof fn fatal_line_is_reported(line: Seq<char>)
    ensures
        fatal::line_report(line, case::lowercase_of(line)) is Some <==> is_fatal(line),
        fatal::line_report(line, case::lowercase_of(line)) matches Some(r) ==> exists|p: Seq<char>, start: Seq<char>|
            search::has_substring(case::lowercase_of(line), p) && r == #[trigger] (p + " (in: "@
                + start + ")"@) && start.len() <= line.len() && start == line.take(
                start.len() as int,
            ),
{
    let lower = case::lowercase_of(line);
    let all = fatal::fatal_patterns();
    lemma_first_pattern(lower, all, 0);
    assert(all.len() == 32);
    if is_fatal(line) {
        assert(exists|j: int|
            0 <= j < all.len() && search::has_substring(lower, #[trigger] all[j])) by {
            if search::has_substring(lower, "panic"@) {
                assert(all[0] == "panic"@);
            } else if search::has_substring(lower, "fatal error"@) {
                assert(all[1] == "fatal error"@);
            } else if search::has_substring(lower, "segmentation fault"@) {
                assert(all[2] == "segmentation fault"@);
            } else if search::has_substring(lower, "core dumped"@) {
                assert(all[3] == "core dumped"@);
            } else if search::has_substring(lower, "killed"@) {
                assert(all[4] == "killed"@);
            } else if search::has_substring(lower, "out of memory"@) {
                assert(all[5] == "out of memory"@);
            } else if search::has_substring(lower, "oom"@) {
                assert(all[6] == "oom"@);
            } else if search::has_substring(lower, "overlapping"@) {
                assert(all[7] == "overlapping"@);
            } else if search::has_substring(lower, "route conflict"@) {
                assert(all[8] == "route conflict"@);
            } else if search::has_substring(lower, "handler already registered"@) {
                assert(all[9] == "handler already registered"@);
            } else if search::has_substring(lower, "duplicate route"@) {
                assert(all[10] == "duplicate route"@);
            } else if search::has_substring(lower, "thread.*panicked"@) {
                assert(all[11] == "thread.*panicked"@);
            } else if search::has_substring(lower, "called `result::unwrap()` on an `err`"@) {
                assert(all[12] == "called `result::unwrap()` on an `err`"@);
            } else if search::has_substring(lower, "called `option::unwrap()` on a `none`"@) {
                assert(all[13] == "called `option::unwrap()` on a `none`"@);
            } else if search::has_substring(lower, "stack backtrace"@) {
                assert(all[14] == "stack backtrace"@);
            } else if search::has_substring(lower, "assertion failed"@) {
                assert(all[15] == "assertion failed"@);
            } else if search::has_substring(lower, "index out of bounds"@) {
                assert(all[16] == "index out of bounds"@);
            } else if search::has_substring(lower, "sigabrt"@) {
                assert(all[17] == "sigabrt"@);
            } else if search::has_substring(lower, "sigsegv"@) {
                assert(all[18] == "sigsegv"@);
            } else if search::has_substring(lower, "sigkill"@) {
                assert(all[19] == "sigkill"@);
            } else if search::has_substring(lower, "signal 6"@) {
                assert(all[20] == "signal 6"@);
            } else if search::has_substring(lower, "signal 9"@) {
                assert(all[21] == "signal 9"@);
            } else if search::has_substring(lower, "signal 11"@) {
                assert(all[22] == "signal 11"@);
            } else if search::has_substring(lower, "exit code 134"@) {
                assert(all[23] == "exit code 134"@);
            } else if search::has_substring(lower, "exit code 139"@) {
                assert(all[24] == "exit code 139"@);
            } else if search::has_substring(lower, "exited with code 1"@) {
                assert(all[25] == "exited with code 1"@);
            } else if search::has_substring(lower, "connection refused"@) {
                assert(all[26] == "connection refused"@);
            } else if search::has_substring(lower, "connection reset by peer"@) {
                assert(all[27] == "connection reset by peer"@);
            } else if search::has_substring(lower, "database.*unavailable"@) {
                assert(all[28] == "database.*unavailable"@);
            } else if search::has_substring(lower, "migration failed"@) {
                assert(all[29] == "migration failed"@);
            } else if search::has_substring(lower, "cannot start service"@) {
                assert(all[30] == "cannot start service"@);
            } else {
                assert(all[31] == "no such host"@);
            }
        }
    }
    if let Some(r) = fatal::line_report(line, lower) {
        let p = fatal::first_pattern(lower)->0;
        let start = crate::text::bytes::byte_prefix_spec(line, 80);
        lemma_byte_prefix(line, 80);
        assert(r == p + " (in: "@ + start + ")"@);
    }
}

proof fn lemma_byte_prefix(s: Seq<char>, limit: int)
    ensures
        crate::text::bytes::byte_prefix_spec(s, limit).len() <= s.len(),
        crate::text::bytes::byte_prefix_spec(s, limit) == s.take(
            crate::text::bytes::byte_prefix_spec(s, limit).len() as int,
        ),
    decreases s.len(),
{
    let p = crate::text::bytes::byte_prefix_spec(s, limit);
    if crate::text::bytes::byte_len(s) <= limit || s.len() == 0 {
        assert(s.take(s.len() as int) =~= s);
    } else {
        lemma_byte_prefix(s.drop_last(), limit);
        assert(s.drop_last().take(p.len() as int) =~= s.take(p.len() as int));
    }
}

proof fn lemma_first_report(all: Seq<Seq<char>>, i: int)
    requires
        0 <= i <= all.len(),
    ensures
        fatal::first_report(all, i) is Some <==> exists|j: int|
            i <= j < all.len() && #[trigger] is_fatal(all[j]),
    decreases all.len() - i,
{
    if i < all.len() {
        fatal_line_is_reported(all[i]);
        lemma_first_report(all, i + 1);
    }
}

/// A log is reported exactly where one of its lines is fatal.
pub proof fn fatal_log_is_reported(stdout: Seq<char>, stderr: Seq<char>)
    ensures
        fatal::log_report(stdout, stderr) is Some <==> shows_fatal(stdout, stderr),
{
    let all = split::lines_spec(stdout) + split::lines_spec(stderr);
    lemma_first_report(all, 0);
}

/// The canary had proved itself before the event at `n`: it was started, then
/// found healthy, then answered over HTTP, and then showed a clean log.
#[verifier::opaque]
pub open spec fn had_proved_itself(
    c: canary::CanaryView,
    events: Seq<(CanaryEvent, u64)>,
    n: int,
) -> bool {
    exists|m: int, i: int, j: int, k: int|
        0 <= m < i < j < k < n && #[trigger] was_started(c, events, m) && #[trigger] was_healthy(
            c,
            events,
            m,
            i,
        ) && #[trigger] had_answered(c, events, j) && #[trigger] log_was_clean(c, events, k)
}

spec fn known(c: canary::CanaryView, events: Seq<(CanaryEvent, u64)>, n: int) -> bool {
    let s = reached(c, events, n);
    &&& s.state == c.at(s.state.phase)
    &&& !(s.state.phase is Ended) ==> (s.actions.last() is Sleep <==> s.state.phase is Waiting)
    &&& match s.state.phase {
        canary::PhaseView::Starting => s.actions.last() == (action::ActionView::Run {
            program: if c.compose is Standalone {
                "docker-compose"@
            } else {
                "docker"@
            },
            args: if c.compose is Standalone {
                start_arguments(c)
            } else {
                seq!["compose"@] + start_arguments(c)
            },
            dir: Some(c.work_dir),
        }),
        canary::PhaseView::Inspecting { since } => {
            &&& s.actions.last() == (action::ActionView::Run {
                program: "docker"@,
                args: seq![
                    "inspect"@,
                    "--format"@,
                    "{{.State.Status}}|{{.State.Health.Status}}|{{.State.ExitCode}}"@,
                    c.name,
                ],
                dir: None,
            })
            &&& exists|m: int|
                0 <= m < n && #[trigger] was_started(c, events, m) && events[m].1 == since
        },
        canary::PhaseView::Waiting { since } => exists|m: int|
            0 <= m < n && #[trigger] was_started(c, events, m) && events[m].1 == since,
        canary::PhaseView::HttpCheck => {
            &&& s.actions.last() == (action::ActionView::Run {
                program: "curl"@,
                args: seq!["-sf"@, "--max-time"@, "5"@, "http://127.0.0.1:19999/health"@],
                dir: None,
            })
            &&& exists|m: int, i: int|
                0 <= m < i < n && #[trigger] was_started(c, events, m) && #[trigger] was_healthy(
                    c,
                    events,
                    m,
                    i,
                )
        },
        canary::PhaseView::FatalCheck => {
            &&& s.actions.last() == (action::ActionView::Run {
                program: "docker"@,
                args: seq!["logs"@, "--tail"@, "100"@, c.name],
                dir: None,
            })
            &&& exists|m: int, i: int, j: int|
                0 <= m < i < j < n && #[trigger] was_started(c, events, m)
                    && #[trigger] was_healthy(c, events, m, i) && #[trigger] had_answered(
                    c,
                    events,
                    j,
                )
        },
        canary::PhaseView::CleanCheck { after: canary::AfterView::Pass } => had_proved_itself(
            c,
            events,
            n,
        ),
        canary::PhaseView::CleanRemove { after: canary::AfterView::Pass } => had_proved_itself(
            c,
            events,
            n,
        ),
        _ => true,
    }
}

proof fn lemma_split_nonempty(s: Seq<char>)
    ensures
        split::split_spec(s, '|').len() > 0,
{
    crate::text::laws::join_undoes_split(s, '|', 0);
}

proof fn lemma_known_wake(c: canary::CanaryView, events: Seq<(CanaryEvent, u64)>, n: int)
    requires
        0 < n <= events.len(),
        reached(c, events, n) == step(
            reached(c, events, n - 1).state,
            events[n - 1].0,
            events[n - 1].1,
        ),
        events[n - 1].0 is Wake <==> awaited(c, events, n - 1) is Sleep,
        known(c, events, n - 1),
        events[n - 1].0 is Wake,
    ensures
        known(c, events, n),
        reached(c, events, n).verdict == Some(Ok::<(), Seq<char>>(())) ==> had_proved_itself(
            c,
            events,
            n - 1,
        ),
{
    reveal(canary::CanaryView::on_output_spec);
    reveal(canary::CanaryView::on_wake_spec);
    let s = reached(c, events, n - 1).state;
    let now = reached(c, events, n);
}

proof fn lemma_known_clean(c: canary::CanaryView, events: Seq<(CanaryEvent, u64)>, n: int)
    requires
        0 < n <= events.len(),
        reached(c, events, n) == step(
            reached(c, events, n - 1).state,
            events[n - 1].0,
            events[n - 1].1,
        ),
        events[n - 1].0 is Wake <==> awaited(c, events, n - 1) is Sleep,
        known(c, events, n - 1),
        events[n - 1].0 is Output,
        reached(c, events, n - 1).state.phase is CleanCheck || reached(c, events, n - 1).state.phase is CleanRemove,
    ensures
        known(c, events, n),
        reached(c, events, n).verdict == Some(Ok::<(), Seq<char>>(())) ==> had_proved_itself(
            c,
            events,
            n - 1,
        ),
{
    reveal(canary::CanaryView::on_output_spec);
    reveal(canary::CanaryView::on_wake_spec);
    let s = reached(c, events, n - 1).state;
    let now = reached(c, events, n);
    lemma_started_with(c, s);
    let r = events[n - 1].0->Output_0;
    let after = match s.phase {
        canary::PhaseView::CleanCheck { after } => after,
        canary::PhaseView::CleanRemove { after } => after,
        _ => canary::AfterView::Start,
    };
    match after {
        canary::AfterView::Start => {
            if now.state.phase is Starting {
                assert(now.actions.last()->Run_args =~= (if c.compose is Standalone {
                    start_arguments(c)
                } else {
                    seq!["compose"@] + start_arguments(c)
                }));
            }
        },
        canary::AfterView::Fail { error } => {},
        canary::AfterView::Pass => {
            reveal(had_proved_itself);
        },
    }
}

proof fn lemma_known_start(c: canary::CanaryView, events: Seq<(CanaryEvent, u64)>, n: int)
    requires
        0 < n <= events.len(),
        reached(c, events, n) == step(
            reached(c, events, n - 1).state,
            events[n - 1].0,
            events[n - 1].1,
        ),
        events[n - 1].0 is Wake <==> awaited(c, events, n - 1) is Sleep,
        known(c, events, n - 1),
        events[n - 1].0 is Output,
        reached(c, events, n - 1).state.phase is Starting,
    ensures
        known(c, events, n),
        reached(c, events, n).verdict == Some(Ok::<(), Seq<char>>(())) ==> had_proved_itself(
            c,
            events,
            n - 1,
        ),
{
    reveal(canary::CanaryView::on_output_spec);
    reveal(canary::CanaryView::on_wake_spec);
    let s = reached(c, events, n - 1).state;
    let now = reached(c, events, n);
    let r = events[n - 1].0->Output_0;
    if let Ok(o) = r {
        if o.success() {
            reveal(was_started);
            assert(was_started(c, events, n - 1));
        }
    }
}

proof fn lemma_known_look(c: canary::CanaryView, events: Seq<(CanaryEvent, u64)>, n: int)
    requires
        0 < n <= events.len(),
        reached(c, events, n) == step(
            reached(c, events, n - 1).state,
            events[n - 1].0,
            events[n - 1].1,
        ),
        events[n - 1].0 is Wake <==> awaited(c, events, n - 1) is Sleep,
        known(c, events, n - 1),
        events[n - 1].0 is Output,
        reached(c, events, n - 1).state.phase is Inspecting,
    ensures
        known(c, events, n),
        reached(c, events, n).verdict == Some(Ok::<(), Seq<char>>(())) ==> had_proved_itself(
            c,
            events,
            n - 1,
        ),
{
    reveal(canary::CanaryView::on_output_spec);
    reveal(canary::CanaryView::on_wake_spec);
    let s = reached(c, events, n - 1).state;
    let now = reached(c, events, n);
    let since = s.phase->Inspecting_since;
    let r = events[n - 1].0->Output_0;
    let m = choose|m: int|
        0 <= m < n - 1 && #[trigger] was_started(c, events, m) && events[m].1 == since;
    if let Ok(o) = r {
        lemma_split_nonempty(split::trim_spec(o.stdout));
    }
    if now.state.phase is HttpCheck {
        lemma_lits();
        reveal(was_healthy);
        assert(was_healthy(c, events, m, n - 1));
    }
}

proof fn lemma_known_answer(c: canary::CanaryView, events: Seq<(CanaryEvent, u64)>, n: int)
    requires
        0 < n <= events.len(),
        reached(c, events, n) == step(
            reached(c, events, n - 1).state,
            events[n - 1].0,
            events[n - 1].1,
        ),
        events[n - 1].0 is Wake <==> awaited(c, events, n - 1) is Sleep,
        known(c, events, n - 1),
        events[n - 1].0 is Output,
        reached(c, events, n - 1).state.phase is HttpCheck,
    ensures
        known(c, events, n),
        reached(c, events, n).verdict == Some(Ok::<(), Seq<char>>(())) ==> had_proved_itself(
            c,
            events,
            n - 1,
        ),
{
    reveal(canary::CanaryView::on_output_spec);
    reveal(canary::CanaryView::on_wake_spec);
    let s = reached(c, events, n - 1).state;
    let now = reached(c, events, n);
    if now.state.phase is FatalCheck {
        reveal(had_answered);
        assert(had_answered(c, events, n - 1));
    }
}

proof fn lemma_known_log(c: canary::CanaryView, events: Seq<(CanaryEvent, u64)>, n: int)
    requires
        0 < n <= events.len(),
        reached(c, events, n) == step(
            reached(c, events, n - 1).state,
            events[n - 1].0,
            events[n - 1].1,
        ),
        events[n - 1].0 is Wake <==> awaited(c, events, n - 1) is Sleep,
        known(c, events, n - 1),
        events[n - 1].0 is Output,
        reached(c, events, n - 1).state.phase is FatalCheck,
    ensures
        known(c, events, n),
        reached(c, events, n).verdict == Some(Ok::<(), Seq<char>>(())) ==> had_proved_itself(
            c,
            events,
            n - 1,
        ),
{
    reveal(canary::CanaryView::on_output_spec);
    reveal(canary::CanaryView::on_wake_spec);
    let s = reached(c, events, n - 1).state;
    let now = reached(c, events, n);
    let r = events[n - 1].0->Output_0;
    if let Ok(o) = r {
        fatal_log_is_reported(o.stdout, o.stderr);
    }
    if now.state.phase == (canary::PhaseView::CleanCheck { after: canary::AfterView::Pass }) {
        reveal(log_was_clean);
        assert(log_was_clean(c, events, n - 1));
        reveal(had_proved_itself);
        let (m, i, j) = choose|m: int, i: int, j: int|
            0 <= m < i < j < n - 1 && #[trigger] was_started(c, events, m)
                && #[trigger] was_healthy(c, events, m, i) && #[trigger] had_answered(
                c,
                events,
                j,
            );
        assert(had_proved_itself(c, events, n));
    }
}

proof fn lemma_known_rest(c: canary::CanaryView, events: Seq<(CanaryEvent, u64)>, n: int)
    requires
        0 < n <= events.len(),
        reached(c, events, n) == step(
            reached(c, events, n - 1).state,
            events[n - 1].0,
            events[n - 1].1,
        ),
        events[n - 1].0 is Wake <==> awaited(c, events, n - 1) is Sleep,
        known(c, events, n - 1),
        events[n - 1].0 is Output,
        reached(c, events, n - 1).state.phase is HealthLog || reached(c, events, n - 1).state.phase is ShowLogs || reached(c, events, n - 1).state.phase is Waiting || reached(c, events, n - 1).state.phase is Ended,
    ensures
        known(c, events, n),
        reached(c, events, n).verdict == Some(Ok::<(), Seq<char>>(())) ==> had_proved_itself(
            c,
            events,
            n - 1,
        ),
{
    reveal(canary::CanaryView::on_output_spec);
    reveal(canary::CanaryView::on_wake_spec);
    let s = reached(c, events, n - 1).state;
    let now = reached(c, events, n);
}

proof fn lemma_known(c: canary::CanaryView, events: Seq<(CanaryEvent, u64)>, n: int)
    requires
        0 <= n <= events.len(),
        in_turn(c, events),
    ensures
        known(c, events, n),
        n > 0 && reached(c, events, n).verdict == Some(Ok::<(), Seq<char>>(()))
            ==> had_proved_itself(c, events, n - 1),
    decreases n,
{
    reveal_with_fuel(reached, 2);
    if n > 0 {
        lemma_known(c, events, n - 1);
        assert(events[n - 1].0 is Wake <==> awaited(c, events, n - 1) is Sleep) by {
            reveal(in_turn);
        }
        match events[n - 1].0 {
            CanaryEvent::Wake => lemma_known_wake(c, events, n),
            CanaryEvent::Output(r) => match reached(c, events, n - 1).state.phase {
                canary::PhaseView::CleanCheck { .. } => lemma_known_clean(c, events, n),
                canary::PhaseView::CleanRemove { .. } => lemma_known_clean(c, events, n),
                canary::PhaseView::Starting => lemma_known_start(c, events, n),
                canary::PhaseView::Inspecting { .. } => lemma_known_look(c, events, n),
                canary::PhaseView::HttpCheck => lemma_known_answer(c, events, n),
                canary::PhaseView::FatalCheck => lemma_known_log(c, events, n),
                _ => lemma_known_rest(c, events, n),
            },
        }
    }
}

proof fn lemma_lits()
    ensures
        "none"@ != "healthy"@,
        "unknown"@ != "running"@,
{
    reveal_strlit("none");
    reveal_strlit("healthy");
    reveal_strlit("unknown");
    reveal_strlit("running");
    assert("none"@.len() == 4 && "healthy"@.len() == 7);
    assert("unknown"@[0] == 'u' && "running"@[0] == 'r');
}

proof fn lemma_started_with(c: canary::CanaryView, s: canary::CanaryView)
    requires
        s == c.at(s.phase),
    ensures
        s.compose.prefix() + start_arguments(c) == (if c.compose is Standalone {
            start_arguments(c)
        } else {
            seq!["compose"@] + start_arguments(c)
        }),
{
    assert(s.compose.prefix() + start_arguments(c) =~= (if c.compose is Standalone {
        start_arguments(c)
    } else {
        seq!["compose"@] + start_arguments(c)
    }));
}

/// Whatever comes back to a check, it passes only where its canary was started and
/// was then found healthy by docker, answered over HTTP with success, and
/// showed a log without a fatal line, in this order.
pub proof fn canary_passes_only_when_well(
    c: canary::CanaryView,
    events: Seq<(CanaryEvent, u64)>,
    n: int,
)
    requires
        in_turn(c, events),
        0 < n <= events.len(),
        reached(c, events, n).verdict == Some(Ok::<(), Seq<char>>(())),
    ensures
        had_proved_itself(c, events, n - 1),
{
    lemma_known(c, events, n);
}

/// The check cannot pass any more.
pub open spec fn is_doomed(s: canary::CanaryView) -> bool {
    match s.phase {
        canary::PhaseView::HealthLog => true,
        canary::PhaseView::ShowLogs { .. } => true,
        canary::PhaseView::CleanCheck { after } => after is Fail,
        canary::PhaseView::CleanRemove { after } => after is Fail,
        canary::PhaseView::Ended => true,
        _ => false,
    }
}

/// A check that cannot pass stays so, whatever happens: every verdict that it
/// still gives is an error.
pub proof fn doomed_check_does_not_pass(
    s: canary::CanaryView,
    event: CanaryEvent,
    clock: u64,
)
    requires
        is_doomed(s),
    ensures
        is_doomed(step(s, event, clock).state),
        step(s, event, clock).verdict != Some(Ok::<(), Seq<char>>(())),
{
    reveal(canary::CanaryView::on_output_spec);
    reveal(canary::CanaryView::on_wake_spec);
}

/// The error that a check ends with is decided when it fails: what is done
/// after that, showing the log and removing the canary, leaves it as it is.
pub proof fn failure_keeps_its_reason(
    s: canary::CanaryView,
    error: Seq<char>,
    r: Result<action::OutputView, Seq<char>>,
    clock: u64,
)
    ensures
        s.phase == (canary::PhaseView::ShowLogs { error }) ==> {
            let t = s.on_output_spec(r, clock);
            t.verdict is None && t.state.phase == (canary::PhaseView::CleanCheck {
                after: canary::AfterView::Fail { error },
            })
        },
        s.phase == (canary::PhaseView::CleanCheck { after: canary::AfterView::Fail { error } })
            ==> {
            let t = s.on_output_spec(r, clock);
            ||| t.verdict == Some(Err::<(), Seq<char>>(error))
            ||| t.verdict is None && t.state.phase == (canary::PhaseView::CleanRemove {
                after: canary::AfterView::Fail { error },
            }) && t.actions.last() == (action::ActionView::Run {
                program: "docker"@,
                args: seq!["rm"@, "-f"@, s.name],
                dir: None,
            }) && (r matches Ok(o) && o.code == Some(0i32) && split::trim_spec(o.stdout).len() > 0)
        },
        s.phase == (canary::PhaseView::CleanRemove { after: canary::AfterView::Fail { error } })
            ==> s.on_output_spec(r, clock).verdict == Some(Err::<(), Seq<char>>(error)),
{
    reveal(canary::CanaryView::on_output_spec);
}

/// A canary that was asked over HTTP and did not answer with success fails its
/// check, and the reason is told; one that did goes on to the look at its log.
pub proof fn answer_decides(
    s: canary::CanaryView,
    r: Result<action::OutputView, Seq<char>>,
    clock: u64,
)
    requires
        s.phase is HttpCheck,
    ensures
        ({
            let t = s.on_output_spec(r, clock);
            &&& t.verdict is None
            &&& r matches Ok(o) ==> (o.code == Some(0i32) ==> t.state == (canary::CanaryView {
                phase: canary::PhaseView::FatalCheck,
                ..s
            }) && t.actions.last() == (action::ActionView::Run {
                program: "docker"@,
                args: seq!["logs"@, "--tail"@, "100"@, s.name],
                dir: None,
            })) && (o.code != Some(0i32) ==> t.state.phase == (canary::PhaseView::ShowLogs {
                error: "Canary HTTP health check failed"@,
            }) && t.actions.last() == (action::ActionView::Run {
                program: "docker"@,
                args: seq!["logs"@, "--tail"@, "30"@, s.name],
                dir: None,
            }) && t.actions[0] == (action::ActionView::Log {
                stream: action::LogStream::Stderr,
                text: "✗ Canary HTTP check failed: "@ + o.stderr,
            }))
            &&& r matches Err(e) ==> t.state.phase == (canary::PhaseView::CleanCheck {
                after: canary::AfterView::Fail { error: "Failed to run health check: "@ + e },
            })
            &&& !(r matches Ok(o) && o.code == Some(0i32)) ==> is_doomed(t.state)
        }),
{
    reveal(canary::CanaryView::on_output_spec);
    reveal_strlit("30");
    reveal_with_fuel(number::decimal_spec, 3);
    assert(number::decimal_spec(30) =~= "30"@);
    let t = s.on_output_spec(r, clock);
    if let Ok(o) = r {
        if o.code != Some(0i32) {
            assert(t.actions.last()->Run_args =~= seq!["logs"@, "--tail"@, "30"@, s.name]);
        }
    }
}

/// A canary whose log shows a fatal line fails its check; any other one passes
/// once it is removed, whether or not the removal succeeds.
pub proof fn log_decides(
    s: canary::CanaryView,
    r: Result<action::OutputView, Seq<char>>,
    clock: u64,
)
    ensures
        s.phase is FatalCheck ==> {
            let t = s.on_output_spec(r, clock);
            let sick = r matches Ok(o) && shows_fatal(o.stdout, o.stderr);
            &&& t.verdict is None
            &&& sick ==> t.state.phase is ShowLogs && is_doomed(t.state)
            &&& !sick ==> t.state.phase == (canary::PhaseView::CleanCheck {
                after: canary::AfterView::Pass,
            }) && t.actions.last() == (action::ActionView::Run {
                program: "docker"@,
                args: seq!["ps"@, "-a"@, "-q"@, "-f"@, "name=^"@ + s.name + "$"@],
                dir: None,
            })
        },
        s.phase == (canary::PhaseView::CleanCheck { after: canary::AfterView::Pass }) ==> {
            let t = s.on_output_spec(r, clock);
            ||| t.verdict == Some(Ok::<(), Seq<char>>(()))
            ||| t.verdict is None && t.state.phase == (canary::PhaseView::CleanRemove {
                after: canary::AfterView::Pass,
            })
        },
        s.phase == (canary::PhaseView::CleanRemove { after: canary::AfterView::Pass })
            ==> s.on_output_spec(r, clock).verdict == Some(Ok::<(), Seq<char>>(())),
{
    reveal(canary::CanaryView::on_output_spec);
    if let Ok(o) = r {
        fatal_log_is_reported(o.stdout, o.stderr);
    }
}

/// What docker says of a canary decides: one that is healthy is asked over
/// HTTP; one that ended, that is gone or that is unhealthy fails; and one that
/// is starting, or of which nothing is known yet, is looked at again after half
/// a second.
pub proof fn state_decides(
    s: canary::CanaryView,
    since: u64,
    r: Result<action::OutputView, Seq<char>>,
    clock: u64,
    status: Seq<char>,
    health: Seq<char>,
    code: Seq<char>,
)
    requires
        s.phase == (canary::PhaseView::Inspecting { since }),
        r matches Ok(o) ==> o.code == Some(0i32) ==> split::split_spec(
            split::trim_spec(o.stdout),
            '|',
        ) == seq![status, health, code],
    ensures
        ({
            let t = s.on_output_spec(r, clock);
            let answered = r matches Ok(o) && o.code == Some(0i32);
            let ended = status == "exited"@ || status == "dead"@;
            let unchecked = health == "none"@ || health == ""@;
            let waits = t.state.phase == (canary::PhaseView::Waiting { since }) && t.actions.last()
                == (action::ActionView::Sleep { millis: 500 });
            &&& t.verdict is None
            &&& r is Err ==> is_doomed(t.state)
            &&& answered && ended ==> t.state.phase == (canary::PhaseView::ShowLogs {
                error: "Container died (status: "@ + status + ", exit_code: "@ + code + ")"@,
            })
            &&& answered && !ended && health == "healthy"@ ==> t.state.phase is HttpCheck
            &&& answered && !ended && health == "unhealthy"@ ==> t.state.phase is HealthLog
            &&& answered && !ended && health == "starting"@ ==> waits
            &&& answered && !ended && unchecked && status == "running"@ && clock - since
                >= 3_000_000_000 ==> t.state.phase is HttpCheck
            &&& answered && !ended && unchecked && (status != "running"@ || clock - since
                < 3_000_000_000) ==> waits
            &&& t.state.phase is HttpCheck ==> answered && !ended && (health == "healthy"@
                || unchecked)
            &&& r matches Ok(o) ==> o.code != Some(0i32) ==> (if search::has_substring(
                o.stderr,
                "No such object"@,
            ) {
                t.state.phase == (canary::PhaseView::ShowLogs {
                    error: "Container no longer exists"@,
                })
            } else {
                waits
            })
        }),
{
    reveal(canary::CanaryView::on_output_spec);
    reveal_strlit("healthy");
    reveal_strlit("unhealthy");
    reveal_strlit("starting");
    reveal_strlit("none");
    reveal_strlit("");
    assert("healthy"@.len() == 7);
    assert("unhealthy"@.len() == 9);
    assert("starting"@.len() == 8);
    assert("none"@.len() == 4);
    assert(""@.len() == 0);
    if r is Ok && r->Ok_0.success() {
        let parts = split::split_spec(split::trim_spec(r->Ok_0.stdout), '|');
        assert(parts.len() == 3);
        assert(parts[0] == status && parts[1] == health && parts[2] == code);
    }
}

/// A canary is given up where more than a minute has gone by since it was
/// started, and it is looked at otherwise.
pub proof fn minute_is_given(s: canary::CanaryView, since: u64, clock: u64)
    requires
        s.phase == (canary::PhaseView::Waiting { since }),
    ensures
        clock - since > 60_000_000_000 ==> s.on_wake_spec(clock).state.phase
            == (canary::PhaseView::ShowLogs {
            error: "Timeout after "@ + number::decimal_spec(60)
                + "s waiting for healthy status"@,
        }),
        clock - since <= 60_000_000_000 ==> s.on_wake_spec(clock).state.phase
            == (canary::PhaseView::Inspecting { since }),
        s.on_wake_spec(clock).verdict is None,
{
    reveal(canary::CanaryView::on_wake_spec);
}

/// The check begins with a look for an old canary of the same name, removes one
/// that is there, and starts the new one after that, even where the old one
/// could not be removed. A canary that does not start fails its check.
pub proof fn check_begins_clean(
    s: canary::CanaryView,
    r: Result<action::OutputView, Seq<char>>,
    clock: u64,
)
    ensures
        s.begin_spec().verdict is None,
        s.begin_spec().state == (canary::CanaryView {
            phase: canary::PhaseView::CleanCheck { after: canary::AfterView::Start },
            ..s
        }),
        s.begin_spec().actions.last() == (action::ActionView::Run {
            program: "docker"@,
            args: seq!["ps"@, "-a"@, "-q"@, "-f"@, "name=^"@ + s.name + "$"@],
            dir: None,
        }),
        s.phase == (canary::PhaseView::CleanCheck { after: canary::AfterView::Start }) ==> {
            let t = s.on_output_spec(r, clock);
            let there = r matches Ok(o) && o.code == Some(0i32) && split::trim_spec(o.stdout).len()
                > 0;
            &&& t.verdict is None
            &&& there ==> t.state.phase == (canary::PhaseView::CleanRemove {
                after: canary::AfterView::Start,
            }) && t.actions.last() == (action::ActionView::Run {
                program: "docker"@,
                args: seq!["rm"@, "-f"@, s.name],
                dir: None,
            })
            &&& !there ==> t.state.phase is Starting
        },
        s.phase == (canary::PhaseView::CleanRemove { after: canary::AfterView::Start }) ==> {
            let t = s.on_output_spec(r, clock);
            t.verdict is None && t.state.phase is Starting
        },
        s.phase is Starting ==> {
            let t = s.on_output_spec(r, clock);
            &&& r matches Err(e) ==> t.verdict == Some(
                Err::<(), Seq<char>>("Failed to start canary container: "@ + e),
            )
            &&& r matches Ok(o) ==> t.verdict is None && (o.code == Some(0i32) ==> t.state.phase
                == (canary::PhaseView::Inspecting { since: clock })) && (o.code != Some(0i32)
                ==> t.state.phase == (canary::PhaseView::CleanCheck {
                after: canary::AfterView::Fail {
                    error: "Failed to start canary container: "@ + o.stderr,
                },
            }))
        },
{
    reveal(canary::CanaryView::on_output_spec);
}

/// The canary of a task is called after the first eight characters of the
/// name of the task.
pub proof fn canary_is_called_after_its_task(task: Seq<char>, i: int)
    ensures
        canary::canary_name_spec(task).len() == "deploy-canary-"@.len() + (if task.len() < 8 {
            task.len() as int
        } else {
            8
        }),
        0 <= i < 8 && i < task.len() ==> canary::canary_name_spec(task)["deploy-canary-"@.len() + i]
            == task[i],
        search::has_prefix(canary::canary_name_spec(task), "deploy-canary-"@),
{
    crate::text::laws::part_stands_between(
        Seq::empty(),
        "deploy-canary-"@,
        chars::first_chars_spec(task, 8),
        Seq::empty(),
    );
}

} // verus!
