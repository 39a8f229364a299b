//! What an update must have shown before it takes the place of the running
//! binary, and which versions are newer.

use vstd::prelude::*;

use crate::config::autoupdate::UpdateProgress;
use crate::services::autoupdate;
use crate::services::autoupdate::{UpdateActionView, UpdateEventView, UpdatePhase};
use crate::text::case;
use crate::text::number;
use crate::text::split;

verus! {

/// The number lists agree before place `i`, and there the first one is larger,
/// or goes on where the second one ends.
pub open spec fn larger_at(a: Seq<int>, b: Seq<int>, i: int) -> bool {
    &&& 0 <= i < a.len()
    &&& i <= b.len()
    &&& forall|j: int| 0 <= j < i ==> a[j] == b[j]
    &&& i < b.len() ==> a[i] > b[i]
}

proof fn lemma_comes_after(a: Seq<int>, b: Seq<int>, i: int)
    requires
        0 <= i <= a.len(),
        i <= b.len(),
        forall|j: int| 0 <= j < i ==> a[j] == b[j],
    ensures
        autoupdate::comes_after(a, b, i) <==> exists|k: int| larger_at(a, b, k),
    decreases a.len() - i,
{
    if i < a.len() && i < b.len() && a[i] == b[i] {
        lemma_comes_after(a, b, i + 1);
    } else {
        if autoupdate::comes_after(a, b, i) {
            assert(larger_at(a, b, i));
        }
        if exists|k: int| larger_at(a, b, k) {
            let k = choose|k: int| larger_at(a, b, k);
            if i < a.len() && i < b.len() {
                assert(k == i);
            }
        }
    }
}

/// A version is newer than another exactly where, at the first place at which
/// their numbers differ, its number is larger, or the other one has ended.
pub proof fn first_difference_decides(latest: Seq<char>, current: Seq<char>)
    ensures
        autoupdate::newer(latest, current) <==> exists|i: int|
            larger_at(
                autoupdate::version_parts(latest),
                autoupdate::version_parts(current),
                i,
            ),
{
    lemma_comes_after(
        autoupdate::version_parts(latest),
        autoupdate::version_parts(current),
        0,
    );
}

/// The numbers of a version are those between its points, in order.
pub proof fn version_numbers_stand_between_points(numbers: Seq<nat>)
    requires
        numbers.len() > 0,
        forall|i: int| 0 <= i < numbers.len() ==> (#[trigger] numbers[i]) <= u32::MAX,
    ensures
        autoupdate::version_parts(
            split::join_spec(numbers.map_values(|n: nat| number::decimal_spec(n)), seq!['.']),
        ) == numbers.map_values(|n: nat| n as int),
{
    let texts = numbers.map_values(|n: nat| number::decimal_spec(n));
    assert forall|i: int| 0 <= i < texts.len() implies !(#[trigger] texts[i]).contains('.') by {
        number::decimal_reads_back(numbers[i]);
        assert(texts[i] == number::decimal_spec(numbers[i]));
    }
    split::split_undoes_join(texts, '.');
    let all = texts.map_values(|s: Seq<char>| autoupdate::version_part(s));
    let values = numbers.map_values(|n: nat| n as int);
    assert forall|i: int| 0 <= i < all.len() implies #[trigger] all[i] == Some(values[i]) by {
        number::parse_of_decimal(numbers[i], u32::MAX as int);
        assert(texts[i] == number::decimal_spec(numbers[i]));
    }
    crate::collections::lemma_keep_all(all, values);
}

/// Nothing newer means that nothing is done; something newer waits while tasks
/// run, and is put in place otherwise.
pub proof fn newer_version_waits_for_tasks(latest: Seq<char>, current: Seq<char>, running: nat)
    ensures
        autoupdate::decision(latest, current, running) is UpToDate <==> !autoupdate::newer(
            latest,
            current,
        ),
        autoupdate::decision(latest, current, running) is Defer <==> autoupdate::newer(
            latest,
            current,
        ) && running > 0,
        autoupdate::decision(latest, current, running) is Apply <==> autoupdate::newer(
            latest,
            current,
        ) && running == 0,
{
}

/// The small hexadecimal digit with this value.
pub open spec fn hex_code(n: int) -> int {
    if n < 10 {
        48 + n
    } else {
        87 + n
    }
}

/// Bytes are written with two small hexadecimal digits each, the high one
/// first.
pub proof fn bytes_have_two_digits(bytes: Seq<u8>, i: int)
    ensures
        autoupdate::hex_spec(bytes).len() == 2 * bytes.len(),
        0 <= i < bytes.len() ==> autoupdate::hex_spec(bytes)[2 * i] as int == hex_code(
            bytes[i] as int / 16,
        ) && autoupdate::hex_spec(bytes)[2 * i + 1] as int == hex_code(bytes[i] as int % 16),
    decreases bytes.len(),
{
    if bytes.len() > 0 {
        bytes_have_two_digits(bytes.drop_last(), i);
        if 0 <= i < bytes.len() - 1 {
            assert(bytes.drop_last()[i] == bytes[i]);
        }
    }
}

/// What starts the new binary: on a port of its own, as a trial.
pub open spec fn trial() -> UpdateActionView {
    UpdateActionView::StartCanary {
        args: seq!["--port"@, number::decimal_spec(19999), "--canary"@],
    }
}

/// A download of which a checksum is expected is started exactly where the
/// hexadecimal SHA-256 of its contents is the checksum in small letters. Where
/// it is not, the update fails, says so, and starts nothing.
pub proof fn checksum_decides(
    run: autoupdate::UpdateView,
    expected: Seq<char>,
    contents: Seq<u8>,
    progress: UpdateProgress,
)
    requires
        run.phase is Contents,
        run.sha256 == Some(expected),
    ensures
        ({
            let s = run.step(UpdateEventView::Contents(contents), progress);
            let found = autoupdate::hex_spec(autoupdate::sha256_of(contents));
            &&& s.run.sha256 == run.sha256
            &&& s.actions.contains(trial()) <==> found == case::lowercase_of(expected)
            &&& s.run.phase is CanaryStart <==> found == case::lowercase_of(expected)
            &&& found == case::lowercase_of(expected) ==> s.actions == seq![trial()]
            &&& found != case::lowercase_of(expected) ==> s.run.phase is Over && s.actions == seq![
                UpdateActionView::Fail {
                    error: "Checksum mismatch: expected "@ + expected + ", got "@ + found,
                },
            ]
        }),
{
    let s = run.step(UpdateEventView::Contents(contents), progress);
    let found = autoupdate::hex_spec(autoupdate::sha256_of(contents));
    if found == case::lowercase_of(expected) {
        assert(s.actions =~= seq![trial()]);
        assert(s.actions[0] == trial());
    } else {
        assert(s.actions.len() == 1);
        assert(!(s.actions[0] is StartCanary));
    }
}

/// A download is checked where a checksum is expected, and tried at once where
/// none is; one that fails ends the update with its error.
pub proof fn download_is_checked_first(
    run: autoupdate::UpdateView,
    progress: UpdateProgress,
    error: Seq<char>,
)
    requires
        run.phase is Download,
    ensures
        ({
            let s = run.step(UpdateEventView::Done, progress);
            &&& run.sha256 is Some ==> s.run.phase is Contents && s.actions == seq![
                UpdateActionView::ReadBinary,
            ] && s.progress is Verifying
            &&& run.sha256 is None ==> s.run.phase is CanaryStart && s.actions == seq![trial()]
                && s.progress is HealthCheck
            &&& s.run.sha256 == run.sha256
        }),
        ({
            let s = run.step(UpdateEventView::Failed(error), progress);
            s.run.phase is Over && s.actions == seq![UpdateActionView::Fail { error }]
        }),
{
}

/// The new binary is given five seconds to start and is then asked on its own
/// port whether it is well. It is put in place exactly where it says so; in
/// every other case it is thrown away, and a process that may still run is
/// killed.
pub proof fn trial_decides(
    run: autoupdate::UpdateView,
    event: UpdateEventView,
    progress: UpdateProgress,
)
    ensures
        ({
            let s = run.step(event, progress);
            let thrown_away = s.run.phase is Over && s.actions.len() >= 2
                && s.actions[s.actions.len() - 2] is RemoveTemp && s.actions.last()
                == (UpdateActionView::Fail {
                error: "Canary health check failed - keeping current version"@,
            }) && s.progress is Idle;
            let killed = s.actions.len() == 3 && s.actions[0] is KillCanary;
            &&& run.phase is CanaryStart && event is Done ==> s.run.phase is CanaryWait && s.actions
                == seq![UpdateActionView::WaitCanary { secs: 5 }]
            &&& run.phase is CanaryStart && event is Failed ==> thrown_away && s.actions.len() == 2
            &&& run.phase is CanaryWait && event is CanaryRuns ==> s.run.phase is CanaryHealth
                && s.actions == seq![
                UpdateActionView::AskCanary {
                    url: "http://127.0.0.1:"@ + number::decimal_spec(19999) + "/health"@,
                    timeout_secs: 10,
                },
            ]
            &&& run.phase is CanaryWait && event is CanaryExited ==> thrown_away && s.actions.len()
                == 2
            &&& run.phase is CanaryWait && event is Failed ==> thrown_away && killed
            &&& run.phase is CanaryHealth && event == UpdateEventView::CanaryHealth(true)
                ==> s.run.phase is Backup && s.actions == seq![
                UpdateActionView::KillCanary,
                UpdateActionView::Backup,
            ] && s.progress is Applying
            &&& run.phase is CanaryHealth && (event == UpdateEventView::CanaryHealth(false)
                || event is Failed) ==> thrown_away && killed
        }),
{
}

/// The running binary is set aside before the new one takes its place, and put
/// back where that fails. Once the new one may run, the old one is removed and
/// the agent restarts.
pub proof fn binary_is_put_in_place(
    run: autoupdate::UpdateView,
    progress: UpdateProgress,
    error: Seq<char>,
)
    ensures
        run.phase is Backup ==> {
            let s = run.step(UpdateEventView::Done, progress);
            let f = run.step(UpdateEventView::Failed(error), progress);
            &&& s.run.phase is Replace && s.actions == seq![UpdateActionView::Replace]
            &&& f.run.phase is Over && f.actions == seq![UpdateActionView::Fail { error }]
        },
        run.phase is Replace ==> {
            let s = run.step(UpdateEventView::Done, progress);
            let f = run.step(UpdateEventView::Failed(error), progress);
            &&& s.run.phase is Permissions && s.actions == seq![UpdateActionView::SetPermissions]
            &&& f.run.phase is Over && f.actions == seq![
                UpdateActionView::Restore,
                UpdateActionView::Fail { error: "Failed to replace binary: "@ + error },
            ]
        },
        run.phase is Permissions ==> {
            let s = run.step(UpdateEventView::Done, progress);
            let f = run.step(UpdateEventView::Failed(error), progress);
            &&& s.run.phase is Over && s.actions == seq![
                UpdateActionView::RemoveBackup,
                UpdateActionView::Restart,
            ] && s.progress is Restarting
            &&& f.run.phase is Over && f.actions == seq![UpdateActionView::Fail { error }]
        },
{
}

/// What an update has come to after its first `n` events.
#[verifier::opaque]
pub open spec fn reached(
    run: autoupdate::UpdateView,
    events: Seq<UpdateEventView>,
    progress: UpdateProgress,
    n: int,
) -> autoupdate::UpdateStep
    decreases n,
{
    if n <= 0 {
        autoupdate::UpdateStep { run, progress, actions: Seq::empty() }
    } else {
        let before = reached(run, events, progress, n - 1);
        before.run.step(events[n - 1], before.progress)
    }
}

/// Before the event at `n` the download was complete, it had the checksum where
/// one was expected, it ran, and it said that it was well, in this order.
pub open spec fn had_proved_itself(
    sha256: Option<Seq<char>>,
    events: Seq<UpdateEventView>,
    n: int,
) -> bool {
    exists|i: int, j: int, k: int|
        had_checksum(sha256, events, i) && i < j < k < n && #[trigger] events[j] is CanaryRuns
            && #[trigger] events[k] == UpdateEventView::CanaryHealth(true)
            && #[trigger] had_checksum(sha256, events, i)
}

/// At `i` the download was complete and had the checksum, where one was
/// expected.
pub open spec fn had_checksum(
    sha256: Option<Seq<char>>,
    events: Seq<UpdateEventView>,
    i: int,
) -> bool {
    &&& 0 <= i < events.len()
    &&& match sha256 {
        Some(expected) => events[i] matches UpdateEventView::Contents(bytes) && autoupdate::hex_spec(
            autoupdate::sha256_of(bytes),
        ) == case::lowercase_of(expected),
        None => events[i] is Done,
    }
}

spec fn known(
    run: autoupdate::UpdateView,
    events: Seq<UpdateEventView>,
    s: autoupdate::UpdateStep,
    n: int,
) -> bool {
    &&& s.run.sha256 == run.sha256
    &&& match s.run.phase {
        UpdatePhase::Download => true,
        UpdatePhase::Contents => run.sha256 is Some,
        UpdatePhase::CanaryStart | UpdatePhase::CanaryWait => exists|i: int|
            i < n && #[trigger] had_checksum(run.sha256, events, i),
        UpdatePhase::CanaryHealth => exists|i: int, j: int|
            i < j < n && #[trigger] had_checksum(run.sha256, events, i)
                && #[trigger] events[j] is CanaryRuns,
        UpdatePhase::Backup | UpdatePhase::Replace | UpdatePhase::Permissions =>
            had_proved_itself(run.sha256, events, n),
        UpdatePhase::Over => true,
    }
}

proof fn lemma_known(
    run: autoupdate::UpdateView,
    events: Seq<UpdateEventView>,
    progress: UpdateProgress,
    n: int,
)
    requires
        run.phase is Download,
        0 <= n <= events.len(),
    ensures
        known(run, events, reached(run, events, progress, n), n),
    decreases n,
{
    reveal_with_fuel(reached, 2);
    if n > 0 {
        lemma_known(run, events, progress, n - 1);
        let before = reached(run, events, progress, n - 1);
        let now = reached(run, events, progress, n);
        let e = events[n - 1];
        match before.run.phase {
            UpdatePhase::Download => {
                if now.run.phase is CanaryStart {
                    assert(had_checksum(run.sha256, events, n - 1));
                }
            },
            UpdatePhase::Contents => {
                if now.run.phase is CanaryStart {
                    assert(had_checksum(run.sha256, events, n - 1));
                }
            },
            UpdatePhase::CanaryWait => {
                if now.run.phase is CanaryHealth {
                    let i = choose|i: int|
                        i < n - 1 && #[trigger] had_checksum(run.sha256, events, i);
                    assert(events[n - 1] is CanaryRuns);
                }
            },
            UpdatePhase::CanaryHealth => {
                if now.run.phase is Backup {
                    let (i, j) = choose|i: int, j: int|
                        i < j < n - 1 && #[trigger] had_checksum(run.sha256, events, i)
                            && #[trigger] events[j] is CanaryRuns;
                    assert(events[n - 1] == UpdateEventView::CanaryHealth(true));
                    assert(had_proved_itself(run.sha256, events, n));
                }
            },
            _ => {},
        }
    }
}

/// Whatever happens to an update, it touches the running binary, and restarts
/// the agent, only after the new binary was downloaded whole, had the checksum
/// that was expected, ran, and said that it was well.
pub proof fn running_binary_is_safe(
    run: autoupdate::UpdateView,
    events: Seq<UpdateEventView>,
    progress: UpdateProgress,
    n: int,
    i: int,
)
    requires
        run.phase is Download,
        0 < n <= events.len(),
        0 <= i < reached(run, events, progress, n).actions.len(),
        ({
            let a = reached(run, events, progress, n).actions[i];
            a is Backup || a is Replace || a is SetPermissions || a is RemoveBackup || a is Restart
        }),
    ensures
        had_proved_itself(run.sha256, events, n),
{
    lemma_known(run, events, progress, n - 1);
    lemma_known(run, events, progress, n);
    reveal_with_fuel(reached, 2);
    let before = reached(run, events, progress, n - 1);
    if before.run.phase is Permissions {
        let (i, j, k) = choose|i: int, j: int, k: int|
            had_checksum(run.sha256, events, i) && i < j < k < n - 1 && #[trigger] events[j] is CanaryRuns
                && #[trigger] events[k] == UpdateEventView::CanaryHealth(true)
                && #[trigger] had_checksum(run.sha256, events, i);
        assert(had_proved_itself(run.sha256, events, n));
    }
}

} // verus!
