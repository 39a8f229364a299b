//! Updating the agent: a new binary is downloaded, verified and tried on a
//! port of its own before it takes the place of the running one.

use vstd::prelude::*;

use crate::collections;
use crate::config::autoupdate::{AutoUpdateConfig, AutoUpdateState, UpdateMetadata, UpdateProgress};
use crate::domain::tunnel::TunnelMode;
use crate::services::restart::{Platform, RestartMode};
use crate::text::case;
use crate::text::case::to_lowercase;
use crate::text::chars;
use crate::text::chars::{concat2, concat3, concat4, concat5, str_eq, strings};
use crate::text::edit;
use crate::text::edit::{replace_all, trim_end_char};
use crate::text::number;
use crate::text::number::{decimal, parse_u32};
use crate::text::split;
use crate::text::split::split;
use crate::time;
use crate::time::Timestamp;

verus! {

/// The port on which a new binary is tried.
pub const CANARY_PORT: u16 = 19999;

/// Seconds that a new binary has to start.
pub const CANARY_STARTUP_WAIT_SECS: u64 = 5;

/// Seconds that a new binary has to answer.
pub const CANARY_HEALTH_CHECK_TIMEOUT_SECS: u64 = 10;

/// Seconds after which a process that takes over is looked at first.
pub const TAKEOVER_FIRST_LOOK_SECS: u64 = 2;

/// Seconds that a process which takes over has to do so.
pub const TAKEOVER_WAIT_SECS: u64 = 30;

/// Milliseconds between the announcement of a shutdown and the end.
pub const SHUTDOWN_GRACE_MS: u64 = 500;

/// The number that a part of a version writes.
pub open spec fn version_part(s: Seq<char>) -> Option<int> {
    number::parse_spec(s, u32::MAX as int)
}

/// The numbers of a version. What writes no number is left out.
pub open spec fn version_parts(v: Seq<char>) -> Seq<int> {
    collections::keep_some(split::split_spec(v, '.').map_values(|s: Seq<char>| version_part(s)))
}

/// The numbers `a` come after the numbers `b`, from place `i` on: the first
/// difference decides, and without one the longer list comes after.
pub open spec fn comes_after(a: Seq<int>, b: Seq<int>, i: int) -> bool
    decreases a.len() - i,
{
    if 0 <= i < a.len() && i < b.len() {
        if a[i] != b[i] {
            a[i] > b[i]
        } else {
            comes_after(a, b, i + 1)
        }
    } else {
        a.len() > b.len()
    }
}

/// One version is newer than another.
pub open spec fn newer(latest: Seq<char>, current: Seq<char>) -> bool {
    comes_after(version_parts(latest), version_parts(current), 0)
}

fn parse_version(v: &str) -> (r: Vec<u32>)
    ensures
        r@.map_values(|n: u32| n as int) == version_parts(v@),
{
    let parts = split(v, '.');
    let ghost all = split::split_spec(v@, '.').map_values(|s: Seq<char>| version_part(s));
    let mut r: Vec<u32> = Vec::new();
    let mut i: usize = 0;
    assert(r@.map_values(|n: u32| n as int) =~= collections::keep_some(all.take(0)));
    while i < parts.len()
        invariant
            i <= parts@.len(),
            chars::views(parts@) == split::split_spec(v@, '.'),
            all == split::split_spec(v@, '.').map_values(|s: Seq<char>| version_part(s)),
            r@.map_values(|n: u32| n as int) == collections::keep_some(all.take(i as int)),
        decreases parts@.len() - i,
    {
        proof {
            collections::lemma_keep_some_step(all, i as int);
            assert(parts@[i as int]@ == chars::views(parts@)[i as int]);
        }
        let ghost before = r@;
        if let Some(n) = parse_u32(parts[i].as_str()) {
            r.push(n);
            assert(r@.map_values(|n: u32| n as int) =~= before.map_values(
                |n: u32| n as int,
            ).push(n as int));
        }
        i = i + 1;
    }
    assert(all.take(all.len() as int) =~= all);
    r
}

/// Whether one version is newer than another.
pub fn is_newer_version(latest: &str, current: &str) -> (r: bool)
    ensures
        r == newer(latest@, current@),
{
    let a = parse_version(latest);
    let b = parse_version(current);
    let ghost ga = version_parts(latest@);
    let ghost gb = version_parts(current@);
    let mut i: usize = 0;
    while i < a.len() && i < b.len()
        invariant
            i <= a@.len(),
            i <= b@.len(),
            ga == a@.map_values(|n: u32| n as int),
            gb == b@.map_values(|n: u32| n as int),
            newer(latest@, current@) == comes_after(ga, gb, 0),
            comes_after(ga, gb, 0) == comes_after(ga, gb, i as int),
        decreases a@.len() - i,
    {
        assert(ga[i as int] == a@[i as int] && gb[i as int] == b@[i as int]);
        if a[i] > b[i] {
            return true;
        }
        if a[i] < b[i] {
            return false;
        }
        i = i + 1;
    }
    a.len() > b.len()
}

/// The file that a new binary is downloaded to, in the directory for temporary
/// files.
pub fn temp_file_name(version: &str) -> (r: String)
    ensures
        r@ == "xjp-deploy-agent-"@ + version@,
{
    concat2("xjp-deploy-agent-", version)
}

/// Where a binary is downloaded from: the mesh may know a nearer place than
/// the configuration.
pub fn resolve_binary_url(config: &AutoUpdateConfig, mesh_url: Option<String>, version: &str) -> (r:
    String)
    ensures
        r@ == (match mesh_url {
            Some(u) => edit::trim_end_char_spec(u@, '/'),
            None => config.endpoint@,
        }) + "/"@ + edit::replace_from(config.binary_path_template@, "{version}"@, version@, 0),
{
    match mesh_url {
        Some(u) => {
            proof {
                reveal_strlit("{version}");
            }
            let path = replace_all(config.binary_path_template.as_str(), "{version}", version);
            concat3(trim_end_char(u.as_str(), '/').as_str(), "/", path.as_str())
        },
        None => config.binary_url(version),
    }
}

/// The bytes that `sha2::Sha256` makes of other bytes.
pub uninterp spec fn sha256_of(bytes: Seq<u8>) -> Seq<u8>;

/// Calls `new`, `update` and `finalize` of `sha2::Sha256`: 32 bytes that the
/// given ones alone decide.
#[verifier::external_body]
fn sha256(bytes: &Vec<u8>) -> (r: Vec<u8>)
    ensures
        r@ == sha256_of(bytes@),
        r@.len() == 32,
{
    <sha2::Sha256 as sha2::Digest>::digest(bytes).to_vec()
}

/// A digit of the hexadecimal system.
pub open spec fn hex_digit(n: int) -> char {
    if n < 10 {
        ('0' as int + n) as char
    } else {
        ('a' as int + n - 10) as char
    }
}

/// Bytes in the hexadecimal system, two digits each.
pub open spec fn hex_spec(bytes: Seq<u8>) -> Seq<char>
    decreases bytes.len(),
{
    if bytes.len() == 0 {
        Seq::empty()
    } else {
        hex_spec(bytes.drop_last()).push(hex_digit(bytes.last() as int / 16)).push(
            hex_digit(bytes.last() as int % 16),
        )
    }
}

fn push_hex_digit(s: &mut String, n: u8)
    requires
        n < 16,
    ensures
        final(s)@ == old(s)@.push(hex_digit(n as int)),
{
    if n < 10 {
        s.push((48 + n) as char);
    } else {
        s.push((87 + n) as char);
    }
}

/// Writes bytes in the hexadecimal system.
pub fn hex(bytes: &Vec<u8>) -> (r: String)
    ensures
        r@ == hex_spec(bytes@),
{
    let mut s = String::new();
    let mut i: usize = 0;
    assert(s@ =~= hex_spec(bytes@.take(0)));
    while i < bytes.len()
        invariant
            i <= bytes@.len(),
            s@ == hex_spec(bytes@.take(i as int)),
        decreases bytes@.len() - i,
    {
        let b = bytes[i];
        assert(bytes@.take(i + 1).drop_last() =~= bytes@.take(i as int));
        push_hex_digit(&mut s, b / 16);
        push_hex_digit(&mut s, b % 16);
        i = i + 1;
    }
    assert(bytes@.take(bytes@.len() as int) =~= bytes@);
    s
}

/// The error of a binary with another checksum.
pub open spec fn mismatch(expected: Seq<char>, actual: Seq<char>) -> Seq<char> {
    "Checksum mismatch: expected "@ + expected + ", got "@ + actual
}

/// Compares the digest of a binary with the one that is expected, in which
/// capitals count as small letters.
pub fn check_digest(digest: &Vec<u8>, expected: &str) -> (r: Result<(), String>)
    ensures
        r is Ok <==> hex_spec(digest@) == case::lowercase_of(expected@),
        r matches Err(e) ==> e@ == mismatch(expected@, hex_spec(digest@)),
{
    let actual = hex(digest);
    if str_eq(actual.as_str(), to_lowercase(expected).as_str()) {
        Ok(())
    } else {
        Err(concat4("Checksum mismatch: expected ", expected, ", got ", actual.as_str()))
    }
}

/// Verifies the contents of a binary.
pub fn verify_checksum(contents: &Vec<u8>, expected: &str) -> (r: Result<(), String>)
    ensures
        r is Ok <==> hex_spec(sha256_of(contents@)) == case::lowercase_of(expected@),
        r matches Err(e) ==> e@ == mismatch(expected@, hex_spec(sha256_of(contents@))),
{
    let digest = sha256(contents);
    check_digest(&digest, expected)
}

/// What a check for updates leads to.
#[derive(Clone, Copy, Debug, PartialEq, Eq, Structural)]
pub enum UpdateDecision {
    /// There is nothing newer.
    UpToDate,
    /// There is something newer, but tasks are running.
    Defer,
    /// The newer version is to be put in place.
    Apply,
}

/// What a check for updates leads to.
pub open spec fn decision(latest: Seq<char>, current: Seq<char>, running: nat) -> UpdateDecision {
    if !newer(latest, current) {
        UpdateDecision::UpToDate
    } else if running > 0 {
        UpdateDecision::Defer
    } else {
        UpdateDecision::Apply
    }
}

/// Notes when the next check is.
pub fn schedule_next(state: &mut AutoUpdateState, now: Timestamp, interval_secs: u64)
    requires
        time::MIN_SECONDS <= now.seconds() + interval_secs <= time::MAX_SECONDS,
    ensures
        exists|t: Timestamp|
            t.instant() == now.instant() + interval_secs * 1_000_000_000 && *final(state)
                == #[trigger] with_next_check(*old(state), t),
{
    let seconds = now.timestamp();
    assert(interval_secs <= time::MAX_SECONDS - seconds);
    if let Some(t) = now.plus_seconds(interval_secs as i64) {
        state.next_check = Some(t);
        assert(*state == with_next_check(*old(state), t));
    }
}

/// The state with another next check.
pub open spec fn with_next_check(state: AutoUpdateState, t: Timestamp) -> AutoUpdateState {
    AutoUpdateState { next_check: Some(t), ..state }
}

/// Takes what is known of the latest version, and decides what to do. A newer
/// version waits while tasks are running.
pub fn on_metadata(
    state: &mut AutoUpdateState,
    metadata: &UpdateMetadata,
    current: &str,
    running: usize,
) -> (r: UpdateDecision)
    ensures
        r == decision(metadata.version@, current@, running as nat),
        final(state).last_check == old(state).last_check,
        final(state).next_check == old(state).next_check,
        final(state).update_in_progress == old(state).update_in_progress,
        final(state).latest_version == Some(metadata.version),
        final(state).update_available == !(r is UpToDate),
        final(state).update_progress == if r is Defer {
            UpdateProgress::Deferred
        } else {
            old(state).update_progress
        },
        final(state).pending_update == if r is Defer {
            Some(*metadata)
        } else {
            old(state).pending_update
        },
        match r {
            UpdateDecision::UpToDate => chars::opt_view(final(state).last_check_result) == Some(
                "Already up to date"@,
            ),
            UpdateDecision::Defer => chars::opt_view(final(state).last_check_result) == Some(
                "Update to "@ + metadata.version@ + " deferred - waiting for "@
                    + number::decimal_spec(running as nat) + " running task(s)"@,
            ),
            UpdateDecision::Apply => final(state).last_check_result == old(
                state,
            ).last_check_result,
        },
{
    state.latest_version = Some(metadata.version.clone());
    if !is_newer_version(metadata.version.as_str(), current) {
        state.update_available = false;
        state.last_check_result = Some("Already up to date".to_owned());
        return UpdateDecision::UpToDate;
    }
    state.update_available = true;
    if running > 0 {
        state.pending_update = Some(metadata.clone());
        state.update_progress = UpdateProgress::Deferred;
        state.last_check_result = Some(
            concat5(
                "Update to ",
                metadata.version.as_str(),
                " deferred - waiting for ",
                decimal(running as u64).as_str(),
                " running task(s)",
            ),
        );
        return UpdateDecision::Defer;
    }
    UpdateDecision::Apply
}

/// The update that is to be put in place now that a task has ended: one that
/// waits, where updates are configured and nothing runs or waits any more.
pub fn pending_update(
    configured: bool,
    state: &AutoUpdateState,
    running: usize,
    queued: u128,
) -> (r: Option<UpdateMetadata>)
    ensures
        r == if configured && running == 0 && queued == 0 {
            state.pending_update
        } else {
            None
        },
{
    if !configured || running > 0 || queued > 0 {
        return None;
    }
    state.get_pending_update()
}

/// An update is about to be put in place: no new task is taken meanwhile.
pub fn begin_apply(state: &mut AutoUpdateState)
    ensures
        *final(state) == (AutoUpdateState { update_in_progress: true, ..*old(state) }),
{
    state.set_update_in_progress(true);
}

/// An update has been put in place, or has not. Where it has not, new tasks
/// are taken again.
pub fn end_apply(state: &mut AutoUpdateState, version: &str, outcome: &Result<(), String>)
    ensures
        final(state).last_check == old(state).last_check,
        final(state).next_check == old(state).next_check,
        final(state).latest_version == old(state).latest_version,
        final(state).update_available == old(state).update_available,
        final(state).pending_update is None,
        match outcome {
            Ok(_) => {
                &&& chars::opt_view(final(state).last_check_result) == Some(
                    "Successfully updated to "@ + version@,
                )
                &&& final(state).update_in_progress == old(state).update_in_progress
                &&& final(state).update_progress == old(state).update_progress
            },
            Err(e) => {
                &&& chars::opt_view(final(state).last_check_result) == Some(
                    "Update failed: "@ + e@,
                )
                &&& !final(state).update_in_progress
                &&& final(state).update_progress is Idle
            },
        },
{
    match outcome {
        Ok(_) => {
            state.last_check_result = Some(concat2("Successfully updated to ", version));
        },
        Err(e) => {
            state.last_check_result = Some(concat2("Update failed: ", e.as_str()));
            state.update_in_progress = false;
            state.update_progress = UpdateProgress::Idle;
        },
    }
    state.pending_update = None;
}

/// A check for updates failed.
pub fn on_check_error(state: &mut AutoUpdateState, error: &str)
    ensures
        chars::opt_view(final(state).last_check_result) == Some("Error: "@ + error@),
        *final(state) == (AutoUpdateState {
            last_check_result: final(state).last_check_result,
            ..*old(state)
        }),
{
    state.last_check_result = Some(concat2("Error: ", error));
}

/// What an update waits for.
#[derive(Clone, Copy, Debug, PartialEq, Eq, Structural)]
pub enum UpdatePhase {
    /// The new binary is being downloaded.
    Download,
    /// Its contents are being read.
    Contents,
    /// It is being started on a port of its own.
    CanaryStart,
    /// It is being given time to start.
    CanaryWait,
    /// It is being asked whether it is well.
    CanaryHealth,
    /// The running binary is being set aside.
    Backup,
    /// The new binary is being put in its place.
    Replace,
    /// It is being made executable.
    Permissions,
    /// Nothing more.
    Over,
}

/// Something that an update asks for.
#[derive(Debug)]
pub enum UpdateAction {
    /// Download a binary to the temporary file.
    Download { url: String },
    /// Read the temporary file.
    ReadBinary,
    /// Start the temporary file with these arguments.
    StartCanary { args: Vec<String> },
    /// Wait, and look at the process that was started.
    WaitCanary { secs: u64 },
    /// Ask the process whether it is well.
    AskCanary { url: String, timeout_secs: u64 },
    /// Kill the process.
    KillCanary,
    /// Remove the temporary file.
    RemoveTemp,
    /// Set the running binary aside, where there is one.
    Backup,
    /// Move the temporary file to the place of the running binary.
    Replace,
    /// Put the running binary back, where it was set aside.
    Restore,
    /// Make the new binary executable.
    SetPermissions,
    /// Remove the binary that was set aside.
    RemoveBackup,
    /// Restart the agent.
    Restart,
    /// The update failed.
    Fail { error: String },
}

/// The contents of an `UpdateAction`.
pub ghost enum UpdateActionView {
    Download { url: Seq<char> },
    ReadBinary,
    StartCanary { args: Seq<Seq<char>> },
    WaitCanary { secs: u64 },
    AskCanary { url: Seq<char>, timeout_secs: u64 },
    KillCanary,
    RemoveTemp,
    Backup,
    Replace,
    Restore,
    SetPermissions,
    RemoveBackup,
    Restart,
    Fail { error: Seq<char> },
}

impl View for UpdateAction {
    type V = UpdateActionView;

    open spec fn view(&self) -> UpdateActionView {
        match *self {
            UpdateAction::Download { url } => UpdateActionView::Download { url: url@ },
            UpdateAction::ReadBinary => UpdateActionView::ReadBinary,
            UpdateAction::StartCanary { args } => UpdateActionView::StartCanary {
                args: chars::views(args@),
            },
            UpdateAction::WaitCanary { secs } => UpdateActionView::WaitCanary { secs },
            UpdateAction::AskCanary { url, timeout_secs } => UpdateActionView::AskCanary {
                url: url@,
                timeout_secs,
            },
            UpdateAction::KillCanary => UpdateActionView::KillCanary,
            UpdateAction::RemoveTemp => UpdateActionView::RemoveTemp,
            UpdateAction::Backup => UpdateActionView::Backup,
            UpdateAction::Replace => UpdateActionView::Replace,
            UpdateAction::Restore => UpdateActionView::Restore,
            UpdateAction::SetPermissions => UpdateActionView::SetPermissions,
            UpdateAction::RemoveBackup => UpdateActionView::RemoveBackup,
            UpdateAction::Restart => UpdateActionView::Restart,
            UpdateAction::Fail { error } => UpdateActionView::Fail { error: error@ },
        }
    }
}

/// The contents of a list of actions.
pub open spec fn update_actions(v: Seq<UpdateAction>) -> Seq<UpdateActionView> {
    v.map_values(|a: UpdateAction| a@)
}

/// What became of something that an update asked for.
#[derive(Debug)]
pub enum UpdateEvent {
    /// It was done.
    Done,
    /// It could not be done.
    Failed(String),
    /// The contents of the temporary file.
    Contents(Vec<u8>),
    /// The process that was started has ended.
    CanaryExited,
    /// The process that was started runs.
    CanaryRuns,
    /// The process says whether it is well; an answer that does not come says
    /// that it is not.
    CanaryHealth(bool),
}

/// The contents of an `UpdateEvent`.
pub ghost enum UpdateEventView {
    Done,
    Failed(Seq<char>),
    Contents(Seq<u8>),
    CanaryExited,
    CanaryRuns,
    CanaryHealth(bool),
}

impl View for UpdateEvent {
    type V = UpdateEventView;

    open spec fn view(&self) -> UpdateEventView {
        match *self {
            UpdateEvent::Done => UpdateEventView::Done,
            UpdateEvent::Failed(e) => UpdateEventView::Failed(e@),
            UpdateEvent::Contents(b) => UpdateEventView::Contents(b@),
            UpdateEvent::CanaryExited => UpdateEventView::CanaryExited,
            UpdateEvent::CanaryRuns => UpdateEventView::CanaryRuns,
            UpdateEvent::CanaryHealth(h) => UpdateEventView::CanaryHealth(h),
        }
    }
}

/// An update that is under way.
#[derive(Debug)]
pub struct UpdateRun {
    sha256: Option<String>,
    phase: UpdatePhase,
}

/// The contents of an `UpdateRun`.
pub ghost struct UpdateView {
    /// The checksum that is expected.
    pub sha256: Option<Seq<char>>,
    pub phase: UpdatePhase,
}

impl View for UpdateRun {
    type V = UpdateView;

    closed spec fn view(&self) -> UpdateView {
        UpdateView { sha256: chars::opt_view(self.sha256), phase: self.phase }
    }
}

/// What an event leaves of the update and of what reports say of it, and what
/// the update then asks for.
pub ghost struct UpdateStep {
    pub run: UpdateView,
    pub progress: UpdateProgress,
    pub actions: Seq<UpdateActionView>,
}

/// The error of an update whose new binary is not well.
pub open spec fn canary_error() -> Seq<char> {
    "Canary health check failed - keeping current version"@
}

impl UpdateView {
    /// The update goes on.
    pub open spec fn goes(
        self,
        phase: UpdatePhase,
        progress: UpdateProgress,
        actions: Seq<UpdateActionView>,
    ) -> UpdateStep {
        UpdateStep { run: UpdateView { phase, ..self }, progress, actions }
    }

    /// The update fails.
    pub open spec fn fails(
        self,
        progress: UpdateProgress,
        first: Seq<UpdateActionView>,
        error: Seq<char>,
    ) -> UpdateStep {
        self.goes(
            UpdatePhase::Over,
            progress,
            first.push(UpdateActionView::Fail { error }),
        )
    }

    /// The new binary is tried.
    pub open spec fn tries(self) -> UpdateStep {
        self.goes(
            UpdatePhase::CanaryStart,
            UpdateProgress::HealthCheck,
            seq![
                UpdateActionView::StartCanary {
                    args: seq![
                        "--port"@,
                        number::decimal_spec(CANARY_PORT as nat),
                        "--canary"@,
                    ],
                },
            ],
        )
    }

    /// The new binary is not well: it is thrown away.
    pub open spec fn rejects(self, first: Seq<UpdateActionView>) -> UpdateStep {
        self.fails(
            UpdateProgress::Idle,
            first.push(UpdateActionView::RemoveTemp),
            canary_error(),
        )
    }

    /// The contents of the new binary have the checksum that is expected.
    pub open spec fn accepts(self, contents: Seq<u8>) -> bool {
        self.sha256 matches Some(expected) ==> hex_spec(sha256_of(contents))
            == case::lowercase_of(expected)
    }

    /// What an event does.
    pub open spec fn step(self, event: UpdateEventView, progress: UpdateProgress) -> UpdateStep {
        match self.phase {
            UpdatePhase::Download => match event {
                UpdateEventView::Done => if self.sha256 is Some {
                    self.goes(
                        UpdatePhase::Contents,
                        UpdateProgress::Verifying,
                        seq![UpdateActionView::ReadBinary],
                    )
                } else {
                    self.tries()
                },
                UpdateEventView::Failed(e) => self.fails(progress, seq![], e),
                _ => self.goes(self.phase, progress, seq![]),
            },
            UpdatePhase::Contents => match event {
                UpdateEventView::Contents(bytes) => if self.accepts(bytes) {
                    self.tries()
                } else {
                    self.fails(
                        progress,
                        seq![],
                        mismatch(self.sha256->0, hex_spec(sha256_of(bytes))),
                    )
                },
                UpdateEventView::Failed(e) => self.fails(progress, seq![], e),
                _ => self.goes(self.phase, progress, seq![]),
            },
            UpdatePhase::CanaryStart => match event {
                UpdateEventView::Done => self.goes(
                    UpdatePhase::CanaryWait,
                    progress,
                    seq![UpdateActionView::WaitCanary { secs: CANARY_STARTUP_WAIT_SECS }],
                ),
                UpdateEventView::Failed(e) => self.rejects(seq![]),
                _ => self.goes(self.phase, progress, seq![]),
            },
            UpdatePhase::CanaryWait => match event {
                UpdateEventView::CanaryExited => self.rejects(seq![]),
                UpdateEventView::CanaryRuns => self.goes(
                    UpdatePhase::CanaryHealth,
                    progress,
                    seq![
                        UpdateActionView::AskCanary {
                            url: "http://127.0.0.1:"@ + number::decimal_spec(CANARY_PORT as nat)
                                + "/health"@,
                            timeout_secs: CANARY_HEALTH_CHECK_TIMEOUT_SECS,
                        },
                    ],
                ),
                UpdateEventView::Failed(e) => self.rejects(seq![UpdateActionView::KillCanary]),
                _ => self.goes(self.phase, progress, seq![]),
            },
            UpdatePhase::CanaryHealth => match event {
                UpdateEventView::CanaryHealth(true) => self.goes(
                    UpdatePhase::Backup,
                    UpdateProgress::Applying,
                    seq![UpdateActionView::KillCanary, UpdateActionView::Backup],
                ),
                UpdateEventView::CanaryHealth(false) => self.rejects(
                    seq![UpdateActionView::KillCanary],
                ),
                UpdateEventView::Failed(e) => self.rejects(seq![UpdateActionView::KillCanary]),
                _ => self.goes(self.phase, progress, seq![]),
            },
            UpdatePhase::Backup => match event {
                UpdateEventView::Done => self.goes(
                    UpdatePhase::Replace,
                    progress,
                    seq![UpdateActionView::Replace],
                ),
                UpdateEventView::Failed(e) => self.fails(progress, seq![], e),
                _ => self.goes(self.phase, progress, seq![]),
            },
            UpdatePhase::Replace => match event {
                UpdateEventView::Done => self.goes(
                    UpdatePhase::Permissions,
                    progress,
                    seq![UpdateActionView::SetPermissions],
                ),
                UpdateEventView::Failed(e) => self.fails(
                    progress,
                    seq![UpdateActionView::Restore],
                    "Failed to replace binary: "@ + e,
                ),
                _ => self.goes(self.phase, progress, seq![]),
            },
            UpdatePhase::Permissions => match event {
                UpdateEventView::Done => self.goes(
                    UpdatePhase::Over,
                    UpdateProgress::Restarting,
                    seq![UpdateActionView::RemoveBackup, UpdateActionView::Restart],
                ),
                UpdateEventView::Failed(e) => self.fails(progress, seq![], e),
                _ => self.goes(self.phase, progress, seq![]),
            },
            UpdatePhase::Over => self.goes(self.phase, progress, seq![]),
        }
    }
}

impl UpdateRun {
    /// Begins an update with the binary at the given place.
    pub fn begin(metadata: &UpdateMetadata, url: String, state: &mut AutoUpdateState) -> (r: (
        UpdateRun,
        UpdateAction,
    ))
        ensures
            r.0@ == (UpdateView {
                sha256: chars::opt_view(metadata.sha256),
                phase: UpdatePhase::Download,
            }),
            r.1@ == (UpdateActionView::Download { url: url@ }),
            *final(state) == (AutoUpdateState {
                update_progress: UpdateProgress::Downloading,
                ..*old(state)
            }),
    {
        state.update_progress = UpdateProgress::Downloading;
        (
            UpdateRun { sha256: metadata.sha256.clone(), phase: UpdatePhase::Download },
            UpdateAction::Download { url },
        )
    }

    fn fail(&mut self, acts: Vec<UpdateAction>, error: String) -> (r: Vec<UpdateAction>)
        ensures
            final(self)@ == (UpdateView { phase: UpdatePhase::Over, ..old(self)@ }),
            update_actions(r@) == update_actions(acts@).push(
                UpdateActionView::Fail { error: error@ },
            ),
    {
        self.phase = UpdatePhase::Over;
        let mut acts = acts;
        let ghost before = acts@;
        acts.push(UpdateAction::Fail { error });
        assert(update_actions(acts@) =~= update_actions(before).push(
            UpdateActionView::Fail { error: error@ },
        ));
        acts
    }

    fn try_binary(&mut self, state: &mut AutoUpdateState) -> (r: Vec<UpdateAction>)
        ensures
            old(self)@.tries() == (UpdateStep {
                run: final(self)@,
                progress: final(state).update_progress,
                actions: update_actions(r@),
            }),
            *final(state) == (AutoUpdateState {
                update_progress: final(state).update_progress,
                ..*old(state)
            }),
    {
        self.phase = UpdatePhase::CanaryStart;
        state.update_progress = UpdateProgress::HealthCheck;
        let port = decimal(CANARY_PORT as u64);
        let args = strings(&["--port", port.as_str(), "--canary"]);
        assert(chars::views(args@) =~= seq!["--port"@, port@, "--canary"@]);
        let mut acts: Vec<UpdateAction> = Vec::new();
        acts.push(UpdateAction::StartCanary { args });
        assert(update_actions(acts@) =~= old(self)@.tries().actions);
        acts
    }

    fn reject(&mut self, kill: bool, state: &mut AutoUpdateState) -> (r: Vec<UpdateAction>)
        ensures
            old(self)@.rejects(
                if kill {
                    seq![UpdateActionView::KillCanary]
                } else {
                    seq![]
                },
            ) == (UpdateStep {
                run: final(self)@,
                progress: final(state).update_progress,
                actions: update_actions(r@),
            }),
            *final(state) == (AutoUpdateState {
                update_progress: final(state).update_progress,
                ..*old(state)
            }),
    {
        state.update_progress = UpdateProgress::Idle;
        let mut acts: Vec<UpdateAction> = Vec::new();
        if kill {
            acts.push(UpdateAction::KillCanary);
        }
        acts.push(UpdateAction::RemoveTemp);
        let ghost first = if kill {
            seq![UpdateActionView::KillCanary]
        } else {
            seq![]
        };
        assert(update_actions(acts@) =~= first.push(UpdateActionView::RemoveTemp));
        self.fail(acts, "Canary health check failed - keeping current version".to_owned())
    }

    /// Takes what became of the last action, and gives the next ones.
    pub fn on_event(&mut self, event: UpdateEvent, state: &mut AutoUpdateState) -> (r: Vec<
        UpdateAction,
    >)
        ensures
            old(self)@.step(event@, old(state).update_progress) == (UpdateStep {
                run: final(self)@,
                progress: final(state).update_progress,
                actions: update_actions(r@),
            }),
            *final(state) == (AutoUpdateState {
                update_progress: final(state).update_progress,
                ..*old(state)
            }),
    {
        let mut acts: Vec<UpdateAction> = Vec::new();
        assert(update_actions(acts@) =~= Seq::<UpdateActionView>::empty());
        let ghost step = self@.step(event@, state.update_progress);
        match (self.phase, event) {
            (UpdatePhase::Over, _) => {},
            (UpdatePhase::Download, UpdateEvent::Done) => {
                if self.sha256.is_some() {
                    self.phase = UpdatePhase::Contents;
                    state.update_progress = UpdateProgress::Verifying;
                    acts.push(UpdateAction::ReadBinary);
                } else {
                    return self.try_binary(state);
                }
            },
            (UpdatePhase::Download, UpdateEvent::Failed(e)) => {
                return self.fail(acts, e);
            },
            (UpdatePhase::Contents, UpdateEvent::Contents(bytes)) => {
                let verdict = match &self.sha256 {
                    Some(expected) => verify_checksum(&bytes, expected.as_str()),
                    None => Ok(()),
                };
                match verdict {
                    Ok(_) => {
                        return self.try_binary(state);
                    },
                    Err(e) => {
                        return self.fail(acts, e);
                    },
                }
            },
            (UpdatePhase::Contents, UpdateEvent::Failed(e)) => {
                return self.fail(acts, e);
            },
            (UpdatePhase::CanaryStart, UpdateEvent::Done) => {
                self.phase = UpdatePhase::CanaryWait;
                acts.push(UpdateAction::WaitCanary { secs: CANARY_STARTUP_WAIT_SECS });
            },
            (UpdatePhase::CanaryStart, UpdateEvent::Failed(_)) => {
                return self.reject(false, state);
            },
            (UpdatePhase::CanaryWait, UpdateEvent::CanaryExited) => {
                return self.reject(false, state);
            },
            (UpdatePhase::CanaryWait, UpdateEvent::CanaryRuns) => {
                self.phase = UpdatePhase::CanaryHealth;
                let url = concat3(
                    "http://127.0.0.1:",
                    decimal(CANARY_PORT as u64).as_str(),
                    "/health",
                );
                acts.push(
                    UpdateAction::AskCanary {
                        url,
                        timeout_secs: CANARY_HEALTH_CHECK_TIMEOUT_SECS,
                    },
                );
            },
            (UpdatePhase::CanaryWait, UpdateEvent::Failed(_)) => {
                return self.reject(true, state);
            },
            (UpdatePhase::CanaryHealth, UpdateEvent::CanaryHealth(healthy)) => {
                if !healthy {
                    return self.reject(true, state);
                }
                self.phase = UpdatePhase::Backup;
                state.update_progress = UpdateProgress::Applying;
                acts.push(UpdateAction::KillCanary);
                acts.push(UpdateAction::Backup);
            },
            (UpdatePhase::CanaryHealth, UpdateEvent::Failed(_)) => {
                return self.reject(true, state);
            },
            (UpdatePhase::Backup, UpdateEvent::Done) => {
                self.phase = UpdatePhase::Replace;
                acts.push(UpdateAction::Replace);
            },
            (UpdatePhase::Backup, UpdateEvent::Failed(e)) => {
                return self.fail(acts, e);
            },
            (UpdatePhase::Replace, UpdateEvent::Done) => {
                self.phase = UpdatePhase::Permissions;
                acts.push(UpdateAction::SetPermissions);
            },
            (UpdatePhase::Replace, UpdateEvent::Failed(e)) => {
                acts.push(UpdateAction::Restore);
                assert(update_actions(acts@) =~= seq![UpdateActionView::Restore]);
                return self.fail(acts, concat2("Failed to replace binary: ", e.as_str()));
            },
            (UpdatePhase::Permissions, UpdateEvent::Done) => {
                self.phase = UpdatePhase::Over;
                state.update_progress = UpdateProgress::Restarting;
                acts.push(UpdateAction::RemoveBackup);
                acts.push(UpdateAction::Restart);
            },
            (UpdatePhase::Permissions, UpdateEvent::Failed(e)) => {
                return self.fail(acts, e);
            },
            _ => {},
        }
        assert(update_actions(acts@) =~= step.actions);
        acts
    }
}

/// How the agent restarts after an update.
#[derive(Debug)]
pub enum RestartKind {
    /// A new process takes the tunnel session over while this one still runs.
    Takeover,
    /// The agent is restarted in the usual way.
    Scheduled(RestartMode),
}

/// How the agent restarts: a client of the tunnel hands its session over, but
/// a Windows service is restarted by the system. Whether the agent runs as a
/// service is told for the platform.
pub fn restart_kind(mode: TunnelMode, platform: Platform, as_service: bool, binary: String) -> (r:
    RestartKind)
    ensures
        mode is Client && !(platform is Windows && as_service) ==> r is Takeover,
        !(mode is Client && !(platform is Windows && as_service)) ==> r
            == RestartKind::Scheduled(
            if as_service && !(platform is Other) {
                RestartMode::Service
            } else {
                RestartMode::Console(binary)
            },
        ),
{
    let windows_service = match platform {
        Platform::Windows => as_service,
        _ => false,
    };
    if let TunnelMode::Client = mode {
        if !windows_service {
            return RestartKind::Takeover;
        }
    }
    match platform {
        Platform::Other => RestartKind::Scheduled(RestartMode::Console(binary)),
        _ => if as_service {
            RestartKind::Scheduled(RestartMode::Service)
        } else {
            RestartKind::Scheduled(RestartMode::Console(binary))
        },
    }
}

/// What a look at the process that takes over shows.
#[derive(Debug)]
pub enum ProcessLook {
    /// It has ended.
    Exited,
    /// It runs.
    Runs,
    /// It could not be looked at.
    Unknown(String),
}

/// The arguments of a process that takes over.
pub fn takeover_args(session_id: &str) -> (r: Vec<String>)
    ensures
        chars::views(r@) == seq!["--takeover"@, session_id@],
{
    let args = strings(&["--takeover", session_id]);
    assert(chars::views(args@) =~= seq!["--takeover"@, session_id@]);
    args
}

/// The error of a process that takes over but could not be started.
pub fn takeover_spawn_error(error: &str) -> (r: String)
    ensures
        r@ == "Failed to spawn new process: "@ + error@,
{
    concat2("Failed to spawn new process: ", error)
}

/// The first look at a process that takes over: it has to run.
pub fn takeover_first_look(look: ProcessLook) -> (r: Result<(), String>)
    ensures
        r is Ok <==> look is Runs,
        r matches Err(e) ==> e@ == match look {
            ProcessLook::Unknown(f) => "Failed to check new process: "@ + f@,
            _ => "New process exited prematurely"@,
        },
{
    match look {
        ProcessLook::Runs => Ok(()),
        ProcessLook::Exited => Err("New process exited prematurely".to_owned()),
        ProcessLook::Unknown(f) => Err(concat2("Failed to check new process: ", f.as_str())),
    }
}

/// The last look at a process that takes over: whether this process ends. It
/// goes on exactly where the other one has ended.
pub fn takeover_last_look(look: &ProcessLook) -> (r: bool)
    ensures
        r == !(look is Exited),
{
    match look {
        ProcessLook::Exited => false,
        _ => true,
    }
}

/// The error of a restart that could not be scheduled.
pub fn schedule_error(error: &str) -> (r: String)
    ensures
        r@ == "Failed to schedule restart: "@ + error@,
{
    concat2("Failed to schedule restart: ", error)
}

/// No version is newer than itself, and of two versions at most one is newer
/// than the other.
pub proof fn newer_is_asymmetric(a: Seq<char>, b: Seq<char>)
    ensures
        !newer(a, a),
        newer(a, b) ==> !newer(b, a),
{
    lemma_asymmetric(version_parts(a), version_parts(a), 0);
    lemma_asymmetric(version_parts(a), version_parts(b), 0);
}

/// A version that is newer than a newer one is newer.
pub proof fn newer_is_transitive(a: Seq<char>, b: Seq<char>, c: Seq<char>)
    requires
        newer(a, b),
        newer(b, c),
    ensures
        newer(a, c),
{
    lemma_transitive(version_parts(a), version_parts(b), version_parts(c), 0);
}

/// Of two versions with other numbers one is newer.
pub proof fn newer_is_total(a: Seq<char>, b: Seq<char>)
    requires
        version_parts(a) != version_parts(b),
    ensures
        newer(a, b) || newer(b, a),
{
    lemma_total(version_parts(a), version_parts(b), 0);
}

proof fn lemma_asymmetric(a: Seq<int>, b: Seq<int>, i: int)
    requires
        0 <= i,
    ensures
        comes_after(a, b, i) ==> !comes_after(b, a, i),
        a == b ==> !comes_after(a, b, i),
    decreases a.len() - i,
{
    if i < a.len() && i < b.len() && a[i] == b[i] {
        lemma_asymmetric(a, b, i + 1);
    }
}

proof fn lemma_transitive(a: Seq<int>, b: Seq<int>, c: Seq<int>, i: int)
    requires
        0 <= i,
        i <= b.len(),
        comes_after(a, b, i),
        comes_after(b, c, i),
    ensures
        comes_after(a, c, i),
    decreases b.len() - i,
{
    if i < a.len() && i < b.len() && i < c.len() && a[i] == b[i] && b[i] == c[i] {
        lemma_transitive(a, b, c, i + 1);
    }
}

proof fn lemma_total(a: Seq<int>, b: Seq<int>, i: int)
    requires
        0 <= i,
        i <= a.len(),
        i <= b.len(),
        a != b,
        forall|j: int| 0 <= j < i ==> a[j] == b[j],
    ensures
        comes_after(a, b, i) || comes_after(b, a, i),
    decreases a.len() - i,
{
    if i < a.len() && i < b.len() && a[i] == b[i] {
        lemma_total(a, b, i + 1);
    } else if a.len() == b.len() && i == a.len() {
        assert(a =~= b);
    }
}

/// The running binary is touched only after the new one has been found well on
/// a port of its own, and a new binary with a checksum is started only where
/// the checksum is the right one.
pub proof fn binary_is_tried_first(
    run: UpdateView,
    event: UpdateEventView,
    progress: UpdateProgress,
)
    ensures
        ({
            let s = run.step(event, progress);
            &&& s.run.sha256 == run.sha256
            &&& s.run.phase is Backup && !(run.phase is Backup) ==> run.phase is CanaryHealth
                && event == UpdateEventView::CanaryHealth(true)
            &&& s.run.phase is Replace && !(run.phase is Replace) ==> run.phase is Backup
            &&& s.run.phase is CanaryHealth && !(run.phase is CanaryHealth)
                ==> run.phase is CanaryWait && event is CanaryRuns
            &&& s.run.phase is CanaryWait && !(run.phase is CanaryWait)
                ==> run.phase is CanaryStart && event is Done
            &&& s.run.phase is CanaryStart && !(run.phase is CanaryStart) ==> {
                ||| run.phase is Download && run.sha256 is None && event is Done
                ||| run.phase is Contents && (event matches UpdateEventView::Contents(bytes)
                    && run.accepts(bytes))
            }
        }),
{
}

/// An update that fails before the running binary is set aside leaves it
/// alone: nothing is asked for that would touch it.
pub proof fn failed_trial_keeps_binary(
    run: UpdateView,
    event: UpdateEventView,
    progress: UpdateProgress,
    i: int,
)
    requires
        run.phase is Download || run.phase is Contents || run.phase is CanaryStart
            || run.phase is CanaryWait || run.phase is CanaryHealth,
        run.step(event, progress).run.phase is Over,
        0 <= i < run.step(event, progress).actions.len(),
    ensures
        ({
            let a = run.step(event, progress).actions[i];
            a is Fail || a is RemoveTemp || a is KillCanary
        }),
        run.step(event, progress).actions.last() is Fail,
{
}

/// A task that runs keeps an update from being put in place.
pub proof fn running_tasks_defer(latest: Seq<char>, current: Seq<char>, running: nat)
    requires
        running > 0,
    ensures
        !(decision(latest, current, running) is Apply),
        decision(latest, current, running) is Defer <==> newer(latest, current),
{
}

} // verus!
