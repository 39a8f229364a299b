//! The start of the agent, and the work that it does again and again.

use vstd::prelude::*;

use crate::collections;
use crate::config::env::{EnvConfig, QUEUE_TIMEOUT_SECS};
use crate::domain::deploy::{DeployStatus, DeployTask};
use crate::domain::tunnel::TunnelMode;
use crate::services::autoupdate::CANARY_PORT;
use crate::services::deploy::action::EXIT_UNKNOWN;
use crate::state::app_state;
use crate::state::app_state::AppState;
use crate::state::task_store;
use crate::state::task_store::{TaskStore, MAX_RETENTION_HOURS};
use crate::text::chars;
use crate::text::chars::{concat2, str_eq};
use crate::text::number;
use crate::text::number::{decimal, parse_u16};
use crate::time::Timestamp;

verus! {

/// Seconds between two cleanups.
pub const CLEANUP_INTERVAL_SECS: u64 = 60;

/// Every so many cleanups, old tasks and logs are forgotten.
pub const FULL_CLEANUP_EVERY: u32 = 60;

/// Hours after which a log is forgotten.
pub const LOG_RETENTION_HOURS: i64 = 24;

/// What the command line says.
#[derive(Debug)]
pub struct RuntimeConfig {
    /// The port to listen on in place of the configured one.
    pub port_override: Option<u16>,
    /// Whether this is a trial run, which does not update itself.
    pub canary_mode: bool,
    /// The session to take over from another process of the agent.
    pub takeover_session_id: Option<String>,
}

impl RuntimeConfig {
    /// The command line says nothing.
    pub open spec fn plain() -> RuntimeConfig {
        RuntimeConfig { port_override: None, canary_mode: false, takeover_session_id: None }
    }
}

impl Default for RuntimeConfig {
    fn default() -> (r: RuntimeConfig)
        ensures
            r == RuntimeConfig::plain(),
    {
        RuntimeConfig { port_override: None, canary_mode: false, takeover_session_id: None }
    }
}

/// What the arguments from position `i` on make of a configuration: none where
/// they ask for help. The arguments behind "service" do not count.
pub open spec fn parsed_from(args: Seq<String>, i: int, config: RuntimeConfig) -> Option<
    RuntimeConfig,
>
    decreases args.len() - i,
{
    if i < 0 || i >= args.len() {
        Some(config)
    } else if args[i]@ == "--port"@ && i + 1 < args.len() {
        parsed_from(
            args,
            i + 2,
            RuntimeConfig {
                port_override: match number::parse_spec(args[i + 1]@, u16::MAX as int) {
                    Some(n) => Some(n as u16),
                    None => None,
                },
                ..config
            },
        )
    } else if args[i]@ == "--takeover"@ && i + 1 < args.len() {
        parsed_from(
            args,
            i + 2,
            RuntimeConfig { takeover_session_id: Some(args[i + 1]), ..config },
        )
    } else if args[i]@ == "--canary"@ {
        parsed_from(args, i + 1, RuntimeConfig { canary_mode: true, ..config })
    } else if args[i]@ == "--help"@ || args[i]@ == "-h"@ {
        None
    } else if args[i]@ == "service"@ {
        Some(config)
    } else {
        parsed_from(args, i + 1, config)
    }
}

/// Reads the arguments, of which the first is the program; none where they ask
/// for help.
pub fn parse_args(args: &Vec<String>) -> (r: Option<RuntimeConfig>)
    ensures
        r == parsed_from(args@, 1, RuntimeConfig::plain()),
{
    let n = args.len();
    let mut config = RuntimeConfig::default();
    let mut i: usize = 1;
    while i < n
        invariant
            n == args@.len(),
            1 <= i,
            parsed_from(args@, 1, RuntimeConfig::plain()) == parsed_from(args@, i as int, config),
        decreases n - i,
    {
        let arg = args[i].as_str();
        if str_eq(arg, "--port") && i + 1 < n {
            config.port_override = parse_u16(args[i + 1].as_str());
            if i + 2 >= n {
                assert(parsed_from(args@, i + 2, config) == Some(config));
                return Some(config);
            }
            i = i + 2;
        } else if str_eq(arg, "--takeover") && i + 1 < n {
            config.takeover_session_id = Some(args[i + 1].clone());
            if i + 2 >= n {
                assert(parsed_from(args@, i + 2, config) == Some(config));
                return Some(config);
            }
            i = i + 2;
        } else if str_eq(arg, "--canary") {
            config.canary_mode = true;
            i = i + 1;
        } else if str_eq(arg, "--help") || str_eq(arg, "-h") {
            return None;
        } else if str_eq(arg, "service") {
            return Some(config);
        } else {
            i = i + 1;
        }
    }
    Some(config)
}

/// Something that goes on beside the HTTP interface as long as the agent runs.
#[derive(Debug)]
pub enum BackgroundTask {
    /// Keep the alignment service running.
    Nfa,
    /// Serve SSH.
    Ssh,
    /// Keep the frp client running.
    Frp,
    /// Be a tunnel client, which takes a session over where one is named.
    Tunnel { takeover: Option<String> },
    /// Register with the mesh, and then keep in touch.
    Mesh,
    /// Look for updates.
    AutoUpdate,
    /// Send the log of the agent to the deploy center.
    LogReporter,
    /// Give up and forget what is too old.
    Cleanup,
}

/// The tasks that go on in this state.
pub open spec fn background_tasks_spec(
    state: AppState,
    takeover: Option<String>,
) -> Seq<Option<BackgroundTask>> {
    seq![
        if state.nfa is Some { Some(BackgroundTask::Nfa) } else { None },
        if state.config.ssh.enabled { Some(BackgroundTask::Ssh) } else { None },
        if state.frp is Some { Some(BackgroundTask::Frp) } else { None },
        if state.tunnel_mode == TunnelMode::Client {
            Some(BackgroundTask::Tunnel { takeover })
        } else {
            None
        },
        if state.mesh_client is Some { Some(BackgroundTask::Mesh) } else { None },
        if state.auto_update_config is Some { Some(BackgroundTask::AutoUpdate) } else { None },
        Some(BackgroundTask::LogReporter),
        Some(BackgroundTask::Cleanup),
    ]
}

/// The state with what the command line says: another port, and no updates in
/// a trial run.
pub open spec fn with_runtime(state: AppState, runtime: RuntimeConfig) -> AppState {
    AppState {
        config: EnvConfig {
            port: match runtime.port_override {
                Some(p) => p,
                None => state.config.port,
            },
            ..state.config
        },
        auto_update_config: if runtime.canary_mode {
            None
        } else {
            state.auto_update_config
        },
        ..state
    }
}

fn push_if(list: &mut Vec<BackgroundTask>, wanted: bool, task: BackgroundTask)
    ensures
        final(list)@ == if wanted {
            old(list)@.push(task)
        } else {
            old(list)@
        },
{
    if wanted {
        list.push(task);
    }
}

/// Starts the agent: applies what the command line says, and tells what goes
/// on beside the HTTP interface, in order.
pub fn run_agent_with_config(state: &mut AppState, runtime: &RuntimeConfig) -> (r: Vec<
    BackgroundTask,
>)
    ensures
        *final(state) == with_runtime(*old(state), *runtime),
        r@ == collections::keep_some(
            background_tasks_spec(*final(state), runtime.takeover_session_id),
        ),
{
    if let Some(p) = runtime.port_override {
        state.config.port = p;
    }
    if runtime.canary_mode {
        state.auto_update_config = None;
    }
    let ghost all = background_tasks_spec(*state, runtime.takeover_session_id);
    let mut r: Vec<BackgroundTask> = Vec::new();
    push_if(&mut r, state.nfa.is_some(), BackgroundTask::Nfa);
    push_if(&mut r, state.config.ssh.enabled, BackgroundTask::Ssh);
    push_if(&mut r, state.frp.is_some(), BackgroundTask::Frp);
    push_if(
        &mut r,
        state.tunnel_mode == TunnelMode::Client,
        BackgroundTask::Tunnel { takeover: runtime.takeover_session_id.clone() },
    );
    push_if(&mut r, state.mesh_client.is_some(), BackgroundTask::Mesh);
    push_if(&mut r, state.auto_update_config.is_some(), BackgroundTask::AutoUpdate);
    r.push(BackgroundTask::LogReporter);
    r.push(BackgroundTask::Cleanup);
    proof {
        assert(collections::keep_some(all.take(0)) =~= Seq::<BackgroundTask>::empty());
        collections::lemma_keep_some_step(all, 0);
        collections::lemma_keep_some_step(all, 1);
        collections::lemma_keep_some_step(all, 2);
        collections::lemma_keep_some_step(all, 3);
        collections::lemma_keep_some_step(all, 4);
        collections::lemma_keep_some_step(all, 5);
        collections::lemma_keep_some_step(all, 6);
        collections::lemma_keep_some_step(all, 7);
        assert(all.take(8) =~= all);
    }
    r
}

/// The address that the HTTP interface is served on.
pub fn listen_address(state: &AppState) -> (r: String)
    ensures
        r@ == "0.0.0.0:"@ + number::decimal_spec(state.config.port as nat),
{
    concat2("0.0.0.0:", decimal(state.config.port as u64).as_str())
}

/// The active tasks after the ones that are told of have failed at `now`.
pub open spec fn failed_tasks(
    active: Map<Seq<char>, DeployTask>,
    told: Seq<(Seq<char>, Seq<char>)>,
    now: Timestamp,
) -> Map<Seq<char>, DeployTask>
    decreases told.len(),
{
    if told.len() == 0 {
        active
    } else {
        let before = failed_tasks(active, told.drop_last(), now);
        let id = told.last().1;
        if before.dom().contains(id) {
            before.insert(
                id,
                TaskStore::with_status(before[id], DeployStatus::Failed, Some(EXIT_UNKNOWN), now),
            )
        } else {
            before
        }
    }
}

/// What a cleanup at `now` makes of the state: the deployments that waited too
/// long are given up and their tasks have failed; and every so often the tasks
/// and the logs that are too old are forgotten.
pub open spec fn cleaned_up(
    before: AppState,
    after: AppState,
    told: Seq<(Seq<char>, Seq<char>)>,
    count: u32,
    now: Timestamp,
) -> bool {
    let failed = failed_tasks(before.task_store.active(), told, now);
    &&& after == (AppState {
        task_store: after.task_store,
        log_hub: after.log_hub,
        deploy_queue: after.deploy_queue,
        ..before
    })
    &&& AppState::gave_up(before, after, told, QUEUE_TIMEOUT_SECS, now)
    &&& after.task_store.same_limits(&before.task_store)
    &&& if count % FULL_CLEANUP_EVERY == 0 {
        &&& after.task_store.active() == collections::kept(
            failed,
            |k: Seq<char>, t: DeployTask|
                task_store::is_kept(t, now, before.task_store.retention()),
        )
        &&& after.task_store.past() == before.task_store.past().filter(
            |t: DeployTask| task_store::is_recent(t, now, before.task_store.retention()),
        )
        &&& after.log_hub@ == before.log_hub.after_expiry(now, LOG_RETENTION_HOURS)
    } else {
        &&& after.task_store.active() == failed
        &&& after.task_store.past() == before.task_store.past()
        &&& after.log_hub == before.log_hub
    }
}

/// Cleans up at `now`, for the time after `count` others.
pub fn periodic_cleanup_at(state: &mut AppState, count: u32, now: Timestamp) -> (r: Vec<
    (String, String),
>)
    requires
        -MAX_RETENTION_HOURS <= old(state).task_store.retention() <= MAX_RETENTION_HOURS,
    ensures
        cleaned_up(*old(state), *final(state), chars::pairs(r@), count, now),
{
    let told = state.cleanup_expired_queue_items_at(QUEUE_TIMEOUT_SECS, now);
    let ghost all = chars::pairs(told@);
    let ghost middle = *state;
    let ghost queued = state.deploy_queue;
    let ghost start = old(state).task_store.active();
    let n = told.len();
    let mut i: usize = 0;
    assert(all.take(0) =~= Seq::empty());
    while i < n
        invariant
            n == told@.len(),
            i <= n,
            all == chars::pairs(told@),
            start == old(state).task_store.active(),
            *state == (AppState {
                task_store: state.task_store,
                deploy_queue: queued,
                ..*old(state)
            }),
            state.task_store.active() == failed_tasks(start, all.take(i as int), now),
            state.task_store.past() == old(state).task_store.past(),
            state.task_store.same_limits(&old(state).task_store),
        decreases n - i,
    {
        state.task_store.update_status_at(
            told[i].1.as_str(),
            DeployStatus::Failed,
            Some(EXIT_UNKNOWN),
            now,
        );
        proof {
            assert(all.take(i + 1).drop_last() =~= all.take(i as int));
            assert(all.take(i + 1).last() == (told@[i as int].0@, told@[i as int].1@));
        }
        i = i + 1;
    }
    assert(all.take(n as int) =~= all);
    if count % FULL_CLEANUP_EVERY == 0 {
        state.task_store.cleanup_stale_at(now);
        state.log_hub.cleanup_expired_at(LOG_RETENTION_HOURS, now);
    }
    proof {
        assert forall|p: Seq<char>| #[trigger] state.queue(p) == old(state).queue(p).filter(
            app_state::unexpired(now, QUEUE_TIMEOUT_SECS),
        ) by {
            assert(middle.queue(p) == state.queue(p));
        }
        assert(AppState::gave_up(*old(state), *state, all, QUEUE_TIMEOUT_SECS, now));
    }
    told
}

/// Cleans up now, for the time after `count` others.
pub fn periodic_cleanup(state: &mut AppState, count: u32) -> (r: Vec<(String, String)>)
    requires
        -MAX_RETENTION_HOURS <= old(state).task_store.retention() <= MAX_RETENTION_HOURS,
    ensures
        exists|now: Timestamp| #[trigger]
            cleaned_up(*old(state), *final(state), chars::pairs(r@), count, now),
{
    let now = Timestamp::now();
    let r = periodic_cleanup_at(state, count, now);
    assert(cleaned_up(*old(state), *state, chars::pairs(r@), count, now));
    r
}

/// A process that is started to take a session over does so: the arguments
/// that it is started with name the session.
pub proof fn takeover_arguments_are_read(args: Seq<String>)
    requires
        args.len() == 3,
        args[1]@ == "--takeover"@,
    ensures
        parsed_from(args, 1, RuntimeConfig::plain()) == Some(
            RuntimeConfig { takeover_session_id: Some(args[2]), ..RuntimeConfig::plain() },
        ),
{
    reveal_strlit("--takeover");
    reveal_strlit("--port");
    assert("--takeover"@.len() == 10 && "--port"@.len() == 6);
    reveal_with_fuel(parsed_from, 2);
}

/// A new binary that is started for a trial is in a trial run: it listens on
/// the port of the trial, and does not update itself.
pub proof fn trial_arguments_are_read(args: Seq<String>)
    requires
        args.len() == 4,
        chars::views(args.subrange(1, 4)) == seq![
            "--port"@,
            number::decimal_spec(CANARY_PORT as nat),
            "--canary"@,
        ],
    ensures
        parsed_from(args, 1, RuntimeConfig::plain()) == Some(
            RuntimeConfig {
                port_override: Some(CANARY_PORT),
                canary_mode: true,
                takeover_session_id: None,
            },
        ),
{
    let tail = args.subrange(1, 4);
    assert(chars::views(tail)[0] == tail[0]@);
    assert(chars::views(tail)[1] == tail[1]@);
    assert(chars::views(tail)[2] == tail[2]@);
    number::parse_of_decimal(CANARY_PORT as nat, u16::MAX as int);
    reveal_strlit("--canary");
    reveal_strlit("--takeover");
    reveal_strlit("--port");
    assert("--takeover"@.len() == 10 && "--port"@.len() == 6 && "--canary"@.len() == 8);
    reveal_with_fuel(parsed_from, 3);
}

/// A trial run does not update itself, whatever is configured.
pub proof fn canary_does_not_update(state: AppState, runtime: RuntimeConfig, i: int)
    requires
        runtime.canary_mode,
        0 <= i < 8,
    ensures
        with_runtime(state, runtime).auto_update_config is None,
        background_tasks_spec(
            with_runtime(state, runtime),
            runtime.takeover_session_id,
        )[i] != Some(BackgroundTask::AutoUpdate),
{
}

/// A task that is given up because it waited too long has failed, with the
/// exit code of an unknown failure, and it is over.
pub proof fn given_up_task_failed(
    active: Map<Seq<char>, DeployTask>,
    told: Seq<(Seq<char>, Seq<char>)>,
    now: Timestamp,
    i: int,
)
    requires
        0 <= i < told.len(),
        active.dom().contains(told[i].1),
    ensures
        ({
            let id = told[i].1;
            let after = failed_tasks(active, told, now);
            &&& after.dom().contains(id)
            &&& after[id].status == DeployStatus::Failed
            &&& after[id].exit_code == Some(EXIT_UNKNOWN)
            &&& after[id].finished_at == Some(now)
        }),
    decreases told.len(),
{
    lemma_failed_keeps_names(active, told.drop_last(), now);
    if i < told.len() - 1 {
        given_up_task_failed(active, told.drop_last(), now, i);
    }
}

proof fn lemma_failed_keeps_names(
    active: Map<Seq<char>, DeployTask>,
    told: Seq<(Seq<char>, Seq<char>)>,
    now: Timestamp,
)
    ensures
        failed_tasks(active, told, now).dom() == active.dom(),
    decreases told.len(),
{
    if told.len() > 0 {
        lemma_failed_keeps_names(active, told.drop_last(), now);
        assert(failed_tasks(active, told, now).dom() =~= active.dom());
    }
}

} // verus!
