//! What the state of the agent keeps: which deployment comes next, which tasks
//! are found and how long, and what a request for a deployment changes.

use vstd::prelude::*;

use crate::api::deploy::{
    full_queue, listed, queued, queues_bounded, quoted, started, still_runs, supersedes, task_of,
    TaskHistoryQuery, TriggerRequest,
};
use crate::domain::deploy::{DeployStage, DeployStatus, DeployTask, StageStatus};
use crate::state::app_state::{
    is_expired, position_of, queue_in, queued_of, AppState, QueuedDeploy, RunningDeploy,
};
use crate::state::log_hub::{unfinished, LogChannel, LogHub};
use crate::state::task_store::{first_named, is_recent, TaskStore};
use crate::text::chars;
use crate::time::Timestamp;

verus! {

/// The part of a filtered list is what satisfies the filter, and only that.
proof fn lemma_filter_contains<T>(s: Seq<T>, p: spec_fn(T) -> bool, x: T)
    ensures
        s.filter(p).contains(x) <==> s.contains(x) && p(x),
        s.filter(p).len() <= s.len(),
    decreases s.len(),
{
    reveal(Seq::filter);
    if s.len() > 0 {
        let rest = s.drop_last();
        lemma_filter_contains(rest, p, x);
        let f = rest.filter(p);
        if p(s.last()) {
            assert(s.filter(p) == f.push(s.last()));
            if s.filter(p).contains(x) {
                let i = choose|i: int| 0 <= i < f.push(s.last()).len() && f.push(s.last())[i] == x;
                if i < f.len() {
                    assert(f[i] == x);
                    let k = choose|k: int| 0 <= k < rest.len() && rest[k] == x;
                    assert(s[k] == x);
                } else {
                    assert(s[s.len() - 1] == x);
                }
            }
        } else {
            assert(s.filter(p) == f);
            if f.contains(x) {
                let k = choose|k: int| 0 <= k < rest.len() && rest[k] == x;
                assert(s[k] == x);
            }
        }
        if s.contains(x) && p(x) {
            let k = choose|k: int| 0 <= k < s.len() && s[k] == x;
            if k < rest.len() {
                assert(rest[k] == x);
                let i = choose|i: int| 0 <= i < f.len() && f[i] == x;
                assert(s.filter(p)[i] == x);
            } else {
                assert(s.filter(p)[f.len() as int] == x);
            }
        }
    }
}

/// The position of a task in a queue is 0 exactly where it does not wait there;
/// else it is the number of the first place that it has, counted from one.
pub proof fn position_counts_from_one(deploys: Seq<QueuedDeploy>, task_id: Seq<char>)
    ensures
        position_of(deploys, task_id) == 0 <==> forall|i: int|
            0 <= i < deploys.len() ==> (#[trigger] deploys[i]).task_id@ != task_id,
        position_of(deploys, task_id) > 0 ==> {
            let n = position_of(deploys, task_id) as int;
            &&& n <= deploys.len()
            &&& deploys[n - 1].task_id@ == task_id
            &&& forall|i: int| 0 <= i < n - 1 ==> (#[trigger] deploys[i]).task_id@ != task_id
        },
    decreases deploys.len(),
{
    if deploys.len() > 0 {
        let rest = deploys.drop_last();
        position_counts_from_one(rest, task_id);
        assert(forall|i: int| 0 <= i < rest.len() ==> rest[i] == #[trigger] deploys[i]);
        assert(deploys.last() == deploys[deploys.len() - 1]);
        if position_of(rest, task_id) > 0 {
            let n = position_of(rest, task_id) as int;
            assert(deploys[n - 1].task_id@ == task_id);
        }
    }
}

/// A deployment has waited too long once more whole seconds than the limit have
/// gone by since it began to wait.
pub proof fn waiting_is_counted_in_seconds(d: QueuedDeploy, now: Timestamp, limit: u64)
    requires
        limit <= i64::MAX,
    ensures
        is_expired(d, now, limit) <==> now.instant() - d.queued_at.instant() >= (limit + 1)
            * 1_000_000_000,
{
}

/// The number of waiting deployments is the sum over the queues.
pub proof fn queues_are_added_up(
    projects: Seq<Seq<char>>,
    queues: Map<Seq<char>, Vec<QueuedDeploy>>,
    p: Seq<char>,
)
    ensures
        queued_of(Seq::empty(), queues) == 0,
        queued_of(projects.push(p), queues) == queued_of(projects, queues) + queues[p]@.len(),
{
    assert(projects.push(p).drop_last() =~= projects);
}

/// The queue of a project is the one that is kept under its name, and empty where
/// none is.
pub proof fn queue_is_kept_by_project(
    state: AppState,
    queues: Map<Seq<char>, Vec<QueuedDeploy>>,
    p: Seq<char>,
)
    ensures
        queues.dom().contains(p) ==> queue_in(queues, p) == queues[p]@,
        !queues.dom().contains(p) ==> queue_in(queues, p).len() == 0,
        state.deploy_queue@.dom().contains(p) ==> state.queue(p) == state.deploy_queue@[p]@,
        !state.deploy_queue@.dom().contains(p) ==> state.queue(p).len() == 0,
{
}

/// A project or a task is named in quotes, and a full queue by its project.
pub proof fn names_stand_in_quotes(kind: Seq<char>, name: Seq<char>)
    ensures
        quoted(kind, name) == kind + " '"@ + name + "'"@,
        full_queue(name) == "Deployment queue for '"@ + name + "' is full (max 10)"@,
{
}

/// No queue is longer than ten.
pub proof fn ten_deployments_wait_at_most(state: AppState)
    ensures
        queues_bounded(state) <==> forall|p: Seq<char>| (#[trigger] state.queue(p)).len() <= 10,
{
}

/// Two stores have the same limits where each of the three is the same.
pub proof fn limits_are_three(a: TaskStore, b: TaskStore)
    ensures
        a.same_limits(&b) <==> a.history_limit() == b.history_limit() && a.active_limit()
            == b.active_limit() && a.retention() == b.retention(),
        a.wf() <==> a.past().len() <= a.history_limit(),
{
}

/// A task is looked for among the active ones, and then among the finished ones,
/// where the latest of its name counts.
pub proof fn task_is_looked_up(store: TaskStore, id: Seq<char>)
    ensures
        store.active().dom().contains(id) ==> store.lookup(id) == Some(store.active()[id]),
        !store.active().dom().contains(id) ==> {
            &&& store.lookup(id) is None <==> forall|i: int|
                0 <= i < store.past().len() ==> (#[trigger] store.past()[i]).id@ != id
            &&& store.lookup(id) matches Some(t) ==> exists|i: int|
                {
                    &&& 0 <= i < store.past().len()
                    &&& #[trigger] store.past()[i] == t
                    &&& t.id@ == id
                    &&& forall|j: int| 0 <= j < i ==> (#[trigger] store.past()[j]).id@ != id
                }
        },
{
    lemma_first_named(store.past(), id);
}

proof fn lemma_first_named(tasks: Seq<DeployTask>, id: Seq<char>)
    ensures
        first_named(tasks, id) is None <==> forall|i: int|
            0 <= i < tasks.len() ==> (#[trigger] tasks[i]).id@ != id,
        first_named(tasks, id) matches Some(t) ==> exists|i: int|
            {
                &&& 0 <= i < tasks.len()
                &&& #[trigger] tasks[i] == t
                &&& t.id@ == id
                &&& forall|j: int| 0 <= j < i ==> (#[trigger] tasks[j]).id@ != id
            },
    decreases tasks.len(),
{
    if tasks.len() > 0 && tasks[0].id@ != id {
        let rest = tasks.subrange(1, tasks.len() as int);
        lemma_first_named(rest, id);
        assert(forall|i: int| 0 <= i < rest.len() ==> #[trigger] rest[i] == tasks[i + 1]);
        assert(forall|i: int| 1 <= i < tasks.len() ==> #[trigger] tasks[i] == rest[i - 1]);
        if let Some(t) = first_named(rest, id) {
            let i = choose|i: int|
                {
                    &&& 0 <= i < rest.len()
                    &&& #[trigger] rest[i] == t
                    &&& t.id@ == id
                    &&& forall|j: int| 0 <= j < i ==> (#[trigger] rest[j]).id@ != id
                };
            assert(tasks[i + 1] == t);
            assert(forall|j: int| 0 <= j < i + 1 ==> (#[trigger] tasks[j]).id@ != id);
        }
    } else if tasks.len() > 0 {
        assert(tasks[0].id@ == id);
    }
}

/// A finished task carries its end: it keeps its name, its project, its start
/// and its stages, and has the status, the exit code and the time of its end.
/// It is no longer active, it stands first in the history, and the other tasks
/// stay as they are.
pub proof fn finished_task_moves_to_history(
    store: TaskStore,
    id: Seq<char>,
    status: DeployStatus,
    exit_code: Option<i32>,
    now: Timestamp,
    other: Seq<char>,
)
    requires
        other != id,
    ensures
        ({
            let (active, past) = store.after_finish(id, status, exit_code, now);
            &&& !store.active().dom().contains(id) ==> active == store.active() && past
                == store.past()
            &&& store.active().dom().contains(id) ==> {
                let t = store.active()[id];
                &&& !active.dom().contains(id)
                &&& store.history_limit() > 0 ==> past.len() > 0 && past[0].id == t.id
                    && past[0].project == t.project && past[0].started_at == t.started_at
                    && past[0].stages == t.stages && past[0].status == status && past[0].exit_code
                    == exit_code && past[0].finished_at == Some(now)
                &&& forall|i: int|
                    0 <= i < store.past().len() && i + 1 < store.history_limit() ==> past[i + 1]
                        == #[trigger] store.past()[i]
                &&& past.len() <= store.history_limit()
            }
            &&& active.dom().contains(other) <==> store.active().dom().contains(other)
            &&& active.dom().contains(other) ==> active[other] == store.active()[other]
        }),
{
}

/// A new status is that of its task alone; the time of the end is set by a
/// status that is an end, and by no other.
pub proof fn status_is_that_of_its_task(
    store: TaskStore,
    id: Seq<char>,
    status: DeployStatus,
    exit_code: Option<i32>,
    now: Timestamp,
    other: Seq<char>,
)
    requires
        other != id,
    ensures
        ({
            let active = store.status_updated(id, status, exit_code, now);
            &&& !store.active().dom().contains(id) ==> active == store.active()
            &&& store.active().dom().contains(id) ==> {
                let t = store.active()[id];
                &&& active.dom().contains(id)
                &&& active[id].status == status && active[id].exit_code == exit_code
                &&& active[id].id == t.id && active[id].project == t.project
                    && active[id].started_at == t.started_at && active[id].stages == t.stages
                &&& status == DeployStatus::Running ==> active[id].finished_at == t.finished_at
                &&& status != DeployStatus::Running ==> active[id].finished_at == Some(now)
            }
            &&& active.dom().contains(other) <==> store.active().dom().contains(other)
            &&& active.dom().contains(other) ==> active[other] == store.active()[other]
        }),
{
}

/// A task is removed exactly when it has ended and the hours for which it is
/// kept have gone by since; the history forgets a task after the same time.
pub proof fn old_tasks_are_forgotten(
    store: TaskStore,
    now: Timestamp,
    id: Seq<char>,
    t: DeployTask,
)
    ensures
        ({
            let (active, past) = store.after_cleanup(now);
            let ended_before = |u: DeployTask|
                u.finished_at is Some && now.instant() - u.finished_at->0.instant()
                    >= store.retention() * 3_600_000_000_000;
            &&& active.dom().contains(id) <==> store.active().dom().contains(id) && !(
            store.active()[id].status != DeployStatus::Running && ended_before(
                store.active()[id],
            ))
            &&& active.dom().contains(id) ==> active[id] == store.active()[id]
            &&& past.contains(t) <==> store.past().contains(t) && !ended_before(t)
        }),
{
    let recent = |t: DeployTask| is_recent(t, now, store.retention());
    lemma_filter_contains(store.past(), recent, t);
}

/// A list of tasks holds no more than was asked for. Each one in it is of the
/// project and of the status that were asked for, and is either active and
/// running or in the history; and where there is room, none of them is missing.
/// The active ones stand first.
pub proof fn list_is_as_asked_for(store: TaskStore, query: TaskHistoryQuery, t: DeployTask)
    ensures
        ({
            let l = listed(store, query);
            let wanted = (query.project is Some ==> t.project@ == query.project->0@) && (
            query.status is Some ==> t.status.name() == query.status->0@);
            let runs = t.status == DeployStatus::Running && exists|i: int|
                0 <= i < store.active_names().len() && store.active()[
                #[trigger] store.active_names()[i]] == t;
            &&& l.len() <= query.limit
            &&& l.contains(t) ==> wanted && (runs || store.past().contains(t))
            &&& l.len() < query.limit && wanted && (runs || store.past().contains(t))
                ==> l.contains(t)
        }),
{
    let names = store.active_names();
    let all = names.map_values(|n: Seq<char>| store.active()[n]);
    let asked = crate::api::deploy::asked_for(query);
    let a = all.filter(still_runs()).filter(asked);
    let b = store.past().filter(asked);
    let l = listed(store, query);
    lemma_filter_contains(all, still_runs(), t);
    lemma_filter_contains(all.filter(still_runs()), asked, t);
    lemma_filter_contains(store.past(), asked, t);
    if all.contains(t) {
        let i = choose|i: int| 0 <= i < all.len() && all[i] == t;
        assert(store.active()[names[i]] == t);
    }
    if exists|i: int| 0 <= i < names.len() && store.active()[#[trigger] names[i]] == t {
        let i = choose|i: int| 0 <= i < names.len() && store.active()[#[trigger] names[i]] == t;
        assert(all[i] == t);
    }
    if l.contains(t) {
        let i = choose|i: int| 0 <= i < l.len() && l[i] == t;
        assert((a + b)[i] == t);
        if i < a.len() {
            assert(a[i] == t);
        } else {
            assert(b[i - a.len()] == t);
        }
    }
    if a.contains(t) {
        let i = choose|i: int| 0 <= i < a.len() && a[i] == t;
        assert((a + b)[i] == t);
    }
    if b.contains(t) {
        let i = choose|i: int| 0 <= i < b.len() && b[i] == t;
        assert((a + b)[a.len() + i] == t);
    }
}

/// A log channel goes when it is finished and nobody reads it, and a finished
/// one goes in any case after its hours.
pub proof fn channels_go_when_finished(
    hub: LogHub,
    receivers: Seq<usize>,
    now: Timestamp,
    hours: i64,
    id: Seq<char>,
)
    requires
        0 < hours,
    ensures
        hub.after_expiry(now, hours).dom().contains(id) <==> hub@.dom().contains(id) && !(
        hub@[id].finished && now.instant() - hub@[id].created_at.instant() >= hours
            * 3_600_000_000_000),
        hub.after_expiry(now, hours).dom().contains(id) ==> hub.after_expiry(now, hours)[id]
            == hub@[id],
        hub.after_cleanup(receivers).dom().contains(id) <==> hub@.dom().contains(id) && !(
        hub@[id].finished && receivers[hub.names().index_of(id)] == 0),
        hub.after_cleanup(receivers).dom().contains(id) ==> hub.after_cleanup(receivers)[id]
            == hub@[id],
{
}

/// The active channels are counted one by one.
pub proof fn unfinished_channels_are_counted(
    keys: Seq<Seq<char>>,
    channels: Map<Seq<char>, LogChannel>,
    k: Seq<char>,
)
    ensures
        unfinished(Seq::empty(), channels) == 0,
        channels[k].finished ==> unfinished(keys.push(k), channels) == unfinished(keys, channels),
        !channels[k].finished ==> unfinished(keys.push(k), channels) == unfinished(keys, channels)
            + 1,
{
    assert(keys.push(k).drop_last() =~= keys);
}

/// A deployment has the identifier that was asked for, or else the fresh one.
pub proof fn given_identifier_counts(request: TriggerRequest, fresh: Seq<char>)
    ensures
        request.deploy_log_id is Some ==> task_of(request, fresh) == request.deploy_log_id->0@,
        request.deploy_log_id is None ==> task_of(request, fresh) == fresh,
{
}

/// The running deployment is told to stop exactly where the request names a
/// commit that is not the one being deployed.
pub proof fn other_commit_supersedes(request: TriggerRequest, running: RunningDeploy)
    ensures
        request.commit_hash is None ==> !supersedes(request, running),
        request.commit_hash is Some && running.commit_hash is None ==> supersedes(request, running),
        request.commit_hash is Some && running.commit_hash is Some ==> (supersedes(
            request,
            running,
        ) <==> request.commit_hash->0@ != running.commit_hash->0@),
{
}

/// A deployment that starts is a new running task of its project, with a log of
/// its own, and the project runs it, with its commit. No queue and no other
/// project or task is touched.
pub proof fn started_deployment_runs(
    before: AppState,
    after: AppState,
    project: Seq<char>,
    request: TriggerRequest,
    id: Seq<char>,
    now: Timestamp,
    other: Seq<char>,
)
    requires
        started(before, after, project, request, id, now),
    ensures
        after.running_deploys@.dom().contains(project),
        after.running_deploys@[project].task_id@ == id,
        after.running_deploys@[project].commit_hash == request.commit_hash,
        !after.running_deploys@[project].cancelled,
        after.task_store.active().dom().contains(id),
        after.task_store.active()[id].id@ == id,
        after.task_store.active()[id].project@ == project,
        after.task_store.active()[id].status == DeployStatus::Running,
        after.task_store.active()[id].started_at == now,
        after.task_store.active()[id].finished_at is None,
        after.task_store.active()[id].exit_code is None,
        after.task_store.past() == before.task_store.past(),
        after.log_hub@.dom().contains(id),
        !before.log_hub@.dom().contains(id) ==> !after.log_hub@[id].finished,
        after.deploy_queue == before.deploy_queue,
        after.projects == before.projects,
        after.config == before.config,
        other != project ==> (after.running_deploys@.dom().contains(other)
            <==> before.running_deploys@.dom().contains(other)) && (
        before.running_deploys@.dom().contains(other) ==> after.running_deploys@[other]
            == before.running_deploys@[other]),
        other != id && before.task_store.active().dom().contains(other)
            ==> after.task_store.active().dom().contains(other) && after.task_store.active()[other]
            == before.task_store.active()[other],
        other != id && before.log_hub@.dom().contains(other) ==> after.log_hub@.dom().contains(
            other,
        ) && after.log_hub@[other] == before.log_hub@[other],
{
}

/// A deployment that has to wait is a new task of its project and stands last in
/// its queue, with its configuration and its request; the running one goes on,
/// told to stop where it is superseded. No other queue is touched.
pub proof fn queued_deployment_waits(
    before: AppState,
    after: AppState,
    project: Seq<char>,
    config: crate::config::project::ProjectConfig,
    request: TriggerRequest,
    id: Seq<char>,
    now: Timestamp,
    other: Seq<char>,
    i: int,
)
    requires
        queued(before, after, project, config, request, id, now),
        before.running_deploys@.dom().contains(project),
    ensures
        after.queue(project).len() == before.queue(project).len() + 1,
        after.queue(project).last().task_id@ == id,
        after.queue(project).last().project_config == config,
        after.queue(project).last().request == request,
        after.queue(project).last().queued_at == now,
        0 <= i < before.queue(project).len() ==> after.queue(project)[i] == before.queue(
            project,
        )[i],
        other != project ==> after.queue(other) == before.queue(other),
        after.task_store.active().dom().contains(id),
        after.task_store.active()[id].project@ == project,
        after.task_store.active()[id].status == DeployStatus::Running,
        after.task_store.past() == before.task_store.past(),
        after.log_hub == before.log_hub,
        after.running_deploys@.dom() == before.running_deploys@.dom(),
        after.running_deploys@[project].task_id == before.running_deploys@[project].task_id,
        after.running_deploys@[project].commit_hash == before.running_deploys@[project].commit_hash,
        after.running_deploys@[project].cancelled == (supersedes(
            request,
            before.running_deploys@[project],
        ) || before.running_deploys@[project].cancelled),
        other != project && before.running_deploys@.dom().contains(other)
            ==> after.running_deploys@[other] == before.running_deploys@[other],
{
    if 0 <= i < before.queue(project).len() {
        assert(after.queue(project).drop_last()[i] == after.queue(project)[i]);
    }
    assert(after.running_deploys@.dom() =~= before.running_deploys@.dom());
}

/// A stage that has ended took the whole milliseconds between its start and its
/// end, and is a success exactly where it succeeded; one that was passed over
/// has no times of its own.
pub proof fn stage_takes_its_time(
    s: DeployStage,
    begun: Timestamp,
    ended: Timestamp,
    success: bool,
    message: Option<String>,
)
    requires
        0 <= ended.instant() - begun.instant() < i64::MAX,
    ensures
        ({
            let f = s.started(begun).finished(ended, success, message);
            &&& s.started(begun).status == StageStatus::Running
            &&& s.started(begun).started_at == Some(begun)
            &&& f.started_at == Some(begun) && f.finished_at == Some(ended)
            &&& f.message == message && f.name == s.name && f.display_name == s.display_name
            &&& f.status == StageStatus::Success <==> success
            &&& f.status == StageStatus::Failed <==> !success
            &&& f.duration_ms matches Some(ms) && ms * 1_000_000 <= ended.instant()
                - begun.instant() < (ms + 1) * 1_000_000
            &&& f@ == s@.started(begun).finished(ended, success, chars::opt_view(message))
        }),
        s.started_at is None ==> s.finished(ended, success, message).duration_ms == s.duration_ms,
{
}

/// The three states of a task have their names, and all but running are ends.
pub proof fn states_have_their_names(s: DeployStatus)
    ensures
        s.terminal() <==> s != DeployStatus::Running,
        s.name() == "running"@ <==> s == DeployStatus::Running,
        s.name() == "success"@ <==> s == DeployStatus::Success,
        s.name() == "failed"@ <==> s == DeployStatus::Failed,
{
    reveal_strlit("running");
    reveal_strlit("success");
    reveal_strlit("failed");
    assert("running"@[0] == 'r' && "success"@[0] == 's' && "failed"@[0] == 'f');
}

} // verus!
