//! Requests to deploy, and questions about deployments.

use vstd::prelude::*;

use crate::collections;
use crate::config::env::MAX_QUEUE_SIZE;
use crate::config::project::{ProjectConfig, RemoteAgentConfig};
use crate::domain::deploy::{DeployTask, DeployType, LogLine};
use crate::error::{ApiError, ApiResult};
use crate::infra::ids::new_id;
use crate::state::app_state::{AppState, QueuedDeploy, RunningDeploy};
use crate::state::log_hub;
use crate::state::task_store;
use crate::state::task_store::matches_filter;
use crate::text::chars;
use crate::text::chars::{concat3, str_eq};
use crate::time::Timestamp;

verus! {

/// A request to deploy a project.
#[derive(Debug)]
pub struct TriggerRequest {
    /// The identifier that the deploy center gave the deployment.
    pub deploy_log_id: Option<String>,
    pub commit_hash: Option<String>,
    pub branch: Option<String>,
}

/// The answer to a request to deploy.
#[derive(Debug)]
pub struct TriggerResponse {
    pub task_id: String,
    pub project: String,
    /// "running" or "queued".
    pub status: String,
    /// The position in the queue, counted from one, where the deployment
    /// waits.
    pub queue_position: Option<usize>,
    /// Where the log can be followed; empty where the deployment waits.
    pub stream_url: String,
}

/// Which tasks to list.
#[derive(Debug)]
pub struct TaskHistoryQuery {
    pub limit: usize,
    pub project: Option<String>,
    pub status: Option<String>,
}

/// How many tasks are listed where the request does not say.
pub fn default_limit() -> (r: usize)
    ensures
        r == 20,
{
    20
}

/// The tasks that were asked for.
pub struct TaskHistoryResponse<'a> {
    pub tasks: Vec<&'a DeployTask>,
    pub total: usize,
}

/// The deployments of a project.
#[derive(Debug)]
pub struct QueueStatusResponse {
    pub project: String,
    pub running_task_id: Option<String>,
    pub queue_length: usize,
}

/// The configuration of a project.
#[derive(Debug)]
pub struct ProjectConfigResponse {
    pub name: String,
    pub work_dir: String,
    pub deploy_type: String,
    pub config: DeployType,
}

/// "Project" or "Task" with the name in quotes.
pub open spec fn quoted(kind: Seq<char>, name: Seq<char>) -> Seq<char> {
    kind + " '"@ + name + "'"@
}

fn project_label(name: &str) -> (r: String)
    ensures
        r@ == quoted("Project"@, name@),
{
    proof {
        reveal_strlit("Project '");
        reveal_strlit("Project");
        reveal_strlit(" '");
        assert("Project"@ + " '"@ =~= "Project '"@);
    }
    concat3("Project '", name, "'")
}

fn task_label(name: &str) -> (r: String)
    ensures
        r@ == quoted("Task"@, name@),
{
    proof {
        reveal_strlit("Task '");
        reveal_strlit("Task");
        reveal_strlit(" '");
        assert("Task"@ + " '"@ =~= "Task '"@);
    }
    concat3("Task '", name, "'")
}

/// The configuration of the project to deploy: the local one, or else the one
/// that the deploy center describes, which is `remote` where it knows the
/// project.
pub fn resolve_project(state: &AppState, project: &str, remote: Option<&RemoteAgentConfig>) -> (r:
    ApiResult<ProjectConfig>)
    ensures
        state.projects@.dom().contains(project@) ==> r == Ok::<ProjectConfig, ApiError>(
            state.projects@[project@],
        ),
        !state.projects@.dom().contains(project@) ==> match remote {
            None => r is Err && r->Err_0 is NotFound && r->Err_0.parts().1 == quoted(
                "Project"@,
                project@,
            ),
            Some(c) => match c.project_spec() {
                Some(p) => r is Ok && r->Ok_0@ == p,
                None => r is Err && r->Err_0 is BadRequest && r->Err_0.parts().1
                    == "Invalid remote config: missing required fields"@,
            },
        },
{
    if let Some(config) = state.get_project(project) {
        return Ok(config.clone());
    }
    match remote {
        None => Err(ApiError::not_found(project_label(project).as_str())),
        Some(c) => match c.to_project_config() {
            Some(p) => Ok(p),
            None => Err(
                ApiError::bad_request("Invalid remote config: missing required fields"),
            ),
        },
    }
}

/// What a request to deploy led to: the answer, and, where the deployment has
/// its turn at once, what it begins with.
#[derive(Debug)]
pub struct Triggered {
    pub response: TriggerResponse,
    pub start: Option<(ProjectConfig, TriggerRequest)>,
    /// Whether the deployment of the project that runs has been told to stop.
    pub supersedes: bool,
}

/// The name of the task of a request: the one that the deploy center gave it,
/// or else a new one.
pub open spec fn task_of(request: TriggerRequest, fresh_id: Seq<char>) -> Seq<char> {
    match request.deploy_log_id {
        Some(id) => id@,
        None => fresh_id,
    }
}

/// The refusal of a deployment whose queue is full.
pub open spec fn full_queue(project: Seq<char>) -> Seq<char> {
    "Deployment queue for '"@ + project + "' is full (max 10)"@
}

/// The tasks after one more has come.
pub open spec fn with_new_task(
    before: task_store::TaskStore,
    after: task_store::TaskStore,
    id: Seq<char>,
    project: Seq<char>,
    now: Timestamp,
) -> bool {
    &&& after.active() == before.active().insert(id, after.active()[id])
    &&& after.active()[id].is_new(id, project, now)
    &&& after.past() == before.past()
    &&& after.same_limits(&before)
}

/// A deployment has its turn at once: its task is active, it is the one of
/// its project that runs, and its log has a channel. Nothing else changes.
pub open spec fn started(
    before: AppState,
    after: AppState,
    project: Seq<char>,
    request: TriggerRequest,
    id: Seq<char>,
    now: Timestamp,
) -> bool {
    &&& after == (AppState {
        task_store: after.task_store,
        running_deploys: after.running_deploys,
        log_hub: after.log_hub,
        ..before
    })
    &&& with_new_task(before.task_store, after.task_store, id, project, now)
    &&& after.running_deploys@ == before.running_deploys@.insert(
        project,
        after.running_deploys@[project],
    )
    &&& after.running_deploys@[project].task_id@ == id
    &&& after.running_deploys@[project].commit_hash == request.commit_hash
    &&& !after.running_deploys@[project].cancelled
    &&& if before.log_hub@.dom().contains(id) {
        after.log_hub@ == before.log_hub@
    } else {
        &&& after.log_hub@ == before.log_hub@.insert(id, after.log_hub@[id])
        &&& !after.log_hub@[id].finished
    }
}

/// A request brings another commit than the one that is being deployed.
pub open spec fn supersedes(request: TriggerRequest, running: RunningDeploy) -> bool {
    request.commit_hash matches Some(new) && chars::opt_view(running.commit_hash) != Some(new@)
}

fn brings_new_commit(request: &TriggerRequest, running: &Option<String>) -> (r: bool)
    ensures
        r == (request.commit_hash matches Some(new) && chars::opt_view(*running) != Some(new@)),
{
    match (&request.commit_hash, running) {
        (Some(new), Some(old_hash)) => !str_eq(new.as_str(), old_hash.as_str()),
        (Some(_), None) => true,
        (None, _) => false,
    }
}

/// A deployment waits: its task is active, and it stands last in the queue of
/// its project. Where it brings another commit, the deployment that runs is
/// told to stop. Nothing else changes.
pub open spec fn queued(
    before: AppState,
    after: AppState,
    project: Seq<char>,
    config: ProjectConfig,
    request: TriggerRequest,
    id: Seq<char>,
    now: Timestamp,
) -> bool {
    &&& after == (AppState {
        task_store: after.task_store,
        deploy_queue: after.deploy_queue,
        running_deploys: after.running_deploys,
        ..before
    })
    &&& with_new_task(before.task_store, after.task_store, id, project, now)
    &&& after.running_deploys@ == if supersedes(request, before.running_deploys@[project]) {
        before.running_deploys@.insert(
            project,
            RunningDeploy { cancelled: true, ..before.running_deploys@[project] },
        )
    } else {
        before.running_deploys@
    }
    &&& after.queue(project).len() == before.queue(project).len() + 1
    &&& after.queue(project).drop_last() == before.queue(project)
    &&& after.queue(project).last().task_id@ == id
    &&& after.queue(project).last().project_config == config
    &&& after.queue(project).last().request == request
    &&& after.queue(project).last().queued_at == now
    &&& forall|p: Seq<char>| p != project ==> #[trigger] after.queue(p) == before.queue(p)
}

/// Takes a request, at `now`, to deploy a project with this configuration: it
/// begins at once where no deployment of the project runs, it waits where one
/// does, and it is refused where as many wait as may, and while the agent is
/// being updated. A request that waits and brings another commit stops the
/// deployment that runs.
pub fn trigger_deploy_at(
    state: &mut AppState,
    project: &str,
    config: ProjectConfig,
    request: TriggerRequest,
    fresh_id: String,
    now: Timestamp,
) -> (r: ApiResult<Triggered>)
    ensures
        ({
            let id = task_of(request, fresh_id@);
            let running = old(state).running_deploys@.dom().contains(project@);
            let waiting = old(state).queue(project@).len();
            if old(state).auto_update_state.update_in_progress {
                &&& r matches Err(e)
                &&& e is ServiceUnavailable
                &&& e.parts().1 == "Agent update in progress"@
                &&& *final(state) == *old(state)
            } else if !running {
                &&& r matches Ok(t)
                &&& t.response.task_id@ == id
                &&& t.response.project@ == project@
                &&& t.response.status@ == "running"@
                &&& t.response.queue_position is None
                &&& t.response.stream_url@ == "/logs/"@ + id + "/stream"@
                &&& t.start == Some((config, request))
                &&& !t.supersedes
                &&& started(*old(state), *final(state), project@, request, id, now)
            } else if waiting >= MAX_QUEUE_SIZE {
                &&& r matches Err(e)
                &&& e is Conflict
                &&& e.parts().1 == full_queue(project@)
                &&& *final(state) == *old(state)
            } else {
                &&& r matches Ok(t)
                &&& t.response.task_id@ == id
                &&& t.response.project@ == project@
                &&& t.response.status@ == "queued"@
                &&& t.response.queue_position == Some((waiting + 1) as usize)
                &&& t.response.stream_url@ == ""@
                &&& t.start is None
                &&& t.supersedes == supersedes(request, old(state).running_deploys@[project@])
                &&& queued(*old(state), *final(state), project@, config, request, id, now)
            }
        }),
{
    let id = match &request.deploy_log_id {
        Some(id) => id.clone(),
        None => fresh_id,
    };
    if state.auto_update_state.is_update_in_progress() {
        return Err(ApiError::service_unavailable("Agent update in progress"));
    }
    if state.has_running_deploy(project) {
        if state.get_queue_length(project) >= MAX_QUEUE_SIZE {
            return Err(
                ApiError::conflict(
                    concat3("Deployment queue for '", project, "' is full (max 10)").as_str(),
                ),
            );
        }
        let supersedes = match state.running_deploys.get(project) {
            Some(running) => brings_new_commit(&request, &running.commit_hash),
            None => false,
        };
        if supersedes {
            state.cancel_deploy(project);
        }
        let task = DeployTask::new_queued_at(id.clone(), project.to_owned(), now);
        state.task_store.create(task);
        let ghost middle = *state;
        let deploy = QueuedDeploy {
            task_id: id.clone(),
            project_config: config,
            request,
            queued_at: now,
        };
        let position = state.enqueue_deploy(project, deploy);
        proof {
            assert(state.queue(project@).drop_last() =~= old(state).queue(project@));
            assert forall|p: Seq<char>| p != project@ implies #[trigger] state.queue(p) == old(
                state,
            ).queue(p) by {
                assert(state.queue(p) == middle.queue(p));
            }
        }
        return Ok(
            Triggered {
                response: TriggerResponse {
                    task_id: id,
                    project: project.to_owned(),
                    status: "queued".to_owned(),
                    queue_position: Some(position),
                    stream_url: "".to_owned(),
                },
                start: None,
                supersedes,
            },
        );
    }
    let task = DeployTask::new_at(id.clone(), project.to_owned(), now);
    state.task_store.create(task);
    let _sender = state.log_hub.create(id.as_str());
    state.register_running_commit(project, id.as_str(), request.commit_hash.clone());
    let stream_url = concat3("/logs/", id.as_str(), "/stream");
    Ok(
        Triggered {
            response: TriggerResponse {
                task_id: id,
                project: project.to_owned(),
                status: "running".to_owned(),
                queue_position: None,
                stream_url,
            },
            start: Some((config, request)),
            supersedes: false,
        },
    )
}

/// Takes a request now. Where the deploy center gave no identifier, the task
/// has a new name of 36 characters.
pub fn trigger_deploy(
    state: &mut AppState,
    project: &str,
    config: ProjectConfig,
    request: TriggerRequest,
) -> (r: ApiResult<Triggered>)
    ensures
        r is Err <==> old(state).auto_update_state.update_in_progress || (old(
            state,
        ).running_deploys@.dom().contains(project@) && old(state).queue(project@).len()
            >= MAX_QUEUE_SIZE),
        r matches Err(e) ==> *final(state) == *old(state) && if old(
            state,
        ).auto_update_state.update_in_progress {
            e is ServiceUnavailable && e.parts().1 == "Agent update in progress"@
        } else {
            e is Conflict && e.parts().1 == full_queue(project@)
        },
        r matches Ok(t) ==> {
            let id = t.response.task_id@;
            &&& request.deploy_log_id matches Some(given) ==> id == given@
            &&& request.deploy_log_id is None ==> id.len() == 36
            &&& t.response.project@ == project@
            &&& t.start is Some <==> !old(state).running_deploys@.dom().contains(project@)
            &&& t.start matches Some(s) ==> {
                &&& s == (config, request)
                &&& t.response.status@ == "running"@
                &&& t.response.queue_position is None
                &&& t.response.stream_url@ == "/logs/"@ + id + "/stream"@
                &&& exists|now: Timestamp| #[trigger]
                    started(*old(state), *final(state), project@, request, id, now)
                &&& !t.supersedes
            }
            &&& t.start is None ==> {
                &&& t.response.status@ == "queued"@
                &&& t.response.queue_position == Some(
                    (old(state).queue(project@).len() + 1) as usize,
                )
                &&& t.response.stream_url@ == ""@
                &&& t.supersedes == supersedes(request, old(state).running_deploys@[project@])
                &&& exists|now: Timestamp| #[trigger]
                    queued(*old(state), *final(state), project@, config, request, id, now)
            }
        },
{
    let fresh_id = new_id();
    let now = Timestamp::now();
    trigger_deploy_at(state, project, config, request, fresh_id, now)
}

/// The task that was asked for, active or finished.
pub fn get_task_status<'a>(state: &'a AppState, task_id: &str) -> (r: ApiResult<&'a DeployTask>)
    ensures
        match state.task_store.lookup(task_id@) {
            Some(t) => r is Ok && *r->Ok_0 == t,
            None => r is Err && r->Err_0 is NotFound && r->Err_0.parts().1 == quoted(
                "Task"@,
                task_id@,
            ),
        },
{
    match state.task_store.get_any(task_id) {
        Some(t) => Ok(t),
        None => Err(ApiError::not_found(task_label(task_id).as_str())),
    }
}

/// The active tasks, in the order in which they came.
pub open spec fn active_tasks(store: task_store::TaskStore) -> Seq<DeployTask> {
    store.active_names().map_values(|n: Seq<char>| store.active()[n])
}

/// The test that a request for tasks makes of each.
pub open spec fn asked_for(query: TaskHistoryQuery) -> spec_fn(DeployTask) -> bool {
    |t: DeployTask|
        task_store::task_matches(t, chars::opt_view(query.project), chars::opt_view(query.status))
}

/// The tasks that still run.
pub open spec fn still_runs() -> spec_fn(DeployTask) -> bool {
    |t: DeployTask| !t.status.terminal()
}

/// The tasks to list: the active ones that still run and then the finished
/// ones, the latest first, as far as they match, up to the limit.
pub open spec fn listed(store: task_store::TaskStore, query: TaskHistoryQuery) -> Seq<DeployTask> {
    task_store::at_most(
        active_tasks(store).filter(still_runs()).filter(asked_for(query)) + store.past().filter(
            asked_for(query),
        ),
        query.limit as int,
    )
}

fn as_str_opt(o: &Option<String>) -> (r: Option<&str>)
    ensures
        task_store::opt_str_view(r) == chars::opt_view(*o),
{
    match o {
        Some(s) => Some(s.as_str()),
        None => None,
    }
}

/// The tasks that were asked for.
pub fn get_recent_tasks<'a>(state: &'a AppState, query: &TaskHistoryQuery) -> (r:
    TaskHistoryResponse<'a>)
    ensures
        task_store::referents(r.tasks@) == listed(state.task_store, *query),
        r.total == r.tasks@.len(),
{
    let project = as_str_opt(&query.project);
    let status = as_str_opt(&query.status);
    let active = state.task_store.get_all();
    let ghost all = active_tasks(state.task_store);
    let ghost p = asked_for(*query);
    let ghost live = still_runs();
    let n = active.len();
    let mut tasks: Vec<&'a DeployTask> = Vec::new();
    let mut i: usize = 0;
    proof {
        reveal(Seq::filter);
        assert(task_store::referents(tasks@) =~= all.take(0).filter(live).filter(p));
    }
    while i < n
        invariant
            n == active@.len(),
            n == all.len(),
            i <= n,
            p == asked_for(*query),
            live == still_runs(),
            task_store::opt_str_view(project) == chars::opt_view(query.project),
            task_store::opt_str_view(status) == chars::opt_view(query.status),
            forall|j: int| 0 <= j < n ==> *(#[trigger] active@[j]) == all[j],
            task_store::referents(tasks@) == all.take(i as int).filter(live).filter(p),
        decreases n - i,
    {
        let task = active[i];
        proof {
            assert(*task == all[i as int]);
            collections::lemma_filter_step(all, live, i as int);
            if live(*task) {
                lemma_filter_push(all.take(i as int).filter(live), *task, p);
            }
        }
        if !task.status.is_terminal() && matches_filter(task, project, status) {
            let ghost before = tasks@;
            tasks.push(task);
            assert(task_store::referents(tasks@) =~= task_store::referents(before).push(*task));
        }
        i = i + 1;
    }
    assert(all.take(n as int) =~= all);
    let ghost first = tasks@;
    let mut history = state.task_store.get_history(query.limit, project, status);
    let ghost past = history@;
    tasks.append(&mut history);
    proof {
        let running = task_store::referents(first);
        let finished = state.task_store.past().filter(p);
        let shown = task_store::referents(past);
        assert(p =~= |t: DeployTask|
            task_store::task_matches(
                t,
                task_store::opt_str_view(project),
                task_store::opt_str_view(status),
            ));
        assert(shown == task_store::at_most(finished, query.limit as int));
        assert(task_store::referents(tasks@) =~= running + shown);
        assert(task_store::at_most(running + shown, query.limit as int) =~= task_store::at_most(
            running + finished,
            query.limit as int,
        ));
    }
    if tasks.len() > query.limit {
        let ghost whole = tasks@;
        tasks.truncate(query.limit);
        assert(task_store::referents(tasks@) =~= task_store::referents(whole).take(
            query.limit as int,
        ));
    }
    let total = tasks.len();
    TaskHistoryResponse { tasks, total }
}

proof fn lemma_filter_push<T>(s: Seq<T>, x: T, p: spec_fn(T) -> bool)
    ensures
        s.push(x).filter(p) == if p(x) {
            s.filter(p).push(x)
        } else {
            s.filter(p)
        },
{
    reveal(Seq::filter);
    assert(s.push(x).drop_last() =~= s);
}

/// A receiver of the lines of a task's log, as long as more may come.
pub fn stream_logs(state: &AppState, task_id: &str) -> (r: ApiResult<
    tokio::sync::broadcast::Receiver<LogLine>,
>)
    ensures
        r is Ok <==> state.log_hub@.dom().contains(task_id@)
            && !state.log_hub@[task_id@].finished,
        r matches Ok(rx) ==> log_hub::heard_channel(rx) == state.log_hub@[task_id@].sender,
        r matches Err(e) ==> e is NotFound && e.parts().1 == quoted("Task"@, task_id@)
            + " not found or already completed"@,
{
    match state.log_hub.subscribe(task_id) {
        Some(rx) => Ok(rx),
        None => {
            let mut text = task_label(task_id);
            text.append(" not found or already completed");
            Err(ApiError::not_found(text.as_str()))
        },
    }
}

/// What the last message of a task's log says: the state of the task and its
/// exit code, where the task is still active.
pub fn completion(state: &AppState, task_id: &str) -> (r: Option<(&'static str, Option<i32>)>)
    ensures
        r is Some <==> state.task_store.active().dom().contains(task_id@),
        r matches Some(c) ==> c.0@ == state.task_store.active()[task_id@].status.name() && c.1
            == state.task_store.active()[task_id@].exit_code,
{
    match state.task_store.get(task_id) {
        Some(t) => Some((t.status.as_str(), t.exit_code)),
        None => None,
    }
}

/// The configuration of a project: the local one, or else the one that the
/// deploy center describes, which is `remote` where it knows the project.
pub fn get_project_config(state: &AppState, name: &str, remote: Option<&RemoteAgentConfig>) -> (r:
    ApiResult<ProjectConfigResponse>)
    ensures
        ({
            let found = if state.projects@.dom().contains(name@) {
                Some(state.projects@[name@]@)
            } else {
                match remote {
                    Some(c) => c.project_spec(),
                    None => None,
                }
            };
            match found {
                Some(p) => {
                    &&& r matches Ok(c)
                    &&& c.name@ == name@
                    &&& c.work_dir@ == p.work_dir
                    &&& c.deploy_type@ == c.config.kind_name()
                    &&& c.config@ == p.deploy_type
                },
                None => {
                    &&& r matches Err(e)
                    &&& e is NotFound
                    &&& e.parts().1 == quoted("Project"@, name@)
                },
            }
        }),
{
    let found = match state.get_project(name) {
        Some(config) => Some(config.clone()),
        None => match remote {
            Some(c) => c.to_project_config(),
            None => None,
        },
    };
    match found {
        Some(p) => Ok(
            ProjectConfigResponse {
                name: name.to_owned(),
                work_dir: p.work_dir,
                deploy_type: p.deploy_type.name().to_owned(),
                config: p.deploy_type,
            },
        ),
        None => Err(ApiError::not_found(project_label(name).as_str())),
    }
}

/// The deployments of a project: the one that runs, and how many wait.
pub fn get_queue_status(state: &AppState, project: &str) -> (r: QueueStatusResponse)
    ensures
        r.project@ == project@,
        r.running_task_id == if state.running_deploys@.dom().contains(project@) {
            Some(state.running_deploys@[project@].task_id)
        } else {
            None
        },
        r.queue_length == state.queue(project@).len(),
{
    QueueStatusResponse {
        project: project.to_owned(),
        running_task_id: state.get_running_deploy_task_id(project),
        queue_length: state.get_queue_length(project),
    }
}

/// Every queue is within the limit.
pub open spec fn queues_bounded(state: AppState) -> bool {
    forall|p: Seq<char>| (#[trigger] state.queue(p)).len() <= MAX_QUEUE_SIZE
}

/// No request makes a queue longer than the limit.
pub proof fn requests_keep_queues_bounded(
    before: AppState,
    after: AppState,
    project: Seq<char>,
    config: ProjectConfig,
    request: TriggerRequest,
    id: Seq<char>,
    now: Timestamp,
)
    requires
        queues_bounded(before),
        started(before, after, project, request, id, now) || (before.queue(project).len() < MAX_QUEUE_SIZE
            && queued(before, after, project, config, request, id, now)),
    ensures
        queues_bounded(after),
{
    assert forall|p: Seq<char>| (#[trigger] after.queue(p)).len() <= MAX_QUEUE_SIZE by {
        assert(before.queue(p).len() <= MAX_QUEUE_SIZE);
    }
}

/// A deployment that begins takes its project: the next request for the same
/// project does not begin, whatever it asks for. Other projects are as they
/// were.
pub proof fn one_deployment_at_a_time(
    before: AppState,
    after: AppState,
    project: Seq<char>,
    request: TriggerRequest,
    id: Seq<char>,
    now: Timestamp,
    other: Seq<char>,
)
    requires
        started(before, after, project, request, id, now),
    ensures
        after.running_deploys@.dom().contains(project),
        other != project ==> after.running_deploys@.dom().contains(other)
            == before.running_deploys@.dom().contains(other),
        after.queue(other) == before.queue(other),
{
}

/// A new commit cancels the old build: where it has to wait, the deployment of
/// the project that runs is told to stop, and no other is. One that deploys the
/// same commit already goes on.
pub proof fn new_commit_cancels_old_build(
    before: AppState,
    after: AppState,
    project: Seq<char>,
    config: ProjectConfig,
    request: TriggerRequest,
    id: Seq<char>,
    now: Timestamp,
    other: Seq<char>,
)
    requires
        before.running_deploys@.dom().contains(project),
        request.commit_hash is Some,
        queued(before, after, project, config, request, id, now),
    ensures
        after.running_deploys@.dom().contains(project),
        after.running_deploys@[project].task_id == before.running_deploys@[project].task_id,
        chars::opt_view(before.running_deploys@[project].commit_hash) != chars::opt_view(
            request.commit_hash,
        ) ==> after.running_deploys@[project].cancelled,
        chars::opt_view(before.running_deploys@[project].commit_hash) == chars::opt_view(
            request.commit_hash,
        ) ==> after.running_deploys@[project] == before.running_deploys@[project],
        other != project ==> after.running_deploys@.dom().contains(other)
            == before.running_deploys@.dom().contains(other) && after.running_deploys@[other]
            == before.running_deploys@[other],
{
}

} // verus!
