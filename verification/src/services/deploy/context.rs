//! The setting of one deployment.

use vstd::prelude::*;

use crate::api::deploy::TriggerRequest;
use crate::domain::deploy::{clone_stages, DeployStage, DeployStatus, DeployTask, LogLine};
use crate::infra::deploy_center::{AppendRequest, NotifyRequest};
use crate::services::deploy::action::EXIT_UNKNOWN;
use crate::state::app_state::AppState;
use crate::state::log_hub;
use crate::state::log_hub::{broadcast_line, Broadcast};
use crate::time::Timestamp;

verus! {

/// What a deployment knows of itself.
pub struct DeployContext {
    pub task_id: String,
    pub project: String,
    /// The channel that its log lines are broadcast on.
    pub log_tx: Option<tokio::sync::broadcast::Sender<LogLine>>,
    pub commit_hash: Option<String>,
    pub branch: Option<String>,
}

/// What became of a line of the log.
pub struct Logged {
    /// The broadcast of the line.
    pub broadcast: Option<Broadcast>,
    /// The request that sends the line to the deploy center.
    pub append: Option<AppendRequest>,
}

/// The exit code that is reported where there may be none.
pub open spec fn reported_code(exit_code: Option<i32>) -> i32 {
    match exit_code {
        Some(c) => c,
        None => EXIT_UNKNOWN,
    }
}

/// The task with other stages.
pub open spec fn with_stages(task: DeployTask, stages: Vec<DeployStage>) -> DeployTask {
    DeployTask { stages, ..task }
}

fn code_or_unknown(exit_code: Option<i32>) -> (r: i32)
    ensures
        r == reported_code(exit_code),
{
    match exit_code {
        Some(c) => c,
        None => EXIT_UNKNOWN,
    }
}

impl DeployContext {
    /// The setting of a task of a project.
    pub fn new(state: &AppState, task_id: &str, project: &str, request: &TriggerRequest) -> (r:
        DeployContext)
        ensures
            r.task_id@ == task_id@,
            r.project@ == project@,
            r.log_tx == if state.log_hub@.dom().contains(task_id@) {
                Some(state.log_hub@[task_id@].sender)
            } else {
                None
            },
            r.commit_hash == request.commit_hash,
            r.branch == request.branch,
    {
        DeployContext {
            task_id: task_id.to_owned(),
            project: project.to_owned(),
            log_tx: state.log_hub.get_sender(task_id),
            commit_hash: request.commit_hash.clone(),
            branch: request.branch.clone(),
        }
    }

    /// What became of a line of this deployment: it went out on the channel of
    /// the task, where there is one, and goes to the deploy center, where
    /// there is one.
    pub open spec fn logged(
        self,
        state: AppState,
        stream: Seq<char>,
        content: Seq<char>,
        r: Logged,
    ) -> bool {
        &&& r.broadcast is Some <==> self.log_tx is Some
        &&& r.broadcast matches Some(b) ==> b.channel() == self.log_tx->0
            && b.content().stream@ == stream && b.content().content@ == content
        &&& r.append is Some <==> state.deploy_center.url() is Some
        &&& r.append matches Some(a) ==> a.is_for(
            state.deploy_center.url()->0,
            self.task_id@,
            stream,
            content,
        )
    }

    /// Broadcasts a line, and gives the request that sends it to the deploy
    /// center.
    pub fn log(&self, state: &AppState, stream: &str, content: &str) -> (r: Logged)
        ensures
            self.logged(*state, stream@, content@, r),
    {
        let line = LogLine::new(stream, content);
        let broadcast = match &self.log_tx {
            Some(tx) => Some(broadcast_line(tx, &line)),
            None => None,
        };
        Logged {
            broadcast,
            append: state.deploy_center.append_log(self.task_id.as_str(), &line),
        }
    }

    /// Broadcasts a line of the standard output.
    pub fn log_stdout(&self, state: &AppState, content: &str) -> (r: Logged)
        ensures
            self.logged(*state, "stdout"@, content@, r),
    {
        self.log(state, "stdout", content)
    }

    /// Broadcasts a line of the error output.
    pub fn log_stderr(&self, state: &AppState, content: &str) -> (r: Logged)
        ensures
            self.logged(*state, "stderr"@, content@, r),
    {
        self.log(state, "stderr", content)
    }

    /// The two states differ in nothing but the tasks.
    pub open spec fn same_but_tasks(before: AppState, after: AppState) -> bool {
        after == (AppState { task_store: after.task_store, ..before })
    }

    /// Brings the task into another state, and gives the request that tells
    /// the deploy center.
    pub fn update_status(
        &self,
        state: &mut AppState,
        status: DeployStatus,
        exit_code: Option<i32>,
    ) -> (r: Option<NotifyRequest>)
        ensures
            DeployContext::same_but_tasks(*old(state), *final(state)),
            exists|now: Timestamp|
                final(state).task_store.active() == #[trigger] old(
                    state,
                ).task_store.status_updated(self.task_id@, status, exit_code, now),
            final(state).task_store.past() == old(state).task_store.past(),
            final(state).task_store.same_limits(&old(state).task_store),
            r is Some <==> old(state).deploy_center.url() is Some,
            r matches Some(n) ==> n.is_for(
                old(state).deploy_center.url()->0,
                self.task_id@,
                status,
                reported_code(exit_code),
            ) && n.stages is None,
    {
        state.task_store.update_status(self.task_id.as_str(), status, exit_code);
        state.deploy_center.notify_status(
            self.task_id.as_str(),
            status,
            code_or_unknown(exit_code),
        )
    }

    /// Publishes the stages of the task.
    pub fn update_stages(&self, state: &mut AppState, stages: Vec<DeployStage>)
        ensures
            DeployContext::same_but_tasks(*old(state), *final(state)),
            final(state).task_store.active() == if old(state).task_store.active().dom().contains(
                self.task_id@,
            ) {
                old(state).task_store.active().insert(
                    self.task_id@,
                    with_stages(old(state).task_store.active()[self.task_id@], stages),
                )
            } else {
                old(state).task_store.active()
            },
            final(state).task_store.past() == old(state).task_store.past(),
            final(state).task_store.same_limits(&old(state).task_store),
    {
        state.task_store.update_stages(self.task_id.as_str(), stages);
    }

    /// What ending the task at `now` makes of the state: the task is over, with
    /// these stages, and stands first among the finished ones; no more lines
    /// come on its channel; and no deployment of the project runs. Nothing
    /// else changes.
    pub open spec fn ended(
        self,
        before: AppState,
        after: AppState,
        status: DeployStatus,
        exit_code: Option<i32>,
        stages: Seq<DeployStage>,
        now: Timestamp,
    ) -> bool {
        let id = self.task_id@;
        let tasks = before.task_store;
        &&& after == (AppState {
            task_store: after.task_store,
            log_hub: after.log_hub,
            running_deploys: after.running_deploys,
            ..before
        })
        &&& after.task_store.active() == tasks.active().remove(id)
        &&& if tasks.active().dom().contains(id) {
            exists|last: Vec<DeployStage>|
                last@ == stages && after.task_store.past() == tasks.history_with(
                    (#[trigger] with_stages(tasks.active()[id], last)).completed(
                        now,
                        status,
                        exit_code,
                    ),
                )
        } else {
            after.task_store.past() == tasks.past()
        }
        &&& after.task_store.same_limits(&tasks)
        &&& tasks.wf() ==> after.task_store.wf()
        &&& after.log_hub@ == if before.log_hub@.dom().contains(id) {
            before.log_hub@.insert(
                id,
                log_hub::LogChannel { finished: true, ..before.log_hub@[id] },
            )
        } else {
            before.log_hub@
        }
        &&& after.running_deploys@ == before.running_deploys@.remove(self.project@)
    }

    /// Ends the task with these stages, ends its log, and notes that no
    /// deployment of the project runs. Gives the request that tells the deploy
    /// center.
    pub fn finish_at(
        &self,
        state: &mut AppState,
        status: DeployStatus,
        exit_code: Option<i32>,
        stages: Vec<DeployStage>,
        now: Timestamp,
    ) -> (r: Option<NotifyRequest>)
        ensures
            self.ended(*old(state), *final(state), status, exit_code, stages@, now),
            r is Some <==> old(state).deploy_center.url() is Some,
            r matches Some(n) ==> n.is_for(
                old(state).deploy_center.url()->0,
                self.task_id@,
                status,
                reported_code(exit_code),
            ) && n.stages == Some(stages),
    {
        let last = clone_stages(&stages);
        self.update_stages(state, last);
        let ghost middle = state.task_store;
        state.task_store.finish_at(self.task_id.as_str(), status, exit_code, now);
        proof {
            let tasks = old(state).task_store;
            assert(state.task_store.active() =~= tasks.active().remove(self.task_id@));
            if tasks.active().dom().contains(self.task_id@) {
                let task = with_stages(tasks.active()[self.task_id@], last);
                assert(middle.history_with(task.completed(now, status, exit_code))
                    == tasks.history_with(task.completed(now, status, exit_code)));
            }
        }
        state.log_hub.finish(self.task_id.as_str());
        state.unregister_running_deploy(self.project.as_str());
        state.deploy_center.notify_status_with_stages(
            self.task_id.as_str(),
            status,
            code_or_unknown(exit_code),
            stages,
        )
    }

    /// Ends the task now, as at any other time.
    pub fn finish(
        &self,
        state: &mut AppState,
        status: DeployStatus,
        exit_code: Option<i32>,
        stages: Vec<DeployStage>,
    ) -> (r: Option<NotifyRequest>)
        ensures
            exists|now: Timestamp| #[trigger]
                self.ended(*old(state), *final(state), status, exit_code, stages@, now),
            r is Some <==> old(state).deploy_center.url() is Some,
            r matches Some(n) ==> n.is_for(
                old(state).deploy_center.url()->0,
                self.task_id@,
                status,
                reported_code(exit_code),
            ) && n.stages == Some(stages),
    {
        let now = Timestamp::now();
        let ghost list = stages@;
        let r = self.finish_at(state, status, exit_code, stages, now);
        assert(self.ended(*old(state), *state, status, exit_code, list, now));
        r
    }

    /// Whether this very deployment runs and has been told to stop.
    pub fn is_cancelled(&self, state: &AppState) -> (r: bool)
        ensures
            r == (state.running_deploys@.dom().contains(self.project@)
                && state.running_deploys@[self.project@].task_id@ == self.task_id@
                && state.running_deploys@[self.project@].cancelled),
    {
        match state.running_deploys.get(self.project.as_str()) {
            Some(d) => d.task_id == self.task_id && d.cancelled,
            None => false,
        }
    }
}

/// A line that a deployment logs goes out, as it is, on the channel that the
/// readers of the task hear.
pub proof fn readers_hear_the_log(
    ctx: DeployContext,
    state: AppState,
    reader: tokio::sync::broadcast::Receiver<LogLine>,
    stream: Seq<char>,
    content: Seq<char>,
    r: Logged,
)
    requires
        ctx.log_tx == Some(state.log_hub@[ctx.task_id@].sender),
        log_hub::heard_channel(reader) == state.log_hub@[ctx.task_id@].sender,
        ctx.logged(state, stream, content, r),
    ensures
        r.broadcast is Some,
        (r.broadcast->0).channel() == log_hub::heard_channel(reader),
        (r.broadcast->0).content().stream@ == stream,
        (r.broadcast->0).content().content@ == content,
{
}

} // verus!
