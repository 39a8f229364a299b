//! The course of a deployment: which machine carries it out, and what comes
//! after it.

use vstd::prelude::*;

use crate::api::deploy::TriggerRequest;
use crate::config::project;
use crate::config::project::ProjectConfig;
use crate::domain::deploy;
use crate::domain::deploy::{DeployStatus, DeployType};
use crate::services::deploy::action;
use crate::services::deploy::action::{DeployAction, Moment, ProcessOutput, SpawnEnd};
use crate::services::deploy::canary::ComposeCommand;
use crate::services::deploy::context::DeployContext;
use crate::services::deploy::docker_build;
use crate::services::deploy::docker_build::{BuildDeploy, DockerBuildConfig};
use crate::services::deploy::docker_compose;
use crate::services::deploy::docker_compose::{ComposeDeploy, DockerComposeConfig};
use crate::services::deploy::script;
use crate::services::deploy::script::{ScriptDeploy, ScriptPhase};
use crate::services::deploy::xiaojincut;
use crate::services::deploy::xiaojincut::{
    HttpReply, TaskPhase, XiaojincutConfig, XiaojincutDeploy,
};
use crate::state::app_state::{AppState, QueuedDeploy};
use crate::text::chars;
use crate::time::Timestamp;

verus! {

/// Something that happens to a deployment that has begun.
#[derive(Debug)]
pub enum DeployEvent {
    /// The command that it waits for came back.
    Output(Result<ProcessOutput, String>),
    /// The streamed command that it waits for came to its end.
    SpawnEnd(SpawnEnd),
    /// The request that it waits for came back.
    Reply(HttpReply),
    /// The pause that it waits for is over.
    Wake,
}

/// The contents of a `DeployEvent`.
pub ghost enum DeployEventView {
    Output(Result<action::OutputView, Seq<char>>),
    SpawnEnd(action::SpawnEndView),
    Reply(xiaojincut::ReplyView),
    Wake,
}

impl View for DeployEvent {
    type V = DeployEventView;

    open spec fn view(&self) -> DeployEventView {
        match *self {
            DeployEvent::Output(r) => DeployEventView::Output(action::result_view(r)),
            DeployEvent::SpawnEnd(e) => DeployEventView::SpawnEnd(e@),
            DeployEvent::Reply(r) => DeployEventView::Reply(r@),
            DeployEvent::Wake => DeployEventView::Wake,
        }
    }
}

/// A deployment under way, by its type.
pub enum DeployRun {
    Script(ScriptDeploy),
    Compose(ComposeDeploy),
    Build(BuildDeploy),
    Xiaojincut(XiaojincutDeploy),
}

/// The contents of a `DeployRun`.
pub ghost enum RunView {
    Script(script::ScriptView),
    Compose(docker_compose::ComposeView),
    Build(docker_build::BuildView),
    Xiaojincut(xiaojincut::TaskView),
}

impl View for DeployRun {
    type V = RunView;

    open spec fn view(&self) -> RunView {
        match *self {
            DeployRun::Script(d) => RunView::Script(d@),
            DeployRun::Compose(d) => RunView::Compose(d@),
            DeployRun::Build(d) => RunView::Build(d@),
            DeployRun::Xiaojincut(d) => RunView::Xiaojincut(d@),
        }
    }
}

/// What an event leads to.
pub ghost struct RunStep {
    pub run: RunView,
    pub actions: Seq<action::ActionView>,
}

impl RunView {
    /// The deployment of a project that has not begun: by a script, by
    /// compose, by a build or by the local video service, as the project says.
    pub open spec fn fresh(
        task_id: Seq<char>,
        project: Seq<char>,
        config: project::ProjectConfigView,
        commit_hash: Option<Seq<char>>,
        branch: Option<Seq<char>>,
    ) -> RunView {
        match config.deploy_type {
            deploy::DeployTypeView::Script { script } => RunView::Script(
                script::ScriptView {
                    project,
                    work_dir: config.work_dir,
                    script,
                    commit_hash,
                    branch,
                    stages: seq![
                        deploy::StageView::pending("git_pull"@, "Git Pull"@),
                        deploy::StageView::pending("execute_script"@, "Execute Script"@),
                    ],
                    phase: ScriptPhase::Ready,
                },
            ),
            deploy::DeployTypeView::DockerCompose {
                compose_file,
                image,
                git_repo_dir,
                service,
            } => RunView::Compose(
                docker_compose::ComposeView {
                    task_id,
                    project,
                    work_dir: config.work_dir,
                    compose_file,
                    image,
                    git_repo_dir,
                    service,
                    health_port: None,
                    stages: docker_compose::initial_stages(),
                    exit_code: 0,
                    compose: ComposeCommand::Plugin,
                    phase: docker_compose::PhaseView::Ready,
                },
            ),
            deploy::DeployTypeView::DockerBuild {
                dockerfile,
                build_context,
                image,
                tag,
                push_latest,
                branch,
            } => RunView::Build(
                docker_build::BuildView {
                    project,
                    work_dir: config.work_dir,
                    dockerfile,
                    build_context,
                    image,
                    given_tag: tag,
                    push_latest,
                    branch,
                    stages: docker_build::initial_stages(push_latest),
                    exit_code: 0,
                    tag: docker_build::or(tag, "latest"@),
                    phase: docker_build::PhaseView::Ready,
                },
            ),
            deploy::DeployTypeView::Xiaojincut {
                task_type,
                input_path,
                output_dir,
                prompt,
                port,
            } => RunView::Xiaojincut(
                xiaojincut::TaskView {
                    task_type,
                    input_path,
                    output_dir,
                    prompt,
                    port,
                    phase: TaskPhase::Ready,
                },
            ),
        }
    }

    /// The start of the deployment.
    pub open spec fn begin_spec(self, m: Moment) -> RunStep {
        match self {
            RunView::Script(d) => RunStep {
                run: RunView::Script(d.begin_spec(m).state),
                actions: d.begin_spec(m).actions,
            },
            RunView::Compose(d) => RunStep {
                run: RunView::Compose(d.begin_spec(m).state),
                actions: d.begin_spec(m).actions,
            },
            RunView::Build(d) => RunStep {
                run: RunView::Build(d.begin_spec(m).state),
                actions: d.begin_spec(m).actions,
            },
            RunView::Xiaojincut(d) => RunStep {
                run: RunView::Xiaojincut(d.begin_spec().state),
                actions: d.begin_spec().actions,
            },
        }
    }

    /// What an event leads to. An event that the type of deployment does not
    /// know leads to nothing.
    pub open spec fn on_event_spec(self, event: DeployEventView, m: Moment) -> RunStep {
        match (self, event) {
            (RunView::Script(d), DeployEventView::Output(r)) => RunStep {
                run: RunView::Script(d.on_output_spec(r, m).state),
                actions: d.on_output_spec(r, m).actions,
            },
            (RunView::Script(d), DeployEventView::SpawnEnd(e)) => RunStep {
                run: RunView::Script(d.on_spawn_end_spec(e, m).state),
                actions: d.on_spawn_end_spec(e, m).actions,
            },
            (RunView::Compose(d), DeployEventView::Output(r)) => RunStep {
                run: RunView::Compose(d.on_output_spec(r, m).state),
                actions: d.on_output_spec(r, m).actions,
            },
            (RunView::Compose(d), DeployEventView::Wake) => RunStep {
                run: RunView::Compose(d.on_wake_spec(m).state),
                actions: d.on_wake_spec(m).actions,
            },
            (RunView::Build(d), DeployEventView::Output(r)) => RunStep {
                run: RunView::Build(d.on_output_spec(r, m).state),
                actions: d.on_output_spec(r, m).actions,
            },
            (RunView::Build(d), DeployEventView::SpawnEnd(e)) => RunStep {
                run: RunView::Build(d.on_spawn_end_spec(e, m).state),
                actions: d.on_spawn_end_spec(e, m).actions,
            },
            (RunView::Xiaojincut(d), DeployEventView::Reply(r)) => RunStep {
                run: RunView::Xiaojincut(d.on_reply_spec(r).state),
                actions: d.on_reply_spec(r).actions,
            },
            _ => RunStep { run: self, actions: Seq::empty() },
        }
    }
}

impl DeployRun {
    /// The machine is in order.
    pub open spec fn wf(&self) -> bool {
        match *self {
            DeployRun::Script(d) => d.wf(),
            DeployRun::Compose(d) => d.wf(),
            DeployRun::Build(d) => d.wf(),
            DeployRun::Xiaojincut(_) => true,
        }
    }

    /// The deployment of a project that has not begun.
    pub fn new(ctx: &DeployContext, config: ProjectConfig) -> (r: DeployRun)
        ensures
            r.wf(),
            r@ == RunView::fresh(
                ctx.task_id@,
                ctx.project@,
                config@,
                chars::opt_view(ctx.commit_hash),
                chars::opt_view(ctx.branch),
            ),
    {
        let work_dir = config.work_dir;
        match config.deploy_type {
            DeployType::Script { script } => DeployRun::Script(
                ScriptDeploy::new(
                    ctx.project.clone(),
                    work_dir,
                    script,
                    ctx.commit_hash.clone(),
                    ctx.branch.clone(),
                ),
            ),
            DeployType::DockerCompose { compose_file, image, git_repo_dir, service } => {
                let config = DockerComposeConfig {
                    compose_file,
                    image,
                    git_repo_dir,
                    service,
                    health_port: None,
                };
                DeployRun::Compose(
                    ComposeDeploy::new(ctx.task_id.clone(), ctx.project.clone(), work_dir, config),
                )
            },
            DeployType::DockerBuild {
                dockerfile,
                build_context,
                image,
                tag,
                push_latest,
                branch,
            } => {
                let config = DockerBuildConfig {
                    dockerfile,
                    build_context,
                    image,
                    tag,
                    push_latest,
                    branch,
                };
                DeployRun::Build(BuildDeploy::new(ctx.project.clone(), work_dir, config))
            },
            DeployType::Xiaojincut { task_type, input_path, output_dir, prompt, port } => {
                let config = XiaojincutConfig { task_type, input_path, output_dir, prompt, port };
                DeployRun::Xiaojincut(XiaojincutDeploy::new(config))
            },
        }
    }

    /// Begins the deployment.
    pub fn begin(&mut self, m: &Moment) -> (r: Vec<DeployAction>)
        requires
            old(self).wf(),
        ensures
            final(self).wf(),
            old(self)@.begin_spec(*m) == (RunStep {
                run: final(self)@,
                actions: action::action_views(r@),
            }),
    {
        match self {
            DeployRun::Script(d) => d.begin(m),
            DeployRun::Compose(d) => d.begin(m),
            DeployRun::Build(d) => d.begin(m),
            DeployRun::Xiaojincut(d) => d.begin(),
        }
    }

    /// Takes an event.
    pub fn on_event(&mut self, event: DeployEvent, m: &Moment) -> (r: Vec<DeployAction>)
        requires
            old(self).wf(),
        ensures
            final(self).wf(),
            old(self)@.on_event_spec(event@, *m) == (RunStep {
                run: final(self)@,
                actions: action::action_views(r@),
            }),
    {
        match self {
            DeployRun::Script(d) => match event {
                DeployEvent::Output(r) => d.on_output(r, m),
                DeployEvent::SpawnEnd(e) => d.on_spawn_end(e, m),
                _ => nothing(),
            },
            DeployRun::Compose(d) => match event {
                DeployEvent::Output(r) => d.on_output(r, m),
                DeployEvent::Wake => d.on_wake(m),
                _ => nothing(),
            },
            DeployRun::Build(d) => match event {
                DeployEvent::Output(r) => d.on_output(r, m),
                DeployEvent::SpawnEnd(e) => d.on_spawn_end(e, m),
                _ => nothing(),
            },
            DeployRun::Xiaojincut(d) => match event {
                DeployEvent::Reply(r) => d.on_reply(r),
                _ => nothing(),
            },
        }
    }
}

/// No actions.
fn nothing() -> (r: Vec<DeployAction>)
    ensures
        action::action_views(r@) == Seq::<action::ActionView>::empty(),
{
    let r: Vec<DeployAction> = Vec::new();
    assert(action::action_views(r@) =~= Seq::<action::ActionView>::empty());
    r
}

/// A deployment that has begun: its setting, its machine, and the first
/// actions.
pub struct DeployStart {
    pub ctx: DeployContext,
    pub run: DeployRun,
    pub actions: Vec<DeployAction>,
}

/// Begins the deployment of a task.
pub fn execute_single(
    state: &AppState,
    task_id: &str,
    project: &str,
    config: ProjectConfig,
    request: &TriggerRequest,
    m: &Moment,
) -> (r: DeployStart)
    ensures
        r.run.wf(),
        r.ctx.task_id@ == task_id@,
        r.ctx.project@ == project@,
        r.ctx.log_tx == if state.log_hub@.dom().contains(task_id@) {
            Some(state.log_hub@[task_id@].sender)
        } else {
            None
        },
        r.ctx.commit_hash == request.commit_hash,
        r.ctx.branch == request.branch,
        RunView::fresh(
            task_id@,
            project@,
            config@,
            chars::opt_view(request.commit_hash),
            chars::opt_view(request.branch),
        ).begin_spec(*m) == (RunStep {
            run: r.run@,
            actions: action::action_views(r.actions@),
        }),
{
    let ctx = DeployContext::new(state, task_id, project, request);
    let mut run = DeployRun::new(&ctx, config);
    let actions = run.begin(m);
    DeployStart { ctx, run, actions }
}

/// A task has its turn: it is in the running state since `now`, it is the
/// deployment of its project that runs and has not been told to stop, and its
/// log has a channel. Nothing else changes but the queue of the project.
pub open spec fn has_turn(
    before: AppState,
    after: AppState,
    project: Seq<char>,
    next: QueuedDeploy,
    now: Timestamp,
) -> bool {
    let task_id = next.task_id@;
    &&& after == (AppState {
        task_store: after.task_store,
        running_deploys: after.running_deploys,
        log_hub: after.log_hub,
        deploy_queue: after.deploy_queue,
        ..before
    })
    &&& after.task_store.active() == before.task_store.status_updated(
        task_id,
        DeployStatus::Running,
        None,
        now,
    )
    &&& after.task_store.past() == before.task_store.past()
    &&& after.task_store.same_limits(&before.task_store)
    &&& after.running_deploys@ == before.running_deploys@.insert(
        project,
        after.running_deploys@[project],
    )
    &&& after.running_deploys@[project].task_id@ == task_id
    &&& after.running_deploys@[project].commit_hash == next.request.commit_hash
    &&& !after.running_deploys@[project].cancelled
    &&& if before.log_hub@.dom().contains(task_id) {
        after.log_hub@ == before.log_hub@
    } else {
        &&& after.log_hub@ == before.log_hub@.insert(task_id, after.log_hub@[task_id])
        &&& !after.log_hub@[task_id].finished
    }
}

/// Gives the deployment of a project that has waited longest its turn; none
/// where none waits.
pub fn process_queue(state: &mut AppState, project: &str) -> (r: Option<QueuedDeploy>)
    ensures
        r is Some <==> old(state).queue(project@).len() > 0,
        r matches Some(d) ==> {
            &&& old(state).queue(project@) == seq![d] + final(state).queue(project@)
            &&& exists|now: Timestamp| #[trigger]
                has_turn(*old(state), *final(state), project@, d, now)
        },
        r is None ==> final(state).same_but_queue(*old(state)) && final(state).queue(
            project@,
        ).len() == 0,
        forall|p: Seq<char>| p != project@ ==> #[trigger] final(state).queue(p) == old(state).queue(p),
{
    match state.dequeue_deploy(project) {
        Some(next) => {
            let ghost taken = *state;
            let now = Timestamp::now();
            state.task_store.update_status_at(
                next.task_id.as_str(),
                DeployStatus::Running,
                None,
                now,
            );
            state.register_running_commit(
                project,
                next.task_id.as_str(),
                next.request.commit_hash.clone(),
            );
            let _sender = state.log_hub.create(next.task_id.as_str());
            proof {
                assert(has_turn(*old(state), *state, project@, next, now));
                assert forall|p: Seq<char>| p != project@ implies #[trigger] state.queue(p) == old(
                    state,
                ).queue(p) by {
                    assert(taken.queue(p) == old(state).queue(p));
                }
            }
            Some(next)
        },
        None => None,
    }
}

/// A deployment of a project is over: the next one that waits has its turn,
/// and none runs where none waits.
pub fn after_deploy(state: &mut AppState, project: &str) -> (r: Option<QueuedDeploy>)
    ensures
        r is Some <==> old(state).queue(project@).len() > 0,
        r matches Some(d) ==> {
            &&& old(state).queue(project@) == seq![d] + final(state).queue(project@)
            &&& exists|now: Timestamp| #[trigger]
                has_turn(*old(state), *final(state), project@, d, now)
        },
        r is None ==> {
            &&& final(state).running_deploys@ == old(state).running_deploys@.remove(project@)
            &&& *final(state) == (AppState {
                running_deploys: final(state).running_deploys,
                deploy_queue: final(state).deploy_queue,
                ..*old(state)
            })
            &&& final(state).queue(project@).len() == 0
        },
        forall|p: Seq<char>| p != project@ ==> #[trigger] final(state).queue(p) == old(state).queue(p),
{
    state.unregister_running_deploy(project);
    let ghost middle = *state;
    let r = process_queue(state, project);
    proof {
        if r is Some {
            let d = r->0;
            let now = choose|now: Timestamp| #[trigger]
                has_turn(middle, *state, project@, d, now);
            assert(state.running_deploys@ =~= old(state).running_deploys@.insert(
                project@,
                state.running_deploys@[project@],
            ));
            assert(has_turn(*old(state), *state, project@, d, now));
        }
    }
    r
}

} // verus!
