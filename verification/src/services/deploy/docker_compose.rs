//! Blue-green deployment with compose: the new image is pulled and tried in a
//! canary, and only a healthy canary lets the running container be replaced.

use vstd::prelude::*;

use crate::api::containers;
use crate::domain::deploy;
use crate::domain::deploy::{
    finish_stage, skip_stage, start_stage, DeployStage, DeployStatus,
};
use crate::services::deploy::action;
use crate::services::deploy::action::{
    Actions, DeployAction, Moment, ProcessOutput, EXIT_CANCELLED, EXIT_UNKNOWN,
};
use crate::services::deploy::canary;
use crate::services::deploy::canary::{
    canary_container_name, CanaryCheck, CanaryPhase, ComposeCommand,
};
use crate::services::deploy::monitor;
use crate::services::deploy::monitor::{
    MonitorPhase, PostDeployMonitor, POST_DEPLOY_MONITOR_SECONDS,
};
use crate::text::chars;
use crate::text::chars::{concat2, concat3, concat4, concat5, strings};
use crate::text::number;
use crate::text::number::decimal;
use crate::text::search;
use crate::text::search::starts_with;
use crate::text::split;
use crate::text::split::trim;
use crate::time;

verus! {

/// What is deployed.
#[derive(Debug)]
pub struct DockerComposeConfig {
    pub compose_file: String,
    pub image: String,
    pub git_repo_dir: Option<String>,
    pub service: Option<String>,
    /// Port of the health check, 8081 by default.
    pub health_port: Option<u16>,
}

/// The port of the health check where none is given.
pub const DEFAULT_HEALTH_PORT: u16 = 8081;

/// How far the deployment has come.
#[derive(Debug)]
pub enum ComposePhase {
    /// Nothing has happened.
    Ready,
    /// Listing the canaries that were left behind.
    ListStale,
    /// Removing them, one by one.
    RemoveStale { ids: Vec<String>, next: usize },
    /// Looking for the compose command.
    Detect,
    /// Updating the repository.
    GitPull,
    /// Pulling the image.
    ImagePull,
    /// Trying the image in a canary.
    Canary { check: CanaryCheck },
    /// Telling compose of the image.
    ComposePull,
    /// Replacing the container.
    ComposeUp,
    /// Watching the new container.
    Monitor { watch: PostDeployMonitor },
    /// Showing the state of the services.
    ShowStatus,
    /// Showing the last log lines.
    ShowLogs,
    /// The deployment is over.
    Done,
}

/// A deployment with compose.
#[derive(Debug)]
pub struct ComposeDeploy {
    pub task_id: String,
    pub project: String,
    pub work_dir: String,
    pub config: DockerComposeConfig,
    pub stages: Vec<DeployStage>,
    pub exit_code: i32,
    pub compose: ComposeCommand,
    pub phase: ComposePhase,
}

/// The contents of a `ComposePhase`.
pub ghost enum PhaseView {
    Ready,
    ListStale,
    RemoveStale { ids: Seq<Seq<char>>, next: int },
    Detect,
    GitPull,
    ImagePull,
    Canary { check: canary::CanaryView },
    ComposePull,
    ComposeUp,
    Monitor { watch: monitor::MonitorView },
    ShowStatus,
    ShowLogs,
    Done,
}

/// The contents of a `ComposeDeploy`.
pub ghost struct ComposeView {
    pub task_id: Seq<char>,
    pub project: Seq<char>,
    pub work_dir: Seq<char>,
    pub compose_file: Seq<char>,
    pub image: Seq<char>,
    pub git_repo_dir: Option<Seq<char>>,
    pub service: Option<Seq<char>>,
    pub health_port: Option<u16>,
    pub stages: Seq<deploy::StageView>,
    pub exit_code: i32,
    pub compose: ComposeCommand,
    pub phase: PhaseView,
}

impl View for ComposePhase {
    type V = PhaseView;

    open spec fn view(&self) -> PhaseView {
        match *self {
            ComposePhase::Ready => PhaseView::Ready,
            ComposePhase::ListStale => PhaseView::ListStale,
            ComposePhase::RemoveStale { ids, next } => PhaseView::RemoveStale {
                ids: chars::views(ids@),
                next: next as int,
            },
            ComposePhase::Detect => PhaseView::Detect,
            ComposePhase::GitPull => PhaseView::GitPull,
            ComposePhase::ImagePull => PhaseView::ImagePull,
            ComposePhase::Canary { check } => PhaseView::Canary { check: check@ },
            ComposePhase::ComposePull => PhaseView::ComposePull,
            ComposePhase::ComposeUp => PhaseView::ComposeUp,
            ComposePhase::Monitor { watch } => PhaseView::Monitor { watch: watch@ },
            ComposePhase::ShowStatus => PhaseView::ShowStatus,
            ComposePhase::ShowLogs => PhaseView::ShowLogs,
            ComposePhase::Done => PhaseView::Done,
        }
    }
}

impl View for ComposeDeploy {
    type V = ComposeView;

    open spec fn view(&self) -> ComposeView {
        ComposeView {
            task_id: self.task_id@,
            project: self.project@,
            work_dir: self.work_dir@,
            compose_file: self.config.compose_file@,
            image: self.config.image@,
            git_repo_dir: chars::opt_view(self.config.git_repo_dir),
            service: chars::opt_view(self.config.service),
            health_port: self.config.health_port,
            stages: deploy::stage_views(self.stages@),
            exit_code: self.exit_code,
            compose: self.compose,
            phase: self.phase@,
        }
    }
}

/// What a step of the deployment leads to.
pub ghost struct StepView {
    pub state: ComposeView,
    pub actions: Seq<action::ActionView>,
}

/// The stages of the deployment before it begins.
pub open spec fn initial_stages() -> Seq<deploy::StageView> {
    seq![
        deploy::StageView::pending("git_pull"@, "Git Pull"@),
        deploy::StageView::pending("docker_pull"@, "Docker Pull"@),
        deploy::StageView::pending("health_check"@, "Health Check"@),
        deploy::StageView::pending("compose_up"@, "Compose Up"@),
        deploy::StageView::pending("post_deploy_monitor"@, "Post-Deploy Monitor"@),
    ]
}

impl ComposeView {
    /// The path of the compose file.
    pub open spec fn compose_path(self) -> Seq<char> {
        if search::has_prefix(self.compose_file, "/"@) {
            self.compose_file
        } else {
            self.work_dir + "/"@ + self.compose_file
        }
    }

    /// The same deployment in another phase.
    pub open spec fn at(self, phase: PhaseView) -> ComposeView {
        ComposeView { phase, ..self }
    }

    /// The same deployment with a stage replaced.
    pub open spec fn with_stage(self, i: int, s: deploy::StageView) -> ComposeView {
        ComposeView { stages: self.stages.update(i, s), ..self }
    }

    /// The same deployment with the stage at `i` begun.
    pub open spec fn started(self, i: int, now: time::Timestamp) -> ComposeView {
        self.with_stage(i, self.stages[i].started(now))
    }

    /// The same deployment with the stage at `i` ended.
    pub open spec fn finished(
        self,
        i: int,
        now: time::Timestamp,
        success: bool,
        message: Option<Seq<char>>,
    ) -> ComposeView {
        self.with_stage(i, self.stages[i].finished(now, success, message))
    }

    /// The same deployment with another exit code.
    pub open spec fn exiting(self, exit_code: i32) -> ComposeView {
        ComposeView { exit_code, ..self }
    }

    /// The publication of the stages.
    pub open spec fn publish(self) -> action::ActionView {
        action::ActionView::Stages { stages: self.stages }
    }

    /// A step into a phase.
    pub open spec fn go(self, phase: PhaseView, actions: Seq<action::ActionView>) -> StepView {
        StepView { state: self.at(phase), actions }
    }

    /// The end of a cancelled deployment.
    pub open spec fn cancel(self, acts: Seq<action::ActionView>) -> StepView {
        self.go(
            PhaseView::Done,
            acts.push(action::err("Deployment cancelled"@)).push(
                action::ActionView::Finish {
                    status: DeployStatus::Failed,
                    exit_code: EXIT_CANCELLED,
                    stages: self.stages,
                },
            ),
        )
    }

    /// The end of a deployment that was not cancelled.
    pub open spec fn wrap_up(self, acts: Seq<action::ActionView>) -> StepView {
        self.go(
            PhaseView::Done,
            (acts.push(action::out(""@)).push(action::out("=== Stage Summary ==="@))
                + action::summary_lines(self.stages)).push(
                action::ActionView::Finish {
                    status: if self.exit_code == 0 {
                        DeployStatus::Success
                    } else {
                        DeployStatus::Failed
                    },
                    exit_code: self.exit_code,
                    stages: self.stages,
                },
            ),
        )
    }

    /// A compose command in the work directory.
    pub open spec fn compose_run(self, rest: Seq<Seq<char>>) -> action::ActionView {
        action::run_in(
            self.compose.program_spec(),
            self.compose.prefix() + (seq!["-f"@, self.compose_path()] + rest),
            self.work_dir,
        )
    }

    /// The arguments with the service behind them, where there is one.
    pub open spec fn with_service(self, args: Seq<Seq<char>>) -> Seq<Seq<char>> {
        match self.service {
            Some(s) => args.push(s),
            None => args,
        }
    }

    /// The deployment begins.
    pub open spec fn begin_spec(self, m: Moment) -> StepView {
        self.go(
            PhaseView::ListStale,
            seq![
                action::out("=== Docker Compose Deploy (Blue-Green) for "@ + self.project + " ==="@),
                action::out("Working directory: "@ + self.work_dir),
                action::out("Compose file: "@ + self.compose_file),
                action::out("Image: "@ + self.image),
                action::out("Timestamp: "@ + time::rfc3339_text(m.now.seconds(), m.now.subsec())),
                action::out("Strategy: Blue-Green (canary health check before swap)"@),
                action::out("Canary container: "@ + canary::canary_name_spec(self.task_id)),
                action::out(">>> Cleaning up stale canary containers..."@),
                action::run(
                    "docker"@,
                    seq!["ps"@, "-a"@, "-q"@, "--filter"@, "name=^deploy-canary"@],
                ),
            ],
        )
    }

    /// Looks for the compose command.
    pub open spec fn detect(self, acts: Seq<action::ActionView>) -> StepView {
        self.go(
            PhaseView::Detect,
            acts.push(action::run("which"@, seq!["docker-compose"@])),
        )
    }

    /// Removes the next canary that was left behind.
    pub open spec fn remove_next(
        self,
        acts: Seq<action::ActionView>,
        ids: Seq<Seq<char>>,
        next: int,
    ) -> StepView {
        if next < ids.len() {
            self.go(
                PhaseView::RemoveStale { ids, next },
                acts.push(
                    action::run("docker"@, seq!["rm"@, "-f"@, split::trim_spec(ids[next])]),
                ),
            )
        } else {
            self.detect(acts)
        }
    }

    /// The list of canaries came back.
    #[verifier::opaque]
    pub open spec fn listed(self, r: Result<action::OutputView, Seq<char>>) -> StepView {
        let none = Seq::<action::ActionView>::empty();
        match r {
            Ok(o) => if o.success() {
                let ids = containers::nonempty_lines(o.stdout);
                if ids.len() == 0 {
                    self.detect(none.push(action::out("No stale canary containers found"@)))
                } else {
                    self.remove_next(
                        none.push(
                            action::out(
                                "Found "@ + number::decimal_spec(ids.len())
                                    + " stale canary container(s), removing..."@,
                            ),
                        ),
                        ids,
                        0,
                    )
                }
            } else {
                self.detect(none)
            },
            Err(_) => self.detect(none),
        }
    }

    /// The removal of a canary came back.
    #[verifier::opaque]
    pub open spec fn removed(
        self,
        ids: Seq<Seq<char>>,
        next: int,
        r: Result<action::OutputView, Seq<char>>,
    ) -> StepView {
        let none = Seq::<action::ActionView>::empty();
        let id = split::trim_spec(ids[next]);
        let told = match r {
            Ok(o) => if o.success() {
                none.push(action::out("  Removed: "@ + id))
            } else {
                none.push(action::err("  Failed to remove "@ + id + ": "@ + o.stderr))
            },
            Err(e) => none.push(action::err("  Error removing "@ + id + ": "@ + e)),
        };
        self.remove_next(told, ids, next + 1)
    }

    /// The compose command is known: the repository is updated where there is
    /// one.
    #[verifier::opaque]
    pub open spec fn detected(
        self,
        r: Result<action::OutputView, Seq<char>>,
        m: Moment,
    ) -> StepView {
        let compose = match r {
            Ok(o) => if o.success() {
                ComposeCommand::Standalone
            } else {
                ComposeCommand::Plugin
            },
            Err(_) => ComposeCommand::Plugin,
        };
        let s = (ComposeView { compose, ..self }).started(0, m.now);
        let acts = Seq::<action::ActionView>::empty().push(
            action::out("Using: "@ + compose.description()),
        ).push(s.publish());
        match self.git_repo_dir {
            Some(dir) => s.go(
                PhaseView::GitPull,
                acts.push(action::out("[1/4] Updating repository..."@)).push(
                    action::out(">>> git pull (in "@ + dir + ")"@),
                ).push(
                    action::run_in(
                        "git"@,
                        seq!["pull"@, "--ff-only"@, "origin"@, "master"@],
                        dir,
                    ),
                ),
            ),
            None => s.with_stage(0, s.stages[0].skipped(Some("not configured"@))).updated(
                acts.push(action::out("[1/4] Skipping git pull (not configured)"@)),
                m,
            ),
        }
    }

    /// The repository is as it will be: the image is pulled, unless the
    /// deployment has been cancelled.
    pub open spec fn updated(self, acts: Seq<action::ActionView>, m: Moment) -> StepView {
        let told = acts.push(self.publish());
        if m.cancelled {
            self.cancel(told)
        } else {
            let s = self.started(1, m.now);
            s.go(
                PhaseView::ImagePull,
                told.push(s.publish()).push(action::out("[2/4] Pulling Docker image..."@)).push(
                    action::out(">>> docker pull "@ + self.image),
                ).push(action::run("docker"@, seq!["pull"@, self.image])),
            )
        }
    }

    /// The update of the repository came back. It may fail.
    #[verifier::opaque]
    pub open spec fn git_pulled(
        self,
        r: Result<action::OutputView, Seq<char>>,
        m: Moment,
    ) -> StepView {
        let none = Seq::<action::ActionView>::empty();
        match r {
            Ok(o) => if o.success() {
                self.finished(0, m.now, true, None).updated(none + action::output_logs(o), m)
            } else {
                self.finished(0, m.now, false, Some("git pull failed, continuing"@)).updated(
                    (none + action::output_logs(o)).push(
                        action::err("Warning: git pull failed, continuing with existing files"@),
                    ),
                    m,
                )
            },
            Err(e) => self.finished(0, m.now, false, Some(e)).updated(
                none.push(action::err("Warning: Failed to run git pull: "@ + e)),
                m,
            ),
        }
    }

    /// The canary of this deployment.
    pub open spec fn canary_check(self) -> canary::CanaryView {
        canary::CanaryView {
            name: canary::canary_name_spec(self.task_id),
            compose: self.compose,
            compose_path: self.compose_path(),
            work_dir: self.work_dir,
            service: self.service,
            health_port: match self.health_port {
                Some(p) => p,
                None => DEFAULT_HEALTH_PORT,
            },
            phase: canary::PhaseView::Ended,
        }
    }

    /// The image is there: it is tried, unless the deployment has been
    /// cancelled or has failed.
    pub open spec fn image_done(self, acts: Seq<action::ActionView>, m: Moment) -> StepView {
        let told = acts.push(self.publish());
        if m.cancelled && self.exit_code == 0 {
            self.cancel(told)
        } else if self.exit_code == 0 {
            let s = self.started(2, m.now);
            let step = s.canary_check().begin_spec();
            s.go(
                PhaseView::Canary { check: step.state },
                told.push(s.publish()).push(
                    action::out("[3/4] Running canary health check..."@),
                ) + step.actions,
            )
        } else {
            self.wrap_up(told)
        }
    }

    /// The pull of the image came back.
    #[verifier::opaque]
    pub open spec fn image_pulled(
        self,
        r: Result<action::OutputView, Seq<char>>,
        m: Moment,
    ) -> StepView {
        let none = Seq::<action::ActionView>::empty();
        match r {
            Ok(o) => if o.success() {
                self.finished(1, m.now, true, None).image_done(none + action::output_logs(o), m)
            } else {
                self.finished(1, m.now, false, Some("docker pull failed"@)).exiting(
                    o.code_or(),
                ).image_done(
                    (none + action::output_logs(o)).push(
                        action::err("Error: Failed to pull image"@),
                    ),
                    m,
                )
            },
            Err(e) => self.finished(1, m.now, false, Some(e)).exiting(EXIT_UNKNOWN).image_done(
                none.push(action::err("Error: Failed to run docker pull: "@ + e)),
                m,
            ),
        }
    }

    /// The name of the services that are replaced.
    pub open spec fn service_label(self) -> Seq<char> {
        match self.service {
            Some(s) => s,
            None => "all services"@,
        }
    }

    /// The service, or nothing.
    pub open spec fn service_or_empty(self) -> Seq<char> {
        match self.service {
            Some(s) => s,
            None => ""@,
        }
    }

    /// The canary has passed: compose is told of the image.
    pub open spec fn swap(self, acts: Seq<action::ActionView>, m: Moment) -> StepView {
        let s = self.started(3, m.now);
        s.go(
            PhaseView::ComposePull,
            acts.push(s.publish()).push(
                action::out("[4/4] Swapping to new container: "@ + self.service_label() + "..."@),
            ).push(
                action::out(
                    ">>> "@ + self.compose.program_spec() + " -f "@ + self.compose_path()
                        + " pull "@ + self.service_or_empty(),
                ),
            ).push(self.compose_run(self.with_service(seq!["pull"@]))),
        )
    }

    /// A step of the canary came back.
    #[verifier::opaque]
    pub open spec fn canary_stepped(self, step: canary::StepView, m: Moment) -> StepView {
        match step.verdict {
            None => self.go(PhaseView::Canary { check: step.state }, step.actions),
            Some(Ok(())) => {
                let s = self.finished(2, m.now, true, None);
                s.swap(
                    step.actions.push(action::out("✓ Canary health check passed"@)).push(
                        s.publish(),
                    ),
                    m,
                )
            },
            Some(Err(e)) => {
                let s = self.finished(2, m.now, false, Some(e)).exiting(EXIT_UNKNOWN);
                s.wrap_up(
                    step.actions.push(action::err("✗ Canary health check failed: "@ + e)).push(
                        action::err("Aborting deployment - keeping old container running"@),
                    ).push(s.publish()),
                )
            },
        }
    }

    /// Compose has been told of the image: the container is replaced.
    pub open spec fn compose_pulled(self) -> StepView {
        let command = ">>> "@ + self.compose.program_spec() + " -f "@ + self.compose_path()
            + " up -d --force-recreate"@;
        self.go(
            PhaseView::ComposeUp,
            Seq::<action::ActionView>::empty().push(
                action::out(
                    match self.service {
                        Some(s) => command + " "@ + s,
                        None => command,
                    },
                ),
            ).push(
                self.compose_run(self.with_service(seq!["up"@, "-d"@, "--force-recreate"@])),
            ),
        )
    }

    /// The watch of this deployment.
    pub open spec fn watch(self) -> monitor::MonitorView {
        monitor::MonitorView {
            compose: self.compose,
            compose_path: self.compose_path(),
            work_dir: self.work_dir,
            service_name: match self.service {
                Some(s) => s,
                None => "xjp-backend"@,
            },
            container: Seq::empty(),
            since: 0,
            initial_restarts: None,
            log_len: 0,
            phase: MonitorPhase::Ended,
        }
    }

    /// The container has been replaced, or could not be.
    pub open spec fn replaced(self, acts: Seq<action::ActionView>, m: Moment) -> StepView {
        let told = acts.push(self.publish());
        if self.exit_code == 0 {
            let s = self.started(4, m.now);
            let step = s.watch().begin_spec(m.clock_ns);
            s.go(
                PhaseView::Monitor { watch: step.state },
                told.push(s.publish()).push(
                    action::out(
                        "[5/5] Post-deploy monitoring for "@ + number::decimal_spec(
                            POST_DEPLOY_MONITOR_SECONDS as nat,
                        ) + " seconds..."@,
                    ),
                ) + step.actions,
            )
        } else {
            self.wrap_up(told)
        }
    }

    /// Both outputs as lines of the standard output.
    pub open spec fn plain_logs(o: action::OutputView) -> Seq<action::ActionView> {
        let none = Seq::<action::ActionView>::empty();
        let first = if o.stdout.len() > 0 {
            none.push(action::out(o.stdout))
        } else {
            none
        };
        if o.stderr.len() > 0 {
            first.push(action::out(o.stderr))
        } else {
            first
        }
    }

    /// The replacement came back.
    #[verifier::opaque]
    pub open spec fn composed_up(
        self,
        r: Result<action::OutputView, Seq<char>>,
        m: Moment,
    ) -> StepView {
        let none = Seq::<action::ActionView>::empty();
        match r {
            Ok(o) => if o.success() {
                self.finished(3, m.now, true, None).replaced(
                    ComposeView::plain_logs(o).push(action::out("✓ New container is now live"@)),
                    m,
                )
            } else {
                self.finished(3, m.now, false, Some("compose up failed"@)).exiting(
                    o.code_or(),
                ).replaced(
                    ComposeView::plain_logs(o).push(
                        action::err("Error: Failed to start services"@),
                    ),
                    m,
                )
            },
            Err(e) => self.finished(3, m.now, false, Some(e)).exiting(EXIT_UNKNOWN).replaced(
                none.push(action::err("Error: Failed to run compose up: "@ + e)),
                m,
            ),
        }
    }

    /// The watch is over: the state of the services is shown. A finding of
    /// the watch does not fail the deployment.
    pub open spec fn watched(
        self,
        acts: Seq<action::ActionView>,
        verdict: Result<(), Seq<char>>,
        m: Moment,
    ) -> StepView {
        let s = match verdict {
            Ok(()) => self.finished(4, m.now, true, None),
            Err(e) => self.finished(4, m.now, false, Some(e)),
        };
        let told = match verdict {
            Ok(()) => acts.push(
                action::out("✓ Post-deploy monitoring passed - container is stable"@),
            ),
            Err(e) => acts.push(action::err("✗ Post-deploy monitoring detected issue: "@ + e)),
        };
        s.go(
            PhaseView::ShowStatus,
            told.push(s.publish()).push(action::out(""@)).push(
                action::out("=== Deployment Complete (Blue-Green) ==="@),
            ).push(s.compose_run(seq!["ps"@])),
        )
    }

    /// A step of the watch came back.
    #[verifier::opaque]
    pub open spec fn monitor_stepped(self, step: monitor::MonitorStepView, m: Moment) -> StepView {
        match step.verdict {
            None => self.go(PhaseView::Monitor { watch: step.state }, step.actions),
            Some(v) => self.watched(step.actions, v, m),
        }
    }

    /// The standard output of a command that ran, where it is not empty.
    pub open spec fn stdout_log(r: Result<action::OutputView, Seq<char>>) -> Seq<action::ActionView> {
        let none = Seq::<action::ActionView>::empty();
        match r {
            Ok(o) => if o.stdout.len() > 0 {
                none.push(action::out(o.stdout))
            } else {
                none
            },
            Err(_) => none,
        }
    }

    /// The outcome of a command came back.
    pub open spec fn on_output_spec(
        self,
        r: Result<action::OutputView, Seq<char>>,
        m: Moment,
    ) -> StepView {
        let s = self.at(PhaseView::Done);
        match self.phase {
            PhaseView::ListStale => s.listed(r),
            PhaseView::RemoveStale { ids, next } => s.removed(ids, next, r),
            PhaseView::Detect => s.detected(r, m),
            PhaseView::GitPull => s.git_pulled(r, m),
            PhaseView::ImagePull => s.image_pulled(r, m),
            PhaseView::Canary { check } => s.canary_stepped(
                check.on_output_spec(r, m.clock_ns),
                m,
            ),
            PhaseView::ComposePull => s.compose_pulled(),
            PhaseView::ComposeUp => s.composed_up(r, m),
            PhaseView::Monitor { watch } => s.monitor_stepped(
                watch.on_output_spec(r, m.clock_ns),
                m,
            ),
            PhaseView::ShowStatus => s.go(
                PhaseView::ShowLogs,
                ComposeView::stdout_log(r).push(action::out(""@)).push(
                    action::out("Container logs (last 10 lines):"@),
                ).push(s.compose_run(seq!["logs"@, "--tail=10"@])),
            ),
            PhaseView::ShowLogs => s.wrap_up(ComposeView::stdout_log(r)),
            _ => StepView { state: self, actions: Seq::empty() },
        }
    }

    /// A pause is over.
    pub open spec fn on_wake_spec(self, m: Moment) -> StepView {
        let s = self.at(PhaseView::Done);
        match self.phase {
            PhaseView::Canary { check } => s.canary_stepped(check.on_wake_spec(m.clock_ns), m),
            PhaseView::Monitor { watch } => s.monitor_stepped(watch.on_wake_spec(m.clock_ns), m),
            _ => StepView { state: self, actions: Seq::empty() },
        }
    }
}

impl ComposeDeploy {
    /// The deployment has five stages.
    pub open spec fn wf(&self) -> bool {
        &&& self.stages@.len() == 5
        &&& self.phase matches ComposePhase::RemoveStale { ids, next } ==> next < ids@.len()
    }

    /// A deployment that has not begun.
    pub fn new(task_id: String, project: String, work_dir: String, config: DockerComposeConfig) -> (r:
        ComposeDeploy)
        ensures
            r.wf(),
            r.task_id == task_id,
            r.project == project,
            r.work_dir == work_dir,
            r.config == config,
            r@.stages == initial_stages(),
            r.exit_code == 0,
            r.compose is Plugin,
            r.phase is Ready,
    {
        let mut stages: Vec<DeployStage> = Vec::new();
        stages.push(DeployStage::new("git_pull", "Git Pull"));
        stages.push(DeployStage::new("docker_pull", "Docker Pull"));
        stages.push(DeployStage::new("health_check", "Health Check"));
        stages.push(DeployStage::new("compose_up", "Compose Up"));
        stages.push(DeployStage::new("post_deploy_monitor", "Post-Deploy Monitor"));
        assert(deploy::stage_views(stages@) =~= initial_stages());
        ComposeDeploy {
            task_id,
            project,
            work_dir,
            config,
            stages,
            exit_code: 0,
            compose: ComposeCommand::Plugin,
            phase: ComposePhase::Ready,
        }
    }

    fn compose_path(&self) -> (r: String)
        ensures
            r@ == self@.compose_path(),
    {
        if starts_with(self.config.compose_file.as_str(), "/") {
            self.config.compose_file.clone()
        } else {
            concat3(self.work_dir.as_str(), "/", self.config.compose_file.as_str())
        }
    }

    fn compose_run(&self, acts: &mut Actions, rest: Vec<String>)
        ensures
            final(acts)@ == old(acts)@.push(self@.compose_run(chars::views(rest@))),
    {
        let path = self.compose_path();
        let mut args = strings(&["-f", path.as_str()]);
        assert(chars::views(args@) =~= seq!["-f"@, path@]);
        let ghost head = args@;
        let mut tail = rest;
        args.append(&mut tail);
        assert(chars::views(args@) =~= chars::views(head) + chars::views(rest@));
        let all = self.compose.args(args);
        acts.run_in(self.compose.program(), all, self.work_dir.as_str());
    }

    fn with_service(&self, args: Vec<String>) -> (r: Vec<String>)
        ensures
            chars::views(r@) == self@.with_service(chars::views(args@)),
    {
        let mut r = args;
        if let Some(s) = &self.config.service {
            r.push(s.clone());
        }
        assert(chars::views(r@) =~= self@.with_service(chars::views(args@)));
        r
    }

    fn cancel(&mut self, acts: &mut Actions)
        requires
            old(self).wf(),
        ensures
            final(self).wf(),
            old(self)@.cancel(old(acts)@) == (StepView {
                state: final(self)@,
                actions: final(acts)@,
            }),
    {
        acts.err("Deployment cancelled");
        acts.finish(DeployStatus::Failed, EXIT_CANCELLED, &self.stages);
        self.phase = ComposePhase::Done;
    }

    fn wrap_up(&mut self, acts: &mut Actions)
        requires
            old(self).wf(),
        ensures
            final(self).wf(),
            old(self)@.wrap_up(old(acts)@) == (StepView {
                state: final(self)@,
                actions: final(acts)@,
            }),
    {
        acts.out("");
        acts.out("=== Stage Summary ===");
        acts.summary(&self.stages);
        let status = if self.exit_code == 0 {
            DeployStatus::Success
        } else {
            DeployStatus::Failed
        };
        acts.finish(status, self.exit_code, &self.stages);
        self.phase = ComposePhase::Done;
    }

    fn detect(&mut self, acts: &mut Actions)
        requires
            old(self).wf(),
        ensures
            final(self).wf(),
            old(self)@.detect(old(acts)@) == (StepView {
                state: final(self)@,
                actions: final(acts)@,
            }),
    {
        let args = strings(&["docker-compose"]);
        assert(chars::views(args@) =~= seq!["docker-compose"@]);
        acts.run("which", args);
        self.phase = ComposePhase::Detect;
    }

    fn remove_next(&mut self, acts: &mut Actions, ids: Vec<String>, next: usize)
        requires
            old(self).wf(),
        ensures
            final(self).wf(),
            old(self)@.remove_next(old(acts)@, chars::views(ids@), next as int) == (StepView {
                state: final(self)@,
                actions: final(acts)@,
            }),
    {
        if next < ids.len() {
            assert(ids@[next as int]@ == chars::views(ids@)[next as int]);
            let id = trim(ids[next].as_str());
            let args = strings(&["rm", "-f", id.as_str()]);
            assert(chars::views(args@) =~= seq!["rm"@, "-f"@, id@]);
            acts.run("docker", args);
            self.phase = ComposePhase::RemoveStale { ids, next };
        } else {
            self.detect(acts);
        }
    }

    fn listed(&mut self, acts: &mut Actions, result: Result<ProcessOutput, String>)
        requires
            old(self).wf(),
            old(acts)@ == Seq::<action::ActionView>::empty(),
        ensures
            final(self).wf(),
            old(self)@.listed(action::result_view(result)) == (StepView {
                state: final(self)@,
                actions: final(acts)@,
            }),
    {
        reveal(ComposeView::listed);
        if let Ok(o) = result {
            if o.is_success() {
                let ids = containers::nonempty_line_list(o.stdout.as_str());
                assert(chars::views(ids@).len() == ids@.len());
                if ids.len() == 0 {
                    acts.out("No stale canary containers found");
                } else {
                    acts.out(
                        concat3(
                            "Found ",
                            decimal(ids.len() as u64).as_str(),
                            " stale canary container(s), removing...",
                        ).as_str(),
                    );
                    self.remove_next(acts, ids, 0);
                    return;
                }
            }
        }
        self.detect(acts);
    }

    fn removed(
        &mut self,
        acts: &mut Actions,
        ids: Vec<String>,
        next: usize,
        result: Result<ProcessOutput, String>,
    )
        requires
            old(self).wf(),
            next < ids@.len(),
            old(acts)@ == Seq::<action::ActionView>::empty(),
        ensures
            final(self).wf(),
            old(self)@.removed(chars::views(ids@), next as int, action::result_view(result)) == (
            StepView { state: final(self)@, actions: final(acts)@ }),
    {
        reveal(ComposeView::removed);
        assert(ids@[next as int]@ == chars::views(ids@)[next as int]);
        let id = trim(ids[next].as_str());
        match result {
            Ok(o) => {
                if o.is_success() {
                    acts.out(concat2("  Removed: ", id.as_str()).as_str());
                } else {
                    acts.err(
                        concat4(
                            "  Failed to remove ",
                            id.as_str(),
                            ": ",
                            o.stderr.as_str(),
                        ).as_str(),
                    );
                }
            },
            Err(e) => {
                acts.err(
                    concat4("  Error removing ", id.as_str(), ": ", e.as_str()).as_str(),
                );
            },
        }
        let n = ids.len();
        assert(next < n);
        self.remove_next(acts, ids, next + 1);
    }

    fn updated(&mut self, acts: &mut Actions, m: &Moment)
        requires
            old(self).wf(),
        ensures
            final(self).wf(),
            old(self)@.updated(old(acts)@, *m) == (StepView {
                state: final(self)@,
                actions: final(acts)@,
            }),
    {
        acts.stages(&self.stages);
        if m.cancelled {
            self.cancel(acts);
            return;
        }
        start_stage(&mut self.stages, 1, m.now);
        acts.stages(&self.stages);
        acts.out("[2/4] Pulling Docker image...");
        acts.out(concat2(">>> docker pull ", self.config.image.as_str()).as_str());
        let args = strings(&["pull", self.config.image.as_str()]);
        assert(chars::views(args@) =~= seq!["pull"@, self@.image]);
        acts.run("docker", args);
        self.phase = ComposePhase::ImagePull;
    }

    fn detected(&mut self, acts: &mut Actions, result: Result<ProcessOutput, String>, m: &Moment)
        requires
            old(self).wf(),
            old(acts)@ == Seq::<action::ActionView>::empty(),
        ensures
            final(self).wf(),
            old(self)@.detected(action::result_view(result), *m) == (StepView {
                state: final(self)@,
                actions: final(acts)@,
            }),
    {
        reveal(ComposeView::detected);
        self.compose = match result {
            Ok(o) => if o.is_success() {
                ComposeCommand::Standalone
            } else {
                ComposeCommand::Plugin
            },
            Err(_) => ComposeCommand::Plugin,
        };
        acts.out(concat2("Using: ", self.compose.describe()).as_str());
        start_stage(&mut self.stages, 0, m.now);
        acts.stages(&self.stages);
        if let Some(dir) = &self.config.git_repo_dir {
            acts.out("[1/4] Updating repository...");
            acts.out(concat3(">>> git pull (in ", dir.as_str(), ")").as_str());
            let args = strings(&["pull", "--ff-only", "origin", "master"]);
            assert(chars::views(args@) =~= seq!["pull"@, "--ff-only"@, "origin"@, "master"@]);
            acts.run_in("git", args, dir.as_str());
            self.phase = ComposePhase::GitPull;
        } else {
            skip_stage(&mut self.stages, 0, Some("not configured".to_owned()));
            acts.out("[1/4] Skipping git pull (not configured)");
            self.updated(acts, m);
        }
    }

    fn git_pulled(&mut self, acts: &mut Actions, result: Result<ProcessOutput, String>, m: &Moment)
        requires
            old(self).wf(),
            old(acts)@ == Seq::<action::ActionView>::empty(),
        ensures
            final(self).wf(),
            old(self)@.git_pulled(action::result_view(result), *m) == (StepView {
                state: final(self)@,
                actions: final(acts)@,
            }),
    {
        reveal(ComposeView::git_pulled);
        match result {
            Ok(o) => {
                acts.output(&o);
                if o.is_success() {
                    finish_stage(&mut self.stages, 0, m.now, true, None);
                } else {
                    finish_stage(
                        &mut self.stages,
                        0,
                        m.now,
                        false,
                        Some("git pull failed, continuing".to_owned()),
                    );
                    acts.err("Warning: git pull failed, continuing with existing files");
                }
            },
            Err(e) => {
                acts.err(concat2("Warning: Failed to run git pull: ", e.as_str()).as_str());
                finish_stage(&mut self.stages, 0, m.now, false, Some(e));
            },
        }
        self.updated(acts, m);
    }

    fn new_canary(&self) -> (r: CanaryCheck)
        ensures
            r@ == self@.canary_check(),
    {
        CanaryCheck {
            name: canary_container_name(self.task_id.as_str()),
            compose: self.compose,
            compose_path: self.compose_path(),
            work_dir: self.work_dir.clone(),
            service: self.config.service.clone(),
            health_port: match self.config.health_port {
                Some(p) => p,
                None => DEFAULT_HEALTH_PORT,
            },
            phase: CanaryPhase::Ended,
        }
    }

    fn image_done(&mut self, acts: &mut Actions, m: &Moment)
        requires
            old(self).wf(),
        ensures
            final(self).wf(),
            old(self)@.image_done(old(acts)@, *m) == (StepView {
                state: final(self)@,
                actions: final(acts)@,
            }),
    {
        acts.stages(&self.stages);
        if m.cancelled && self.exit_code == 0 {
            self.cancel(acts);
        } else if self.exit_code == 0 {
            start_stage(&mut self.stages, 2, m.now);
            acts.stages(&self.stages);
            acts.out("[3/4] Running canary health check...");
            let mut check = self.new_canary();
            let mut inner = Actions::new();
            let _step = check.begin(&mut inner);
            acts.extend(inner);
            self.phase = ComposePhase::Canary { check };
        } else {
            self.wrap_up(acts);
        }
    }

    fn image_pulled(&mut self, acts: &mut Actions, result: Result<ProcessOutput, String>, m: &Moment)
        requires
            old(self).wf(),
            old(acts)@ == Seq::<action::ActionView>::empty(),
        ensures
            final(self).wf(),
            old(self)@.image_pulled(action::result_view(result), *m) == (StepView {
                state: final(self)@,
                actions: final(acts)@,
            }),
    {
        reveal(ComposeView::image_pulled);
        match result {
            Ok(o) => {
                acts.output(&o);
                if o.is_success() {
                    finish_stage(&mut self.stages, 1, m.now, true, None);
                } else {
                    finish_stage(
                        &mut self.stages,
                        1,
                        m.now,
                        false,
                        Some("docker pull failed".to_owned()),
                    );
                    acts.err("Error: Failed to pull image");
                    self.exit_code = o.exit_code();
                }
            },
            Err(e) => {
                acts.err(concat2("Error: Failed to run docker pull: ", e.as_str()).as_str());
                finish_stage(&mut self.stages, 1, m.now, false, Some(e));
                self.exit_code = EXIT_UNKNOWN;
            },
        }
        self.image_done(acts, m);
    }

    fn swap(&mut self, acts: &mut Actions, m: &Moment)
        requires
            old(self).wf(),
        ensures
            final(self).wf(),
            old(self)@.swap(old(acts)@, *m) == (StepView {
                state: final(self)@,
                actions: final(acts)@,
            }),
    {
        start_stage(&mut self.stages, 3, m.now);
        acts.stages(&self.stages);
        let (label, service) = match &self.config.service {
            Some(s) => (s.clone(), s.clone()),
            None => ("all services".to_owned(), "".to_owned()),
        };
        acts.out(
            concat3("[4/4] Swapping to new container: ", label.as_str(), "...").as_str(),
        );
        let mut line = concat5(
            ">>> ",
            self.compose.program(),
            " -f ",
            self.compose_path().as_str(),
            " pull ",
        );
        line.append(service.as_str());
        acts.out(line.as_str());
        let args = strings(&["pull"]);
        assert(chars::views(args@) =~= seq!["pull"@]);
        let all = self.with_service(args);
        self.compose_run(acts, all);
        self.phase = ComposePhase::ComposePull;
    }

    fn canary_stepped(
        &mut self,
        acts: &mut Actions,
        check: CanaryCheck,
        verdict: Option<Result<(), String>>,
        m: &Moment,
    )
        requires
            old(self).wf(),
        ensures
            final(self).wf(),
            old(self)@.canary_stepped(
                canary::StepView {
                    state: check@,
                    actions: old(acts)@,
                    verdict: canary::verdict_view(verdict),
                },
                *m,
            ) == (StepView { state: final(self)@, actions: final(acts)@ }),
    {
        reveal(ComposeView::canary_stepped);
        match verdict {
            None => {
                self.phase = ComposePhase::Canary { check };
            },
            Some(Ok(())) => {
                finish_stage(&mut self.stages, 2, m.now, true, None);
                acts.out("✓ Canary health check passed");
                acts.stages(&self.stages);
                self.swap(acts, m);
            },
            Some(Err(e)) => {
                acts.err(concat2("✗ Canary health check failed: ", e.as_str()).as_str());
                acts.err("Aborting deployment - keeping old container running");
                finish_stage(&mut self.stages, 2, m.now, false, Some(e));
                self.exit_code = EXIT_UNKNOWN;
                acts.stages(&self.stages);
                self.wrap_up(acts);
            },
        }
    }

    fn compose_pulled(&mut self, acts: &mut Actions)
        requires
            old(self).wf(),
            old(acts)@ == Seq::<action::ActionView>::empty(),
        ensures
            final(self).wf(),
            old(self)@.compose_pulled() == (StepView {
                state: final(self)@,
                actions: final(acts)@,
            }),
    {
        let mut line = concat5(
            ">>> ",
            self.compose.program(),
            " -f ",
            self.compose_path().as_str(),
            " up -d --force-recreate",
        );
        if let Some(s) = &self.config.service {
            line.append(" ");
            line.append(s.as_str());
        }
        acts.out(line.as_str());
        let args = strings(&["up", "-d", "--force-recreate"]);
        assert(chars::views(args@) =~= seq!["up"@, "-d"@, "--force-recreate"@]);
        let all = self.with_service(args);
        self.compose_run(acts, all);
        self.phase = ComposePhase::ComposeUp;
    }

    fn new_watch(&self) -> (r: PostDeployMonitor)
        ensures
            r@ == self@.watch(),
    {
        let r = PostDeployMonitor {
            compose: self.compose,
            compose_path: self.compose_path(),
            work_dir: self.work_dir.clone(),
            service_name: match &self.config.service {
                Some(s) => s.clone(),
                None => "xjp-backend".to_owned(),
            },
            container: String::new(),
            since: 0,
            initial_restarts: None,
            log_len: 0,
            phase: MonitorPhase::Ended,
        };
        r
    }

    fn replaced(&mut self, acts: &mut Actions, m: &Moment)
        requires
            old(self).wf(),
        ensures
            final(self).wf(),
            old(self)@.replaced(old(acts)@, *m) == (StepView {
                state: final(self)@,
                actions: final(acts)@,
            }),
    {
        acts.stages(&self.stages);
        if self.exit_code == 0 {
            start_stage(&mut self.stages, 4, m.now);
            acts.stages(&self.stages);
            acts.out(
                concat3(
                    "[5/5] Post-deploy monitoring for ",
                    decimal(POST_DEPLOY_MONITOR_SECONDS).as_str(),
                    " seconds...",
                ).as_str(),
            );
            let mut watch = self.new_watch();
            let mut inner = Actions::new();
            watch.begin(&mut inner, m.clock_ns);
            acts.extend(inner);
            self.phase = ComposePhase::Monitor { watch };
        } else {
            self.wrap_up(acts);
        }
    }

    fn composed_up(&mut self, acts: &mut Actions, result: Result<ProcessOutput, String>, m: &Moment)
        requires
            old(self).wf(),
            old(acts)@ == Seq::<action::ActionView>::empty(),
        ensures
            final(self).wf(),
            old(self)@.composed_up(action::result_view(result), *m) == (StepView {
                state: final(self)@,
                actions: final(acts)@,
            }),
    {
        reveal(ComposeView::composed_up);
        match result {
            Ok(o) => {
                if !o.stdout.as_str().is_empty() {
                    acts.out(o.stdout.as_str());
                }
                if !o.stderr.as_str().is_empty() {
                    acts.out(o.stderr.as_str());
                }
                if o.is_success() {
                    finish_stage(&mut self.stages, 3, m.now, true, None);
                    acts.out("✓ New container is now live");
                } else {
                    finish_stage(
                        &mut self.stages,
                        3,
                        m.now,
                        false,
                        Some("compose up failed".to_owned()),
                    );
                    acts.err("Error: Failed to start services");
                    self.exit_code = o.exit_code();
                }
            },
            Err(e) => {
                acts.err(concat2("Error: Failed to run compose up: ", e.as_str()).as_str());
                finish_stage(&mut self.stages, 3, m.now, false, Some(e));
                self.exit_code = EXIT_UNKNOWN;
            },
        }
        self.replaced(acts, m);
    }

    fn watched(&mut self, acts: &mut Actions, verdict: Result<(), String>, m: &Moment)
        requires
            old(self).wf(),
        ensures
            final(self).wf(),
            old(self)@.watched(
                old(acts)@,
                match verdict {
                    Ok(()) => Ok(()),
                    Err(e) => Err(e@),
                },
                *m,
            ) == (StepView { state: final(self)@, actions: final(acts)@ }),
    {
        match verdict {
            Ok(()) => {
                finish_stage(&mut self.stages, 4, m.now, true, None);
                acts.out("✓ Post-deploy monitoring passed - container is stable");
            },
            Err(e) => {
                acts.err(
                    concat2("✗ Post-deploy monitoring detected issue: ", e.as_str()).as_str(),
                );
                finish_stage(&mut self.stages, 4, m.now, false, Some(e));
            },
        }
        acts.stages(&self.stages);
        acts.out("");
        acts.out("=== Deployment Complete (Blue-Green) ===");
        let args = strings(&["ps"]);
        assert(chars::views(args@) =~= seq!["ps"@]);
        self.compose_run(acts, args);
        self.phase = ComposePhase::ShowStatus;
    }

    fn monitor_stepped(
        &mut self,
        acts: &mut Actions,
        watch: PostDeployMonitor,
        verdict: Option<Result<(), String>>,
        m: &Moment,
    )
        requires
            old(self).wf(),
        ensures
            final(self).wf(),
            old(self)@.monitor_stepped(
                monitor::MonitorStepView {
                    state: watch@,
                    actions: old(acts)@,
                    verdict: canary::verdict_view(verdict),
                },
                *m,
            ) == (StepView { state: final(self)@, actions: final(acts)@ }),
    {
        reveal(ComposeView::monitor_stepped);
        match verdict {
            None => {
                self.phase = ComposePhase::Monitor { watch };
            },
            Some(v) => {
                self.watched(acts, v, m);
            },
        }
    }

    fn stdout_log(acts: &mut Actions, result: &Result<ProcessOutput, String>)
        requires
            old(acts)@ == Seq::<action::ActionView>::empty(),
        ensures
            final(acts)@ == ComposeView::stdout_log(action::result_view(*result)),
    {
        if let Ok(o) = result {
            if !o.stdout.as_str().is_empty() {
                acts.out(o.stdout.as_str());
            }
        }
    }

    /// Begins the deployment.
    pub fn begin(&mut self, m: &Moment) -> (r: Vec<DeployAction>)
        requires
            old(self).wf(),
        ensures
            final(self).wf(),
            old(self)@.begin_spec(*m) == (StepView {
                state: final(self)@,
                actions: action::action_views(r@),
            }),
    {
        let mut acts = Actions::new();
        acts.out(
            concat3(
                "=== Docker Compose Deploy (Blue-Green) for ",
                self.project.as_str(),
                " ===",
            ).as_str(),
        );
        acts.out(concat2("Working directory: ", self.work_dir.as_str()).as_str());
        acts.out(concat2("Compose file: ", self.config.compose_file.as_str()).as_str());
        acts.out(concat2("Image: ", self.config.image.as_str()).as_str());
        acts.out(concat2("Timestamp: ", m.now.to_rfc3339().as_str()).as_str());
        acts.out("Strategy: Blue-Green (canary health check before swap)");
        acts.out(
            concat2(
                "Canary container: ",
                canary_container_name(self.task_id.as_str()).as_str(),
            ).as_str(),
        );
        acts.out(">>> Cleaning up stale canary containers...");
        let args = strings(&["ps", "-a", "-q", "--filter", "name=^deploy-canary"]);
        assert(chars::views(args@) =~= seq![
            "ps"@,
            "-a"@,
            "-q"@,
            "--filter"@,
            "name=^deploy-canary"@,
        ]);
        acts.run("docker", args);
        self.phase = ComposePhase::ListStale;
        assert(acts@ =~= old(self)@.begin_spec(*m).actions);
        acts.list
    }

    /// Takes the outcome of the command that the deployment waits for.
    pub fn on_output(&mut self, result: Result<ProcessOutput, String>, m: &Moment) -> (r: Vec<
        DeployAction,
    >)
        requires
            old(self).wf(),
        ensures
            final(self).wf(),
            old(self)@.on_output_spec(action::result_view(result), *m) == (StepView {
                state: final(self)@,
                actions: action::action_views(r@),
            }),
    {
        let mut acts = Actions::new();
        let mut phase = ComposePhase::Done;
        std::mem::swap(&mut phase, &mut self.phase);
        match phase {
            ComposePhase::ListStale => {
                self.listed(&mut acts, result);
            },
            ComposePhase::RemoveStale { ids, next } => {
                self.removed(&mut acts, ids, next, result);
            },
            ComposePhase::Detect => {
                self.detected(&mut acts, result, m);
            },
            ComposePhase::GitPull => {
                self.git_pulled(&mut acts, result, m);
            },
            ComposePhase::ImagePull => {
                self.image_pulled(&mut acts, result, m);
            },
            ComposePhase::Canary { check } => {
                let mut check = check;
                let step = check.on_output(&mut acts, result, m.clock_ns);
                self.canary_stepped(&mut acts, check, step.verdict, m);
            },
            ComposePhase::ComposePull => {
                self.compose_pulled(&mut acts);
            },
            ComposePhase::ComposeUp => {
                self.composed_up(&mut acts, result, m);
            },
            ComposePhase::Monitor { watch } => {
                let mut watch = watch;
                let step = watch.on_output(&mut acts, result, m.clock_ns);
                self.monitor_stepped(&mut acts, watch, step.verdict, m);
            },
            ComposePhase::ShowStatus => {
                ComposeDeploy::stdout_log(&mut acts, &result);
                acts.out("");
                acts.out("Container logs (last 10 lines):");
                let args = strings(&["logs", "--tail=10"]);
                assert(chars::views(args@) =~= seq!["logs"@, "--tail=10"@]);
                self.compose_run(&mut acts, args);
                self.phase = ComposePhase::ShowLogs;
            },
            ComposePhase::ShowLogs => {
                ComposeDeploy::stdout_log(&mut acts, &result);
                self.wrap_up(&mut acts);
            },
            other => {
                self.phase = other;
            },
        }
        acts.list
    }

    /// Takes the end of the pause that the deployment waits for.
    pub fn on_wake(&mut self, m: &Moment) -> (r: Vec<DeployAction>)
        requires
            old(self).wf(),
        ensures
            final(self).wf(),
            old(self)@.on_wake_spec(*m) == (StepView {
                state: final(self)@,
                actions: action::action_views(r@),
            }),
    {
        let mut acts = Actions::new();
        let mut phase = ComposePhase::Done;
        std::mem::swap(&mut phase, &mut self.phase);
        match phase {
            ComposePhase::Canary { check } => {
                let mut check = check;
                let step = check.on_wake(&mut acts, m.clock_ns);
                self.canary_stepped(&mut acts, check, step.verdict, m);
            },
            ComposePhase::Monitor { watch } => {
                let mut watch = watch;
                let step = watch.on_wake(&mut acts, m.clock_ns);
                self.monitor_stepped(&mut acts, watch, step.verdict, m);
            },
            other => {
                self.phase = other;
            },
        }
        acts.list
    }
}

} // verus!
