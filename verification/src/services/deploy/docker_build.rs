//! Deployment by building an image and pushing it to its registry.

use vstd::prelude::*;

use crate::domain::deploy;
use crate::domain::deploy::{finish_stage, start_stage, DeployStage, DeployStatus, StageStatus};
use crate::services::deploy::action;
use crate::services::deploy::action::{
    Actions, DeployAction, Moment, ProcessOutput, SpawnEnd, EXIT_CANCELLED, EXIT_UNKNOWN,
};
use crate::services::deploy::zombies;
use crate::services::deploy::zombies::ZombieCleanup;
use crate::text::chars;
use crate::text::chars::{concat2, concat3, concat4, concat5, strings};
use crate::text::number;
use crate::text::number::{decimal, signed_decimal};
use crate::text::split;
use crate::text::split::trim;
use crate::time;

verus! {

/// What is built.
#[derive(Debug)]
pub struct DockerBuildConfig {
    /// "Dockerfile" by default.
    pub dockerfile: Option<String>,
    /// "." by default.
    pub build_context: Option<String>,
    pub image: String,
    /// The hash of the commit by default.
    pub tag: Option<String>,
    pub push_latest: bool,
    /// "master" by default.
    pub branch: Option<String>,
}

/// How far the deployment has come.
#[derive(Debug)]
pub enum BuildPhase {
    /// Nothing has happened.
    Ready,
    /// Updating the repository.
    GitPull,
    /// Reading the hash of the commit.
    RevParse,
    /// Removing docker processes that are in the way.
    Cleanup { cleanup: ZombieCleanup },
    /// Building the image.
    Build,
    /// Pushing the image.
    Push,
    /// Tagging the image as the latest.
    Tag,
    /// Pushing the latest tag.
    PushLatest,
    /// The deployment is over.
    Done,
}

/// A deployment by building an image.
#[derive(Debug)]
pub struct BuildDeploy {
    pub project: String,
    pub work_dir: String,
    pub config: DockerBuildConfig,
    pub stages: Vec<DeployStage>,
    pub exit_code: i32,
    /// The tag of the image.
    pub tag: String,
    pub phase: BuildPhase,
}

/// The contents of a `BuildPhase`.
pub ghost enum PhaseView {
    Ready,
    GitPull,
    RevParse,
    Cleanup { cleanup: zombies::CleanupView },
    Build,
    Push,
    Tag,
    PushLatest,
    Done,
}

/// The contents of a `BuildDeploy`.
pub ghost struct BuildView {
    pub project: Seq<char>,
    pub work_dir: Seq<char>,
    pub dockerfile: Option<Seq<char>>,
    pub build_context: Option<Seq<char>>,
    pub image: Seq<char>,
    pub given_tag: Option<Seq<char>>,
    pub push_latest: bool,
    pub branch: Option<Seq<char>>,
    pub stages: Seq<deploy::StageView>,
    pub exit_code: i32,
    pub tag: Seq<char>,
    pub phase: PhaseView,
}

impl View for BuildPhase {
    type V = PhaseView;

    open spec fn view(&self) -> PhaseView {
        match *self {
            BuildPhase::Ready => PhaseView::Ready,
            BuildPhase::GitPull => PhaseView::GitPull,
            BuildPhase::RevParse => PhaseView::RevParse,
            BuildPhase::Cleanup { cleanup } => PhaseView::Cleanup { cleanup: cleanup@ },
            BuildPhase::Build => PhaseView::Build,
            BuildPhase::Push => PhaseView::Push,
            BuildPhase::Tag => PhaseView::Tag,
            BuildPhase::PushLatest => PhaseView::PushLatest,
            BuildPhase::Done => PhaseView::Done,
        }
    }
}

impl View for BuildDeploy {
    type V = BuildView;

    open spec fn view(&self) -> BuildView {
        BuildView {
            project: self.project@,
            work_dir: self.work_dir@,
            dockerfile: chars::opt_view(self.config.dockerfile),
            build_context: chars::opt_view(self.config.build_context),
            image: self.config.image@,
            given_tag: chars::opt_view(self.config.tag),
            push_latest: self.config.push_latest,
            branch: chars::opt_view(self.config.branch),
            stages: deploy::stage_views(self.stages@),
            exit_code: self.exit_code,
            tag: self.tag@,
            phase: self.phase@,
        }
    }
}

/// What a step of the deployment leads to.
pub ghost struct StepView {
    pub state: BuildView,
    pub actions: Seq<action::ActionView>,
}

/// The stages of the deployment before it begins.
pub open spec fn initial_stages(push_latest: bool) -> Seq<deploy::StageView> {
    let first = seq![
        deploy::StageView::pending("git_pull"@, "Git Pull"@),
        deploy::StageView::pending("docker_build"@, "Docker Build"@),
        deploy::StageView::pending("docker_push"@, "Docker Push"@),
    ];
    if push_latest {
        first.push(deploy::StageView::pending("docker_push_latest"@, "Push Latest Tag"@))
    } else {
        first
    }
}

/// The text, or a default.
pub open spec fn or(o: Option<Seq<char>>, default: Seq<char>) -> Seq<char> {
    match o {
        Some(s) => s,
        None => default,
    }
}

fn text_or(o: &Option<String>, default: &str) -> (r: String)
    ensures
        r@ == or(chars::opt_view(*o), default@),
{
    match o {
        Some(s) => s.clone(),
        None => default.to_owned(),
    }
}

/// A stage that did not come to its end is passed over.
pub open spec fn dropped(s: deploy::StageView) -> deploy::StageView {
    if s.status == StageStatus::Pending || s.status == StageStatus::Running {
        deploy::StageView { status: StageStatus::Skipped, ..s }
    } else {
        s
    }
}

/// Passes over every stage that did not come to its end.
fn drop_stages(stages: &mut Vec<DeployStage>)
    ensures
        final(stages)@.len() == old(stages)@.len(),
        deploy::stage_views(final(stages)@) == deploy::stage_views(old(stages)@).map_values(
            |s: deploy::StageView| dropped(s),
        ),
{
    let ghost before = stages@;
    let n = stages.len();
    let mut i: usize = 0;
    while i < n
        invariant
            i <= n,
            n == before.len(),
            stages@.len() == n,
            forall|j: int| 0 <= j < i ==> (#[trigger] stages@[j])@ == dropped(before[j]@),
            forall|j: int| i <= j < n ==> stages@[j] == before[j],
        decreases n - i,
    {
        let mut s = stages[i].clone();
        let open = match s.status {
            StageStatus::Pending => true,
            StageStatus::Running => true,
            _ => false,
        };
        if open {
            s.status = StageStatus::Skipped;
        }
        stages.set(i, s);
        i = i + 1;
    }
    assert(deploy::stage_views(stages@) =~= deploy::stage_views(before).map_values(
        |s: deploy::StageView| dropped(s),
    ));
}

impl BuildView {
    /// The file that the build reads.
    pub open spec fn dockerfile_path(self) -> Seq<char> {
        or(self.dockerfile, "Dockerfile"@)
    }

    /// The directory that the build sees.
    pub open spec fn context_path(self) -> Seq<char> {
        or(self.build_context, "."@)
    }

    /// The branch that is built.
    pub open spec fn branch_name(self) -> Seq<char> {
        or(self.branch, "master"@)
    }

    /// The image with its tag.
    pub open spec fn full_image(self) -> Seq<char> {
        self.image + ":"@ + self.tag
    }

    /// The image with the latest tag.
    pub open spec fn latest_image(self) -> Seq<char> {
        self.image + ":latest"@
    }

    /// The same deployment in another phase.
    pub open spec fn at(self, phase: PhaseView) -> BuildView {
        BuildView { phase, ..self }
    }

    /// The same deployment with the stage at `i` begun.
    pub open spec fn started(self, i: int, now: time::Timestamp) -> BuildView {
        BuildView { stages: self.stages.update(i, self.stages[i].started(now)), ..self }
    }

    /// The same deployment with the stage at `i` ended.
    pub open spec fn finished(
        self,
        i: int,
        now: time::Timestamp,
        success: bool,
        message: Option<Seq<char>>,
    ) -> BuildView {
        BuildView {
            stages: self.stages.update(i, self.stages[i].finished(now, success, message)),
            ..self
        }
    }

    /// The same deployment with another exit code.
    pub open spec fn exiting(self, exit_code: i32) -> BuildView {
        BuildView { exit_code, ..self }
    }

    /// The publication of the stages.
    pub open spec fn publish(self) -> action::ActionView {
        action::ActionView::Stages { stages: self.stages }
    }

    /// A step into a phase.
    pub open spec fn go(self, phase: PhaseView, actions: Seq<action::ActionView>) -> StepView {
        StepView { state: self.at(phase), actions }
    }

    /// The end of a cancelled deployment.
    pub open spec fn cancel(self, acts: Seq<action::ActionView>) -> StepView {
        self.go(
            PhaseView::Done,
            acts.push(
                action::ActionView::Finish {
                    status: DeployStatus::Failed,
                    exit_code: EXIT_CANCELLED,
                    stages: self.stages,
                },
            ),
        )
    }

    /// The end of a deployment that was not cancelled.
    pub open spec fn wrap_up(self, acts: Seq<action::ActionView>) -> StepView {
        let status = if self.exit_code == 0 {
            DeployStatus::Success
        } else {
            DeployStatus::Failed
        };
        self.go(
            PhaseView::Done,
            (acts.push(action::out("=== Docker Build Deploy finished ==="@)).push(
                action::out(
                    if self.exit_code == 0 {
                        "Status: Success"@
                    } else {
                        "Status: Failed"@
                    },
                ),
            ).push(
                action::out("Exit code: "@ + number::signed_decimal_spec(self.exit_code as int)),
            ).push(action::out("\n=== Stage Summary ==="@)) + action::summary_lines(
                self.stages,
            )).push(
                action::ActionView::Finish {
                    status,
                    exit_code: self.exit_code,
                    stages: self.stages,
                },
            ),
        )
    }

    /// The deployment begins.
    pub open spec fn begin_spec(self, m: Moment) -> StepView {
        let s = self.started(0, m.now);
        s.go(
            PhaseView::GitPull,
            seq![
                action::out("=== Docker Build Deploy for "@ + self.project + " ==="@),
                action::out("Working directory: "@ + self.work_dir),
                action::out("Dockerfile: "@ + self.dockerfile_path()),
                action::out("Build context: "@ + self.context_path()),
                action::out("Target image: "@ + self.image),
                action::out("Branch: "@ + self.branch_name()),
                action::out("Timestamp: "@ + time::rfc3339_text(m.now.seconds(), m.now.subsec())),
                s.publish(),
                action::out("[1/4] Pulling latest code..."@),
                action::out(">>> git pull --ff-only origin "@ + self.branch_name()),
                action::run_in(
                    "git"@,
                    seq!["pull"@, "--ff-only"@, "origin"@, self.branch_name()],
                    self.work_dir,
                ),
            ],
        )
    }

    /// The repository is as it will be: the way is cleared for the build,
    /// unless the deployment has been cancelled or has failed.
    pub open spec fn prepared(self, acts: Seq<action::ActionView>, m: Moment) -> StepView {
        if m.cancelled {
            self.cancel(acts.push(action::err("Deployment cancelled"@)))
        } else if self.exit_code == 0 {
            let step = (zombies::CleanupView {
                zombies: 0,
                hung: 0,
                phase: zombies::PhaseView::ListAll,
            }).begin_spec();
            self.go(
                PhaseView::Cleanup { cleanup: step.state },
                acts.push(action::out("Checking for zombie docker processes..."@)).push(
                    step.command->0,
                ),
            )
        } else {
            self.wrap_up(acts)
        }
    }

    /// The update of the repository came back.
    #[verifier::opaque]
    pub open spec fn git_pulled(
        self,
        r: Result<action::OutputView, Seq<char>>,
        m: Moment,
    ) -> StepView {
        let none = Seq::<action::ActionView>::empty();
        let s = match r {
            Ok(o) => if o.success() {
                self.finished(0, m.now, true, None)
            } else {
                self.finished(0, m.now, false, Some("git pull failed"@)).exiting(o.code_or())
            },
            Err(e) => self.finished(0, m.now, false, Some(e)).exiting(EXIT_UNKNOWN),
        };
        let told = match r {
            Ok(o) => none + action::output_logs(o),
            Err(e) => none.push(action::err("Error: Failed to run git pull: "@ + e)),
        }.push(s.publish());
        if s.exit_code == 0 && self.given_tag is None {
            s.go(
                PhaseView::RevParse,
                told.push(
                    action::run_in(
                        "git"@,
                        seq!["rev-parse"@, "--short"@, "HEAD"@],
                        self.work_dir,
                    ),
                ),
            )
        } else {
            s.prepared(told, m)
        }
    }

    /// The hash of the commit came back.
    #[verifier::opaque]
    pub open spec fn hashed(self, r: Result<action::OutputView, Seq<char>>, m: Moment) -> StepView {
        let none = Seq::<action::ActionView>::empty();
        match r {
            Ok(o) => if o.success() {
                let tag = split::trim_spec(o.stdout);
                (BuildView { tag, ..self }).prepared(
                    none.push(action::out("Using commit hash as tag: "@ + tag)),
                    m,
                )
            } else {
                self.prepared(none, m)
            },
            Err(_) => self.prepared(none, m),
        }
    }

    /// The way is clear: the image is built.
    pub open spec fn build(self, zombies: u64, hung: u64, m: Moment) -> StepView {
        let none = Seq::<action::ActionView>::empty();
        let told = if zombies > 0 || hung > 0 {
            none.push(
                action::out(
                    "Cleaned up "@ + number::decimal_spec(zombies as nat) + " zombie and "@
                        + number::decimal_spec(hung as nat) + " hung docker processes"@,
                ),
            )
        } else {
            none
        };
        let s = self.started(1, m.now);
        s.go(
            PhaseView::Build,
            told.push(s.publish()).push(action::out("[2/4] Building Docker image..."@)).push(
                action::out(
                    ">>> docker build -t "@ + self.full_image() + " -f "@ + self.dockerfile_path()
                        + " "@ + self.context_path(),
                ),
            ).push(
                action::ActionView::Spawn {
                    program: "docker"@,
                    args: seq![
                        "build"@,
                        "--progress=plain"@,
                        "-t"@,
                        self.full_image(),
                        "-f"@,
                        self.dockerfile_path(),
                        self.context_path(),
                    ],
                    dir: self.work_dir,
                    envs: seq![],
                    filtered: false,
                },
            ),
        )
    }

    /// A step of the removal of processes came back.
    #[verifier::opaque]
    pub open spec fn cleanup_stepped(self, step: zombies::StepView, m: Moment) -> StepView {
        match step.command {
            Some(c) => self.go(
                PhaseView::Cleanup { cleanup: step.state },
                Seq::<action::ActionView>::empty().push(c),
            ),
            None => self.build(step.state.zombies, step.state.hung, m),
        }
    }

    /// The image is built, or could not be: it is pushed, unless the
    /// deployment has been cancelled or has failed.
    pub open spec fn built(self, acts: Seq<action::ActionView>, m: Moment) -> StepView {
        let told = acts.push(self.publish());
        if self.exit_code == 0 && m.cancelled {
            self.cancel(told.push(action::err("=== Deployment cancelled before push ==="@)))
        } else if self.exit_code == 0 {
            let s = self.started(2, m.now);
            s.go(
                PhaseView::Push,
                told.push(s.publish()).push(
                    action::out("[3/4] Pushing image to registry..."@),
                ).push(action::out(">>> docker push "@ + self.full_image())).push(
                    action::run("docker"@, seq!["push"@, self.full_image()]),
                ),
            )
        } else {
            self.wrap_up(told)
        }
    }

    /// The build came back.
    #[verifier::opaque]
    pub open spec fn build_ended(self, end: action::SpawnEndView, m: Moment) -> StepView {
        let none = Seq::<action::ActionView>::empty();
        match end {
            action::SpawnEndView::NotStarted(e) => self.finished(
                1,
                m.now,
                false,
                Some(e),
            ).exiting(EXIT_UNKNOWN).built(
                none.push(action::err("Error: Failed to start docker build: "@ + e)),
                m,
            ),
            action::SpawnEndView::Cancelled => {
                let s = BuildView {
                    stages: self.stages.map_values(|s: deploy::StageView| dropped(s)),
                    ..self
                };
                s.cancel(
                    none.push(
                        action::err(
                            "=== Docker build CANCELLED: superseded by newer commit ==="@,
                        ),
                    ).push(action::out("=== Docker Build Deploy cancelled ==="@)),
                )
            },
            action::SpawnEndView::Exited(code) => if code == Some(0i32) {
                self.finished(1, m.now, true, None).built(
                    none.push(action::out("✓ Image built: "@ + self.full_image())),
                    m,
                )
            } else {
                self.finished(1, m.now, false, Some("docker build failed"@)).exiting(
                    match code {
                        Some(c) => c,
                        None => EXIT_UNKNOWN,
                    },
                ).built(none, m)
            },
            action::SpawnEndView::Lost(e) => self.finished(1, m.now, false, Some(e)).exiting(
                EXIT_UNKNOWN,
            ).built(none.push(action::err("Error waiting for build: "@ + e)), m),
        }
    }

    /// The image is pushed, or could not be: the latest tag follows where it
    /// is wanted.
    pub open spec fn pushed_or_not(self, acts: Seq<action::ActionView>, m: Moment) -> StepView {
        let told = acts.push(self.publish());
        if self.exit_code == 0 && m.cancelled {
            self.cancel(
                told.push(action::err("=== Deployment cancelled before push latest ==="@)),
            )
        } else if self.exit_code == 0 && self.push_latest && self.stages.len() > 3 {
            let s = self.started(3, m.now);
            s.go(
                PhaseView::Tag,
                told.push(s.publish()).push(
                    action::out("[4/4] Tagging and pushing latest..."@),
                ).push(
                    action::out(
                        ">>> docker tag "@ + self.full_image() + " "@ + self.latest_image(),
                    ),
                ).push(
                    action::run(
                        "docker"@,
                        seq!["tag"@, self.full_image(), self.latest_image()],
                    ),
                ),
            )
        } else {
            self.wrap_up(told)
        }
    }

    /// The push of the image came back.
    #[verifier::opaque]
    pub open spec fn pushed(self, r: Result<action::OutputView, Seq<char>>, m: Moment) -> StepView {
        let none = Seq::<action::ActionView>::empty();
        match r {
            Ok(o) => if o.success() {
                self.finished(2, m.now, true, None).pushed_or_not(
                    (none + action::output_logs(o)).push(
                        action::out("✓ Pushed: "@ + self.full_image()),
                    ),
                    m,
                )
            } else {
                self.finished(2, m.now, false, Some("docker push failed"@)).exiting(
                    o.code_or(),
                ).pushed_or_not(none + action::output_logs(o), m)
            },
            Err(e) => self.finished(2, m.now, false, Some(e)).exiting(EXIT_UNKNOWN).pushed_or_not(
                none.push(action::err("Error: Failed to push image: "@ + e)),
                m,
            ),
        }
    }

    /// The tag came back. It may fail.
    #[verifier::opaque]
    pub open spec fn tagged(self, r: Result<action::OutputView, Seq<char>>) -> StepView {
        let none = Seq::<action::ActionView>::empty();
        let told = match r {
            Ok(o) => if o.success() {
                none
            } else {
                none.push(action::err("Warning: Failed to tag as latest"@))
            },
            Err(_) => none,
        };
        self.go(
            PhaseView::PushLatest,
            told.push(action::out(">>> docker push "@ + self.latest_image())).push(
                action::run("docker"@, seq!["push"@, self.latest_image()]),
            ),
        )
    }

    /// The push of the latest tag came back. It may fail.
    #[verifier::opaque]
    pub open spec fn pushed_latest(
        self,
        r: Result<action::OutputView, Seq<char>>,
        m: Moment,
    ) -> StepView {
        let none = Seq::<action::ActionView>::empty();
        let s = match r {
            Ok(o) => if o.success() {
                self.finished(3, m.now, true, None)
            } else {
                self.finished(3, m.now, false, Some("push latest failed"@))
            },
            Err(e) => self.finished(3, m.now, false, Some(e)),
        };
        let told = match r {
            Ok(o) => {
                let first = if o.stdout.len() > 0 {
                    none.push(action::out(o.stdout))
                } else {
                    none
                };
                if o.success() {
                    first.push(action::out("✓ Pushed: "@ + self.latest_image()))
                } else {
                    first.push(action::err("Warning: Failed to push latest tag"@))
                }
            },
            Err(e) => none.push(action::err("Warning: Failed to push latest: "@ + e)),
        };
        s.wrap_up(told.push(s.publish()))
    }

    /// The outcome of a command came back.
    pub open spec fn on_output_spec(
        self,
        r: Result<action::OutputView, Seq<char>>,
        m: Moment,
    ) -> StepView {
        let s = self.at(PhaseView::Done);
        match self.phase {
            PhaseView::GitPull => s.git_pulled(r, m),
            PhaseView::RevParse => s.hashed(r, m),
            PhaseView::Cleanup { cleanup } => s.cleanup_stepped(cleanup.on_output_spec(r), m),
            PhaseView::Push => s.pushed(r, m),
            PhaseView::Tag => s.tagged(r),
            PhaseView::PushLatest => s.pushed_latest(r, m),
            _ => StepView { state: self, actions: Seq::empty() },
        }
    }

    /// The build came back.
    pub open spec fn on_spawn_end_spec(self, end: action::SpawnEndView, m: Moment) -> StepView {
        match self.phase {
            PhaseView::Build => self.build_ended(end, m),
            _ => StepView { state: self, actions: Seq::empty() },
        }
    }
}

impl BuildDeploy {
    /// The deployment has a fourth stage where the latest tag is pushed.
    pub open spec fn wf(&self) -> bool {
        &&& self.stages@.len() == if self.config.push_latest {
            4int
        } else {
            3int
        }
        &&& self.phase matches BuildPhase::Cleanup { cleanup } ==> cleanup.wf()
        &&& self.phase is PushLatest || self.phase is Tag ==> self.config.push_latest
    }

    /// A deployment that has not begun.
    pub fn new(project: String, work_dir: String, config: DockerBuildConfig) -> (r: BuildDeploy)
        ensures
            r.wf(),
            r.project == project,
            r.work_dir == work_dir,
            r.config == config,
            r@.stages == initial_stages(config.push_latest),
            r.exit_code == 0,
            r.tag@ == or(chars::opt_view(config.tag), "latest"@),
            r.phase is Ready,
    {
        let mut stages: Vec<DeployStage> = Vec::new();
        stages.push(DeployStage::new("git_pull", "Git Pull"));
        stages.push(DeployStage::new("docker_build", "Docker Build"));
        stages.push(DeployStage::new("docker_push", "Docker Push"));
        if config.push_latest {
            stages.push(DeployStage::new("docker_push_latest", "Push Latest Tag"));
        }
        assert(deploy::stage_views(stages@) =~= initial_stages(config.push_latest));
        let tag = text_or(&config.tag, "latest");
        BuildDeploy {
            project,
            work_dir,
            config,
            stages,
            exit_code: 0,
            tag,
            phase: BuildPhase::Ready,
        }
    }

    fn full_image(&self) -> (r: String)
        ensures
            r@ == self@.full_image(),
    {
        concat3(self.config.image.as_str(), ":", self.tag.as_str())
    }

    fn latest_image(&self) -> (r: String)
        ensures
            r@ == self@.latest_image(),
    {
        concat2(self.config.image.as_str(), ":latest")
    }

    fn cancel(&mut self, acts: &mut Actions)
        requires
            old(self).wf(),
        ensures
            final(self).wf(),
            old(self)@.cancel(old(acts)@) == (StepView {
                state: final(self)@,
                actions: final(acts)@,
            }),
    {
        acts.finish(DeployStatus::Failed, EXIT_CANCELLED, &self.stages);
        self.phase = BuildPhase::Done;
    }

    fn wrap_up(&mut self, acts: &mut Actions)
        requires
            old(self).wf(),
        ensures
            final(self).wf(),
            old(self)@.wrap_up(old(acts)@) == (StepView {
                state: final(self)@,
                actions: final(acts)@,
            }),
    {
        acts.out("=== Docker Build Deploy finished ===");
        let status = if self.exit_code == 0 {
            acts.out("Status: Success");
            DeployStatus::Success
        } else {
            acts.out("Status: Failed");
            DeployStatus::Failed
        };
        acts.out(concat2("Exit code: ", signed_decimal(self.exit_code as i64).as_str()).as_str());
        acts.out("\n=== Stage Summary ===");
        acts.summary(&self.stages);
        acts.finish(status, self.exit_code, &self.stages);
        self.phase = BuildPhase::Done;
    }

    fn prepared(&mut self, acts: &mut Actions, m: &Moment)
        requires
            old(self).wf(),
        ensures
            final(self).wf(),
            old(self)@.prepared(old(acts)@, *m) == (StepView {
                state: final(self)@,
                actions: final(acts)@,
            }),
    {
        if m.cancelled {
            acts.err("Deployment cancelled");
            self.cancel(acts);
        } else if self.exit_code == 0 {
            acts.out("Checking for zombie docker processes...");
            let mut cleanup = ZombieCleanup::new();
            if let Some(c) = cleanup.begin() {
                acts.push(c);
            }
            self.phase = BuildPhase::Cleanup { cleanup };
        } else {
            self.wrap_up(acts);
        }
    }

    fn git_pulled(&mut self, acts: &mut Actions, result: Result<ProcessOutput, String>, m: &Moment)
        requires
            old(self).wf(),
            old(acts)@ == Seq::<action::ActionView>::empty(),
        ensures
            final(self).wf(),
            old(self)@.git_pulled(action::result_view(result), *m) == (StepView {
                state: final(self)@,
                actions: final(acts)@,
            }),
    {
        reveal(BuildView::git_pulled);
        match result {
            Ok(o) => {
                acts.output(&o);
                if o.is_success() {
                    finish_stage(&mut self.stages, 0, m.now, true, None);
                } else {
                    finish_stage(
                        &mut self.stages,
                        0,
                        m.now,
                        false,
                        Some("git pull failed".to_owned()),
                    );
                    self.exit_code = o.exit_code();
                }
            },
            Err(e) => {
                acts.err(concat2("Error: Failed to run git pull: ", e.as_str()).as_str());
                finish_stage(&mut self.stages, 0, m.now, false, Some(e));
                self.exit_code = EXIT_UNKNOWN;
            },
        }
        acts.stages(&self.stages);
        if self.exit_code == 0 && self.config.tag.is_none() {
            let args = strings(&["rev-parse", "--short", "HEAD"]);
            assert(chars::views(args@) =~= seq!["rev-parse"@, "--short"@, "HEAD"@]);
            acts.run_in("git", args, self.work_dir.as_str());
            self.phase = BuildPhase::RevParse;
        } else {
            self.prepared(acts, m);
        }
    }

    fn hashed(&mut self, acts: &mut Actions, result: Result<ProcessOutput, String>, m: &Moment)
        requires
            old(self).wf(),
            old(acts)@ == Seq::<action::ActionView>::empty(),
        ensures
            final(self).wf(),
            old(self)@.hashed(action::result_view(result), *m) == (StepView {
                state: final(self)@,
                actions: final(acts)@,
            }),
    {
        reveal(BuildView::hashed);
        if let Ok(o) = result {
            if o.is_success() {
                let tag = trim(o.stdout.as_str());
                acts.out(concat2("Using commit hash as tag: ", tag.as_str()).as_str());
                self.tag = tag;
            }
        }
        self.prepared(acts, m);
    }

    fn build(&mut self, acts: &mut Actions, zombies: u64, hung: u64, m: &Moment)
        requires
            old(self).wf(),
            old(acts)@ == Seq::<action::ActionView>::empty(),
        ensures
            final(self).wf(),
            old(self)@.build(zombies, hung, *m) == (StepView {
                state: final(self)@,
                actions: final(acts)@,
            }),
    {
        if zombies > 0 || hung > 0 {
            acts.out(
                concat5(
                    "Cleaned up ",
                    decimal(zombies).as_str(),
                    " zombie and ",
                    decimal(hung).as_str(),
                    " hung docker processes",
                ).as_str(),
            );
        }
        start_stage(&mut self.stages, 1, m.now);
        acts.stages(&self.stages);
        acts.out("[2/4] Building Docker image...");
        let full = self.full_image();
        let dockerfile = text_or(&self.config.dockerfile, "Dockerfile");
        let context = text_or(&self.config.build_context, ".");
        let mut line = concat5(
            ">>> docker build -t ",
            full.as_str(),
            " -f ",
            dockerfile.as_str(),
            " ",
        );
        line.append(context.as_str());
        acts.out(line.as_str());
        let args = strings(
            &[
                "build",
                "--progress=plain",
                "-t",
                full.as_str(),
                "-f",
                dockerfile.as_str(),
                context.as_str(),
            ],
        );
        assert(chars::views(args@) =~= seq![
            "build"@,
            "--progress=plain"@,
            "-t"@,
            full@,
            "-f"@,
            dockerfile@,
            context@,
        ]);
        let envs: Vec<(String, String)> = Vec::new();
        assert(chars::pairs(envs@) =~= seq![]);
        acts.push(
            DeployAction::Spawn {
                program: "docker".to_owned(),
                args,
                dir: self.work_dir.clone(),
                envs,
                filtered: false,
            },
        );
        self.phase = BuildPhase::Build;
    }

    fn built(&mut self, acts: &mut Actions, m: &Moment)
        requires
            old(self).wf(),
        ensures
            final(self).wf(),
            old(self)@.built(old(acts)@, *m) == (StepView {
                state: final(self)@,
                actions: final(acts)@,
            }),
    {
        acts.stages(&self.stages);
        if self.exit_code == 0 && m.cancelled {
            acts.err("=== Deployment cancelled before push ===");
            self.cancel(acts);
        } else if self.exit_code == 0 {
            start_stage(&mut self.stages, 2, m.now);
            acts.stages(&self.stages);
            acts.out("[3/4] Pushing image to registry...");
            let full = self.full_image();
            acts.out(concat2(">>> docker push ", full.as_str()).as_str());
            let args = strings(&["push", full.as_str()]);
            assert(chars::views(args@) =~= seq!["push"@, full@]);
            acts.run("docker", args);
            self.phase = BuildPhase::Push;
        } else {
            self.wrap_up(acts);
        }
    }

    fn build_ended(&mut self, acts: &mut Actions, end: SpawnEnd, m: &Moment)
        requires
            old(self).wf(),
            old(acts)@ == Seq::<action::ActionView>::empty(),
        ensures
            final(self).wf(),
            old(self)@.build_ended(end@, *m) == (StepView {
                state: final(self)@,
                actions: final(acts)@,
            }),
    {
        reveal(BuildView::build_ended);
        match end {
            SpawnEnd::NotStarted(e) => {
                acts.err(concat2("Error: Failed to start docker build: ", e.as_str()).as_str());
                finish_stage(&mut self.stages, 1, m.now, false, Some(e));
                self.exit_code = EXIT_UNKNOWN;
            },
            SpawnEnd::Cancelled => {
                acts.err("=== Docker build CANCELLED: superseded by newer commit ===");
                drop_stages(&mut self.stages);
                acts.out("=== Docker Build Deploy cancelled ===");
                self.cancel(acts);
                return;
            },
            SpawnEnd::Exited(code) => {
                let exit_code: i32 = match code {
                    Some(c) => c,
                    None => EXIT_UNKNOWN,
                };
                if exit_code == 0 {
                    finish_stage(&mut self.stages, 1, m.now, true, None);
                    acts.out(concat2("✓ Image built: ", self.full_image().as_str()).as_str());
                } else {
                    finish_stage(
                        &mut self.stages,
                        1,
                        m.now,
                        false,
                        Some("docker build failed".to_owned()),
                    );
                    self.exit_code = exit_code;
                }
            },
            SpawnEnd::Lost(e) => {
                acts.err(concat2("Error waiting for build: ", e.as_str()).as_str());
                finish_stage(&mut self.stages, 1, m.now, false, Some(e));
                self.exit_code = EXIT_UNKNOWN;
            },
        }
        self.built(acts, m);
    }

    fn pushed(&mut self, acts: &mut Actions, result: Result<ProcessOutput, String>, m: &Moment)
        requires
            old(self).wf(),
            old(acts)@ == Seq::<action::ActionView>::empty(),
        ensures
            final(self).wf(),
            old(self)@.pushed(action::result_view(result), *m) == (StepView {
                state: final(self)@,
                actions: final(acts)@,
            }),
    {
        reveal(BuildView::pushed);
        match result {
            Ok(o) => {
                acts.output(&o);
                if o.is_success() {
                    finish_stage(&mut self.stages, 2, m.now, true, None);
                    acts.out(concat2("✓ Pushed: ", self.full_image().as_str()).as_str());
                } else {
                    finish_stage(
                        &mut self.stages,
                        2,
                        m.now,
                        false,
                        Some("docker push failed".to_owned()),
                    );
                    self.exit_code = o.exit_code();
                }
            },
            Err(e) => {
                acts.err(concat2("Error: Failed to push image: ", e.as_str()).as_str());
                finish_stage(&mut self.stages, 2, m.now, false, Some(e));
                self.exit_code = EXIT_UNKNOWN;
            },
        }
        self.pushed_or_not(acts, m);
    }

    fn pushed_or_not(&mut self, acts: &mut Actions, m: &Moment)
        requires
            old(self).wf(),
        ensures
            final(self).wf(),
            old(self)@.pushed_or_not(old(acts)@, *m) == (StepView {
                state: final(self)@,
                actions: final(acts)@,
            }),
    {
        acts.stages(&self.stages);
        if self.exit_code == 0 && m.cancelled {
            acts.err("=== Deployment cancelled before push latest ===");
            self.cancel(acts);
        } else if self.exit_code == 0 && self.config.push_latest && self.stages.len() > 3 {
            start_stage(&mut self.stages, 3, m.now);
            acts.stages(&self.stages);
            acts.out("[4/4] Tagging and pushing latest...");
            let full = self.full_image();
            let latest = self.latest_image();
            acts.out(concat4(">>> docker tag ", full.as_str(), " ", latest.as_str()).as_str());
            let args = strings(&["tag", full.as_str(), latest.as_str()]);
            assert(chars::views(args@) =~= seq!["tag"@, full@, latest@]);
            acts.run("docker", args);
            self.phase = BuildPhase::Tag;
        } else {
            self.wrap_up(acts);
        }
    }

    fn tagged(&mut self, acts: &mut Actions, result: Result<ProcessOutput, String>)
        requires
            old(self).wf(),
            old(self).config.push_latest,
            old(acts)@ == Seq::<action::ActionView>::empty(),
        ensures
            final(self).wf(),
            old(self)@.tagged(action::result_view(result)) == (StepView {
                state: final(self)@,
                actions: final(acts)@,
            }),
    {
        reveal(BuildView::tagged);
        if let Ok(o) = result {
            if !o.is_success() {
                acts.err("Warning: Failed to tag as latest");
            }
        }
        let latest = self.latest_image();
        acts.out(concat2(">>> docker push ", latest.as_str()).as_str());
        let args = strings(&["push", latest.as_str()]);
        assert(chars::views(args@) =~= seq!["push"@, latest@]);
        acts.run("docker", args);
        self.phase = BuildPhase::PushLatest;
    }

    fn pushed_latest(&mut self, acts: &mut Actions, result: Result<ProcessOutput, String>, m: &Moment)
        requires
            old(self).wf(),
            old(self).config.push_latest,
            old(acts)@ == Seq::<action::ActionView>::empty(),
        ensures
            final(self).wf(),
            old(self)@.pushed_latest(action::result_view(result), *m) == (StepView {
                state: final(self)@,
                actions: final(acts)@,
            }),
    {
        reveal(BuildView::pushed_latest);
        match result {
            Ok(o) => {
                if !o.stdout.as_str().is_empty() {
                    acts.out(o.stdout.as_str());
                }
                if o.is_success() {
                    finish_stage(&mut self.stages, 3, m.now, true, None);
                    acts.out(concat2("✓ Pushed: ", self.latest_image().as_str()).as_str());
                } else {
                    finish_stage(
                        &mut self.stages,
                        3,
                        m.now,
                        false,
                        Some("push latest failed".to_owned()),
                    );
                    acts.err("Warning: Failed to push latest tag");
                }
            },
            Err(e) => {
                acts.err(concat2("Warning: Failed to push latest: ", e.as_str()).as_str());
                finish_stage(&mut self.stages, 3, m.now, false, Some(e));
            },
        }
        acts.stages(&self.stages);
        self.wrap_up(acts);
    }

    /// Begins the deployment.
    pub fn begin(&mut self, m: &Moment) -> (r: Vec<DeployAction>)
        requires
            old(self).wf(),
        ensures
            final(self).wf(),
            old(self)@.begin_spec(*m) == (StepView {
                state: final(self)@,
                actions: action::action_views(r@),
            }),
    {
        let mut acts = Actions::new();
        let branch = text_or(&self.config.branch, "master");
        acts.out(
            concat3("=== Docker Build Deploy for ", self.project.as_str(), " ===").as_str(),
        );
        acts.out(concat2("Working directory: ", self.work_dir.as_str()).as_str());
        acts.out(
            concat2(
                "Dockerfile: ",
                text_or(&self.config.dockerfile, "Dockerfile").as_str(),
            ).as_str(),
        );
        acts.out(
            concat2("Build context: ", text_or(&self.config.build_context, ".").as_str()).as_str(),
        );
        acts.out(concat2("Target image: ", self.config.image.as_str()).as_str());
        acts.out(concat2("Branch: ", branch.as_str()).as_str());
        acts.out(concat2("Timestamp: ", m.now.to_rfc3339().as_str()).as_str());
        start_stage(&mut self.stages, 0, m.now);
        acts.stages(&self.stages);
        acts.out("[1/4] Pulling latest code...");
        acts.out(concat2(">>> git pull --ff-only origin ", branch.as_str()).as_str());
        let args = strings(&["pull", "--ff-only", "origin", branch.as_str()]);
        assert(chars::views(args@) =~= seq!["pull"@, "--ff-only"@, "origin"@, branch@]);
        acts.run_in("git", args, self.work_dir.as_str());
        self.phase = BuildPhase::GitPull;
        assert(acts@ =~= old(self)@.begin_spec(*m).actions);
        acts.list
    }

    /// Takes the outcome of the command that the deployment waits for.
    pub fn on_output(&mut self, result: Result<ProcessOutput, String>, m: &Moment) -> (r: Vec<
        DeployAction,
    >)
        requires
            old(self).wf(),
        ensures
            final(self).wf(),
            old(self)@.on_output_spec(action::result_view(result), *m) == (StepView {
                state: final(self)@,
                actions: action::action_views(r@),
            }),
    {
        let mut acts = Actions::new();
        let mut phase = BuildPhase::Done;
        std::mem::swap(&mut phase, &mut self.phase);
        match phase {
            BuildPhase::GitPull => {
                self.git_pulled(&mut acts, result, m);
            },
            BuildPhase::RevParse => {
                self.hashed(&mut acts, result, m);
            },
            BuildPhase::Cleanup { cleanup } => {
                reveal(BuildView::cleanup_stepped);
                let mut cleanup = cleanup;
                match cleanup.on_output(&result) {
                    Some(c) => {
                        acts.push(c);
                        self.phase = BuildPhase::Cleanup { cleanup };
                    },
                    None => {
                        self.build(&mut acts, cleanup.zombies, cleanup.hung, m);
                    },
                }
            },
            BuildPhase::Push => {
                self.pushed(&mut acts, result, m);
            },
            BuildPhase::Tag => {
                self.tagged(&mut acts, result);
            },
            BuildPhase::PushLatest => {
                self.pushed_latest(&mut acts, result, m);
            },
            other => {
                self.phase = other;
            },
        }
        acts.list
    }

    /// Takes the end of the build that the deployment waits for.
    pub fn on_spawn_end(&mut self, end: SpawnEnd, m: &Moment) -> (r: Vec<DeployAction>)
        requires
            old(self).wf(),
        ensures
            final(self).wf(),
            old(self)@.on_spawn_end_spec(end@, *m) == (StepView {
                state: final(self)@,
                actions: action::action_views(r@),
            }),
    {
        let mut acts = Actions::new();
        let building = match self.phase {
            BuildPhase::Build => true,
            _ => false,
        };
        if building {
            self.build_ended(&mut acts, end, m);
        }
        acts.list
    }
}

} // verus!
