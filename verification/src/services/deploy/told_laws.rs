//! What those who follow a deployment are told, and that what a deployment is
//! made of is what is configured.

use vstd::prelude::*;

use crate::config::project::ProjectConfig;
use crate::domain::deploy::{DeployStage, DeployType};
use crate::domain::deploy;
use crate::domain::tunnel;
use crate::domain::tunnel::{PortMapping, TunnelMessage};
use crate::services::deploy::action;
use crate::services::deploy::action::{ActionView, DeployAction, LogStream, Moment, ProcessOutput};
use crate::services::deploy::build_step_laws::command;
use crate::services::deploy::canary;
use crate::services::deploy::canary::CanaryCheck;
use crate::services::deploy::docker_build;
use crate::services::deploy::docker_build::BuildDeploy;
use crate::services::deploy::docker_compose;
use crate::services::deploy::docker_compose::ComposeDeploy;
use crate::services::deploy::monitor;
use crate::services::deploy::monitor::PostDeployMonitor;
use crate::services::deploy::script;
use crate::services::deploy::script::ScriptDeploy;
use crate::services::deploy::xiaojincut;
use crate::services::deploy::xiaojincut::XiaojincutDeploy;
use crate::text::chars;
use crate::text::number;
use crate::text::split;

verus! {

/// A line on the standard output.
pub open spec fn said(text: Seq<char>) -> ActionView {
    ActionView::Log { stream: LogStream::Stdout, text }
}

/// A line on the error stream.
pub open spec fn complained(text: Seq<char>) -> ActionView {
    ActionView::Log { stream: LogStream::Stderr, text }
}

/// A build tells what it is about to do.
pub proof fn build_is_announced(s: docker_build::BuildView, m: Moment)
    ensures
        ({
            let a = s.begin_spec(m).actions;
            let branch = if s.branch is Some {
                s.branch->0
            } else {
                "master"@
            };
            &&& a.len() == 11
            &&& a[0] == said("=== Docker Build Deploy for "@ + s.project + " ==="@)
            &&& a[1] == said("Working directory: "@ + s.work_dir)
            &&& s.dockerfile is Some ==> a[2] == said("Dockerfile: "@ + s.dockerfile->0)
            &&& s.dockerfile is None ==> a[2] == said("Dockerfile: "@ + "Dockerfile"@)
            &&& s.build_context is Some ==> a[3] == said("Build context: "@ + s.build_context->0)
            &&& s.build_context is None ==> a[3] == said("Build context: "@ + "."@)
            &&& a[4] == said("Target image: "@ + s.image)
            &&& a[5] == said("Branch: "@ + branch)
            &&& a[7] is Stages
            &&& a[9] == said(">>> git pull --ff-only origin "@ + branch)
        }),
{
}

/// A build that streams says the command first, and how many processes were
/// removed for it.
pub proof fn build_command_is_said(s: docker_build::BuildView, zombies: u64, hung: u64, m: Moment)
    ensures
        ({
            let a = s.build(zombies, hung, m).actions;
            let n = a.len() as int;
            let file = if s.dockerfile is Some {
                s.dockerfile->0
            } else {
                "Dockerfile"@
            };
            let context = if s.build_context is Some {
                s.build_context->0
            } else {
                "."@
            };
            &&& n >= 4
            &&& a[n - 2] == said(
                ">>> docker build -t "@ + (s.image + ":"@ + s.tag) + " -f "@ + file + " "@ + context,
            )
            &&& zombies == 0 && hung == 0 ==> n == 4
            &&& zombies > 0 || hung > 0 ==> n == 5 && a[0] == said(
                "Cleaned up "@ + number::decimal_spec(zombies as nat) + " zombie and "@
                    + number::decimal_spec(hung as nat) + " hung docker processes"@,
            )
        }),
{
}

/// What the commands of a build put out is told, and so is the reason why one
/// could not run.
pub proof fn build_commands_are_heard(
    s: docker_build::BuildView,
    o: action::OutputView,
    e: Seq<char>,
    m: Moment,
    i: int,
)
    requires
        0 <= i < action::output_logs(o).len(),
    ensures
        s.phase is GitPull ==> s.on_output_spec(Ok(o), m).actions[i] == action::output_logs(o)[i],
        s.phase is GitPull ==> s.on_output_spec(Err(e), m).actions[0] == complained(
            "Error: Failed to run git pull: "@ + e,
        ),
        s.phase is Push ==> s.on_output_spec(Ok(o), m).actions[i] == action::output_logs(o)[i],
        s.phase is Push ==> s.on_output_spec(Err(e), m).actions[0] == complained(
            "Error: Failed to push image: "@ + e,
        ),
        s.phase is Build ==> s.on_spawn_end_spec(
            action::SpawnEndView::NotStarted(e),
            m,
        ).actions[0] == complained("Error: Failed to start docker build: "@ + e),
        s.phase is Build ==> s.on_spawn_end_spec(action::SpawnEndView::Lost(e), m).actions[0]
            == complained("Error waiting for build: "@ + e),
        s.phase is PushLatest ==> s.on_output_spec(Err(e), m).actions[0] == complained(
            "Warning: Failed to push latest: "@ + e,
        ),
{
    reveal(docker_build::BuildView::git_pulled);
    reveal(docker_build::BuildView::pushed);
    reveal(docker_build::BuildView::build_ended);
    reveal(docker_build::BuildView::pushed_latest);
    let none = Seq::<ActionView>::empty();
    assert((none + action::output_logs(o))[i] == action::output_logs(o)[i]);
}

/// The end of a build is told, with its exit code, and then its stages.
pub proof fn end_of_a_build_is_told(s: docker_build::BuildView, acts: Seq<ActionView>, i: int)
    ensures
        ({
            let a = s.wrap_up(acts).actions;
            let n = acts.len() as int;
            &&& a.len() == n + 5 + s.stages.len()
            &&& a[n] == said("=== Docker Build Deploy finished ==="@)
            &&& a[n + 1] == said(
                if s.exit_code == 0 {
                    "Status: Success"@
                } else {
                    "Status: Failed"@
                },
            )
            &&& a[n + 2] == said("Exit code: "@ + number::signed_decimal_spec(s.exit_code as int))
            &&& 0 <= i < n ==> a[i] == acts[i]
            &&& 0 <= i < s.stages.len() ==> a[n + 4 + i] == action::summary_lines(s.stages)[i]
        }),
{
}

/// The hash that becomes the tag is told.
pub proof fn hash_is_told(s: docker_build::BuildView, o: action::OutputView, m: Moment)
    requires
        s.phase is RevParse,
        o.code == Some(0i32),
        s.exit_code == 0,
    ensures
        s.on_output_spec(Ok(o), m).actions[0] == said(
            "Using commit hash as tag: "@ + split::trim_spec(o.stdout),
        ),
{
    reveal(docker_build::BuildView::hashed);
}

/// A deployment with compose tells what it is about to do.
pub proof fn compose_is_announced(s: docker_compose::ComposeView, m: Moment)
    ensures
        ({
            let a = s.begin_spec(m).actions;
            &&& a.len() == 9
            &&& a[0] == said("=== Docker Compose Deploy (Blue-Green) for "@ + s.project + " ==="@)
            &&& a[1] == said("Working directory: "@ + s.work_dir)
            &&& a[2] == said("Compose file: "@ + s.compose_file)
            &&& a[3] == said("Image: "@ + s.image)
        }),
{
}

/// What the commands of a deployment with compose put out is told, and so is the
/// reason why one could not run.
pub proof fn compose_commands_are_heard(
    s: docker_compose::ComposeView,
    o: action::OutputView,
    e: Seq<char>,
    m: Moment,
    i: int,
)
    requires
        0 <= i < action::output_logs(o).len(),
        s.exit_code == 0,
    ensures
        s.phase is GitPull ==> s.on_output_spec(Ok(o), m).actions[i] == action::output_logs(o)[i],
        s.phase is GitPull ==> s.on_output_spec(Err(e), m).actions[0] == complained(
            "Warning: Failed to run git pull: "@ + e,
        ),
        s.phase is ImagePull ==> s.on_output_spec(Ok(o), m).actions[i] == action::output_logs(o)[i],
        s.phase is ImagePull ==> s.on_output_spec(Err(e), m).actions[0] == complained(
            "Error: Failed to run docker pull: "@ + e,
        ),
        s.phase is ComposeUp ==> s.on_output_spec(Err(e), m).actions[0] == complained(
            "Error: Failed to run compose up: "@ + e,
        ),
        s.phase is ComposeUp && o.stdout.len() > 0 ==> s.on_output_spec(Ok(o), m).actions[0]
            == said(o.stdout),
        s.phase is ShowStatus && o.stdout.len() > 0 ==> s.on_output_spec(Ok(o), m).actions[0]
            == said(o.stdout),
        s.phase is ShowLogs && o.stdout.len() > 0 ==> s.on_output_spec(Ok(o), m).actions[0] == said(
            o.stdout,
        ),
{
    reveal(docker_compose::ComposeView::git_pulled);
    reveal(docker_compose::ComposeView::image_pulled);
    reveal(docker_compose::ComposeView::composed_up);
    let none = Seq::<ActionView>::empty();
    assert((none + action::output_logs(o))[i] == action::output_logs(o)[i]);
}

/// The reason why a canary failed is the one that was found: that it could not be
/// started or looked at, that it was marked unhealthy, that it could not be
/// asked, or what its log says.
pub proof fn failed_canary_has_its_reason(
    s: canary::CanaryView,
    o: action::OutputView,
    e: Seq<char>,
    since: u64,
    clock: u64,
    r: Result<action::OutputView, Seq<char>>,
)
    requires
        o.code != Some(0i32),
    ensures
        s.phase is Starting ==> s.on_output_spec(Err(e), clock).verdict == Some(
            Err::<(), Seq<char>>("Failed to start canary container: "@ + e),
        ),
        s.phase is Starting ==> s.on_output_spec(Ok(o), clock).state.phase == (
        canary::PhaseView::CleanCheck {
            after: canary::AfterView::Fail {
                error: "Failed to start canary container: "@ + o.stderr,
            },
        }) && s.on_output_spec(Ok(o), clock).actions[0] == complained(
            "Canary start stderr: "@ + o.stderr,
        ),
        s.phase == (canary::PhaseView::Inspecting { since }) ==> s.on_output_spec(
            Err(e),
            clock,
        ).state.phase == (canary::PhaseView::ShowLogs {
            error: "Failed to inspect container: "@ + e,
        }),
        s.phase is HealthLog ==> s.on_output_spec(r, clock).state.phase == (
        canary::PhaseView::ShowLogs {
            error: "Container marked unhealthy: "@ + canary::health_log_text(r),
        }),
        s.phase is HttpCheck ==> s.on_output_spec(Err(e), clock).state.phase == (
        canary::PhaseView::CleanCheck {
            after: canary::AfterView::Fail { error: "Failed to run health check: "@ + e },
        }),
        s.phase is HttpCheck ==> s.on_output_spec(Ok(o), clock).state.phase == (
        canary::PhaseView::ShowLogs { error: "Canary HTTP health check failed"@ })
            && s.on_output_spec(Ok(o), clock).actions[0] == complained(
            "✗ Canary HTTP check failed: "@ + o.stderr,
        ),
{
    reveal(canary::CanaryView::on_output_spec);
}

/// The health log is shown as it is, or by its last 200 characters; that there is
/// none, or that it can not be read, is said.
pub proof fn health_log_is_shown(o: action::OutputView, e: Seq<char>)
    ensures
        canary::health_log_text(Err(e)) == "Failed to get health check logs"@,
        o.code != Some(0i32) ==> canary::health_log_text(Ok(o))
            == "Failed to get health check logs"@,
        o.code == Some(0i32) ==> ({
            let log = split::trim_spec(o.stdout);
            &&& log.len() == 0 ==> canary::health_log_text(Ok(o))
                == "No health check logs available"@
            &&& 0 < log.len() <= 200 ==> canary::health_log_text(Ok(o)) == log
            &&& log.len() > 200 ==> canary::health_log_text(Ok(o)) == "..."@ + log.subrange(
                log.len() - 200,
                log.len() as int,
            )
        }),
{
}

/// The log of a container that failed is shown, each stream under its name.
pub proof fn log_of_the_failed_is_shown(o: action::OutputView, e: Seq<char>)
    ensures
        ({
            let l = canary::CanaryView::log_lines(Ok(o));
            &&& o.stdout.len() > 0 && o.stderr.len() > 0 ==> l.len() == 2 && l[0] == said(
                "[stdout]\n"@ + o.stdout,
            ) && l[1] == complained("[stderr]\n"@ + o.stderr)
            &&& o.stdout.len() > 0 && o.stderr.len() == 0 ==> l.len() == 1 && l[0] == said(
                "[stdout]\n"@ + o.stdout,
            )
            &&& o.stdout.len() == 0 && o.stderr.len() > 0 ==> l.len() == 1 && l[0] == complained(
                "[stderr]\n"@ + o.stderr,
            )
            &&& o.stdout.len() == 0 && o.stderr.len() == 0 ==> l.len() == 0
        }),
        canary::CanaryView::log_lines(Err(e)).len() == 0,
{
}

/// A canary that failed is told of, with the reason, and that the old container
/// stays.
pub proof fn failed_canary_is_told(
    s: docker_compose::ComposeView,
    step: canary::StepView,
    e: Seq<char>,
    m: Moment,
)
    requires
        step.verdict == Some(Err::<(), Seq<char>>(e)),
        s.stages.len() == 5,
    ensures
        ({
            let t = s.canary_stepped(step, m);
            let n = step.actions.len() as int;
            &&& t.actions.len() > n + 2
            &&& t.actions[n] == complained("✗ Canary health check failed: "@ + e)
            &&& t.actions[n + 1] == complained(
                "Aborting deployment - keeping old container running"@,
            )
            &&& t.state.stages[2].message == Some(e)
        }),
{
    reveal(docker_compose::ComposeView::canary_stepped);
}

/// What the watch found is told and kept as the message of its stage.
pub proof fn finding_is_told(
    s: docker_compose::ComposeView,
    step: monitor::MonitorStepView,
    e: Seq<char>,
    m: Moment,
)
    requires
        step.verdict == Some(Err::<(), Seq<char>>(e)),
        s.stages.len() == 5,
    ensures
        ({
            let t = s.monitor_stepped(step, m);
            let n = step.actions.len() as int;
            &&& t.actions.len() > n
            &&& t.actions[n] == complained("✗ Post-deploy monitoring detected issue: "@ + e)
            &&& t.state.stages[4].message == Some(e)
        }),
{
    reveal(docker_compose::ComposeView::monitor_stepped);
}

/// A container that has exited has its last 50 lines shown; one that is not
/// healthy, or was restarted, is reported.
pub proof fn watched_container_is_reported(
    w: monitor::MonitorView,
    r: Result<action::OutputView, Seq<char>>,
    clock: u64,
)
    requires
        w.phase is State,
    ensures
        ({
            let t = w.on_output_spec(r, clock);
            &&& monitor::state_of(r) matches monitor::StateView::Exited { exit_code } ==> {
                &&& t.actions[0] == complained(
                    "✗ Container exited with code "@ + number::signed_decimal_spec(
                        exit_code as int,
                    ),
                )
                &&& t.actions.last() == command(
                    "docker"@,
                    seq!["logs"@, "--tail"@, number::decimal_spec(50), w.container],
                    None,
                )
            }
            &&& monitor::state_of(r) matches monitor::StateView::Running {
                restart_count,
                health_status,
            } ==> {
                let first = if w.initial_restarts is Some {
                    w.initial_restarts->0
                } else {
                    restart_count
                };
                &&& restart_count > first ==> t.actions.len() >= 3 && t.actions[2] == (
                ActionView::Report {
                    text: "[POST-DEPLOY ALERT] "@ + ("Container restarted "@ + number::decimal_spec(
                        (restart_count - first) as nat,
                    ) + " times"@) + " (restarts: "@ + number::decimal_spec(restart_count as nat)
                        + ")"@,
                })
                &&& restart_count <= first && health_status == "unhealthy"@ ==> t.actions.len() >= 3
                    && t.actions[2] == (ActionView::Report {
                    text: "[POST-DEPLOY ALERT] "@ + "Container unhealthy"@ + " (restarts: "@
                        + number::decimal_spec(restart_count as nat) + ")"@,
                })
                &&& restart_count <= first && health_status != "unhealthy"@ ==> t.actions.len() == 1
                &&& restart_count - first >= 2 ==> t.verdict == Some(
                    Err::<(), Seq<char>>(
                        "Container in crash loop: "@ + number::decimal_spec(
                            (restart_count - first) as nat,
                        ) + " restarts since deployment"@,
                    ),
                )
            }
        }),
{
    reveal(monitor::MonitorView::on_output_spec);
}

/// A script deployment tells what it runs, with the commit and the branch where
/// they are known, and how it ended.
pub proof fn script_is_announced(
    s: script::ScriptView,
    o: action::OutputView,
    e: Seq<char>,
    m: Moment,
    i: int,
    c: i32,
)
    requires
        0 <= i < action::output_logs(o).len(),
    ensures
        s.begin_spec(m).actions[0] == said("=== Starting deployment for "@ + s.project + " ==="@),
        s.begin_spec(m).actions[1] == said("Working directory: "@ + s.work_dir),
        s.begin_spec(m).actions[2] == said("Script: "@ + s.script),
        s.commit_hash is Some ==> s.begin_spec(m).actions[3] == said(
            "Commit: "@ + s.commit_hash->0,
        ),
        s.commit_hash is Some && s.branch is Some ==> s.begin_spec(m).actions[4] == said(
            "Branch: "@ + s.branch->0,
        ),
        s.commit_hash is None && s.branch is Some ==> s.begin_spec(m).actions[3] == said(
            "Branch: "@ + s.branch->0,
        ),
        s.phase is GitPull ==> s.on_output_spec(Ok(o), m).actions[i] == action::output_logs(o)[i],
        s.phase is GitPull ==> s.on_output_spec(Err(e), m).actions[0] == complained(
            "Failed to run git pull: "@ + e,
        ),
        s.phase is Script ==> s.on_spawn_end_spec(
            action::SpawnEndView::NotStarted(e),
            m,
        ).actions[0] == complained("Failed to start script: "@ + e),
        s.phase is Script ==> s.on_spawn_end_spec(action::SpawnEndView::Lost(e), m).actions[0]
            == complained("=== Process error: "@ + e + " ==="@),
        s.phase is Script && c != 0 ==> s.on_spawn_end_spec(
            action::SpawnEndView::Exited(Some(c)),
            m,
        ).actions[0] == complained(
            "=== Deployment failed (exit code: "@ + number::signed_decimal_spec(c as int)
                + ") ==="@,
        ),
{
    let none = Seq::<ActionView>::empty();
    assert((none + action::output_logs(o))[i] == action::output_logs(o)[i]);
}

/// The answer of the video service is shown: laid out where it is JSON, else as
/// it is. A failure is told with its status.
pub proof fn video_answer_is_shown(
    s: xiaojincut::TaskView,
    status: u16,
    text: Seq<char>,
    body: Seq<char>,
    e: Seq<char>,
    i: int,
)
    requires
        s.phase is Task,
    ensures
        ({
            let t = s.on_reply_spec(
                xiaojincut::ReplyView::Answered { status, status_text: text, body },
            );
            let pretty = xiaojincut::pretty_json_of(body);
            let good = 200 <= status <= 299;
            &&& good && pretty is Some && 0 <= i < split::lines_spec(pretty->0).len()
                ==> t.actions[i + 2] == said(split::lines_spec(pretty->0)[i])
            &&& good && pretty is None && body.len() > 0 ==> t.actions[2] == said(body)
            &&& good ==> t.actions[1] == said("✅ Task completed successfully"@)
            &&& !good ==> t.actions[0] == complained("❌ Task failed: HTTP "@ + text)
            &&& !good && body.len() > 0 ==> t.actions[1] == complained(body)
        }),
        s.on_reply_spec(xiaojincut::ReplyView::Failed(e)).actions[0] == complained(
            "❌ Request failed: "@ + e,
        ),
        s.on_reply_spec(xiaojincut::ReplyView::Cancelled).actions.len() == 0,
        s.on_reply_spec(xiaojincut::ReplyView::Cancelled).state == s,
        s.begin_spec().actions.last()->Request_cancellable,
{
    let pretty = xiaojincut::pretty_json_of(body);
    if 200 <= status <= 299 && pretty is Some {
        let shown = split::lines_spec(pretty->0).map_values(|l: Seq<char>| action::out(l));
        if 0 <= i < shown.len() {
            assert(shown[i] == said(split::lines_spec(pretty->0)[i]));
        }
    }
}

/// What a deployment holds is what it was made of.
pub proof fn deployments_hold_their_parts(
    b: BuildDeploy,
    c: ComposeDeploy,
    s: ScriptDeploy,
    x: XiaojincutDeploy,
)
    ensures
        b@.project == b.project@,
        b@.work_dir == b.work_dir@,
        b@.image == b.config.image@,
        b@.dockerfile == chars::opt_view(b.config.dockerfile),
        b@.build_context == chars::opt_view(b.config.build_context),
        b@.given_tag == chars::opt_view(b.config.tag),
        b@.push_latest == b.config.push_latest,
        b@.branch == chars::opt_view(b.config.branch),
        b@.tag == b.tag@,
        b@.exit_code == b.exit_code,
        b@.stages.len() == b.stages@.len(),
        c@.task_id == c.task_id@,
        c@.project == c.project@,
        c@.work_dir == c.work_dir@,
        c@.compose_file == c.config.compose_file@,
        c@.image == c.config.image@,
        c@.git_repo_dir == chars::opt_view(c.config.git_repo_dir),
        c@.service == chars::opt_view(c.config.service),
        c@.health_port == c.config.health_port,
        c@.exit_code == c.exit_code,
        c@.compose == c.compose,
        s@.project == s.project@,
        s@.work_dir == s.work_dir@,
        s@.script == s.script@,
        s@.commit_hash == chars::opt_view(s.commit_hash),
        s@.branch == chars::opt_view(s.branch),
        s@.phase == s.phase,
        x@.task_type == x.config.task_type@,
        x@.input_path == chars::opt_view(x.config.input_path),
        x@.output_dir == chars::opt_view(x.config.output_dir),
        x@.prompt == chars::opt_view(x.config.prompt),
        x@.port == x.config.port,
        x@.phase == x.phase,
{
}

/// What a check or a watch holds is what it was made of.
pub proof fn checks_hold_their_parts(k: CanaryCheck, w: PostDeployMonitor, o: ProcessOutput)
    ensures
        k@.name == k.name@,
        k@.compose == k.compose,
        k@.compose_path == k.compose_path@,
        k@.work_dir == k.work_dir@,
        k@.service == chars::opt_view(k.service),
        k@.health_port == k.health_port,
        w@.compose == w.compose,
        w@.compose_path == w.compose_path@,
        w@.work_dir == w.work_dir@,
        w@.service_name == w.service_name@,
        w@.container == w.container@,
        w@.since == w.since,
        w@.initial_restarts == w.initial_restarts,
        w@.log_len == w.log_len,
        w@.phase == w.phase,
        o@.code == o.code,
        o@.stdout == o.stdout@,
        o@.stderr == o.stderr@,
{
}

/// An action asks for what it says, and actions keep their order.
pub proof fn actions_hold_their_parts(a: DeployAction, list: Seq<DeployAction>, i: int)
    ensures
        a matches DeployAction::Log { stream, text } ==> a@ == (ActionView::Log {
            stream,
            text: text@,
        }),
        a matches DeployAction::Run { program, args, dir } ==> a@ == (ActionView::Run {
            program: program@,
            args: chars::views(args@),
            dir: chars::opt_view(dir),
        }),
        a matches DeployAction::Spawn { program, args, dir, envs, filtered } ==> a@ == (
        ActionView::Spawn {
            program: program@,
            args: chars::views(args@),
            dir: dir@,
            envs: chars::pairs(envs@),
            filtered,
        }),
        a matches DeployAction::Finish { status, exit_code, stages } ==> a@ == (
        ActionView::Finish { status, exit_code, stages: deploy::stage_views(stages@) }),
        a matches DeployAction::Sleep { millis } ==> a@ == (ActionView::Sleep { millis }),
        action::action_views(list).len() == list.len(),
        0 <= i < list.len() ==> action::action_views(list)[i] == list[i]@,
{
}

/// What is configured of a project is what it is deployed by.
pub proof fn projects_hold_their_parts(p: ProjectConfig, s: DeployStage, t: DeployType)
    ensures
        p@.work_dir == p.work_dir@,
        p@.deploy_type == p.deploy_type@,
        s@.name == s.name@,
        s@.display_name == s.display_name@,
        s@.status == s.status,
        s@.started_at == s.started_at,
        s@.finished_at == s.finished_at,
        s@.duration_ms == s.duration_ms,
        s@.message == chars::opt_view(s.message),
        t matches DeployType::Script { script } ==> t@ == (deploy::DeployTypeView::Script {
            script: script@,
        }),
        t matches DeployType::DockerCompose { compose_file, image, git_repo_dir, service } ==> t@
            == (deploy::DeployTypeView::DockerCompose {
            compose_file: compose_file@,
            image: image@,
            git_repo_dir: chars::opt_view(git_repo_dir),
            service: chars::opt_view(service),
        }),
        t matches DeployType::DockerBuild {
            dockerfile,
            build_context,
            image,
            tag,
            push_latest,
            branch,
        } ==> t@ == (deploy::DeployTypeView::DockerBuild {
            dockerfile: chars::opt_view(dockerfile),
            build_context: chars::opt_view(build_context),
            image: image@,
            tag: chars::opt_view(tag),
            push_latest,
            branch: chars::opt_view(branch),
        }),
        t matches DeployType::Xiaojincut { task_type, input_path, output_dir, prompt, port } ==> t@
            == (deploy::DeployTypeView::Xiaojincut {
            task_type: task_type@,
            input_path: chars::opt_view(input_path),
            output_dir: chars::opt_view(output_dir),
            prompt: chars::opt_view(prompt),
            port,
        }),
{
}

/// A message of the tunnel is about what it holds.
pub proof fn messages_hold_their_parts(m: PortMapping, t: TunnelMessage)
    ensures
        m@.remote_port == m.remote_port,
        m@.local_host == m.local_host@,
        m@.local_port == m.local_port,
        m@.name == m.name@,
        t matches TunnelMessage::Connect { conn_id, remote_port } ==> t@ == (
        tunnel::MessageView::Connect { conn_id: conn_id@, remote_port }),
        t matches TunnelMessage::Connected { conn_id } ==> t@ == (tunnel::MessageView::Connected {
            conn_id: conn_id@,
        }),
        t matches TunnelMessage::ConnectFailed { conn_id, error } ==> t@ == (
        tunnel::MessageView::ConnectFailed { conn_id: conn_id@, error: error@ }),
        t matches TunnelMessage::Data { conn_id, data } ==> t@ == (tunnel::MessageView::Data {
            conn_id: conn_id@,
            data: data@,
        }),
        t matches TunnelMessage::Close { conn_id } ==> t@ == (tunnel::MessageView::Close {
            conn_id: conn_id@,
        }),
        t matches TunnelMessage::HttpResponse { request_id, status, headers, body } ==> t@ == (
        tunnel::MessageView::HttpResponse {
            request_id: request_id@,
            status,
            headers: chars::pairs(headers@),
            body: chars::opt_bytes(body),
        }),
        t matches TunnelMessage::HttpRequest { request_id, method, path, headers, body } ==> t@ == (
        tunnel::MessageView::HttpRequest {
            request_id: request_id@,
            method: method@,
            path: path@,
            headers: chars::pairs(headers@),
            body: chars::opt_bytes(body),
        }),
        t matches TunnelMessage::Config { client_id, mappings } ==> t@ == (
        tunnel::MessageView::Config {
            client_id: client_id@,
            mappings: tunnel::mapping_views(mappings@),
        }),
{
}

} // verus!
