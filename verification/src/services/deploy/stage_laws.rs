//! What the stages of a deployment say: which there are, which one runs, and how
//! each one ended.

use vstd::prelude::*;

use crate::domain::deploy::{DeployStatus, StageStatus};
use crate::domain::deploy;
use crate::services::deploy::action;
use crate::services::deploy::action::{ActionView, LogStream, Moment};
use crate::services::deploy::build_step_laws::succeeded;
use crate::services::deploy::docker_build;
use crate::services::deploy::docker_compose;
use crate::services::deploy::fatal;
use crate::services::deploy::monitor;
use crate::services::deploy::script;
use crate::text::case;
use crate::text::number;
use crate::text::search;

verus! {

/// The stage at index `i` has this name and has not begun.
pub open spec fn is_to_come(
    stages: Seq<deploy::StageView>,
    i: int,
    name: Seq<char>,
    label: Seq<char>,
) -> bool {
    0 <= i < stages.len() && stages[i].name == name && stages[i].display_name == label
        && stages[i].status == StageStatus::Pending && stages[i].started_at is None
        && stages[i].finished_at is None && stages[i].message is None
}

/// A build has three stages, and a fourth where the latest tag is pushed; a
/// deployment with compose has five.
pub proof fn stages_are_known_beforehand(push_latest: bool)
    ensures
        ({
            let s = docker_build::initial_stages(push_latest);
            &&& s.len() == if push_latest {
                4int
            } else {
                3
            }
            &&& is_to_come(s, 0, "git_pull"@, "Git Pull"@)
            &&& is_to_come(s, 1, "docker_build"@, "Docker Build"@)
            &&& is_to_come(s, 2, "docker_push"@, "Docker Push"@)
            &&& push_latest ==> is_to_come(s, 3, "docker_push_latest"@, "Push Latest Tag"@)
        }),
        ({
            let s = docker_compose::initial_stages();
            &&& s.len() == 5
            &&& is_to_come(s, 0, "git_pull"@, "Git Pull"@)
            &&& is_to_come(s, 1, "docker_pull"@, "Docker Pull"@)
            &&& is_to_come(s, 2, "health_check"@, "Health Check"@)
            &&& is_to_come(s, 3, "compose_up"@, "Compose Up"@)
            &&& is_to_come(s, 4, "post_deploy_monitor"@, "Post-Deploy Monitor"@)
        }),
{
}

/// A stage that did not come to its end is passed over when a build is
/// cancelled; one that did keeps its end.
pub proof fn open_stage_is_passed_over(s: deploy::StageView)
    ensures
        ({
            let d = docker_build::dropped(s);
            let open = s.status == StageStatus::Pending || s.status == StageStatus::Running;
            &&& open ==> d.status == StageStatus::Skipped
            &&& !open ==> d == s
            &&& d.name == s.name && d.display_name == s.display_name && d.started_at == s.started_at
                && d.message == s.message
        }),
{
}

/// How a stage ended that a command decides.
pub open spec fn outcome(ok: bool) -> StageStatus {
    if ok {
        StageStatus::Success
    } else {
        StageStatus::Failed
    }
}

/// The update of the repository runs from the beginning of a build and ends with
/// its command.
pub proof fn update_has_its_stage(
    s: docker_build::BuildView,
    r: Result<action::OutputView, Seq<char>>,
    m: Moment,
)
    requires
        s.stages.len() >= 3,
    ensures
        s.begin_spec(m).state.stages[0].status == StageStatus::Running,
        s.begin_spec(m).state.stages[0].started_at == Some(m.now),
        s.phase is GitPull ==> s.on_output_spec(r, m).state.stages[0].status == outcome(
            succeeded(r),
        ) && s.on_output_spec(r, m).state.stages[0].finished_at == Some(m.now)
            && s.on_output_spec(r, m).state.stages[1] == s.stages[1],
{
    reveal(docker_build::BuildView::git_pulled);
}

/// The build has its stage: it runs with its command and ends with it.
pub proof fn build_has_its_stage(
    s: docker_build::BuildView,
    end: action::SpawnEndView,
    zombies: u64,
    hung: u64,
    m: Moment,
)
    requires
        s.stages.len() >= 3,
    ensures
        s.build(zombies, hung, m).state.stages[1].status == StageStatus::Running,
        s.build(zombies, hung, m).state.stages[1].started_at == Some(m.now),
        s.phase is Build && !(end is Cancelled) ==> {
            let t = s.on_spawn_end_spec(end, m).state.stages;
            &&& t[1].status == outcome(end == action::SpawnEndView::Exited(Some(0i32)))
            &&& t[1].finished_at == Some(m.now)
            &&& t[0] == s.stages[0]
        },
        s.phase is Build && end is Cancelled ==> {
            let t = s.on_spawn_end_spec(end, m).state.stages;
            t[0] == docker_build::dropped(s.stages[0]) && t[1] == docker_build::dropped(
                s.stages[1],
            ) && t[2] == docker_build::dropped(s.stages[2])
        },
{
    reveal(docker_build::BuildView::build_ended);
}

/// The pushes have their stages, which end with their commands.
pub proof fn pushes_have_their_stages(
    s: docker_build::BuildView,
    r: Result<action::OutputView, Seq<char>>,
    m: Moment,
)
    requires
        s.stages.len() >= 3,
    ensures
        s.phase is Push ==> s.on_output_spec(r, m).state.stages[2].status == outcome(succeeded(r))
            && s.on_output_spec(r, m).state.stages[2].finished_at == Some(m.now)
            && s.on_output_spec(r, m).state.stages[1] == s.stages[1],
        s.phase is Tag ==> s.on_output_spec(r, m).state.stages == s.stages,
        s.phase is PushLatest && s.stages.len() == 4 ==> s.on_output_spec(r, m).state.stages[3].status
            == outcome(succeeded(r)) && s.on_output_spec(r, m).state.stages[2] == s.stages[2],
{
    reveal(docker_build::BuildView::pushed);
    reveal(docker_build::BuildView::tagged);
    reveal(docker_build::BuildView::pushed_latest);
}

/// The end of a build or of a deployment with compose shows its last stages.
pub proof fn end_shows_the_stages(
    b: docker_build::BuildView,
    c: docker_compose::ComposeView,
    acts: Seq<ActionView>,
)
    ensures
        b.wrap_up(acts).actions.last() == (ActionView::Finish {
            status: if b.exit_code == 0 {
                DeployStatus::Success
            } else {
                DeployStatus::Failed
            },
            exit_code: b.exit_code,
            stages: b.stages,
        }),
        c.wrap_up(acts).actions.last() == (ActionView::Finish {
            status: if c.exit_code == 0 {
                DeployStatus::Success
            } else {
                DeployStatus::Failed
            },
            exit_code: c.exit_code,
            stages: c.stages,
        }),
        b.cancel(acts).actions.last() == (ActionView::Finish {
            status: DeployStatus::Failed,
            exit_code: -2i32,
            stages: b.stages,
        }),
        c.cancel(acts).actions.last() == (ActionView::Finish {
            status: DeployStatus::Failed,
            exit_code: -2i32,
            stages: c.stages,
        }),
        b.publish() == (ActionView::Stages { stages: b.stages }),
        c.publish() == (ActionView::Stages { stages: c.stages }),
{
}

/// The pull of the image and the replacement of the container have their stages,
/// which end with their commands.
pub proof fn compose_has_its_stages(
    s: docker_compose::ComposeView,
    r: Result<action::OutputView, Seq<char>>,
    m: Moment,
)
    requires
        s.stages.len() == 5,
        s.exit_code == 0,
    ensures
        s.phase is ImagePull ==> s.on_output_spec(r, m).state.stages[1].status == outcome(
            succeeded(r),
        ) && s.on_output_spec(r, m).state.stages[0] == s.stages[0] && s.on_output_spec(
            r,
            m,
        ).state.stages[3] == s.stages[3],
        s.phase is ComposeUp ==> s.on_output_spec(r, m).state.stages[3].status == outcome(
            succeeded(r),
        ) && s.on_output_spec(r, m).state.stages[2] == s.stages[2],
        s.phase is Detect && s.git_repo_dir is None ==> s.on_output_spec(r, m).state.stages[0].status
            == StageStatus::Skipped,
        s.phase is Detect && s.git_repo_dir is Some ==> s.on_output_spec(r, m).state.stages[0].status
            == StageStatus::Running,
{
    reveal(docker_compose::ComposeView::image_pulled);
    reveal(docker_compose::ComposeView::composed_up);
    reveal(docker_compose::ComposeView::detected);
}

/// The stages of a script deployment end with their commands.
pub proof fn script_has_its_stages(
    s: script::ScriptView,
    r: Result<action::OutputView, Seq<char>>,
    end: action::SpawnEndView,
    m: Moment,
)
    requires
        s.stages.len() == 2,
    ensures
        s.begin_spec(m).state.stages[0].status == StageStatus::Running,
        s.phase is GitPull ==> s.on_output_spec(r, m).state.stages[0].status == outcome(
            succeeded(r),
        ) && (!m.cancelled ==> s.on_output_spec(r, m).state.stages[1].status
            == StageStatus::Running),
        s.phase is Script ==> s.on_spawn_end_spec(end, m).state.stages[1].status == outcome(
            end == action::SpawnEndView::Exited(Some(0i32)),
        ) && s.on_spawn_end_spec(end, m).state.stages[0] == s.stages[0]
            && s.on_spawn_end_spec(end, m).actions.last()->Finish_stages == s.on_spawn_end_spec(
            end,
            m,
        ).state.stages,
{
}

/// An issue of the watched container is told on the error stream, and reported
/// to the center with the number of restarts.
pub proof fn issue_is_told_and_reported(acts: Seq<ActionView>, text: Seq<char>, restarts: u32)
    ensures
        ({
            let t = monitor::issue(acts, text, restarts);
            &&& t.len() == acts.len() + 2
            &&& t[acts.len() as int] == (ActionView::Log {
                stream: LogStream::Stderr,
                text: "[POST-DEPLOY ISSUE] "@ + text,
            })
            &&& t[acts.len() as int + 1] == (ActionView::Report {
                text: "[POST-DEPLOY ALERT] "@ + text + " (restarts: "@ + number::decimal_spec(
                    restarts as nat,
                ) + ")"@,
            })
            &&& forall|i: int| 0 <= i < acts.len() ==> t[i] == #[trigger] acts[i]
        }),
{
}

/// A text holds a fatal pattern from index `i` of the patterns on.
pub open spec fn holds_from(lower: Seq<char>, patterns: Seq<Seq<char>>, i: int) -> bool {
    exists|k: int| i <= k < patterns.len() && search::has_substring(lower, #[trigger] patterns[k])
}

/// The first pattern that stands in a text is found, and none where none does.
pub proof fn first_pattern_is_found(lower: Seq<char>, patterns: Seq<Seq<char>>, i: int)
    requires
        0 <= i <= patterns.len(),
    ensures
        fatal::first_pattern_from(lower, patterns, i) is Some <==> holds_from(lower, patterns, i),
        fatal::first_pattern_from(lower, patterns, i) matches Some(p) ==> search::has_substring(
            lower,
            p,
        ) && patterns.contains(p),
    decreases patterns.len() - i,
{
    if i < patterns.len() {
        first_pattern_is_found(lower, patterns, i + 1);
        if search::has_substring(lower, patterns[i]) {
            assert(holds_from(lower, patterns, i));
            assert(patterns.contains(patterns[i]));
        } else if holds_from(lower, patterns, i) {
            let k = choose|k: int|
                i <= k < patterns.len() && search::has_substring(lower, #[trigger] patterns[k]);
            assert(i + 1 <= k);
            assert(holds_from(lower, patterns, i + 1));
        }
    }
}

/// A log of the watched container that has grown and holds a fatal pattern is an
/// issue; one that has not grown, or holds none, is told of by nothing.
pub proof fn fatal_log_is_an_issue(
    w: monitor::MonitorView,
    restarts: u32,
    o: action::OutputView,
    clock: u64,
)
    requires
        w.phase == (monitor::MonitorPhase::Logs { restart_count: restarts }),
    ensures
        ({
            let t = w.on_output_spec(Ok(o), clock);
            let text = case::lowercase_of(o.stdout) + case::lowercase_of(o.stderr);
            let grown = vstd::utf8::encode_utf8(text).len() <= usize::MAX
                && vstd::utf8::encode_utf8(text).len() > w.log_len;
            &&& grown && fatal::first_pattern(text) is Some ==> exists|i: int|
                0 <= i < t.actions.len() && #[trigger] t.actions[i] == (ActionView::Report {
                    text: "[POST-DEPLOY ALERT] "@ + ("Fatal error: "@ + fatal::first_pattern(
                        text,
                    )->0) + " (restarts: "@ + number::decimal_spec(restarts as nat) + ")"@,
                })
            &&& fatal::first_pattern(text) is None ==> forall|i: int|
                0 <= i < t.actions.len() ==> !((#[trigger] t.actions[i]) is Report)
            &&& grown ==> t.state.log_len == vstd::utf8::encode_utf8(text).len()
        }),
{
    reveal(monitor::MonitorView::on_output_spec);
    let t = w.on_output_spec(Ok(o), clock);
    let text = case::lowercase_of(o.stdout) + case::lowercase_of(o.stderr);
    if vstd::utf8::encode_utf8(text).len() <= usize::MAX && vstd::utf8::encode_utf8(text).len()
        > w.log_len && fatal::first_pattern(text) is Some {
        assert(t.actions[2] is Report);
    }
}

} // verus!
