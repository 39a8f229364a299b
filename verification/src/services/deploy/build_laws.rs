//! What holds of every build, script and video deployment, whatever its
//! commands give back.

use vstd::prelude::*;

use crate::domain::deploy::{DeployStatus, StageStatus};
use crate::services::deploy::action;
use crate::services::deploy::action::{Moment, EXIT_CANCELLED, EXIT_UNKNOWN};
use crate::services::deploy::docker_build;
use crate::services::deploy::script;
use crate::services::deploy::script::ScriptPhase;
use crate::services::deploy::xiaojincut;
use crate::services::deploy::zombies;

verus! {

/// Something that happens to a build that has begun.
pub ghost enum BuildEvent {
    /// The command that it waits for came back.
    Output(Result<action::OutputView, Seq<char>>),
    /// The streamed command that it waits for came to its end.
    SpawnEnd(action::SpawnEndView),
}

/// What an event leads to.
pub open spec fn step(
    s: docker_build::BuildView,
    event: BuildEvent,
    m: Moment,
) -> docker_build::StepView {
    match event {
        BuildEvent::Output(r) => s.on_output_spec(r, m),
        BuildEvent::SpawnEnd(e) => s.on_spawn_end_spec(e, m),
    }
}

/// The stage at index `i` has succeeded.
pub open spec fn passed(s: docker_build::BuildView, i: int) -> bool {
    s.stages[i].status == StageStatus::Success
}

/// The build has its stages.
pub open spec fn staged(s: docker_build::BuildView) -> bool {
    s.stages.len() == if s.push_latest {
        4int
    } else {
        3int
    }
}

/// What is known of a build by how far it has come: nothing is pushed that was
/// not built, and the latest tag follows only a push.
pub open spec fn sound(s: docker_build::BuildView) -> bool {
    &&& staged(s)
    &&& match s.phase {
        docker_build::PhaseView::Done => true,
        docker_build::PhaseView::Push => s.exit_code == 0 && passed(s, 1),
        docker_build::PhaseView::Tag | docker_build::PhaseView::PushLatest => s.exit_code == 0
            && s.push_latest && passed(s, 1) && passed(s, 2),
        _ => s.exit_code == 0,
    }
}

/// No action ends the task.
pub open spec fn quiet(acts: Seq<action::ActionView>) -> bool {
    forall|i: int| 0 <= i < acts.len() ==> !(#[trigger] acts[i] is Finish)
}

/// The end of a task reports success exactly with exit code 0.
pub open spec fn honest(a: action::ActionView) -> bool {
    a matches action::ActionView::Finish { status, exit_code, .. } ==> {
        &&& status == DeployStatus::Success <==> exit_code == 0
        &&& status == DeployStatus::Success || status == DeployStatus::Failed
    }
}

/// The end of a build is honest, and success means that the image was built
/// and pushed.
pub open spec fn honest_build(a: action::ActionView) -> bool {
    &&& honest(a)
    &&& a matches action::ActionView::Finish { status, stages, .. } ==> (status
        == DeployStatus::Success ==> stages.len() >= 3 && stages[1].status == StageStatus::Success
        && stages[2].status == StageStatus::Success)
}

/// Every end of a build in the list is honest.
pub open spec fn all_honest(acts: Seq<action::ActionView>) -> bool {
    forall|i: int| 0 <= i < acts.len() ==> honest_build(#[trigger] acts[i])
}

proof fn lemma_wrap_up(s: docker_build::BuildView, acts: Seq<action::ActionView>)
    requires
        staged(s),
        quiet(acts),
        s.exit_code == 0 ==> passed(s, 1) && passed(s, 2),
    ensures
        all_honest(s.wrap_up(acts).actions),
        sound(s.wrap_up(acts).state),
{
    let lines = action::summary_lines(s.stages);
    assert(forall|i: int| 0 <= i < lines.len() ==> !(#[trigger] lines[i] is Finish));
}

proof fn lemma_cancel(s: docker_build::BuildView, acts: Seq<action::ActionView>)
    requires
        staged(s),
        quiet(acts),
    ensures
        all_honest(s.cancel(acts).actions),
        sound(s.cancel(acts).state),
{
}

proof fn lemma_prepared(s: docker_build::BuildView, acts: Seq<action::ActionView>, m: Moment)
    requires
        staged(s),
        quiet(acts),
    ensures
        all_honest(s.prepared(acts, m).actions),
        sound(s.prepared(acts, m).state),
{
    if m.cancelled {
        lemma_cancel(s, acts.push(action::err("Deployment cancelled"@)));
    } else if s.exit_code != 0 {
        lemma_wrap_up(s, acts);
    }
}

proof fn lemma_git_pulled(
    s: docker_build::BuildView,
    r: Result<action::OutputView, Seq<char>>,
    m: Moment,
)
    requires
        staged(s),
        s.exit_code == 0,
    ensures
        all_honest(s.git_pulled(r, m).actions),
        sound(s.git_pulled(r, m).state),
{
    reveal(docker_build::BuildView::git_pulled);
    let none = Seq::<action::ActionView>::empty();
    let t = match r {
        Ok(o) => if o.success() {
            s.finished(0, m.now, true, None)
        } else {
            s.finished(0, m.now, false, Some("git pull failed"@)).exiting(o.code_or())
        },
        Err(e) => s.finished(0, m.now, false, Some(e)).exiting(EXIT_UNKNOWN),
    };
    let told = match r {
        Ok(o) => none + action::output_logs(o),
        Err(e) => none.push(action::err("Error: Failed to run git pull: "@ + e)),
    }.push(t.publish());
    assert(quiet(told));
    if !(t.exit_code == 0 && s.given_tag is None) {
        lemma_prepared(t, told, m);
    }
}

proof fn lemma_hashed(
    s: docker_build::BuildView,
    r: Result<action::OutputView, Seq<char>>,
    m: Moment,
)
    requires
        staged(s),
        s.exit_code == 0,
    ensures
        all_honest(s.hashed(r, m).actions),
        sound(s.hashed(r, m).state),
{
    reveal(docker_build::BuildView::hashed);
    let none = Seq::<action::ActionView>::empty();
    lemma_prepared(s, none, m);
    if let Ok(o) = r {
        let tag = crate::text::split::trim_spec(o.stdout);
        lemma_prepared(
            docker_build::BuildView { tag, ..s },
            none.push(action::out("Using commit hash as tag: "@ + tag)),
            m,
        );
    }
}

proof fn lemma_cleanup_stepped(s: docker_build::BuildView, step: zombies::StepView, m: Moment)
    requires
        staged(s),
        s.exit_code == 0,
        step.command matches Some(c) ==> !(c is Finish),
    ensures
        all_honest(s.cleanup_stepped(step, m).actions),
        sound(s.cleanup_stepped(step, m).state),
{
    reveal(docker_build::BuildView::cleanup_stepped);
}

proof fn lemma_built(s: docker_build::BuildView, acts: Seq<action::ActionView>, m: Moment)
    requires
        staged(s),
        s.exit_code == 0 ==> passed(s, 1),
        quiet(acts),
    ensures
        all_honest(s.built(acts, m).actions),
        sound(s.built(acts, m).state),
{
    let told = acts.push(s.publish());
    if s.exit_code == 0 && m.cancelled {
        lemma_cancel(s, told.push(action::err("=== Deployment cancelled before push ==="@)));
    } else if s.exit_code != 0 {
        lemma_wrap_up(s, told);
    }
}

proof fn lemma_build_ended(s: docker_build::BuildView, end: action::SpawnEndView, m: Moment)
    requires
        staged(s),
        s.exit_code == 0,
    ensures
        all_honest(s.build_ended(end, m).actions),
        sound(s.build_ended(end, m).state),
{
    reveal(docker_build::BuildView::build_ended);
    let none = Seq::<action::ActionView>::empty();
    match end {
        action::SpawnEndView::NotStarted(e) => {
            lemma_built(
                s.finished(1, m.now, false, Some(e)).exiting(EXIT_UNKNOWN),
                none.push(action::err("Error: Failed to start docker build: "@ + e)),
                m,
            );
        },
        action::SpawnEndView::Cancelled => {},
        action::SpawnEndView::Exited(code) => {
            if code == Some(0i32) {
                lemma_built(
                    s.finished(1, m.now, true, None),
                    none.push(action::out("✓ Image built: "@ + s.full_image())),
                    m,
                );
            } else {
                lemma_built(
                    s.finished(1, m.now, false, Some("docker build failed"@)).exiting(
                        match code {
                            Some(c) => c,
                            None => EXIT_UNKNOWN,
                        },
                    ),
                    none,
                    m,
                );
            }
        },
        action::SpawnEndView::Lost(e) => {
            lemma_built(
                s.finished(1, m.now, false, Some(e)).exiting(EXIT_UNKNOWN),
                none.push(action::err("Error waiting for build: "@ + e)),
                m,
            );
        },
    }
}

proof fn lemma_pushed_or_not(s: docker_build::BuildView, acts: Seq<action::ActionView>, m: Moment)
    requires
        staged(s),
        s.exit_code == 0 ==> passed(s, 1) && passed(s, 2),
        quiet(acts),
    ensures
        all_honest(s.pushed_or_not(acts, m).actions),
        sound(s.pushed_or_not(acts, m).state),
{
    let told = acts.push(s.publish());
    if s.exit_code == 0 && m.cancelled {
        lemma_cancel(
            s,
            told.push(action::err("=== Deployment cancelled before push latest ==="@)),
        );
    } else if !(s.exit_code == 0 && s.push_latest) {
        lemma_wrap_up(s, told);
    }
}

proof fn lemma_pushed(
    s: docker_build::BuildView,
    r: Result<action::OutputView, Seq<char>>,
    m: Moment,
)
    requires
        staged(s),
        s.exit_code == 0,
        passed(s, 1),
    ensures
        all_honest(s.pushed(r, m).actions),
        sound(s.pushed(r, m).state),
{
    reveal(docker_build::BuildView::pushed);
    let none = Seq::<action::ActionView>::empty();
    match r {
        Ok(o) => {
            let logs = none + action::output_logs(o);
            assert(quiet(logs));
            if o.success() {
                lemma_pushed_or_not(
                    s.finished(2, m.now, true, None),
                    logs.push(action::out("✓ Pushed: "@ + s.full_image())),
                    m,
                );
            } else {
                lemma_pushed_or_not(
                    s.finished(2, m.now, false, Some("docker push failed"@)).exiting(o.code_or()),
                    logs,
                    m,
                );
            }
        },
        Err(e) => {
            lemma_pushed_or_not(
                s.finished(2, m.now, false, Some(e)).exiting(EXIT_UNKNOWN),
                none.push(action::err("Error: Failed to push image: "@ + e)),
                m,
            );
        },
    }
}

proof fn lemma_pushed_latest(
    s: docker_build::BuildView,
    r: Result<action::OutputView, Seq<char>>,
    m: Moment,
)
    requires
        staged(s),
        s.push_latest,
        s.exit_code == 0,
        passed(s, 1),
        passed(s, 2),
    ensures
        all_honest(s.pushed_latest(r, m).actions),
        sound(s.pushed_latest(r, m).state),
        s.pushed_latest(r, m).actions.last() matches action::ActionView::Finish {
            status,
            exit_code,
            ..
        } && status == DeployStatus::Success && exit_code == 0,
{
    reveal(docker_build::BuildView::pushed_latest);
    let none = Seq::<action::ActionView>::empty();
    let t = match r {
        Ok(o) => if o.success() {
            s.finished(3, m.now, true, None)
        } else {
            s.finished(3, m.now, false, Some("push latest failed"@))
        },
        Err(e) => s.finished(3, m.now, false, Some(e)),
    };
    let told = match r {
        Ok(o) => {
            let first = if o.stdout.len() > 0 {
                none.push(action::out(o.stdout))
            } else {
                none
            };
            if o.success() {
                first.push(action::out("✓ Pushed: "@ + s.latest_image()))
            } else {
                first.push(action::err("Warning: Failed to push latest tag"@))
            }
        },
        Err(e) => none.push(action::err("Warning: Failed to push latest: "@ + e)),
    };
    lemma_wrap_up(t, told.push(t.publish()));
}

proof fn lemma_zombies_quiet(c: zombies::CleanupView, r: Result<action::OutputView, Seq<char>>)
    ensures
        c.on_output_spec(r).command matches Some(a) ==> !(a is Finish),
{
}

/// Every event keeps a build sound, and whatever ends the task is honest: it
/// reports success exactly with exit code 0, and only after the image was
/// built and pushed.
pub proof fn events_keep_sound(s: docker_build::BuildView, event: BuildEvent, m: Moment)
    requires
        sound(s),
    ensures
        sound(step(s, event, m).state),
        all_honest(step(s, event, m).actions),
{
    let t = s.at(docker_build::PhaseView::Done);
    match event {
        BuildEvent::Output(r) => match s.phase {
            docker_build::PhaseView::GitPull => {
                lemma_git_pulled(t, r, m);
            },
            docker_build::PhaseView::RevParse => {
                lemma_hashed(t, r, m);
            },
            docker_build::PhaseView::Cleanup { cleanup } => {
                lemma_zombies_quiet(cleanup, r);
                lemma_cleanup_stepped(t, cleanup.on_output_spec(r), m);
            },
            docker_build::PhaseView::Push => {
                lemma_pushed(t, r, m);
            },
            docker_build::PhaseView::Tag => {
                reveal(docker_build::BuildView::tagged);
            },
            docker_build::PhaseView::PushLatest => {
                lemma_pushed_latest(t, r, m);
            },
            _ => {},
        },
        BuildEvent::SpawnEnd(e) => match s.phase {
            docker_build::PhaseView::Build => {
                lemma_build_ended(s, e, m);
            },
            _ => {},
        },
    }
}

/// The state that a build is in after some events.
pub open spec fn after(
    begun: docker_build::BuildView,
    events: Seq<(BuildEvent, Moment)>,
) -> docker_build::BuildView
    decreases events.len(),
{
    if events.len() == 0 {
        begun
    } else {
        step(after(begun, events.drop_last()), events.last().0, events.last().1).state
    }
}

/// A build that has not begun.
pub open spec fn fresh(s: docker_build::BuildView) -> bool {
    s.phase is Ready && s.exit_code == 0 && s.stages == docker_build::initial_stages(s.push_latest)
}

/// Whatever happens to a build, it stays sound: it never comes to push an
/// image that was not built, nor to tag one as latest that was not pushed.
pub proof fn builds_stay_sound(
    s: docker_build::BuildView,
    begun: Moment,
    events: Seq<(BuildEvent, Moment)>,
)
    requires
        fresh(s),
    ensures
        sound(after(s.begin_spec(begun).state, events)),
    decreases events.len(),
{
    if events.len() > 0 {
        builds_stay_sound(s, begun, events.drop_last());
        let before = after(s.begin_spec(begun).state, events.drop_last());
        events_keep_sound(before, events.last().0, events.last().1);
    }
}

/// Once the image is pushed and tagged, nothing that happens to the latest tag
/// makes the build fail.
pub proof fn latest_tag_does_not_fail_build(
    s: docker_build::BuildView,
    r: Result<action::OutputView, Seq<char>>,
    m: Moment,
)
    requires
        sound(s),
        s.phase is PushLatest,
    ensures
        s.on_output_spec(r, m).state.phase is Done,
        s.on_output_spec(r, m).actions.last() matches action::ActionView::Finish {
            status,
            exit_code,
            ..
        } && status == DeployStatus::Success && exit_code == 0,
{
    let t = s.at(docker_build::PhaseView::Done);
    lemma_pushed_latest(t, r, m);
    reveal(docker_build::BuildView::pushed_latest);
}

/// A build that is cancelled while the image is built ends with the exit code
/// of a cancellation, and nothing is pushed.
pub proof fn cancelled_build_pushes_nothing(s: docker_build::BuildView, m: Moment)
    requires
        s.phase is Build,
    ensures
        s.on_spawn_end_spec(action::SpawnEndView::Cancelled, m).state.phase is Done,
        s.on_spawn_end_spec(
            action::SpawnEndView::Cancelled,
            m,
        ).actions.last() matches action::ActionView::Finish { status, exit_code, .. } && status
            == DeployStatus::Failed && exit_code == EXIT_CANCELLED,
        forall|i: int|
            0 <= i < s.on_spawn_end_spec(action::SpawnEndView::Cancelled, m).actions.len()
                ==> !((#[trigger] s.on_spawn_end_spec(
                action::SpawnEndView::Cancelled,
                m,
            ).actions[i]) is Run),
{
    reveal(docker_build::BuildView::build_ended);
}

/// Whatever a script gives back, the end of its deployment is honest: it
/// reports success exactly with exit code 0, which is the one of the script.
pub proof fn script_end_is_honest(
    s: script::ScriptView,
    r: Result<action::OutputView, Seq<char>>,
    end: action::SpawnEndView,
    m: Moment,
    i: int,
)
    ensures
        0 <= i < s.on_output_spec(r, m).actions.len() ==> honest(s.on_output_spec(r, m).actions[i]),
        0 <= i < s.on_spawn_end_spec(end, m).actions.len() ==> honest(
            s.on_spawn_end_spec(end, m).actions[i],
        ),
        s.phase == ScriptPhase::Script ==> (s.on_spawn_end_spec(
            end,
            m,
        ).actions.last() matches action::ActionView::Finish { status, exit_code, .. } && (status
            == DeployStatus::Success <==> end == action::SpawnEndView::Exited(Some(0i32)))),
{
    if let Ok(o) = r {
        let logs = action::output_logs(o);
        assert(quiet(logs));
        assert(quiet(Seq::<action::ActionView>::empty() + logs));
    }
}

/// A failed update of the repository does not keep the script from running.
pub proof fn script_runs_after_failed_pull(
    s: script::ScriptView,
    r: Result<action::OutputView, Seq<char>>,
    m: Moment,
)
    requires
        s.phase == ScriptPhase::GitPull,
        !m.cancelled,
    ensures
        s.on_output_spec(r, m).state.phase == ScriptPhase::Script,
        s.on_output_spec(r, m).actions.last() is Spawn,
{
}

/// Whatever the video service answers, the end of its task is honest.
pub proof fn video_end_is_honest(s: xiaojincut::TaskView, reply: xiaojincut::ReplyView, i: int)
    requires
        0 <= i < s.on_reply_spec(reply).actions.len(),
    ensures
        honest(s.on_reply_spec(reply).actions[i]),
{
    if let xiaojincut::ReplyView::Answered { status, status_text, body } = reply {
        if let Some(text) = xiaojincut::TaskView::body_layout(reply) {
            let lines = crate::text::split::lines_spec(text).map_values(
                |l: Seq<char>| action::out(l),
            );
            assert(quiet(lines));
        }
    }
}

} // verus!
