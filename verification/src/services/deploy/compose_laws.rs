//! What holds of every compose deployment, whatever its commands give back.

use vstd::prelude::*;

use crate::domain::deploy::{DeployStatus, StageStatus};
use crate::services::deploy::action;
use crate::services::deploy::action::{Moment, EXIT_CANCELLED, EXIT_UNKNOWN};
use crate::services::deploy::canary;
use crate::services::deploy::docker_compose;
use crate::services::deploy::monitor;

verus! {

/// Something that happens to a deployment that has begun.
pub ghost enum ComposeEvent {
    /// The command that it waits for came back.
    Output(Result<action::OutputView, Seq<char>>),
    /// The pause that it waits for is over.
    Wake,
}

/// What an event leads to.
pub open spec fn step(
    s: docker_compose::ComposeView,
    event: ComposeEvent,
    m: Moment,
) -> docker_compose::StepView {
    match event {
        ComposeEvent::Output(r) => s.on_output_spec(r, m),
        ComposeEvent::Wake => s.on_wake_spec(m),
    }
}

/// The stage at index `i` has succeeded.
pub open spec fn passed(s: docker_compose::ComposeView, i: int) -> bool {
    s.stages[i].status == StageStatus::Success
}

/// What is known of a deployment by how far it has come.
pub open spec fn sound(s: docker_compose::ComposeView) -> bool {
    &&& s.stages.len() == 5
    &&& match s.phase {
        docker_compose::PhaseView::Done => true,
        docker_compose::PhaseView::Canary { .. } => s.exit_code == 0 && passed(s, 1),
        docker_compose::PhaseView::ComposePull | docker_compose::PhaseView::ComposeUp =>
            s.exit_code == 0 && passed(s, 1) && passed(s, 2),
        docker_compose::PhaseView::Monitor { .. }
        | docker_compose::PhaseView::ShowStatus
        | docker_compose::PhaseView::ShowLogs => s.exit_code == 0 && passed(s, 1) && passed(s, 2)
            && passed(s, 3),
        _ => s.exit_code == 0,
    }
}

/// No action ends the task.
pub open spec fn quiet(acts: Seq<action::ActionView>) -> bool {
    forall|i: int| 0 <= i < acts.len() ==> !(#[trigger] acts[i] is Finish)
}

/// The end of a task is honest: success means exit code 0, and that the image
/// was pulled, the canary was healthy and the container was replaced.
pub open spec fn honest(a: action::ActionView) -> bool {
    a matches action::ActionView::Finish { status, exit_code, stages } ==> {
        &&& status == DeployStatus::Success <==> exit_code == 0
        &&& status == DeployStatus::Success || status == DeployStatus::Failed
        &&& status == DeployStatus::Success ==> stages.len() == 5 && stages[1].status
            == StageStatus::Success && stages[2].status == StageStatus::Success && stages[3].status
            == StageStatus::Success
    }
}

/// Every end of a task in the list is honest.
pub open spec fn all_honest(acts: Seq<action::ActionView>) -> bool {
    forall|i: int| 0 <= i < acts.len() ==> honest(#[trigger] acts[i])
}

proof fn lemma_output_logs_quiet(o: action::OutputView)
    ensures
        quiet(action::output_logs(o)),
{
}

proof fn lemma_canary_quiet(s: canary::CanaryView, r: Result<action::OutputView, Seq<char>>, clock: u64)
    ensures
        quiet(s.on_output_spec(r, clock).actions),
        quiet(s.on_wake_spec(clock).actions),
        quiet(s.begin_spec().actions),
{
    reveal(canary::CanaryView::on_output_spec);
    reveal(canary::CanaryView::on_wake_spec);
}

proof fn lemma_monitor_quiet(
    s: monitor::MonitorView,
    r: Result<action::OutputView, Seq<char>>,
    clock: u64,
)
    ensures
        quiet(s.on_output_spec(r, clock).actions),
        quiet(s.on_wake_spec(clock).actions),
        quiet(s.begin_spec(clock).actions),
{
    reveal(monitor::MonitorView::on_output_spec);
    reveal(monitor::MonitorView::on_wake_spec);
}

proof fn lemma_wrap_up(s: docker_compose::ComposeView, acts: Seq<action::ActionView>)
    requires
        s.stages.len() == 5,
        quiet(acts),
        s.exit_code == 0 ==> passed(s, 1) && passed(s, 2) && passed(s, 3),
    ensures
        all_honest(s.wrap_up(acts).actions),
        sound(s.wrap_up(acts).state),
{
    let lines = action::summary_lines(s.stages);
    assert(forall|i: int| 0 <= i < lines.len() ==> !(#[trigger] lines[i] is Finish));
}

proof fn lemma_cancel(s: docker_compose::ComposeView, acts: Seq<action::ActionView>)
    requires
        s.stages.len() == 5,
        quiet(acts),
    ensures
        all_honest(s.cancel(acts).actions),
        sound(s.cancel(acts).state),
{
}

proof fn lemma_canary_stepped(s: docker_compose::ComposeView, step: canary::StepView, m: Moment)
    requires
        s.stages.len() == 5,
        s.exit_code == 0,
        passed(s, 1),
        quiet(step.actions),
    ensures
        all_honest(s.canary_stepped(step, m).actions),
        sound(s.canary_stepped(step, m).state),
{
    reveal(docker_compose::ComposeView::canary_stepped);
    match step.verdict {
        None => {},
        Some(Ok(())) => {},
        Some(Err(e)) => {
            let t = s.finished(2, m.now, false, Some(e)).exiting(EXIT_UNKNOWN);
            lemma_wrap_up(
                t,
                step.actions.push(action::err("✗ Canary health check failed: "@ + e)).push(
                    action::err("Aborting deployment - keeping old container running"@),
                ).push(t.publish()),
            );
        },
    }
}

proof fn lemma_monitor_stepped(
    s: docker_compose::ComposeView,
    step: monitor::MonitorStepView,
    m: Moment,
)
    requires
        s.stages.len() == 5,
        s.exit_code == 0,
        passed(s, 1),
        passed(s, 2),
        passed(s, 3),
        quiet(step.actions),
    ensures
        all_honest(s.monitor_stepped(step, m).actions),
        sound(s.monitor_stepped(step, m).state),
{
    reveal(docker_compose::ComposeView::monitor_stepped);
}

proof fn lemma_updated(s: docker_compose::ComposeView, acts: Seq<action::ActionView>, m: Moment)
    requires
        s.stages.len() == 5,
        s.exit_code == 0,
        quiet(acts),
    ensures
        all_honest(s.updated(acts, m).actions),
        sound(s.updated(acts, m).state),
{
    if m.cancelled {
        lemma_cancel(s, acts.push(s.publish()));
    }
}

proof fn lemma_image_done(s: docker_compose::ComposeView, acts: Seq<action::ActionView>, m: Moment)
    requires
        s.stages.len() == 5,
        s.exit_code == 0 ==> passed(s, 1),
        quiet(acts),
    ensures
        all_honest(s.image_done(acts, m).actions),
        sound(s.image_done(acts, m).state),
{
    let told = acts.push(s.publish());
    if m.cancelled && s.exit_code == 0 {
        lemma_cancel(s, told);
    } else if s.exit_code == 0 {
        let t = s.started(2, m.now);
        lemma_canary_quiet(t.canary_check(), Err(Seq::empty()), 0);
    } else {
        lemma_wrap_up(s, told);
    }
}

proof fn lemma_replaced(s: docker_compose::ComposeView, acts: Seq<action::ActionView>, m: Moment)
    requires
        s.stages.len() == 5,
        s.exit_code == 0 ==> passed(s, 1) && passed(s, 2) && passed(s, 3),
        quiet(acts),
    ensures
        all_honest(s.replaced(acts, m).actions),
        sound(s.replaced(acts, m).state),
{
    let told = acts.push(s.publish());
    if s.exit_code == 0 {
        let t = s.started(4, m.now);
        lemma_monitor_quiet(t.watch(), Err(Seq::empty()), m.clock_ns);
    } else {
        lemma_wrap_up(s, told);
    }
}

/// Every event keeps a deployment sound, and whatever ends the task is honest:
/// it reports success exactly with exit code 0, and only after the image was
/// pulled, the canary was healthy and the container was replaced.
pub proof fn events_keep_sound(s: docker_compose::ComposeView, event: ComposeEvent, m: Moment)
    requires
        sound(s),
    ensures
        sound(step(s, event, m).state),
        all_honest(step(s, event, m).actions),
{
    let t = s.at(docker_compose::PhaseView::Done);
    match event {
        ComposeEvent::Output(r) => match s.phase {
            docker_compose::PhaseView::ListStale => {
                reveal(docker_compose::ComposeView::listed);
            },
            docker_compose::PhaseView::RemoveStale { .. } => {
                reveal(docker_compose::ComposeView::removed);
            },
            docker_compose::PhaseView::Detect => {
                reveal(docker_compose::ComposeView::detected);
                lemma_detected(t, r, m);
            },
            docker_compose::PhaseView::GitPull => {
                lemma_git_pulled(t, r, m);
            },
            docker_compose::PhaseView::ImagePull => {
                lemma_image_pulled(t, r, m);
            },
            docker_compose::PhaseView::Canary { check } => {
                lemma_canary_quiet(check, r, m.clock_ns);
                lemma_canary_stepped(t, check.on_output_spec(r, m.clock_ns), m);
            },
            docker_compose::PhaseView::ComposeUp => {
                lemma_composed_up(t, r, m);
            },
            docker_compose::PhaseView::Monitor { watch } => {
                lemma_monitor_quiet(watch, r, m.clock_ns);
                lemma_monitor_stepped(t, watch.on_output_spec(r, m.clock_ns), m);
            },
            docker_compose::PhaseView::ShowLogs => {
                lemma_wrap_up(t, docker_compose::ComposeView::stdout_log(r));
            },
            _ => {},
        },
        ComposeEvent::Wake => match s.phase {
            docker_compose::PhaseView::Canary { check } => {
                lemma_canary_quiet(check, Err(Seq::empty()), m.clock_ns);
                lemma_canary_stepped(t, check.on_wake_spec(m.clock_ns), m);
            },
            docker_compose::PhaseView::Monitor { watch } => {
                lemma_monitor_quiet(watch, Err(Seq::empty()), m.clock_ns);
                lemma_monitor_stepped(t, watch.on_wake_spec(m.clock_ns), m);
            },
            _ => {},
        },
    }
}

proof fn lemma_detected(
    s: docker_compose::ComposeView,
    r: Result<action::OutputView, Seq<char>>,
    m: Moment,
)
    requires
        s.stages.len() == 5,
        s.exit_code == 0,
    ensures
        all_honest(s.detected(r, m).actions),
        sound(s.detected(r, m).state),
{
    reveal(docker_compose::ComposeView::detected);
    let compose = match r {
        Ok(o) => if o.success() {
            canary::ComposeCommand::Standalone
        } else {
            canary::ComposeCommand::Plugin
        },
        Err(_) => canary::ComposeCommand::Plugin,
    };
    let t = (docker_compose::ComposeView { compose, ..s }).started(0, m.now);
    let acts = Seq::<action::ActionView>::empty().push(
        action::out("Using: "@ + compose.description()),
    ).push(t.publish());
    if s.git_repo_dir is None {
        lemma_updated(
            t.with_stage(0, t.stages[0].skipped(Some("not configured"@))),
            acts.push(action::out("[1/4] Skipping git pull (not configured)"@)),
            m,
        );
    }
}

proof fn lemma_git_pulled(
    s: docker_compose::ComposeView,
    r: Result<action::OutputView, Seq<char>>,
    m: Moment,
)
    requires
        s.stages.len() == 5,
        s.exit_code == 0,
    ensures
        all_honest(s.git_pulled(r, m).actions),
        sound(s.git_pulled(r, m).state),
{
    reveal(docker_compose::ComposeView::git_pulled);
    let none = Seq::<action::ActionView>::empty();
    match r {
        Ok(o) => {
            lemma_output_logs_quiet(o);
            let logs = none + action::output_logs(o);
            if o.success() {
                lemma_updated(s.finished(0, m.now, true, None), logs, m);
            } else {
                lemma_updated(
                    s.finished(0, m.now, false, Some("git pull failed, continuing"@)),
                    logs.push(
                        action::err("Warning: git pull failed, continuing with existing files"@),
                    ),
                    m,
                );
            }
        },
        Err(e) => {
            lemma_updated(
                s.finished(0, m.now, false, Some(e)),
                none.push(action::err("Warning: Failed to run git pull: "@ + e)),
                m,
            );
        },
    }
}

proof fn lemma_image_pulled(
    s: docker_compose::ComposeView,
    r: Result<action::OutputView, Seq<char>>,
    m: Moment,
)
    requires
        s.stages.len() == 5,
        s.exit_code == 0,
    ensures
        all_honest(s.image_pulled(r, m).actions),
        sound(s.image_pulled(r, m).state),
{
    reveal(docker_compose::ComposeView::image_pulled);
    let none = Seq::<action::ActionView>::empty();
    match r {
        Ok(o) => {
            lemma_output_logs_quiet(o);
            let logs = none + action::output_logs(o);
            if o.success() {
                lemma_image_done(s.finished(1, m.now, true, None), logs, m);
            } else {
                lemma_image_done(
                    s.finished(1, m.now, false, Some("docker pull failed"@)).exiting(o.code_or()),
                    logs.push(action::err("Error: Failed to pull image"@)),
                    m,
                );
            }
        },
        Err(e) => {
            lemma_image_done(
                s.finished(1, m.now, false, Some(e)).exiting(EXIT_UNKNOWN),
                none.push(action::err("Error: Failed to run docker pull: "@ + e)),
                m,
            );
        },
    }
}

proof fn lemma_composed_up(
    s: docker_compose::ComposeView,
    r: Result<action::OutputView, Seq<char>>,
    m: Moment,
)
    requires
        s.stages.len() == 5,
        s.exit_code == 0,
        passed(s, 1),
        passed(s, 2),
    ensures
        all_honest(s.composed_up(r, m).actions),
        sound(s.composed_up(r, m).state),
{
    reveal(docker_compose::ComposeView::composed_up);
    let none = Seq::<action::ActionView>::empty();
    match r {
        Ok(o) => {
            let logs = docker_compose::ComposeView::plain_logs(o);
            if o.success() {
                lemma_replaced(
                    s.finished(3, m.now, true, None),
                    logs.push(action::out("✓ New container is now live"@)),
                    m,
                );
            } else {
                lemma_replaced(
                    s.finished(3, m.now, false, Some("compose up failed"@)).exiting(o.code_or()),
                    logs.push(action::err("Error: Failed to start services"@)),
                    m,
                );
            }
        },
        Err(e) => {
            lemma_replaced(
                s.finished(3, m.now, false, Some(e)).exiting(EXIT_UNKNOWN),
                none.push(action::err("Error: Failed to run compose up: "@ + e)),
                m,
            );
        },
    }
}

/// The state that a list of events leads to.
pub open spec fn after(
    s: docker_compose::ComposeView,
    events: Seq<(ComposeEvent, Moment)>,
) -> docker_compose::ComposeView
    decreases events.len(),
{
    if events.len() == 0 {
        s
    } else {
        let before = after(s, events.drop_last());
        step(before, events.last().0, events.last().1).state
    }
}

/// A deployment that has not begun.
pub open spec fn fresh(s: docker_compose::ComposeView) -> bool {
    s.phase is Ready && s.exit_code == 0 && s.stages == docker_compose::initial_stages()
}

/// Whatever happens to a deployment, it stays sound.
pub proof fn deployments_stay_sound(
    s: docker_compose::ComposeView,
    begun: Moment,
    events: Seq<(ComposeEvent, Moment)>,
)
    requires
        fresh(s),
    ensures
        sound(after(s.begin_spec(begun).state, events)),
    decreases events.len(),
{
    if events.len() > 0 {
        deployments_stay_sound(s, begun, events.drop_last());
        let before = after(s.begin_spec(begun).state, events.drop_last());
        events_keep_sound(before, events.last().0, events.last().1);
    }
}

/// Whatever happens to a deployment, the running container is replaced only
/// after the canary of the new image was found healthy.
pub proof fn swap_needs_healthy_canary(
    s: docker_compose::ComposeView,
    begun: Moment,
    events: Seq<(ComposeEvent, Moment)>,
)
    requires
        fresh(s),
        after(s.begin_spec(begun).state, events).phase is ComposeUp,
    ensures
        passed(after(s.begin_spec(begun).state, events), 2),
{
    deployments_stay_sound(s, begun, events);
}

/// A canary that fails ends the deployment: nothing is replaced, and the task
/// has failed.
pub proof fn failed_canary_aborts(
    s: docker_compose::ComposeView,
    step: canary::StepView,
    error: Seq<char>,
    m: Moment,
)
    requires
        step.verdict == Some(Err::<(), Seq<char>>(error)),
    ensures
        s.canary_stepped(step, m).state.phase is Done,
        s.canary_stepped(step, m).actions.last() matches action::ActionView::Finish {
            status,
            exit_code,
            ..
        } && status == DeployStatus::Failed && exit_code == EXIT_UNKNOWN,
{
    reveal(docker_compose::ComposeView::canary_stepped);
}

/// Once the new container is being watched, the deployment can only end in
/// success: what the watch finds is reported, not held against it.
pub proof fn watch_does_not_fail_deployment(
    s: docker_compose::ComposeView,
    event: ComposeEvent,
    m: Moment,
    i: int,
)
    requires
        sound(s),
        s.phase is Monitor || s.phase is ShowStatus || s.phase is ShowLogs,
        0 <= i < step(s, event, m).actions.len(),
    ensures
        step(s, event, m).actions[i] matches action::ActionView::Finish { status, exit_code, .. }
            ==> status == DeployStatus::Success && exit_code == 0,
{
    events_keep_sound(s, event, m);
    let acts = step(s, event, m).actions;
    assert(honest(acts[i]));
    match event {
        ComposeEvent::Output(r) => match s.phase {
            docker_compose::PhaseView::Monitor { watch } => {
                lemma_monitor_quiet(watch, r, m.clock_ns);
                reveal(docker_compose::ComposeView::monitor_stepped);
            },
            docker_compose::PhaseView::ShowLogs => {
                let lines = action::summary_lines(s.stages);
                assert(forall|j: int| 0 <= j < lines.len() ==> !(#[trigger] lines[j] is Finish));
            },
            _ => {},
        },
        ComposeEvent::Wake => match s.phase {
            docker_compose::PhaseView::Monitor { watch } => {
                lemma_monitor_quiet(watch, Err(Seq::empty()), m.clock_ns);
                reveal(docker_compose::ComposeView::monitor_stepped);
            },
            _ => {},
        },
    }
}

/// A deployment that is cancelled before the image was pulled ends with the
/// exit code of a cancellation.
pub proof fn cancelled_before_pull(s: docker_compose::ComposeView, acts: Seq<action::ActionView>, m: Moment)
    requires
        m.cancelled,
    ensures
        s.updated(acts, m).state.phase is Done,
        s.updated(acts, m).actions.last() == (action::ActionView::Finish {
            status: DeployStatus::Failed,
            exit_code: EXIT_CANCELLED,
            stages: s.stages,
        }),
{
}

} // verus!
