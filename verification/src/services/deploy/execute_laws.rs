//! What a running deployment does with an event, how it ends, and which one has
//! its turn next.

use vstd::prelude::*;

use crate::domain::deploy::{DeployStage, DeployStatus, StageStatus};
use crate::domain::deploy;
use crate::services::deploy::action;
use crate::services::deploy::action::{ActionView, LogStream, Moment};
use crate::services::deploy::context::{reported_code, DeployContext, Logged};
use crate::services::deploy::execute::{has_turn, DeployEventView, RunView};
use crate::services::deploy::build_step_laws::command;
use crate::state::app_state::{AppState, QueuedDeploy};
use crate::text::number;
use crate::time::Timestamp;

verus! {

/// A deployment begins in its own way, whatever its type.
pub proof fn deployment_begins_in_its_way(run: RunView, m: Moment)
    ensures
        run matches RunView::Script(d) ==> run.begin_spec(m).actions == d.begin_spec(m).actions
            && run.begin_spec(m).run == RunView::Script(d.begin_spec(m).state),
        run matches RunView::Compose(d) ==> run.begin_spec(m).actions == d.begin_spec(m).actions
            && run.begin_spec(m).run == RunView::Compose(d.begin_spec(m).state),
        run matches RunView::Build(d) ==> run.begin_spec(m).actions == d.begin_spec(m).actions
            && run.begin_spec(m).run == RunView::Build(d.begin_spec(m).state),
        run matches RunView::Xiaojincut(d) ==> run.begin_spec(m).actions == d.begin_spec().actions
            && run.begin_spec(m).run == RunView::Xiaojincut(d.begin_spec().state),
{
}

/// An event goes to the deployment that waits for it; one that it does not wait
/// for changes nothing.
pub proof fn event_goes_to_the_deployment(run: RunView, event: DeployEventView, m: Moment)
    ensures
        ({
            let t = run.on_event_spec(event, m);
            &&& run matches RunView::Script(d) ==> {
                &&& event matches DeployEventView::Output(r) ==> t.actions == d.on_output_spec(
                    r,
                    m,
                ).actions && t.run == RunView::Script(d.on_output_spec(r, m).state)
                &&& event matches DeployEventView::SpawnEnd(e) ==> t.actions == d.on_spawn_end_spec(
                    e,
                    m,
                ).actions && t.run == RunView::Script(d.on_spawn_end_spec(e, m).state)
                &&& event is Reply || event is Wake ==> t.run == run && t.actions.len() == 0
            }
            &&& run matches RunView::Compose(d) ==> {
                &&& event matches DeployEventView::Output(r) ==> t.actions == d.on_output_spec(
                    r,
                    m,
                ).actions && t.run == RunView::Compose(d.on_output_spec(r, m).state)
                &&& event is Wake ==> t.actions == d.on_wake_spec(m).actions && t.run
                    == RunView::Compose(d.on_wake_spec(m).state)
                &&& event is Reply || event is SpawnEnd ==> t.run == run && t.actions.len() == 0
            }
            &&& run matches RunView::Build(d) ==> {
                &&& event matches DeployEventView::Output(r) ==> t.actions == d.on_output_spec(
                    r,
                    m,
                ).actions && t.run == RunView::Build(d.on_output_spec(r, m).state)
                &&& event matches DeployEventView::SpawnEnd(e) ==> t.actions == d.on_spawn_end_spec(
                    e,
                    m,
                ).actions && t.run == RunView::Build(d.on_spawn_end_spec(e, m).state)
                &&& event is Reply || event is Wake ==> t.run == run && t.actions.len() == 0
            }
            &&& run matches RunView::Xiaojincut(d) ==> {
                &&& event matches DeployEventView::Reply(r) ==> t.actions == d.on_reply_spec(
                    r,
                ).actions && t.run == RunView::Xiaojincut(d.on_reply_spec(r).state)
                &&& !(event is Reply) ==> t.run == run && t.actions.len() == 0
            }
        }),
{
}

/// The deployment that has its turn runs from then on, with its commit, and its
/// task runs; every other project and task stays as it is.
pub proof fn next_deployment_runs(
    before: AppState,
    after: AppState,
    project: Seq<char>,
    next: QueuedDeploy,
    now: Timestamp,
    other: Seq<char>,
)
    requires
        has_turn(before, after, project, next, now),
    ensures
        ({
            let id = next.task_id@;
            &&& after.running_deploys@.dom().contains(project)
            &&& after.running_deploys@[project].task_id@ == id
            &&& after.running_deploys@[project].commit_hash == next.request.commit_hash
            &&& !after.running_deploys@[project].cancelled
            &&& after.log_hub@.dom().contains(id)
            &&& before.task_store.active().dom().contains(id) ==> after.task_store.active()[id].status
                == DeployStatus::Running && after.task_store.active()[id].exit_code is None
                && after.task_store.active()[id].project
                == before.task_store.active()[id].project
            &&& other != id && before.task_store.active().dom().contains(other)
                ==> after.task_store.active().dom().contains(other)
                && after.task_store.active()[other] == before.task_store.active()[other]
            &&& after.task_store.past() == before.task_store.past()
            &&& other != project && before.running_deploys@.dom().contains(other)
                ==> after.running_deploys@.dom().contains(other) && after.running_deploys@[other]
                == before.running_deploys@[other]
            &&& after.projects == before.projects && after.config == before.config
        }),
{
}

/// A deployment that has ended is no longer active and its project runs nothing.
/// Its task is the latest of the history, with the status, the exit code, the
/// stages and the time of its end, and its log is finished. Nothing else changes.
pub proof fn ended_deployment_is_history(
    ctx: DeployContext,
    before: AppState,
    after: AppState,
    status: DeployStatus,
    code: Option<i32>,
    stages: Seq<DeployStage>,
    now: Timestamp,
    other: Seq<char>,
)
    requires
        ctx.ended(before, after, status, code, stages, now),
        before.task_store.active().dom().contains(ctx.task_id@),
        before.task_store.history_limit() > 0,
    ensures
        !after.task_store.active().dom().contains(ctx.task_id@),
        !after.running_deploys@.dom().contains(ctx.project@),
        ({
            let t = after.task_store.past()[0];
            let was = before.task_store.active()[ctx.task_id@];
            &&& after.task_store.past().len() > 0
            &&& t.id == was.id && t.project == was.project && t.started_at == was.started_at
            &&& t.status == status && t.exit_code == code && t.stages@ == stages && t.finished_at
                == Some(now)
        }),
        before.log_hub@.dom().contains(ctx.task_id@) ==> after.log_hub@.dom().contains(
            ctx.task_id@,
        ) && after.log_hub@[ctx.task_id@].finished,
        other != ctx.task_id@ && before.task_store.active().dom().contains(other)
            ==> after.task_store.active().dom().contains(other) && after.task_store.active()[other]
            == before.task_store.active()[other],
        other != ctx.task_id@ && before.log_hub@.dom().contains(other)
            ==> after.log_hub@.dom().contains(other) && after.log_hub@[other]
            == before.log_hub@[other],
        other != ctx.project@ && before.running_deploys@.dom().contains(other)
            ==> after.running_deploys@.dom().contains(other) && after.running_deploys@[other]
            == before.running_deploys@[other],
        after.deploy_queue == before.deploy_queue,
        after.projects == before.projects,
{
}

/// A line of the log is broadcast to those who follow the task, and sent to the
/// center, each exactly where there is one, with its stream and its text.
pub proof fn line_goes_to_its_readers(
    ctx: DeployContext,
    state: AppState,
    stream: Seq<char>,
    content: Seq<char>,
    r: Logged,
)
    requires
        ctx.logged(state, stream, content, r),
    ensures
        r.broadcast is Some <==> ctx.log_tx is Some,
        r.broadcast is Some ==> r.broadcast->0.channel() == ctx.log_tx->0
            && r.broadcast->0.content().stream@ == stream && r.broadcast->0.content().content@
            == content,
        r.append is Some <==> state.deploy_center.url() is Some,
        r.append is Some ==> r.append->0.line@ == content && r.append->0.stream@ == stream
            && r.append->0.url@ == state.deploy_center.url()->0 + "/api/deploy/logs/"@
            + ctx.task_id@ + "/append"@,
{
}

/// An exit code that is missing is reported as -1.
pub proof fn missing_code_is_reported(code: Option<i32>, o: action::OutputView)
    ensures
        code is Some ==> reported_code(code) == code->0,
        code is None ==> reported_code(code) == -1i32,
        o.success() <==> o.code == Some(0i32),
        o.code is Some ==> o.code_or() == o.code->0,
        o.code is None ==> o.code_or() == -1i32,
        action::EXIT_CANCELLED == -2i32,
{
}

/// Lines go to the log by their stream, and commands run where they are meant
/// to.
pub proof fn actions_say_what_they_are(
    text: Seq<char>,
    program: Seq<char>,
    args: Seq<Seq<char>>,
    dir: Seq<char>,
)
    ensures
        action::out(text) == (ActionView::Log { stream: LogStream::Stdout, text }),
        action::err(text) == (ActionView::Log { stream: LogStream::Stderr, text }),
        action::run(program, args) == command(program, args, None),
        action::run_in(program, args, dir) == command(program, args, Some(dir)),
        LogStream::Stdout.label() == "stdout"@,
        LogStream::Stderr.label() == "stderr"@,
{
}

/// Both outputs of a command are logged, each under its stream, unless they are
/// empty.
pub proof fn outputs_are_logged(o: action::OutputView)
    ensures
        ({
            let l = action::output_logs(o);
            &&& o.stdout.len() > 0 && o.stderr.len() > 0 ==> l == seq![
                ActionView::Log { stream: LogStream::Stdout, text: o.stdout },
                ActionView::Log { stream: LogStream::Stderr, text: o.stderr },
            ]
            &&& o.stdout.len() > 0 && o.stderr.len() == 0 ==> l == seq![
                ActionView::Log { stream: LogStream::Stdout, text: o.stdout },
            ]
            &&& o.stdout.len() == 0 && o.stderr.len() > 0 ==> l == seq![
                ActionView::Log { stream: LogStream::Stderr, text: o.stderr },
            ]
            &&& o.stdout.len() == 0 && o.stderr.len() == 0 ==> l.len() == 0
        }),
{
    let l = action::output_logs(o);
    let first = ActionView::Log { stream: LogStream::Stdout, text: o.stdout };
    let second = ActionView::Log { stream: LogStream::Stderr, text: o.stderr };
    if o.stdout.len() > 0 && o.stderr.len() > 0 {
        assert(l =~= seq![first, second]);
    } else if o.stdout.len() == 0 && o.stderr.len() > 0 {
        assert(l =~= seq![second]);
    }
}

/// The summary has a line for each stage, in order, with the sign of its state,
/// its name and its duration.
pub proof fn summary_has_a_line_for_each_stage(stages: Seq<deploy::StageView>, i: int)
    requires
        0 <= i < stages.len(),
    ensures
        action::summary_lines(stages).len() == stages.len(),
        ({
            let s = stages[i];
            let sign = match s.status {
                StageStatus::Success => "✓"@,
                StageStatus::Failed => "✗"@,
                StageStatus::Skipped => "⊘"@,
                StageStatus::Running => "⟳"@,
                StageStatus::Pending => "○"@,
            };
            let took = if s.duration_ms is Some {
                number::signed_decimal_spec(s.duration_ms->0 as int) + "ms"@
            } else {
                "-"@
            };
            action::summary_lines(stages)[i] == (ActionView::Log {
                stream: LogStream::Stdout,
                text: sign + " "@ + s.display_name + " ("@ + took + ")"@,
            })
        }),
{
}

} // verus!
