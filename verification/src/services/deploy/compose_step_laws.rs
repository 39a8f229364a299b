//! What the steps of a compose deployment and of the watch behind it are, said
//! of what is configured, of what commands gave back, and of what is asked for
//! next.

use vstd::prelude::*;

use crate::api::containers;
use crate::domain::deploy;
use crate::domain::deploy::{DeployStatus, StageStatus};
use crate::services::deploy::action;
use crate::services::deploy::action::Moment;
use crate::services::deploy::build_step_laws::{command, ends, failure_code, succeeded};
use crate::services::deploy::canary;
use crate::services::deploy::canary::ComposeCommand;
use crate::services::deploy::docker_compose;
use crate::services::deploy::monitor;
use crate::services::deploy::monitor::MonitorPhase;
use crate::text::edit;
use crate::text::number;
use crate::text::search;
use crate::text::split;

verus! {

/// Two deployments are of the same order.
pub open spec fn same_order(
    a: docker_compose::ComposeView,
    b: docker_compose::ComposeView,
) -> bool {
    &&& a.task_id == b.task_id
    &&& a.project == b.project
    &&& a.work_dir == b.work_dir
    &&& a.compose_file == b.compose_file
    &&& a.image == b.image
    &&& a.git_repo_dir == b.git_repo_dir
    &&& a.service == b.service
    &&& a.health_port == b.health_port
}

/// A compose command, on a file and in a directory.
pub open spec fn compose_command(
    compose: ComposeCommand,
    file: Seq<char>,
    rest: Seq<Seq<char>>,
    dir: Seq<char>,
) -> action::ActionView {
    match compose {
        ComposeCommand::Standalone => command(
            "docker-compose"@,
            seq!["-f"@, file] + rest,
            Some(dir),
        ),
        ComposeCommand::Plugin => command(
            "docker"@,
            seq!["compose"@, "-f"@, file] + rest,
            Some(dir),
        ),
    }
}

/// Arguments with the service behind them, where one is configured.
pub open spec fn for_service(
    args: Seq<Seq<char>>,
    service: Option<Seq<char>>,
) -> Seq<Seq<char>> {
    if service is Some {
        args + seq![service->0]
    } else {
        args
    }
}

/// The compose file stands in the directory of the project, unless its path is
/// absolute.
pub proof fn compose_file_stands_in_the_project(s: docker_compose::ComposeView)
    ensures
        s.compose_file.len() > 0 && s.compose_file[0] == '/' ==> s.compose_path()
            == s.compose_file,
        s.compose_file.len() == 0 || s.compose_file[0] != '/' ==> s.compose_path() == s.work_dir
            + "/"@ + s.compose_file,
{
    reveal_strlit("/");
    assert("/"@.len() == 1 && "/"@[0] == '/');
    if s.compose_file.len() > 0 && s.compose_file[0] == '/' {
        assert(s.compose_file.subrange(0, 1) =~= "/"@);
    }
    assert(search::has_prefix(s.compose_file, "/"@) ==> s.compose_file.len() > 0
        && s.compose_file[0] == '/');
}

proof fn lemma_compose_run(s: docker_compose::ComposeView, rest: Seq<Seq<char>>)
    ensures
        s.compose_run(rest) == compose_command(s.compose, s.compose_path(), rest, s.work_dir),
        s.with_service(rest) == for_service(rest, s.service),
{
    match s.compose {
        ComposeCommand::Standalone => {
            assert(s.compose_run(rest)->Run_args =~= seq!["-f"@, s.compose_path()] + rest);
        },
        ComposeCommand::Plugin => {
            assert(s.compose_run(rest)->Run_args =~= seq!["compose"@, "-f"@, s.compose_path()]
                + rest);
        },
    }
    assert(s.with_service(rest) =~= for_service(rest, s.service));
}

/// A compose deployment begins with the list of canaries that were left behind.
/// They are removed one by one, whether or not a removal succeeds; then the
/// compose command is looked for.
pub proof fn stale_canaries_go_first(
    s: docker_compose::ComposeView,
    r: Result<action::OutputView, Seq<char>>,
    m: Moment,
    ids: Seq<Seq<char>>,
    next: int,
)
    requires
        0 <= next < ids.len(),
    ensures
        s.begin_spec(m).state.phase is ListStale,
        same_order(s, s.begin_spec(m).state),
        s.begin_spec(m).actions.last() == command(
            "docker"@,
            seq!["ps"@, "-a"@, "-q"@, "--filter"@, "name=^deploy-canary"@],
            None,
        ),
        s.phase is ListStale ==> {
            let t = s.on_output_spec(r, m);
            &&& same_order(s, t.state)
            &&& succeeded(r) && containers::nonempty_lines(r->Ok_0.stdout) == ids
                ==> t.actions.last() == command(
                "docker"@,
                seq!["rm"@, "-f"@, split::trim_spec(ids[0])],
                None,
            ) && t.state.phase == (docker_compose::PhaseView::RemoveStale { ids, next: 0 })
            &&& !succeeded(r) || containers::nonempty_lines(r->Ok_0.stdout).len() == 0
                ==> t.actions.last() == command("which"@, seq!["docker-compose"@], None)
                && t.state.phase is Detect
        },
        s.phase == (docker_compose::PhaseView::RemoveStale { ids, next }) ==> {
            let t = s.on_output_spec(r, m);
            &&& same_order(s, t.state)
            &&& next + 1 < ids.len() ==> t.actions.last() == command(
                "docker"@,
                seq!["rm"@, "-f"@, split::trim_spec(ids[next + 1])],
                None,
            ) && t.state.phase == (docker_compose::PhaseView::RemoveStale { ids, next: next + 1 })
            &&& next + 1 == ids.len() ==> t.actions.last() == command(
                "which"@,
                seq!["docker-compose"@],
                None,
            ) && t.state.phase is Detect
        },
{
    reveal(docker_compose::ComposeView::listed);
    reveal(docker_compose::ComposeView::removed);
}

/// The next step pulls the image that is configured, or ends a deployment that
/// has been cancelled.
pub open spec fn pulls_image(
    s: docker_compose::ComposeView,
    t: docker_compose::StepView,
    m: Moment,
) -> bool {
    &&& !m.cancelled ==> t.state.phase is ImagePull && t.actions.last() == command(
        "docker"@,
        seq!["pull"@, s.image],
        None,
    )
    &&& m.cancelled ==> t.state.phase is Done && ends(t.actions, DeployStatus::Failed, -2i32)
}

/// Where there is `docker-compose` it is used from then on, else
/// `docker compose`. A repository that is configured is updated, which may fail;
/// then the image is pulled.
pub proof fn repository_comes_before_the_image(
    s: docker_compose::ComposeView,
    r: Result<action::OutputView, Seq<char>>,
    m: Moment,
)
    requires
        s.stages.len() == 5,
        s.exit_code == 0,
    ensures
        s.phase is Detect ==> {
            let t = s.on_output_spec(r, m);
            &&& same_order(s, t.state)
            &&& t.state.exit_code == 0
            &&& t.state.compose == if succeeded(r) {
                ComposeCommand::Standalone
            } else {
                ComposeCommand::Plugin
            }
            &&& s.git_repo_dir is Some ==> t.state.phase is GitPull && t.actions.last() == command(
                "git"@,
                seq!["pull"@, "--ff-only"@, "origin"@, "master"@],
                s.git_repo_dir,
            )
            &&& s.git_repo_dir is None ==> pulls_image(s, t, m)
        },
        s.phase is GitPull ==> {
            let t = s.on_output_spec(r, m);
            &&& same_order(s, t.state)
            &&& t.state.exit_code == 0
            &&& t.state.compose == s.compose
            &&& t.state.stages[0].status == if succeeded(r) {
                StageStatus::Success
            } else {
                StageStatus::Failed
            }
            &&& pulls_image(s, t, m)
        },
{
    reveal(docker_compose::ComposeView::detected);
    reveal(docker_compose::ComposeView::git_pulled);
}

/// An image that could not be pulled ends the deployment with the exit code of
/// the pull. One that could is tried first, in a canary of the service that is
/// configured, with the port that is configured or 8081.
pub proof fn image_is_tried_first(
    s: docker_compose::ComposeView,
    r: Result<action::OutputView, Seq<char>>,
    m: Moment,
)
    requires
        s.stages.len() == 5,
        s.exit_code == 0,
        s.phase is ImagePull,
    ensures
        ({
            let t = s.on_output_spec(r, m);
            let check = canary::CanaryView {
                name: canary::canary_name_spec(s.task_id),
                compose: s.compose,
                compose_path: s.compose_path(),
                work_dir: s.work_dir,
                service: s.service,
                health_port: if s.health_port is Some {
                    s.health_port->0
                } else {
                    8081
                },
                phase: canary::PhaseView::Ended,
            };
            &&& same_order(s, t.state)
            &&& t.state.compose == s.compose
            &&& succeeded(r) && !m.cancelled ==> t.state.phase == (
            docker_compose::PhaseView::Canary { check: check.begin_spec().state })
                && t.actions.last() == check.begin_spec().actions.last()
            &&& succeeded(r) && m.cancelled ==> t.state.phase is Done && ends(
                t.actions,
                DeployStatus::Failed,
                -2i32,
            )
            &&& !succeeded(r) && failure_code(r) != 0 ==> t.state.phase is Done && ends(
                t.actions,
                DeployStatus::Failed,
                failure_code(r),
            )
        }),
{
    reveal(docker_compose::ComposeView::image_pulled);
    let t = s.on_output_spec(r, m);
    if succeeded(r) && !m.cancelled {
        let step = s.canary_check().begin_spec();
        assert(step.actions.len() > 0);
    }
}

/// A canary that failed ends the deployment, and the old container is left
/// alone; one that passed lets compose pull the service, and then replace its
/// container.
pub proof fn canary_decides_the_swap(
    s: docker_compose::ComposeView,
    step: canary::StepView,
    m: Moment,
)
    requires
        s.stages.len() == 5,
        s.exit_code == 0,
    ensures
        ({
            let t = s.canary_stepped(step, m);
            &&& same_order(s, t.state)
            &&& t.state.compose == s.compose
            &&& step.verdict is None ==> t.state.phase == (docker_compose::PhaseView::Canary {
                check: step.state,
            }) && t.actions == step.actions
            &&& step.verdict == Some(Ok::<(), Seq<char>>(())) ==> t.state.phase is ComposePull
                && t.state.exit_code == 0 && t.state.stages[2].status == StageStatus::Success
                && t.actions.last() == compose_command(
                s.compose,
                s.compose_path(),
                for_service(seq!["pull"@], s.service),
                s.work_dir,
            )
            &&& (step.verdict is Some && step.verdict->0 is Err) ==> t.state.phase is Done
                && t.state.stages[2].status == StageStatus::Failed && ends(
                t.actions,
                DeployStatus::Failed,
                -1i32,
            )
        }),
{
    reveal(docker_compose::ComposeView::canary_stepped);
    lemma_compose_run(s, seq!["pull"@]);
    lemma_compose_run(s, for_service(seq!["pull"@], s.service));
    if step.verdict == Some(Ok::<(), Seq<char>>(())) {
        let s2 = s.finished(2, m.now, true, None).started(3, m.now);
        lemma_compose_run(s2, for_service(seq!["pull"@], s.service));
    }
}

/// The events that a deployment gets while a canary is tried go to the canary,
/// and those it gets while the container is watched go to the watch.
pub proof fn events_go_to_the_trial(
    s: docker_compose::ComposeView,
    r: Result<action::OutputView, Seq<char>>,
    m: Moment,
    check: canary::CanaryView,
    watch: monitor::MonitorView,
)
    ensures
        s.phase == (docker_compose::PhaseView::Canary { check }) ==> {
            let d = docker_compose::ComposeView { phase: docker_compose::PhaseView::Done, ..s };
            &&& s.on_output_spec(r, m) == d.canary_stepped(check.on_output_spec(r, m.clock_ns), m)
            &&& s.on_wake_spec(m) == d.canary_stepped(check.on_wake_spec(m.clock_ns), m)
        },
        s.phase == (docker_compose::PhaseView::Monitor { watch }) ==> {
            let d = docker_compose::ComposeView { phase: docker_compose::PhaseView::Done, ..s };
            &&& s.on_output_spec(r, m) == d.monitor_stepped(watch.on_output_spec(r, m.clock_ns), m)
            &&& s.on_wake_spec(m) == d.monitor_stepped(watch.on_wake_spec(m.clock_ns), m)
        },
{
}

/// Whatever became of the pull by compose, the container of the service is made
/// anew. Where that fails the deployment ends with its exit code; where it
/// succeeds the new container is watched.
pub proof fn container_is_replaced(
    s: docker_compose::ComposeView,
    r: Result<action::OutputView, Seq<char>>,
    m: Moment,
)
    requires
        s.stages.len() == 5,
        s.exit_code == 0,
    ensures
        s.phase is ComposePull ==> {
            let t = s.on_output_spec(r, m);
            &&& same_order(s, t.state)
            &&& t.state.compose == s.compose
            &&& t.state.phase is ComposeUp
            &&& t.actions.last() == compose_command(
                s.compose,
                s.compose_path(),
                for_service(seq!["up"@, "-d"@, "--force-recreate"@], s.service),
                s.work_dir,
            )
        },
        s.phase is ComposeUp ==> {
            let t = s.on_output_spec(r, m);
            &&& same_order(s, t.state)
            &&& t.state.compose == s.compose
            &&& succeeded(r) ==> {
                &&& t.state.phase matches docker_compose::PhaseView::Monitor { watch }
                    && watch.since == m.clock_ns && watch.compose_path == s.compose_path()
                    && watch.work_dir == s.work_dir && watch.compose == s.compose
                    && watch.initial_restarts is None && watch.log_len == 0
                    && watch.service_name == (if s.service is Some {
                    s.service->0
                } else {
                    "xjp-backend"@
                })
                &&& t.actions.last() == compose_command(
                    s.compose,
                    s.compose_path(),
                    seq![
                        "ps"@,
                        "-q"@,
                        if s.service is Some {
                            s.service->0
                        } else {
                            "xjp-backend"@
                        },
                    ],
                    s.work_dir,
                )
                &&& t.state.exit_code == 0
            }
            &&& !succeeded(r) && failure_code(r) != 0 ==> t.state.phase is Done && ends(
                t.actions,
                DeployStatus::Failed,
                failure_code(r),
            )
        },
{
    if s.phase is ComposePull {
        lemma_compose_run(s, seq!["up"@, "-d"@, "--force-recreate"@]);
        lemma_compose_run(
            s.at(docker_compose::PhaseView::Done),
            for_service(seq!["up"@, "-d"@, "--force-recreate"@], s.service),
        );
    }
    if s.phase is ComposeUp {
        reveal(docker_compose::ComposeView::composed_up);
        if succeeded(r) {
            let name = if s.service is Some {
                s.service->0
            } else {
                "xjp-backend"@
            };
            let rest = seq!["ps"@, "-q"@, name];
            let a = s.on_output_spec(r, m).actions.last();
            let step = s.watch().begin_spec(m.clock_ns);
            assert(step.actions.len() == 1);
            assert(a == step.actions[0]);
            match s.compose {
                ComposeCommand::Standalone => {
                    assert(a->Run_args =~= seq!["-f"@, s.compose_path()] + rest);
                },
                ComposeCommand::Plugin => {
                    assert(a->Run_args =~= seq!["compose"@, "-f"@, s.compose_path()] + rest);
                },
            }
        }
    }
}

/// What the watch finds is kept in its stage, and does not fail a deployment:
/// once it is over, the state of the services and their last log lines are
/// shown, and the deployment has succeeded.
pub proof fn watch_does_not_fail_the_deployment(
    s: docker_compose::ComposeView,
    step: monitor::MonitorStepView,
    r: Result<action::OutputView, Seq<char>>,
    m: Moment,
)
    requires
        s.stages.len() == 5,
        s.exit_code == 0,
    ensures
        ({
            let t = s.monitor_stepped(step, m);
            &&& same_order(s, t.state)
            &&& t.state.exit_code == 0
            &&& step.verdict is None ==> t.state.phase == (docker_compose::PhaseView::Monitor {
                watch: step.state,
            }) && t.actions == step.actions
            &&& step.verdict matches Some(v) ==> t.state.phase is ShowStatus && t.actions.last()
                == compose_command(s.compose, s.compose_path(), seq!["ps"@], s.work_dir)
                && t.state.stages[4].status == (if v is Ok {
                StageStatus::Success
            } else {
                StageStatus::Failed
            })
        }),
        s.phase is ShowStatus ==> {
            let t = s.on_output_spec(r, m);
            t.state.phase is ShowLogs && t.state.exit_code == 0 && t.actions.last()
                == compose_command(
                s.compose,
                s.compose_path(),
                seq!["logs"@, "--tail=10"@],
                s.work_dir,
            )
        },
        s.phase is ShowLogs ==> ends(s.on_output_spec(r, m).actions, DeployStatus::Success, 0),
{
    reveal(docker_compose::ComposeView::monitor_stepped);
    if step.verdict is Some {
        let t = s.monitor_stepped(step, m);
        lemma_compose_run(
            docker_compose::ComposeView { phase: s.phase, ..t.state },
            seq!["ps"@],
        );
    }
    lemma_compose_run(s.at(docker_compose::PhaseView::Done), seq!["logs"@, "--tail=10"@]);
}

/// The answer of docker tells the state of a container: a running one with its
/// health and its count of restarts, one that has exited with its exit code, and
/// none where docker knows no such object or can not be asked.
pub proof fn answer_tells_the_state(
    o: action::OutputView,
    status: Seq<char>,
    health: Seq<char>,
    third: Seq<char>,
    fourth: Seq<char>,
    restarts: u32,
    code: i32,
    e: Seq<char>,
)
    requires
        o.code == Some(0i32),
        split::split_spec(split::trim_spec(o.stdout), '|') == seq![status, health, third, fourth],
        number::parse_spec(third, u32::MAX as int) == Some(restarts as int),
        number::parse_i32_spec(fourth) == Some(code as int),
    ensures
        monitor::state_of(Err(e)) is NotFound,
        status == "running"@ ==> monitor::state_of(Ok(o)) == (monitor::StateView::Running {
            restart_count: restarts,
            health_status: health,
        }),
        status == "exited"@ || status == "dead"@ ==> monitor::state_of(Ok(o)) == (
        monitor::StateView::Exited { exit_code: code }),
        status != "running"@ && status != "exited"@ && status != "dead"@ ==> monitor::state_of(
            Ok(o),
        ) == monitor::StateView::Unknown(status),
{
    let parts = split::split_spec(split::trim_spec(o.stdout), '|');
    assert(parts[0] == status && parts[1] == health);
    assert(parts[2] == third && parts[3] == fourth);
    reveal_strlit("running");
    reveal_strlit("exited");
    reveal_strlit("dead");
    assert("running"@[0] == 'r' && "exited"@[0] == 'e' && "dead"@[0] == 'd');
}

/// An answer of docker that is a failure tells that there is no container where
/// it speaks of no such object, and nothing else otherwise.
pub proof fn failed_answer_tells_little(o: action::OutputView)
    requires
        o.code != Some(0i32),
    ensures
        search::has_substring(o.stderr, "No such object"@) ==> monitor::state_of(Ok(o))
            is NotFound,
        !search::has_substring(o.stderr, "No such object"@) ==> monitor::state_of(Ok(o))
            == monitor::StateView::Unknown(o.stderr),
{
}

/// The watch asks compose for the container of the service and docker for its
/// name; where either has no answer, the name of the service is taken.
pub proof fn watch_finds_its_container(
    w: monitor::MonitorView,
    r: Result<action::OutputView, Seq<char>>,
    clock: u64,
)
    requires
        w.since <= clock < w.since + 90_000_000_000,
    ensures
        w.phase is FindId ==> {
            let t = w.on_output_spec(r, clock);
            let found = succeeded(r) && split::trim_spec(r->Ok_0.stdout).len() > 0;
            &&& found ==> t.state.phase is FindName && t.actions.last() == command(
                "docker"@,
                seq!["inspect"@, "--format"@, "{{.Name}}"@, split::trim_spec(r->Ok_0.stdout)],
                None,
            )
            &&& !found ==> t.state.container == w.service_name && t.state.phase is State
            &&& t.verdict is None
        },
        w.phase is FindName ==> {
            let t = w.on_output_spec(r, clock);
            &&& t.state.phase is State
            &&& t.verdict is None
            &&& succeeded(r) ==> t.state.container == edit::trim_start_char_spec(
                split::trim_spec(r->Ok_0.stdout),
                '/',
            )
            &&& !succeeded(r) ==> t.state.container == w.service_name
            &&& t.actions.last() == command(
                "docker"@,
                seq![
                    "inspect"@,
                    "--format"@,
                    "{{.State.Status}}|{{.State.Health.Status}}|{{.RestartCount}}|{{.State.ExitCode}}"@,
                    t.state.container,
                ],
                None,
            )
        },
{
    reveal(monitor::MonitorView::on_output_spec);
}

/// The container is looked at every five seconds for 90 seconds; when they are
/// over, it is stable.
pub proof fn watch_lasts_a_minute_and_a_half(w: monitor::MonitorView, clock: u64)
    requires
        w.phase is Waiting,
        w.since <= clock,
    ensures
        clock - w.since < 90_000_000_000 ==> w.on_wake_spec(clock).verdict is None
            && w.on_wake_spec(clock).state.phase is State,
        clock - w.since >= 90_000_000_000 ==> w.on_wake_spec(clock).verdict == Some(
            Ok::<(), Seq<char>>(()),
        ),
{
    reveal(monitor::MonitorView::on_wake_spec);
}

/// A container that runs is in order unless it was restarted twice since the
/// first look; one that has exited, or that is gone, is not in order. What can
/// not be told is looked at again.
pub proof fn crash_ends_the_watch(
    w: monitor::MonitorView,
    r: Result<action::OutputView, Seq<char>>,
    clock: u64,
)
    requires
        w.phase is State,
    ensures
        ({
            let t = w.on_output_spec(r, clock);
            let state = monitor::state_of(r);
            &&& state matches monitor::StateView::Running { restart_count, .. } ==> {
                let first = if w.initial_restarts is Some {
                    w.initial_restarts->0
                } else {
                    restart_count
                };
                &&& t.state.initial_restarts == Some(first)
                &&& restart_count - first >= 2 ==> t.verdict is Some && t.verdict->0 is Err
                &&& restart_count - first < 2 ==> t.verdict is None && t.state.phase
                    == (MonitorPhase::Logs { restart_count }) && t.actions.last() == command(
                    "docker"@,
                    seq!["logs"@, "--tail"@, "20"@, w.container],
                    None,
                )
            }
            &&& state matches monitor::StateView::Exited { exit_code } ==> t.verdict is None
                && t.state.phase == (MonitorPhase::ExitLogs { exit_code })
            &&& state is NotFound ==> t.verdict == Some(
                Err::<(), Seq<char>>("Container no longer exists"@),
            )
            &&& state is Unknown ==> t.verdict is None && t.state.phase is Waiting
                && t.actions.last() == (action::ActionView::Sleep { millis: 5000 })
        }),
{
    reveal(monitor::MonitorView::on_output_spec);
}

/// The log of a container that has exited is shown, and then the watch has
/// failed. The log of one that runs never ends the watch.
pub proof fn log_of_the_watched(
    w: monitor::MonitorView,
    r: Result<action::OutputView, Seq<char>>,
    clock: u64,
)
    ensures
        w.phase matches MonitorPhase::ExitLogs { exit_code } ==> w.on_output_spec(r, clock).verdict
            == Some(
            Err::<(), Seq<char>>(
                "Container exited with code "@ + number::signed_decimal_spec(exit_code as int),
            ),
        ),
        w.phase is Logs ==> {
            let t = w.on_output_spec(r, clock);
            &&& t.verdict is None
            &&& t.state.phase is Waiting
            &&& t.actions.last() == (action::ActionView::Sleep { millis: 5000 })
            &&& t.state.initial_restarts == w.initial_restarts && t.state.since == w.since
                && t.state.container == w.container
        },
{
    reveal(monitor::MonitorView::on_output_spec);
}

/// A stage begins as pending, runs from the moment it is started, and is a
/// success or a failure when it has ended, with the time that it took.
pub proof fn stage_goes_through_its_states(
    name: Seq<char>,
    label: Seq<char>,
    t0: crate::time::Timestamp,
    t1: crate::time::Timestamp,
    success: bool,
    message: Option<Seq<char>>,
)
    ensures
        ({
            let p = deploy::StageView::pending(name, label);
            let s = p.started(t0);
            let f = s.finished(t1, success, message);
            let k = p.skipped(message);
            &&& p.name == name && p.display_name == label && p.status == StageStatus::Pending
                && p.started_at is None && p.finished_at is None && p.message is None
            &&& s.name == name && s.display_name == label && s.status == StageStatus::Running
                && s.started_at == Some(t0) && s.finished_at is None
            &&& f.name == name && f.display_name == label && f.started_at == Some(t0)
                && f.finished_at == Some(t1) && f.message == message
            &&& success ==> f.status == StageStatus::Success
            &&& !success ==> f.status == StageStatus::Failed
            &&& k.name == name && k.status == StageStatus::Skipped && k.message == message
        }),
{
}

} // verus!
