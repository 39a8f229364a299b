//! What a restart does at each point: which command it asks for, and when it is
//! on its way.

use vstd::prelude::*;

use crate::api::system;
use crate::config::autoupdate::UpdateMetadata;
use crate::services::restart;
use crate::services::restart::{
    Platform, RestartActionView, RestartError, RestartEventView, RestartMode, RestartPhaseView, RestartView,
};
use crate::text::number;

verus! {

/// The step ends the restart, which is on its way.
pub open spec fn on_its_way(step: restart::RestartStep) -> bool {
    step.phase is Over && step.action == RestartActionView::Done(Ok::<(), Seq<char>>(()))
}

/// The step ends the restart, which could not be done.
pub open spec fn given_up(step: restart::RestartStep) -> bool {
    step.phase is Over && (step.action matches RestartActionView::Done(r) && r is Err)
}

/// The command ran and succeeded.
pub open spec fn ran_well(event: RestartEventView) -> bool {
    event matches RestartEventView::Ran { success, .. } && success
}

/// A restart begins as the platform has it: with a timer of systemd, with the
/// new binary in the place of this process, with the recovery options of the
/// service, or with a script that starts the binary in its directory.
pub proof fn restart_begins_as_the_platform_has_it(
    platform: Platform,
    mode: RestartMode,
    work_dir: Seq<char>,
)
    ensures
        ({
            let t = restart::begin_step(platform, mode, work_dir);
            &&& platform is Unix && mode is Service ==> t.phase is Systemd && t.action == (
            RestartActionView::Run {
                program: "sudo"@,
                args: seq![
                    "/usr/bin/systemd-run"@,
                    "--on-active=2"@,
                    "--timer-property=AccuracySec=1s"@,
                    "/usr/bin/systemctl"@,
                    "restart"@,
                    "xjp-deploy-agent.service"@,
                ],
            })
            &&& platform is Unix ==> (mode matches RestartMode::Console(binary) ==> t.phase is Exec
                && t.action == (RestartActionView::Exec { program: binary@ }))
            &&& platform is Windows && mode is Service ==> t.phase is Recovery && t.action == (
            RestartActionView::Run {
                program: "sc"@,
                args: seq![
                    "failure"@,
                    "xjp-deploy-agent"@,
                    "reset="@,
                    "0"@,
                    "actions="@,
                    "restart/3000/restart/5000/restart/10000"@,
                ],
            })
            &&& platform is Windows ==> (mode matches RestartMode::Console(binary) ==> t.phase == (
            RestartPhaseView::Script { console: true }) && (t.action matches
                RestartActionView::WriteScript { text, .. } && exists|a: Seq<char>,
                b: Seq<char>,
                c: Seq<char>| text == #[trigger] (a + work_dir + b + binary@ + c)))
            &&& platform is Other ==> given_up(t)
        }),
{
    if platform is Windows {
        if let RestartMode::Console(binary) = mode {
            let t = restart::begin_step(platform, mode, work_dir);
            assert(t.action->WriteScript_text == restart::UPDATE_SCRIPT_HEAD@ + work_dir
                + restart::UPDATE_SCRIPT_MIDDLE@ + binary@ + restart::UPDATE_SCRIPT_TAIL@);
        }
    }
}

/// The timer decides a restart of the service on Unix; a process that is still
/// there after its replacement could not be replaced.
pub proof fn unix_restart_is_decided_at_once(r: RestartView, event: RestartEventView)
    ensures
        r.phase is Systemd && ran_well(event) ==> on_its_way(r.step(event)),
        r.phase is Systemd && !ran_well(event) ==> given_up(r.step(event)),
        r.phase is Exec ==> given_up(r.step(event)),
{
}

/// A restart of the Windows service is on its way with the recovery options.
/// Without them an old task is deleted, whatever comes of that, and a new one is
/// made for the time that was set; without a task a script is written.
pub proof fn windows_service_has_a_task(r: RestartView, event: RestartEventView)
    ensures
        r.phase is Recovery && ran_well(event) ==> on_its_way(r.step(event)),
        r.phase is Recovery && !ran_well(event) ==> r.step(event).phase is DeleteTask
            && r.step(event).action == (RestartActionView::Run {
            program: "schtasks"@,
            args: seq!["/Delete"@, "/TN"@, "XJPDeployAgentRestart"@, "/F"@],
        }),
        r.phase is DeleteTask ==> r.step(event).phase is CreateTask && (r.step(event).action matches
            RestartActionView::Run { program, args } && program == "schtasks"@ && args.len() == 16
            && args[0] == "/Create"@ && args[1] == "/TN"@ && args[2] == "XJPDeployAgentRestart"@
            && args[3] == "/TR"@ && args[5] == "/SC"@ && args[6] == "ONCE"@ && args[7] == "/ST"@
            && args[8] == r.time && args[9] == "/SD"@ && args[10] == r.date && args[11] == "/RU"@
            && args[12] == "SYSTEM"@ && args[13] == "/RL"@ && args[14] == "HIGHEST"@ && args[15]
            == "/F"@),
        r.phase is CreateTask && ran_well(event) ==> on_its_way(r.step(event)),
        r.phase is CreateTask && event is Failed ==> given_up(r.step(event)),
        r.phase is CreateTask && !ran_well(event) && !(event is Failed) ==> r.step(event).phase == (
        RestartPhaseView::Script { console: false }) && r.step(event).action is WriteScript,
{
}

/// A script that was written is run on its own; where that fails, it is started
/// by the command interpreter, which is the last resort.
pub proof fn script_is_started(r: RestartView, event: RestartEventView)
    ensures
        r.phase matches RestartPhaseView::Script { console } ==> {
            let t = r.step(event);
            &&& event matches RestartEventView::Written { path } ==> t.phase == (
            RestartPhaseView::Detached { console, path }) && t.action == (RestartActionView::Run {
                program: "wmic"@,
                args: seq!["process"@, "call"@, "create"@, "cmd /c \""@ + path + "\""@],
            })
            &&& !(event is Written) ==> given_up(t)
        },
        r.phase matches RestartPhaseView::Detached { console, path } ==> {
            let t = r.step(event);
            &&& ran_well(event) ==> on_its_way(t)
            &&& !ran_well(event) ==> t.phase == (RestartPhaseView::Started { console })
                && t.action == (RestartActionView::Spawn {
                program: "cmd"@,
                args: if console {
                    seq!["/C"@, "start"@, ""@, path]
                } else {
                    seq!["/C"@, "start"@, "/B"@, ""@, path]
                },
            })
        },
        r.phase is Started && event is Failed ==> given_up(r.step(event)),
        r.phase is Started && !(event is Failed) ==> on_its_way(r.step(event)),
{
}

/// The time since the start is told in days, hours, minutes and seconds that
/// together make up its seconds.
pub proof fn uptime_adds_up(days: int, hours: int, minutes: int, seconds: int)
    requires
        0 <= days,
        0 <= hours < 24,
        0 <= minutes < 60,
        0 <= seconds < 60,
    ensures
        system::uptime_text_spec(days * 86400 + hours * 3600 + minutes * 60 + seconds)
            == number::signed_decimal_spec(days) + "d "@ + number::signed_decimal_spec(hours)
            + "h "@ + number::signed_decimal_spec(minutes) + "m "@ + number::signed_decimal_spec(
            seconds,
        ) + "s"@,
{
    let secs = days * 86400 + hours * 3600 + minutes * 60 + seconds;
    assert(secs / 86400 == days);
    assert(system::rest(secs, 86400) == hours * 3600 + minutes * 60 + seconds);
    assert(system::rest(secs, 86400) / 3600 == hours);
    assert(secs / 3600 == days * 24 + hours);
    assert(system::rest(secs, 3600) == minutes * 60 + seconds);
    assert(system::rest(secs, 3600) / 60 == minutes);
    assert(secs / 60 == (days * 24 + hours) * 60 + minutes);
    assert(system::rest(secs, 60) == seconds);
}

/// No more log lines are asked for than the limit.
pub proof fn fewer_lines_are_asked_for(a: u32, b: u32, n: nat)
    ensures
        system::smaller(a, b) <= a,
        system::smaller(a, b) <= b,
        system::smaller(a, b) == a || system::smaller(a, b) == b,
        system::agent_log_args_spec(n).len() == 7,
        system::agent_log_args_spec(n)[0] == "-u"@,
        system::agent_log_args_spec(n)[1] == "xjp-deploy-agent"@,
        system::agent_log_args_spec(n)[2] == "-n"@,
        system::agent_log_args_spec(n)[3] == number::decimal_spec(n),
{
}

/// An update to a version is refused exactly where the center offers another.
pub proof fn asked_version_has_to_be_offered(
    request: system::ForceUpdateRequest,
    metadata: UpdateMetadata,
)
    ensures
        request.version is None ==> !system::is_other_version(request, metadata),
        request.version is Some ==> (system::is_other_version(request, metadata)
            <==> request.version->0@ != metadata.version@),
{
}

/// A restart that could not be done says why.
pub proof fn failed_restart_says_why(e: RestartError, r: RestartView, why: Seq<char>)
    ensures
        e matches RestartError::CommandFailed(s) ==> e.text() == "Failed to execute command: "@
            + s@,
        e matches RestartError::Io(s) ==> e.text() == "IO error: "@ + s@,
        e is ScheduleTaskFailed ==> e.text() == "Failed to schedule restart task"@,
        e is Unsupported ==> e.text() == "Restart method not supported on this platform"@,
        r.phase is Systemd ==> r.step(
            RestartEventView::Ran { success: false, stderr: why },
        ).action == RestartActionView::Done(
            Err::<(), Seq<char>>("Failed to execute command: "@ + why),
        ) && r.step(RestartEventView::Failed(why)).action == RestartActionView::Done(
            Err::<(), Seq<char>>("IO error: "@ + why),
        ),
        r.phase is Exec ==> r.step(RestartEventView::Failed(why)).action
            == RestartActionView::Done(
            Err::<(), Seq<char>>("Failed to execute command: "@ + ("exec failed: "@ + why)),
        ),
        r.phase is CreateTask || r.phase is Script ==> r.step(
            RestartEventView::Failed(why),
        ).action == RestartActionView::Done(Err::<(), Seq<char>>("IO error: "@ + why)),
{
}

/// A log that could not be had has no lines, and says why.
pub proof fn missing_log_says_why(l: system::AgentLogs, why: Seq<char>)
    requires
        l.is_missing(why),
    ensures
        l.lines == 0,
        l.logs@.len() == 0,
        l.error is Some,
        l.error->0@ == why,
{
}

/// A failed command complains on its standard error, or else on its standard
/// output.
pub proof fn failed_command_complains(o: crate::services::deploy::action::ProcessOutput)
    ensures
        o.stderr@.len() > 0 ==> system::complaint(o) == o.stderr@,
        o.stderr@.len() == 0 ==> system::complaint(o) == o.stdout@,
{
}

} // verus!
