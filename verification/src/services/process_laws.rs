//! What holds of the processes that the agent keeps running, of what it reports
//! of itself, and of the queue that outlives it.

use vstd::prelude::*;

use crate::config::env::FrpConfig;
use crate::domain::deploy::DeployStatus;
use crate::domain::tunnel;
use crate::domain::tunnel::TunnelMode;
use crate::infra::deploy_center::{
    AppendRequest, NotifyAttempts, NotifyError, NotifyReply, NotifyRequest,
};
use crate::services::frp;
use crate::services::frp::{FrpcView, PollView, StartView};
use crate::services::log_reporter;
use crate::services::log_reporter::LogLineEntry;
use crate::services::log_ring;
use crate::services::nfa;
use crate::services::nfa::{JobView, LaunchView, NfaView};
use crate::services::queue_persistence;
use crate::services::queue_persistence::PersistedTask;
use crate::text::number;
use crate::time;
use crate::time::Timestamp;

verus! {

/// The last lines of a log are its end: as many as were asked for, or all.
pub proof fn last_lines_are_the_end<T>(s: Seq<T>, n: int, i: int)
    requires
        0 <= n,
    ensures
        s.len() <= n ==> log_ring::last_of(s, n) == s,
        s.len() > n ==> log_ring::last_of(s, n).len() == n,
        0 <= i < log_ring::last_of(s, n).len() ==> log_ring::last_of(s, n)[i] == s[s.len()
            - log_ring::last_of(s, n).len() + i],
{
}

/// At least one line and at most 5000 are shown.
pub proof fn tail_is_clamped(tail: usize)
    ensures
        1 <= log_ring::clamped(tail) <= 5000,
        1 <= tail <= 5000 ==> log_ring::clamped(tail) == tail,
        tail == 0 ==> log_ring::clamped(tail) == 1,
        tail > 5000 ==> log_ring::clamped(tail) == 5000,
{
}

/// A note goes to the end of the log, which keeps its last 5000 lines.
pub proof fn note_goes_to_the_end(log: Seq<Seq<char>>, line: Seq<char>)
    ensures
        nfa::noted(log, line).len() <= 5000,
        nfa::noted(log, line).last() == "[supervisor] "@ + line,
        frp::noted(log, line).len() <= 5000,
        frp::noted(log, line).last() == "[frp] "@ + line,
        log.len() < 5000 ==> nfa::noted(log, line).len() == log.len() + 1 && nfa::noted(
            log,
            line,
        ).drop_last() == log,
        log.len() < 5000 ==> frp::noted(log, line).len() == log.len() + 1 && frp::noted(
            log,
            line,
        ).drop_last() == log,
{
    assert(log.push("[supervisor] "@ + line).drop_last() =~= log);
    assert(log.push("[frp] "@ + line).drop_last() =~= log);
}

/// The alignment service runs exactly where it was started and has not been seen
/// to end. One that has ended is forgotten, with the reason; everything else that
/// was known stays.
pub proof fn alignment_service_is_watched(s: NfaView, poll: PollView)
    ensures
        ({
            let (t, running, pid) = s.observed(poll);
            let ended = s.child && poll is Exited;
            &&& running <==> s.child && !(poll is Exited)
            &&& t.child == (s.child && !ended)
            &&& t.desired == s.desired && t.config == s.config && t.started_at == s.started_at
                && t.restart_count == s.restart_count
            &&& !s.child ==> t == s && pid is None
            &&& poll matches PollView::Running(p) ==> s.child ==> t == s && pid == p
            &&& poll matches PollView::Unknown(e, p) ==> s.child ==> pid == p && t.last_error
                == Some("Failed to query nfa_service status: "@ + e)
            &&& poll matches PollView::Exited(e) ==> s.child ==> pid is None && t.last_error
                == Some("nfa_service exited: "@ + e)
        }),
{
}

/// A start of the alignment service asks for its script on its port, unless it
/// runs.
pub proof fn alignment_service_is_started(s: NfaView, poll: PollView)
    ensures
        ({
            let (t, step) = s.launched(poll);
            let running = s.child && !(poll is Exited);
            &&& t.desired
            &&& running ==> step is Running
            &&& !running ==> step == (LaunchView::Spawn {
                program: s.config.python_path@,
                args: seq![
                    s.config.script_path@,
                    "--port"@,
                    number::decimal_spec(s.config.port as nat),
                ],
            })
            &&& t.child == running && t.config == s.config && t.restart_count == s.restart_count
                && t.started_at == s.started_at
        }),
        s.base_url() == "http://127.0.0.1:"@ + number::decimal_spec(s.config.port as nat),
{
}

/// A failure is kept as the last error, behind what was tried; without one
/// nothing changes.
pub proof fn failure_is_kept(s: NfaView, f: FrpcView, what: Seq<char>, e: Seq<char>)
    ensures
        s.failing(what, None) == s,
        f.failing(what, None) == f,
        s.failing(what, Some(e)).last_error == Some(what + e),
        f.failing(what, Some(e)).last_error == Some(what + e),
        s.failing(what, Some(e)).child == s.child && s.failing(what, Some(e)).desired == s.desired,
        f.failing(what, Some(e)).child == f.child && f.failing(what, Some(e)).desired == f.desired,
{
}

/// Restarts are counted one by one.
pub proof fn restarts_are_counted(n: u32)
    ensures
        n < u32::MAX ==> nfa::one_more(n) == n + 1,
{
}

/// A job is named by its field, and anything else is an error.
pub proof fn job_has_a_name(raw: Seq<char>, field: Result<Option<Seq<char>>, Seq<char>>)
    ensures
        nfa::job_id_spec(raw, field) is Ok <==> field is Ok && field->Ok_0 is Some,
        field is Ok && field->Ok_0 is Some ==> nfa::job_id_spec(raw, field)->Ok_0
            == field->Ok_0->0,
        field is Ok && field->Ok_0 is None ==> nfa::job_id_spec(raw, field)->Err_0
            == "Missing job_id in NFA response: "@ + raw,
{
}

/// A job is done where its status says so and a result can be read; it waits
/// while it is pending or running; in every other case it has failed.
pub proof fn status_tells_of_the_job(
    raw: Seq<char>,
    status: Result<Option<Seq<char>>, Seq<char>>,
    error: Result<Option<Seq<char>>, Seq<char>>,
    member: Result<Option<Seq<char>>, Seq<char>>,
    whole: Result<Seq<char>, Seq<char>>,
)
    ensures
        ({
            let job = nfa::job_state_spec(raw, status, error, member, whole);
            let word = if status is Ok && status->Ok_0 is Some {
                status->Ok_0->0
            } else {
                "unknown"@
            };
            &&& status is Err ==> job is Failed
            &&& job is Waiting <==> status is Ok && (word == "pending"@ || word == "running"@)
            &&& job is Done <==> status is Ok && word == "done"@ && member is Ok && (
            member->Ok_0 is Some || whole is Ok)
            &&& job is Done && member->Ok_0 is Some ==> job == JobView::Done(member->Ok_0->0)
            &&& job is Done && member->Ok_0 is None ==> job == JobView::Done(whole->Ok_0)
            &&& status is Ok && word == "failed"@ && error is Ok && error->Ok_0 is Some ==> job
                == JobView::Failed("NFA job failed: "@ + error->Ok_0->0)
            &&& status is Ok && word == "failed"@ && !(error is Ok && error->Ok_0 is Some) ==> job
                == JobView::Failed("NFA job failed: "@ + "unknown error"@)
        }),
{
    reveal_strlit("done");
    reveal_strlit("failed");
    reveal_strlit("pending");
    reveal_strlit("running");
    reveal_strlit("unknown");
    assert("done"@[0] == 'd' && "failed"@[0] == 'f' && "pending"@[0] == 'p' && "running"@[0]
        == 'r' && "unknown"@[0] == 'u');
}

/// An answer is a success with a status of 200 to 299.
pub proof fn two_hundreds_are_success(status: u16)
    ensures
        nfa::is_success(status) <==> 200 <= status <= 299,
{
}

/// The tunnel client runs exactly where it was started and has not been seen to
/// end.
pub proof fn tunnel_client_is_watched(s: FrpcView, poll: PollView)
    ensures
        ({
            let (t, running, pid) = s.observed(poll);
            let ended = s.child && poll is Exited;
            &&& running <==> s.child && !(poll is Exited)
            &&& t.child == (s.child && !ended)
            &&& t.desired == s.desired && t.config == s.config && t.mappings == s.mappings
                && t.started_at == s.started_at && t.restart_count == s.restart_count
                && t.config_path == s.config_path
            &&& !s.child ==> t == s && pid is None
            &&& poll matches PollView::Running(p) ==> s.child ==> t == s && pid == p
            &&& poll matches PollView::Unknown(e, p) ==> s.child ==> pid == p && t.last_error
                == Some("Failed to query frpc status: "@ + e)
            &&& poll matches PollView::Exited(e) ==> s.child ==> pid is None && t.last_error
                == Some("frpc exited: "@ + e)
        }),
        ({
            let (t, step) = s.configured();
            &&& s.child ==> t == s && step is Running
            &&& !s.child ==> step == (StartView::Spawn {
                program: s.config.frpc_path@,
                args: seq!["-c"@, s.config_path],
            }) && t.child == s.child && t.config == s.config
        }),
{
}

/// The configuration of the tunnel client names the server, the token where
/// there is one, the administration where it has an address and a port, and each
/// mapping in a section of its own, in order.
pub proof fn tunnel_client_is_configured(
    c: FrpConfig,
    mappings: Seq<tunnel::PortMappingView>,
    m: tunnel::PortMappingView,
)
    ensures
        frp::sections(Seq::empty()).len() == 0,
        frp::sections(mappings.push(m)) == frp::sections(mappings) + ("["@ + m.name + "]\n"@
            + "type = tcp\n"@ + ("local_ip"@ + " = "@ + m.local_host + "\n"@) + ("local_port"@
            + " = "@ + number::decimal_spec(m.local_port as nat) + "\n"@) + ("remote_port"@ + " = "@
            + number::decimal_spec(m.remote_port as nat) + "\n"@) + "\n"@),
        frp::ini_text(c, mappings) == "[common]\n"@ + ("server_addr"@ + " = "@ + c.server_addr@
            + "\n"@) + ("server_port"@ + " = "@ + number::decimal_spec(c.server_port as nat)
            + "\n"@) + "login_fail_exit = false\n"@ + (if c.token is Some {
            "token"@ + " = "@ + c.token->0@ + "\n"@
        } else {
            Seq::empty()
        }) + frp::admin_part(c) + "\n"@ + frp::sections(mappings),
        c.admin_addr@.len() == 0 || c.admin_port == 0 ==> frp::admin_part(c).len() == 0,
        c.admin_addr@.len() > 0 && c.admin_port > 0 ==> frp::admin_part(c) == ("admin_addr"@
            + " = "@ + c.admin_addr@ + "\n"@) + ("admin_port"@ + " = "@ + number::decimal_spec(
            c.admin_port as nat,
        ) + "\n"@) + (if c.admin_user is Some {
            "admin_user"@ + " = "@ + c.admin_user->0@ + "\n"@
        } else {
            Seq::empty()
        }) + (if c.admin_pwd is Some {
            "admin_pwd"@ + " = "@ + c.admin_pwd->0@ + "\n"@
        } else {
            Seq::empty()
        }),
{
    assert(mappings.push(m).drop_last() =~= mappings);
}

/// A line of the journal begins with its time, up to the first blank.
pub proof fn line_begins_with_its_time(a: Seq<char>, rest: Seq<char>)
    requires
        !a.contains(' '),
    ensures
        log_reporter::first_word(a) == a,
        log_reporter::first_word(a + seq![' '] + rest) == a,
{
    let line = a + seq![' '] + rest;
    assert forall|j: int| 0 <= j < a.len() implies #[trigger] a[j] != ' ' && line[j] != ' ' by {
        assert(a.contains(a[j]));
    }
    assert(line[a.len() as int] == ' ');
    crate::text::laws::first_character_is_found(a, ' ', 0, a.len() as int);
    crate::text::laws::first_character_is_found(line, ' ', 0, a.len() as int);
    assert(line.take(a.len() as int) =~= a);
    assert(a.take(a.len() as int) =~= a);
}

/// A report holds the first 200 lines, each with the time that it begins with.
pub proof fn report_holds_the_lines(
    entries: Seq<LogLineEntry>,
    lines: Seq<Seq<char>>,
    i: int,
)
    requires
        log_reporter::entries_of(entries, log_reporter::batch(lines)),
    ensures
        entries.len() <= 200,
        lines.len() <= 200 ==> entries.len() == lines.len(),
        lines.len() > 200 ==> entries.len() == 200,
        0 <= i < entries.len() ==> entries[i].line@ == lines[i] && time::time_parts(
            entries[i].timestamp,
        ) == time::offset_text_instant(log_reporter::first_word(lines[i])),
{
    if 0 <= i < entries.len() {
        assert(entries[i].line@ == log_reporter::batch(lines)[i]);
    }
}

/// The agent is reached through the tunnel where it is a client of one and knows
/// the center, and else under its own address.
pub proof fn agent_is_reached(
    port: u16,
    host: Seq<char>,
    mode: TunnelMode,
    center: Option<Seq<char>>,
    id: Seq<char>,
)
    ensures
        mode is Client && center is Some ==> log_reporter::agent_url_spec(
            port,
            host,
            mode,
            center,
            id,
        ) == center->0 + "/tunnel/proxy/"@ + id,
        !(mode is Client && center is Some) ==> log_reporter::agent_url_spec(
            port,
            host,
            mode,
            center,
            id,
        ) == "http://"@ + host + ":"@ + number::decimal_spec(port as nat),
{
}

/// The center is told of a line, and of the end of a task, under the name of the
/// task.
pub proof fn center_is_told_of_the_task(
    a: AppendRequest,
    n: NotifyRequest,
    center: Seq<char>,
    id: Seq<char>,
    stream: Seq<char>,
    content: Seq<char>,
    status: DeployStatus,
    code: i32,
)
    requires
        a.is_for(center, id, stream, content),
        n.is_for(center, id, status, code),
    ensures
        a.url@ == center + "/api/deploy/logs/"@ + id + "/append"@,
        a.line@ == content,
        a.stream@ == stream,
        n.url@ == center + "/api/deploy/logs/"@ + id,
        n.exit_code == code,
        n.status@ == (match status {
            DeployStatus::Running => "running"@,
            DeployStatus::Success => "success"@,
            DeployStatus::Failed => "failed"@,
        }),
{
}

/// A notification that failed says why.
pub proof fn failed_notification_says_why(e: NotifyError)
    ensures
        e matches NotifyError::Network(s) ==> e.text() == "Network error: "@ + s@,
        e is NonSuccessStatus ==> e.text() == "Server returned non-success status"@,
{
}

/// The last network error is kept; an answer keeps the one before it.
pub proof fn last_network_error_is_kept(attempts: NotifyAttempts, reply: NotifyReply)
    ensures
        reply matches NotifyReply::Failed(e) ==> attempts.error_after(reply) == Some(e),
        !(reply is Failed) ==> attempts.error_after(reply) == attempts.last_error,
{
}

/// The first place of a task is where it is found, and the end of the list where
/// it is not.
pub proof fn first_place_is_found(tasks: Seq<PersistedTask>, id: Seq<char>)
    ensures
        ({
            let n = queue_persistence::place_of(tasks, id);
            &&& 0 <= n <= tasks.len()
            &&& n < tasks.len() ==> tasks[n].task_id@ == id
            &&& forall|i: int| 0 <= i < n ==> (#[trigger] tasks[i]).task_id@ != id
            &&& queue_persistence::has_task(tasks, id) <==> n < tasks.len()
        }),
    decreases tasks.len(),
{
    if tasks.len() > 0 && tasks[0].task_id@ != id {
        let rest = tasks.subrange(1, tasks.len() as int);
        first_place_is_found(rest, id);
        let n = queue_persistence::place_of(rest, id);
        assert(forall|i: int| 1 <= i < tasks.len() ==> #[trigger] tasks[i] == rest[i - 1]);
    }
    if queue_persistence::place_of(tasks, id) < tasks.len() {
        assert(tasks[queue_persistence::place_of(tasks, id)].task_id@ == id);
    }
}

/// A new state is that of the first task of its name, which keeps everything
/// else; the time of its start is replaced only by another. All other tasks stay
/// as they are, and so does the list where no task has the name.
pub proof fn state_is_that_of_its_task(
    tasks: Seq<PersistedTask>,
    id: Seq<char>,
    status: String,
    started_at: Option<Timestamp>,
    i: int,
)
    ensures
        ({
            let after = queue_persistence::with_status(tasks, id, status, started_at);
            &&& after.len() == tasks.len()
            &&& 0 <= i < tasks.len() && tasks[i].task_id@ != id ==> after[i] == tasks[i]
            &&& 0 <= i < tasks.len() && tasks[i].task_id@ == id && (forall|j: int|
                0 <= j < i ==> (#[trigger] tasks[j]).task_id@ != id) ==> {
                &&& after[i].status == status
                &&& started_at is Some ==> after[i].started_at == started_at
                &&& started_at is None ==> after[i].started_at == tasks[i].started_at
                &&& after[i].task_id == tasks[i].task_id && after[i].project == tasks[i].project
                    && after[i].deploy_log_id == tasks[i].deploy_log_id && after[i].commit_hash
                    == tasks[i].commit_hash && after[i].branch == tasks[i].branch
                    && after[i].queued_at == tasks[i].queued_at
            }
        }),
{
    first_place_is_found(tasks, id);
    let n = queue_persistence::place_of(tasks, id);
    if 0 <= i < tasks.len() && tasks[i].task_id@ == id && i < n {
        assert(tasks[i].task_id@ != id);
    }
}

/// A task joins the queue at its end unless one of its name is there, and it
/// leaves the queue with all of its name; the others keep their order.
pub proof fn tasks_join_and_leave(tasks: Seq<PersistedTask>, task: PersistedTask, id: Seq<char>)
    ensures
        (forall|i: int|
            0 <= i < tasks.len() ==> (#[trigger] tasks[i]).task_id@ != task.task_id@)
            ==> queue_persistence::with_task(tasks, task) == tasks.push(task),
        (exists|i: int|
            0 <= i < tasks.len() && (#[trigger] tasks[i]).task_id@ == task.task_id@)
            ==> queue_persistence::with_task(tasks, task) == tasks,
        queue_persistence::without_task(Seq::empty(), id).len() == 0,
        task.task_id@ == id ==> queue_persistence::without_task(tasks.push(task), id)
            == queue_persistence::without_task(tasks, id),
        task.task_id@ != id ==> queue_persistence::without_task(tasks.push(task), id)
            == queue_persistence::without_task(tasks, id).push(task),
{
    reveal(Seq::filter);
    assert(tasks.push(task).drop_last() =~= tasks);
}

} // verus!
