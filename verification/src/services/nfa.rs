//! The alignment service: a Python process that the agent keeps running, and
//! the jobs that it is given.

use vstd::prelude::*;

use crate::config::env::NfaConfig;
use crate::infra::json;
use crate::services::frp;
use crate::services::frp::ChildPoll;
use crate::services::log_ring;
use crate::services::log_ring::LogRing;
use crate::text::chars;
use crate::text::chars::{concat2, concat3, concat4, concat5, str_eq, strings};
use crate::text::duration;
use crate::text::duration::millis_text;
use crate::text::number;
use crate::text::number::decimal;
use crate::time::Timestamp;

verus! {

/// Seconds that a start waits for the service to be healthy.
pub const HEALTH_WAIT_SECS: u64 = 20;

/// Milliseconds between two looks at the health of the service.
pub const HEALTH_INTERVAL_MS: u64 = 300;

/// Seconds between two looks at the process.
pub const SUPERVISE_INTERVAL_SECS: u64 = 2;

/// Seconds that a request to the service may take.
pub const REQUEST_TIMEOUT_SECS: u64 = 60;

/// The status of an answer that says that there is no such thing.
pub const NOT_FOUND: u16 = 404;

/// The state of the service, for reports.
#[derive(Debug)]
pub struct NfaStatus {
    pub enabled: bool,
    pub desired_running: bool,
    pub running: bool,
    pub healthy: bool,
    pub pid: Option<u32>,
    pub port: u16,
    pub python_path: String,
    pub script_path: String,
    pub started_at: Option<Timestamp>,
    pub restart_count: u32,
    pub last_error: Option<String>,
}

/// What a start needs next.
#[derive(Debug)]
pub enum LaunchStep {
    /// Nothing: the process runs.
    Running,
    /// Start the process.
    Spawn { program: String, args: Vec<String> },
}

/// The contents of a `LaunchStep`.
pub ghost enum LaunchView {
    Running,
    Spawn { program: Seq<char>, args: Seq<Seq<char>> },
}

impl View for LaunchStep {
    type V = LaunchView;

    open spec fn view(&self) -> LaunchView {
        match *self {
            LaunchStep::Running => LaunchView::Running,
            LaunchStep::Spawn { program, args } => LaunchView::Spawn {
                program: program@,
                args: chars::views(args@),
            },
        }
    }
}

/// The service that the agent keeps running.
#[derive(Debug)]
pub struct NfaSupervisor {
    config: NfaConfig,
    desired_running: bool,
    child: bool,
    started_at: Option<Timestamp>,
    restart_count: u32,
    last_error: Option<String>,
    log_lines: LogRing,
}

/// The contents of a `NfaSupervisor`.
pub ghost struct NfaView {
    pub config: NfaConfig,
    /// Whether the process should run.
    pub desired: bool,
    /// Whether a process has been started and not been seen to end.
    pub child: bool,
    pub started_at: Option<Timestamp>,
    pub restart_count: u32,
    pub last_error: Option<Seq<char>>,
    pub log: Seq<Seq<char>>,
}

impl View for NfaSupervisor {
    type V = NfaView;

    closed spec fn view(&self) -> NfaView {
        NfaView {
            config: self.config,
            desired: self.desired_running,
            child: self.child,
            started_at: self.started_at,
            restart_count: self.restart_count,
            last_error: chars::opt_view(self.last_error),
            log: self.log_lines@,
        }
    }
}

/// The log after one more line of the supervisor.
pub open spec fn noted(log: Seq<Seq<char>>, line: Seq<char>) -> Seq<Seq<char>> {
    log_ring::last_of(log.push("[supervisor] "@ + line), log_ring::MAX_LINES as int)
}

/// The number after one more restart; it begins anew after the largest.
pub open spec fn one_more(count: u32) -> u32 {
    if count == u32::MAX {
        0
    } else {
        (count + 1) as u32
    }
}

impl NfaView {
    /// Whether the process runs and under which number, and what is left after
    /// the look at it.
    pub open spec fn observed(self, poll: frp::PollView) -> (NfaView, bool, Option<u32>) {
        if !self.child {
            (self, false, None)
        } else {
            match poll {
                frp::PollView::Exited(status) => {
                    let msg = "nfa_service exited: "@ + status;
                    (
                        NfaView {
                            child: false,
                            last_error: Some(msg),
                            log: noted(self.log, msg),
                            ..self
                        },
                        false,
                        None,
                    )
                },
                frp::PollView::Running(pid) => (self, true, pid),
                frp::PollView::Unknown(e, pid) => {
                    let msg = "Failed to query nfa_service status: "@ + e;
                    (
                        NfaView { last_error: Some(msg), log: noted(self.log, msg), ..self },
                        true,
                        pid,
                    )
                },
            }
        }
    }

    /// A start, where the service is enabled.
    pub open spec fn launched(self, poll: frp::PollView) -> (NfaView, LaunchView) {
        let (state, running, pid) = (NfaView { desired: true, ..self }).observed(poll);
        let port = number::decimal_spec(state.config.port as nat);
        if running {
            (state, LaunchView::Running)
        } else {
            (
                NfaView {
                    log: noted(
                        state.log,
                        "starting nfa_service: "@ + state.config.python_path@ + " "@
                            + state.config.script_path@ + " --port "@ + port,
                    ),
                    ..state
                },
                LaunchView::Spawn {
                    program: state.config.python_path@,
                    args: seq![state.config.script_path@, "--port"@, port],
                },
            )
        }
    }

    /// The supervisor notes a failure, where there is one.
    pub open spec fn failing(self, what: Seq<char>, failure: Option<Seq<char>>) -> NfaView {
        match failure {
            Some(e) => NfaView {
                last_error: Some(what + e),
                log: noted(self.log, what + e),
                ..self
            },
            None => self,
        }
    }

    /// Where the service is reached.
    pub open spec fn base_url(self) -> Seq<char> {
        "http://127.0.0.1:"@ + number::decimal_spec(self.config.port as nat)
    }
}

impl NfaSupervisor {
    /// A supervisor that has started nothing.
    pub fn new(config: NfaConfig) -> (r: NfaSupervisor)
        ensures
            r@ == (NfaView {
                config,
                desired: config.auto_start,
                child: false,
                started_at: None,
                restart_count: 0,
                last_error: None,
                log: Seq::empty(),
            }),
    {
        NfaSupervisor {
            desired_running: config.auto_start,
            config,
            child: false,
            started_at: None,
            restart_count: 0,
            last_error: None,
            log_lines: LogRing::new(),
        }
    }

    /// Whether the service is configured at all.
    pub fn enabled(&self) -> (r: bool)
        ensures
            r == self@.config.enabled,
    {
        self.config.enabled
    }

    /// How many jobs may run at once: at least one.
    pub fn permits(&self) -> (r: usize)
        ensures
            r == if self@.config.max_concurrent < 1 {
                1
            } else {
                self@.config.max_concurrent
            },
    {
        if self.config.max_concurrent < 1 {
            1
        } else {
            self.config.max_concurrent
        }
    }

    /// Where the service is reached.
    pub fn local_base_url(&self) -> (r: String)
        ensures
            r@ == self@.base_url(),
    {
        concat2("http://127.0.0.1:", decimal(self.config.port as u64).as_str())
    }

    /// Where the health of the service is asked for.
    pub fn health_url(&self) -> (r: String)
        ensures
            r@ == self@.base_url() + "/health"@,
    {
        concat2(self.local_base_url().as_str(), "/health")
    }

    /// Where a job is given to the service.
    pub fn create_url(&self) -> (r: String)
        ensures
            r@ == self@.base_url() + "/align-nfa/job"@,
    {
        concat2(self.local_base_url().as_str(), "/align-nfa/job")
    }

    /// Where a job is asked about.
    pub fn poll_url(&self, job_id: &str) -> (r: String)
        ensures
            r@ == self@.base_url() + "/align-nfa/job/"@ + job_id@,
    {
        concat3(self.local_base_url().as_str(), "/align-nfa/job/", job_id)
    }

    /// Where the service aligns at once.
    pub fn sync_url(&self) -> (r: String)
        ensures
            r@ == self@.base_url() + "/align-nfa"@,
    {
        concat2(self.local_base_url().as_str(), "/align-nfa")
    }

    /// Notes a line.
    pub fn push_log_line(&mut self, line: &str)
        ensures
            final(self)@ == (NfaView { log: noted(old(self)@.log, line@), ..old(self)@ }),
    {
        self.log_lines.push(concat2("[supervisor] ", line));
    }

    fn fail(&mut self, msg: String)
        ensures
            final(self)@ == (NfaView {
                last_error: Some(msg@),
                log: noted(old(self)@.log, msg@),
                ..old(self)@
            }),
    {
        self.push_log_line(msg.as_str());
        self.last_error = Some(msg);
    }

    /// The last lines of the log.
    pub fn tail_logs(&self, tail: usize) -> (r: Vec<String>)
        ensures
            chars::views(r@) == log_ring::last_of(self@.log, log_ring::clamped(tail)),
    {
        self.log_lines.tail(tail)
    }

    /// The state for reports.
    pub fn status(&mut self, poll: ChildPoll, healthy: bool) -> (r: NfaStatus)
        ensures
            ({
                let (state, running, pid) = old(self)@.observed(poll@);
                &&& final(self)@ == state
                &&& r.enabled == state.config.enabled
                &&& r.desired_running == state.desired
                &&& r.running == running
                &&& r.healthy == healthy
                &&& r.pid == pid
                &&& r.port == state.config.port
                &&& r.python_path@ == state.config.python_path@
                &&& r.script_path@ == state.config.script_path@
                &&& r.started_at == state.started_at
                &&& r.restart_count == state.restart_count
                &&& chars::opt_view(r.last_error) == state.last_error
            }),
    {
        let (running, pid) = self.process_state(poll);
        NfaStatus {
            enabled: self.config.enabled,
            desired_running: self.desired_running,
            running,
            healthy,
            pid,
            port: self.config.port,
            python_path: self.config.python_path.clone(),
            script_path: self.config.script_path.clone(),
            started_at: self.started_at,
            restart_count: self.restart_count,
            last_error: self.last_error.clone(),
        }
    }

    /// Takes a look at the process: whether it runs, and under which number.
    pub fn process_state(&mut self, poll: ChildPoll) -> (r: (bool, Option<u32>))
        ensures
            old(self)@.observed(poll@) == (final(self)@, r.0, r.1),
    {
        if !self.child {
            return (false, None);
        }
        match poll {
            ChildPoll::Exited(status) => {
                self.fail(concat2("nfa_service exited: ", status.as_str()));
                self.child = false;
                (false, None)
            },
            ChildPoll::Running(pid) => (true, pid),
            ChildPoll::Unknown(e, pid) => {
                self.fail(concat2("Failed to query nfa_service status: ", e.as_str()));
                (true, pid)
            },
        }
    }

    /// Begins a start: an error where the service is disabled, nothing to do
    /// where it runs, and otherwise the process is to be started.
    pub fn start(&mut self, poll: ChildPoll) -> (r: Result<LaunchStep, String>)
        ensures
            !old(self)@.config.enabled ==> r is Err && r->Err_0@
                == "NFA is disabled (NFA_ENABLED=false)"@ && final(self)@ == old(self)@,
            old(self)@.config.enabled ==> r is Ok && (final(self)@, r->Ok_0@) == old(
                self,
            )@.launched(poll@),
    {
        if !self.config.enabled {
            return Err("NFA is disabled (NFA_ENABLED=false)".to_owned());
        }
        self.desired_running = true;
        let state = self.process_state(poll);
        if state.0 {
            return Ok(LaunchStep::Running);
        }
        let port = decimal(self.config.port as u64);
        let first = concat4(
            "starting nfa_service: ",
            self.config.python_path.as_str(),
            " ",
            self.config.script_path.as_str(),
        );
        let line = concat3(first.as_str(), " --port ", port.as_str());
        self.push_log_line(line.as_str());
        let args = strings(&[self.config.script_path.as_str(), "--port", port.as_str()]);
        assert(chars::views(args@) =~= seq![self@.config.script_path@, "--port"@, port@]);
        Ok(LaunchStep::Spawn { program: self.config.python_path.clone(), args })
    }

    /// Goes on with a start: the process has been started at `now`, or has not.
    pub fn on_spawned(&mut self, outcome: Result<(), String>, now: Timestamp) -> (r: Result<
        (),
        String,
    >)
        ensures
            match outcome {
                Err(e) => r is Err && r->Err_0@ == "Failed to start nfa_service: "@ + e@
                    && final(self)@ == old(self)@,
                Ok(_) => r is Ok && final(self)@ == (NfaView {
                    child: true,
                    started_at: Some(now),
                    last_error: None,
                    ..old(self)@
                }),
            },
    {
        match outcome {
            Err(e) => Err(concat2("Failed to start nfa_service: ", e.as_str())),
            Ok(_) => {
                self.child = true;
                self.started_at = Some(now);
                self.last_error = None;
                Ok(())
            },
        }
    }

    /// Notes a line that the process wrote.
    pub fn on_output(&mut self, stderr: bool, line: &str)
        ensures
            final(self)@ == (NfaView {
                log: log_ring::last_of(
                    old(self)@.log.push(
                        if stderr {
                            "[nfa stderr] "@ + line@
                        } else {
                            "[nfa stdout] "@ + line@
                        },
                    ),
                    log_ring::MAX_LINES as int,
                ),
                ..old(self)@
            }),
    {
        if stderr {
            self.log_lines.push(concat2("[nfa stderr] ", line));
        } else {
            self.log_lines.push(concat2("[nfa stdout] ", line));
        }
    }

    /// Ends a start that waits for the service to be healthy: it does so when
    /// the time is over or the service is healthy. The answer tells whether
    /// the start is over.
    pub fn on_health(&mut self, time_over: bool, healthy: bool) -> (r: bool)
        ensures
            r == (time_over || healthy),
            final(self)@ == if time_over {
                NfaView {
                    log: noted(old(self)@.log, "nfa_service started (health pending)"@),
                    ..old(self)@
                }
            } else if healthy {
                NfaView { log: noted(old(self)@.log, "nfa_service healthy"@), ..old(self)@ }
            } else {
                old(self)@
            },
    {
        if time_over {
            self.push_log_line("nfa_service started (health pending)");
            true
        } else if healthy {
            self.push_log_line("nfa_service healthy");
            true
        } else {
            false
        }
    }

    /// Begins a stop. The answer tells whether there is a process to kill.
    pub fn stop(&mut self) -> (r: bool)
        ensures
            r == old(self)@.child,
            final(self)@ == (NfaView {
                desired: false,
                child: false,
                log: if r {
                    noted(old(self)@.log, "stopping nfa_service"@)
                } else {
                    old(self)@.log
                },
                ..old(self)@
            }),
    {
        self.desired_running = false;
        if !self.child {
            return false;
        }
        self.child = false;
        self.push_log_line("stopping nfa_service");
        true
    }

    /// Ends a stop: the process was killed and waited for, with these failures.
    pub fn on_stopped(&mut self, kill: Option<String>, wait: Option<String>)
        ensures
            final(self)@ == old(self)@.failing(
                "Failed to kill nfa_service: "@,
                chars::opt_view(kill),
            ).failing("Failed to wait for nfa_service: "@, chars::opt_view(wait)),
    {
        if let Some(e) = kill {
            self.fail(concat2("Failed to kill nfa_service: ", e.as_str()));
        }
        if let Some(e) = wait {
            self.fail(concat2("Failed to wait for nfa_service: ", e.as_str()));
        }
    }

    fn count_restart(&mut self)
        ensures
            final(self)@ == (NfaView {
                restart_count: one_more(old(self)@.restart_count),
                ..old(self)@
            }),
    {
        self.restart_count = if self.restart_count == u32::MAX {
            0
        } else {
            self.restart_count + 1
        };
    }

    /// The milliseconds between the stop and the start of a restart.
    pub fn restart_pause(&self) -> (r: u64)
        ensures
            r == self@.config.restart_backoff_ms,
    {
        self.config.restart_backoff_ms
    }

    /// Goes on with a restart when the process has been stopped and the pause
    /// is over: the restart is counted, and the start begins.
    pub fn restart(&mut self, poll: ChildPoll) -> (r: Result<LaunchStep, String>)
        ensures
            ({
                let counted = NfaView {
                    restart_count: one_more(old(self)@.restart_count),
                    ..old(self)@
                };
                &&& !counted.config.enabled ==> r is Err && r->Err_0@
                    == "NFA is disabled (NFA_ENABLED=false)"@ && final(self)@ == counted
                &&& counted.config.enabled ==> r is Ok && (final(self)@, r->Ok_0@)
                    == counted.launched(poll@)
            }),
    {
        self.count_restart();
        self.start(poll)
    }

    /// Sees to it that the service runs: it is started where it starts by
    /// itself, and has to run already where it does not.
    pub fn ensure_running(&mut self, poll: ChildPoll) -> (r: Result<LaunchStep, String>)
        ensures
            !old(self)@.config.enabled ==> r is Err && r->Err_0@
                == "NFA is disabled (NFA_ENABLED=false)"@ && final(self)@ == old(self)@,
            old(self)@.config.enabled && old(self)@.config.auto_start ==> r is Ok && (
                final(self)@,
                r->Ok_0@,
            ) == old(self)@.launched(poll@),
            old(self)@.config.enabled && !old(self)@.config.auto_start ==> {
                let (state, running, pid) = old(self)@.observed(poll@);
                &&& final(self)@ == state
                &&& running ==> r is Ok && r->Ok_0@ == LaunchView::Running
                &&& !running ==> r is Err && r->Err_0@
                    == "NFA is not running (NFA_AUTO_START=false)"@
            },
    {
        if !self.config.enabled {
            return Err("NFA is disabled (NFA_ENABLED=false)".to_owned());
        }
        if self.config.auto_start {
            return self.start(poll);
        }
        let state = self.process_state(poll);
        if state.0 {
            Ok(LaunchStep::Running)
        } else {
            Err("NFA is not running (NFA_AUTO_START=false)".to_owned())
        }
    }

    /// Looks after the process: the milliseconds after which it is to be
    /// started again, where it should run and does not. That counts as a
    /// restart.
    pub fn supervise_tick(&mut self, poll: ChildPoll) -> (r: Option<u64>)
        ensures
            ({
                let (state, running, pid) = old(self)@.observed(poll@);
                &&& r == if old(self)@.desired && !running {
                    Some(old(self)@.config.restart_backoff_ms)
                } else {
                    None
                }
                &&& !old(self)@.desired ==> final(self)@ == old(self)@
                &&& old(self)@.desired && running ==> final(self)@ == state
                &&& r is Some ==> final(self)@ == (NfaView {
                    restart_count: one_more(state.restart_count),
                    log: noted(
                        state.log,
                        "nfa_service not running, restarting after "@ + duration::millis_spec(
                            state.config.restart_backoff_ms,
                        ),
                    ),
                    ..state
                })
            }),
    {
        if !self.desired_running {
            return None;
        }
        let state = self.process_state(poll);
        if state.0 {
            return None;
        }
        self.count_restart();
        let backoff = self.config.restart_backoff_ms;
        let line = concat2(
            "nfa_service not running, restarting after ",
            millis_text(backoff).as_str(),
        );
        self.push_log_line(line.as_str());
        Some(backoff)
    }

    /// What is done next about a job: it is asked about, unless its time is
    /// over.
    pub fn poll_step(&self, job_id: &str, time_over: bool) -> (r: PollStep)
        ensures
            if time_over {
                r matches PollStep::TimedOut { error } && error@ == "NFA job timed out after "@
                    + number::decimal_spec(self@.config.job_timeout_secs as nat) + "s"@
            } else {
                r matches PollStep::Ask { url } && url@ == self@.base_url() + "/align-nfa/job/"@
                    + job_id@
            },
    {
        if time_over {
            PollStep::TimedOut { error: self.timeout_error() }
        } else {
            PollStep::Ask { url: self.poll_url(job_id) }
        }
    }

    /// The error of a job that took too long.
    pub fn timeout_error(&self) -> (r: String)
        ensures
            r@ == "NFA job timed out after "@ + number::decimal_spec(
                self@.config.job_timeout_secs as nat,
            ) + "s"@,
    {
        concat3("NFA job timed out after ", decimal(self.config.job_timeout_secs).as_str(), "s")
    }
}

/// What is done next about a job.
#[derive(Debug)]
pub enum PollStep {
    /// It is asked about.
    Ask { url: String },
    /// It is given up.
    TimedOut { error: String },
}

/// An answer of the service.
#[derive(Debug)]
pub struct NfaReply {
    pub status: u16,
    /// The status as it is shown, such as "404 Not Found".
    pub status_text: String,
    pub body: String,
}

/// The status says that all went well.
pub open spec fn is_success(status: u16) -> bool {
    200 <= status < 300
}

/// The name of the job that the answer to a new job gives, where the text
/// under "job_id" in it is `field`.
pub open spec fn job_id_spec(
    raw: Seq<char>,
    field: Result<Option<Seq<char>>, Seq<char>>,
) -> Result<Seq<char>, Seq<char>> {
    match field {
        Err(e) => Err("Invalid NFA create job JSON: "@ + e + " ("@ + raw + ")"@),
        Ok(None) => Err("Missing job_id in NFA response: "@ + raw),
        Ok(Some(id)) => Ok(id),
    }
}

/// The name of the job that the answer to a new job gives, where the text
/// under "job_id" in it is `field`.
pub fn job_id(raw: &str, field: Result<Option<String>, String>) -> (r: Result<String, String>)
    ensures
        json::text_view(r) == job_id_spec(raw@, json::field_view(field)),
{
    match field {
        Err(e) => Err(concat5("Invalid NFA create job JSON: ", e.as_str(), " (", raw, ")")),
        Ok(None) => Err(concat2("Missing job_id in NFA response: ", raw)),
        Ok(Some(id)) => Ok(id),
    }
}

/// The name of a new job, from the answer of the service or the reason why
/// there is none.
pub fn create_job(reply: Result<NfaReply, String>) -> (r: Result<String, String>)
    ensures
        json::text_view(r) == match reply {
            Err(e) => Err("NFA create job failed: "@ + e@),
            Ok(a) => if a.status == NOT_FOUND {
                Err("NFA job endpoint not found"@)
            } else if !is_success(a.status) {
                Err("NFA create job error "@ + a.status_text@ + ": "@ + a.body@)
            } else {
                job_id_spec(a.body@, json::json_field(a.body@, "job_id"@))
            },
        },
{
    match reply {
        Err(e) => Err(concat2("NFA create job failed: ", e.as_str())),
        Ok(a) => {
            if a.status == NOT_FOUND {
                return Err("NFA job endpoint not found".to_owned());
            }
            if !(200 <= a.status && a.status < 300) {
                return Err(
                    concat4(
                        "NFA create job error ",
                        a.status_text.as_str(),
                        ": ",
                        a.body.as_str(),
                    ),
                );
            }
            let field = json::text_field(a.body.as_str(), "job_id");
            job_id(a.body.as_str(), field)
        },
    }
}

/// What an answer about a job says.
#[derive(Debug)]
pub enum JobState {
    /// The job is done; the text is its result, as JSON.
    Done(String),
    /// The job is not done yet.
    Waiting,
    /// The job failed.
    Failed(String),
}

/// The contents of a `JobState`.
pub ghost enum JobView {
    Done(Seq<char>),
    Waiting,
    Failed(Seq<char>),
}

impl View for JobState {
    type V = JobView;

    open spec fn view(&self) -> JobView {
        match *self {
            JobState::Done(s) => JobView::Done(s@),
            JobState::Waiting => JobView::Waiting,
            JobState::Failed(e) => JobView::Failed(e@),
        }
    }
}

/// What an answer about a job says, where the texts under "status" and "error"
/// in it, the member "result" and the whole are these. The result of a job is
/// the member, or the whole where there is none.
pub open spec fn job_state_spec(
    raw: Seq<char>,
    status: Result<Option<Seq<char>>, Seq<char>>,
    error: Result<Option<Seq<char>>, Seq<char>>,
    member: Result<Option<Seq<char>>, Seq<char>>,
    whole: Result<Seq<char>, Seq<char>>,
) -> JobView {
    match status {
        Err(e) => JobView::Failed("Invalid NFA poll JSON: "@ + e + " ("@ + raw + ")"@),
        Ok(s) => {
            let word = match s {
                Some(w) => w,
                None => "unknown"@,
            };
            if word == "done"@ {
                match (member, whole) {
                    (Ok(Some(text)), _) => JobView::Done(text),
                    (Ok(None), Ok(text)) => JobView::Done(text),
                    (Ok(None), Err(e)) => JobView::Failed(
                        "Invalid NFA poll JSON: "@ + e + " ("@ + raw + ")"@,
                    ),
                    (Err(e), _) => JobView::Failed(
                        "Invalid NFA poll JSON: "@ + e + " ("@ + raw + ")"@,
                    ),
                }
            } else if word == "failed"@ {
                JobView::Failed(
                    "NFA job failed: "@ + match error {
                        Ok(Some(e)) => e,
                        _ => "unknown error"@,
                    },
                )
            } else if word == "pending"@ || word == "running"@ {
                JobView::Waiting
            } else {
                JobView::Failed("Unknown NFA job status: "@ + word)
            }
        },
    }
}

/// What an answer about a job says, where the texts under "status" and "error"
/// in it, the member "result" and the whole are these.
pub fn job_state(
    raw: &str,
    status: Result<Option<String>, String>,
    error: Result<Option<String>, String>,
    member: Result<Option<String>, String>,
    whole: Result<String, String>,
) -> (r: JobState)
    ensures
        r@ == job_state_spec(
            raw@,
            json::field_view(status),
            json::field_view(error),
            json::field_view(member),
            json::text_view(whole),
        ),
{
    let word = match status {
        Err(e) => {
            return JobState::Failed(
                concat5("Invalid NFA poll JSON: ", e.as_str(), " (", raw, ")"),
            );
        },
        Ok(Some(w)) => w,
        Ok(None) => "unknown".to_owned(),
    };
    if str_eq(word.as_str(), "done") {
        match (member, whole) {
            (Ok(Some(text)), _) => JobState::Done(text),
            (Ok(None), Ok(text)) => JobState::Done(text),
            (Ok(None), Err(e)) => JobState::Failed(
                concat5("Invalid NFA poll JSON: ", e.as_str(), " (", raw, ")"),
            ),
            (Err(e), _) => JobState::Failed(
                concat5("Invalid NFA poll JSON: ", e.as_str(), " (", raw, ")"),
            ),
        }
    } else if str_eq(word.as_str(), "failed") {
        match error {
            Ok(Some(e)) => JobState::Failed(concat2("NFA job failed: ", e.as_str())),
            _ => JobState::Failed(concat2("NFA job failed: ", "unknown error")),
        }
    } else if str_eq(word.as_str(), "pending") || str_eq(word.as_str(), "running") {
        JobState::Waiting
    } else {
        JobState::Failed(concat2("Unknown NFA job status: ", word.as_str()))
    }
}

/// What is known of a job, from the answer of the service or the reason why
/// there is none.
pub fn poll_job(reply: Result<NfaReply, String>) -> (r: JobState)
    ensures
        r@ == match reply {
            Err(e) => JobView::Failed("NFA poll failed: "@ + e@),
            Ok(a) => if !is_success(a.status) {
                JobView::Failed("NFA poll error "@ + a.status_text@ + ": "@ + a.body@)
            } else {
                job_state_spec(
                    a.body@,
                    json::json_field(a.body@, "status"@),
                    json::json_field(a.body@, "error"@),
                    json::json_member(a.body@, "result"@),
                    json::json_all(a.body@),
                )
            },
        },
{
    match reply {
        Err(e) => JobState::Failed(concat2("NFA poll failed: ", e.as_str())),
        Ok(a) => {
            if !(200 <= a.status && a.status < 300) {
                return JobState::Failed(
                    concat4("NFA poll error ", a.status_text.as_str(), ": ", a.body.as_str()),
                );
            }
            let raw = a.body.as_str();
            let status = json::text_field(raw, "status");
            let error = json::text_field(raw, "error");
            let member = json::member(raw, "result");
            let whole = json::rewrite(raw);
            job_state(raw, status, error, member, whole)
        },
    }
}

/// The result of an alignment that the service does at once, as JSON.
pub fn align_sync(reply: Result<NfaReply, String>) -> (r: Result<String, String>)
    ensures
        json::text_view(r) == match reply {
            Err(e) => Err("NFA sync align failed: "@ + e@),
            Ok(a) => if !is_success(a.status) {
                Err("NFA sync align error "@ + a.status_text@ + ": "@ + a.body@)
            } else {
                match json::json_all(a.body@) {
                    Ok(text) => Ok(text),
                    Err(e) => Err(
                        "Invalid NFA sync align JSON: "@ + e + " ("@ + a.body@ + ")"@,
                    ),
                }
            },
        },
{
    match reply {
        Err(e) => Err(concat2("NFA sync align failed: ", e.as_str())),
        Ok(a) => {
            if !(200 <= a.status && a.status < 300) {
                return Err(
                    concat4("NFA sync align error ", a.status_text.as_str(), ": ", a.body.as_str()),
                );
            }
            match json::rewrite(a.body.as_str()) {
                Ok(text) => Ok(text),
                Err(e) => Err(
                    concat5(
                        "Invalid NFA sync align JSON: ",
                        e.as_str(),
                        " (",
                        a.body.as_str(),
                        ")",
                    ),
                ),
            }
        },
    }
}

/// How an alignment goes on after a job has been given to the service.
#[derive(Debug)]
pub enum AlignStep {
    /// Ask about the job.
    Poll { job_id: String },
    /// Let the service align at once.
    Sync,
}

/// How an alignment goes on: where the service took no job, it is asked to
/// align at once.
pub fn align(created: Result<String, String>) -> (r: AlignStep)
    ensures
        match created {
            Ok(id) => r matches AlignStep::Poll { job_id } && job_id == id,
            Err(_) => r is Sync,
        },
{
    match created {
        Ok(job_id) => AlignStep::Poll { job_id },
        Err(_) => AlignStep::Sync,
    }
}

/// A service that has been stopped is not started again by itself.
pub proof fn stopped_stays_stopped(state: NfaView, poll: frp::PollView)
    requires
        !state.desired,
        !state.child,
    ensures
        state.observed(poll) == (state, false, None::<u32>),
{
}

} // verus!
