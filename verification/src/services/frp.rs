//! The managed frp client: its configuration is written from the tunnel's port
//! mappings, and the process is kept running.

use vstd::prelude::*;

use crate::config::env::FrpConfig;
use crate::domain::tunnel;
use crate::domain::tunnel::{PortMapping, PortMappingStatus};
use crate::services::log_ring;
use crate::services::log_ring::LogRing;
use crate::text::chars;
use crate::text::chars::{concat2, concat4, strings};
use crate::text::number;
use crate::text::number::decimal;
use crate::time::Timestamp;

verus! {

/// Milliseconds between a stop and the start that follows it.
pub const RESTART_DELAY_MS: u64 = 800;

/// Milliseconds before a process that ended is started again.
pub const REVIVE_DELAY_MS: u64 = 1000;

/// Seconds between two looks at the process.
pub const SUPERVISE_INTERVAL_SECS: u64 = 2;

/// The name of the configuration file.
pub const CONFIG_FILE_NAME: &'static str = "xjp-deploy-agent-frpc.ini";

/// The state of the frp client, for reports.
#[derive(Debug)]
pub struct FrpcStatus {
    pub enabled: bool,
    pub desired_running: bool,
    pub running: bool,
    pub pid: Option<u32>,
    pub started_at: Option<Timestamp>,
    pub restart_count: u32,
    pub last_error: Option<String>,
    pub config_path: String,
    pub server_addr: String,
    pub server_port: u16,
    pub mappings: Vec<PortMappingStatus>,
}

/// What a look at a process shows.
#[derive(Debug)]
pub enum ChildPoll {
    /// It ended; the text says how.
    Exited(String),
    /// It runs, under this number.
    Running(Option<u32>),
    /// It could not be looked at; the number is the one that it had.
    Unknown(String, Option<u32>),
}

/// The contents of a `ChildPoll`.
pub ghost enum PollView {
    Exited(Seq<char>),
    Running(Option<u32>),
    Unknown(Seq<char>, Option<u32>),
}

impl View for ChildPoll {
    type V = PollView;

    open spec fn view(&self) -> PollView {
        match *self {
            ChildPoll::Exited(s) => PollView::Exited(s@),
            ChildPoll::Running(p) => PollView::Running(p),
            ChildPoll::Unknown(e, p) => PollView::Unknown(e@, p),
        }
    }
}

/// What a start needs next.
#[derive(Debug)]
pub enum StartStep {
    /// Nothing: the process runs.
    Running,
    /// Write the configuration.
    Write { path: String, text: String },
    /// Start the process.
    Spawn { program: String, args: Vec<String> },
}

/// The contents of a `StartStep`.
pub ghost enum StartView {
    Running,
    Write { path: Seq<char>, text: Seq<char> },
    Spawn { program: Seq<char>, args: Seq<Seq<char>> },
}

impl View for StartStep {
    type V = StartView;

    open spec fn view(&self) -> StartView {
        match *self {
            StartStep::Running => StartView::Running,
            StartStep::Write { path, text } => StartView::Write { path: path@, text: text@ },
            StartStep::Spawn { program, args } => StartView::Spawn {
                program: program@,
                args: chars::views(args@),
            },
        }
    }
}

/// The frp client that the agent manages.
#[derive(Debug)]
pub struct FrpcManager {
    config: FrpConfig,
    mappings: Vec<PortMapping>,
    desired_running: bool,
    child: bool,
    started_at: Option<Timestamp>,
    restart_count: u32,
    last_error: Option<String>,
    config_path: String,
    log_lines: LogRing,
}

/// The contents of a `FrpcManager`.
pub ghost struct FrpcView {
    pub config: FrpConfig,
    pub mappings: Seq<tunnel::PortMappingView>,
    /// Whether the process should run.
    pub desired: bool,
    /// Whether a process has been started and not been seen to end.
    pub child: bool,
    pub started_at: Option<Timestamp>,
    pub restart_count: u32,
    pub last_error: Option<Seq<char>>,
    pub config_path: Seq<char>,
    pub log: Seq<Seq<char>>,
}

impl View for FrpcManager {
    type V = FrpcView;

    closed spec fn view(&self) -> FrpcView {
        FrpcView {
            config: self.config,
            mappings: tunnel::mapping_views(self.mappings@),
            desired: self.desired_running,
            child: self.child,
            started_at: self.started_at,
            restart_count: self.restart_count,
            last_error: chars::opt_view(self.last_error),
            config_path: self.config_path@,
            log: self.log_lines@,
        }
    }
}

/// The line of a configuration that sets a key.
pub open spec fn setting(key: Seq<char>, value: Seq<char>) -> Seq<char> {
    key + " = "@ + value + "\n"@
}

/// The section of one mapping.
pub open spec fn section(m: tunnel::PortMappingView) -> Seq<char> {
    "["@ + m.name + "]\n"@ + "type = tcp\n"@ + setting("local_ip"@, m.local_host) + setting(
        "local_port"@,
        number::decimal_spec(m.local_port as nat),
    ) + setting("remote_port"@, number::decimal_spec(m.remote_port as nat)) + "\n"@
}

/// The sections of the mappings, in order.
pub open spec fn sections(mappings: Seq<tunnel::PortMappingView>) -> Seq<char>
    decreases mappings.len(),
{
    if mappings.len() == 0 {
        Seq::empty()
    } else {
        sections(mappings.drop_last()) + section(mappings.last())
    }
}

/// The line that sets a key, where there is a value.
pub open spec fn optional_setting(key: Seq<char>, value: Option<Seq<char>>) -> Seq<char> {
    match value {
        Some(v) => setting(key, v),
        None => Seq::empty(),
    }
}

/// The lines on the admin server: it is there where it has an address and a
/// port.
pub open spec fn admin_part(c: FrpConfig) -> Seq<char> {
    if c.admin_addr@.len() > 0 && c.admin_port > 0 {
        setting("admin_addr"@, c.admin_addr@) + setting(
            "admin_port"@,
            number::decimal_spec(c.admin_port as nat),
        ) + optional_setting("admin_user"@, chars::opt_view(c.admin_user)) + optional_setting(
            "admin_pwd"@,
            chars::opt_view(c.admin_pwd),
        )
    } else {
        Seq::empty()
    }
}

/// The configuration file.
pub open spec fn ini_text(c: FrpConfig, mappings: Seq<tunnel::PortMappingView>) -> Seq<char> {
    "[common]\n"@ + setting("server_addr"@, c.server_addr@) + setting(
        "server_port"@,
        number::decimal_spec(c.server_port as nat),
    ) + "login_fail_exit = false\n"@ + optional_setting("token"@, chars::opt_view(c.token))
        + admin_part(c) + "\n"@ + sections(mappings)
}

/// The log after one more line of the manager.
pub open spec fn noted(log: Seq<Seq<char>>, line: Seq<char>) -> Seq<Seq<char>> {
    log_ring::last_of(log.push("[frp] "@ + line), log_ring::MAX_LINES as int)
}

impl FrpcView {
    /// Whether the process runs and under which number, and what is left after
    /// the look at it.
    pub open spec fn observed(self, poll: PollView) -> (FrpcView, bool, Option<u32>) {
        if !self.child {
            (self, false, None)
        } else {
            match poll {
                PollView::Exited(status) => {
                    let msg = "frpc exited: "@ + status;
                    (
                        FrpcView {
                            child: false,
                            last_error: Some(msg),
                            log: noted(self.log, msg),
                            ..self
                        },
                        false,
                        None,
                    )
                },
                PollView::Running(pid) => (self, true, pid),
                PollView::Unknown(e, pid) => {
                    let msg = "Failed to query frpc status: "@ + e;
                    (
                        FrpcView { last_error: Some(msg), log: noted(self.log, msg), ..self },
                        true,
                        pid,
                    )
                },
            }
        }
    }

    /// The configuration file has been written.
    pub open spec fn configured(self) -> (FrpcView, StartView) {
        if self.child {
            (self, StartView::Running)
        } else {
            (
                FrpcView {
                    log: noted(
                        self.log,
                        "starting frpc: "@ + self.config.frpc_path@ + " -c "@ + self.config_path,
                    ),
                    ..self
                },
                StartView::Spawn {
                    program: self.config.frpc_path@,
                    args: seq!["-c"@, self.config_path],
                },
            )
        }
    }

    /// The manager notes a failure, where there is one.
    pub open spec fn failing(self, what: Seq<char>, failure: Option<Seq<char>>) -> FrpcView {
        match failure {
            Some(e) => FrpcView {
                last_error: Some(what + e),
                log: noted(self.log, what + e),
                ..self
            },
            None => self,
        }
    }
}

/// Appends a line that sets a key.
fn push_setting(out: &mut String, key: &str, value: &str)
    ensures
        final(out)@ == old(out)@ + setting(key@, value@),
{
    out.append(key);
    out.append(" = ");
    out.append(value);
    out.append("\n");
    assert(out@ =~= old(out)@ + setting(key@, value@));
}

fn push_optional(out: &mut String, key: &str, value: &Option<String>)
    ensures
        final(out)@ == old(out)@ + optional_setting(key@, chars::opt_view(*value)),
{
    if let Some(v) = value {
        push_setting(out, key, v.as_str());
    } else {
        assert(out@ =~= old(out)@ + Seq::<char>::empty());
    }
}

fn push_section(out: &mut String, m: &PortMapping)
    ensures
        final(out)@ == old(out)@ + section(m@),
{
    out.append("[");
    out.append(m.name.as_str());
    out.append("]\n");
    out.append("type = tcp\n");
    push_setting(out, "local_ip", m.local_host.as_str());
    push_setting(out, "local_port", decimal(m.local_port as u64).as_str());
    push_setting(out, "remote_port", decimal(m.remote_port as u64).as_str());
    out.append("\n");
    assert(out@ =~= old(out)@ + section(m@));
}

fn push_admin(out: &mut String, c: &FrpConfig)
    ensures
        final(out)@ == old(out)@ + admin_part(*c),
{
    if c.admin_addr.as_str().unicode_len() > 0 && c.admin_port > 0 {
        push_setting(out, "admin_addr", c.admin_addr.as_str());
        push_setting(out, "admin_port", decimal(c.admin_port as u64).as_str());
        push_optional(out, "admin_user", &c.admin_user);
        push_optional(out, "admin_pwd", &c.admin_pwd);
    }
    assert(out@ =~= old(out)@ + admin_part(*c));
}

impl FrpcManager {
    /// A manager that has started nothing. The configuration goes to
    /// `config_path`.
    pub fn new(config: FrpConfig, mappings: Vec<PortMapping>, config_path: String) -> (r:
        FrpcManager)
        ensures
            r@ == (FrpcView {
                config,
                mappings: tunnel::mapping_views(mappings@),
                desired: config.enabled,
                child: false,
                started_at: None,
                restart_count: 0,
                last_error: None,
                config_path: config_path@,
                log: Seq::empty(),
            }),
    {
        FrpcManager {
            desired_running: config.enabled,
            config,
            mappings,
            child: false,
            started_at: None,
            restart_count: 0,
            last_error: None,
            config_path,
            log_lines: LogRing::new(),
        }
    }

    /// Whether the frp client is configured at all.
    pub fn enabled(&self) -> (r: bool)
        ensures
            r == self@.config.enabled,
    {
        self.config.enabled
    }

    /// The last lines of the log.
    pub fn tail_logs(&self, tail: usize) -> (r: Vec<String>)
        ensures
            chars::views(r@) == log_ring::last_of(self@.log, log_ring::clamped(tail)),
    {
        self.log_lines.tail(tail)
    }

    /// The configuration file.
    pub fn build_ini(&self) -> (r: String)
        ensures
            r@ == ini_text(self@.config, self@.mappings),
    {
        let mut out = "[common]\n".to_owned();
        push_setting(&mut out, "server_addr", self.config.server_addr.as_str());
        push_setting(&mut out, "server_port", decimal(self.config.server_port as u64).as_str());
        out.append("login_fail_exit = false\n");
        push_optional(&mut out, "token", &self.config.token);
        push_admin(&mut out, &self.config);
        out.append("\n");
        let ghost head = out@;
        let ghost views = self@.mappings;
        let mut i: usize = 0;
        assert(out@ =~= head + sections(views.take(0)));
        while i < self.mappings.len()
            invariant
                i <= self.mappings@.len(),
                views == tunnel::mapping_views(self.mappings@),
                out@ == head + sections(views.take(i as int)),
            decreases self.mappings@.len() - i,
        {
            push_section(&mut out, &self.mappings[i]);
            proof {
                assert(views.take(i + 1).drop_last() =~= views.take(i as int));
                assert(views.take(i + 1).last() == self.mappings@[i as int]@);
                assert(out@ =~= head + sections(views.take(i + 1)));
            }
            i = i + 1;
        }
        assert(views.take(views.len() as int) =~= views);
        out
    }

    fn note(&mut self, line: &str)
        ensures
            final(self)@ == (FrpcView { log: noted(old(self)@.log, line@), ..old(self)@ }),
    {
        self.log_lines.push(concat2("[frp] ", line));
    }

    fn fail(&mut self, msg: String)
        ensures
            final(self)@ == (FrpcView {
                last_error: Some(msg@),
                log: noted(old(self)@.log, msg@),
                ..old(self)@
            }),
    {
        self.note(msg.as_str());
        self.last_error = Some(msg);
    }

    /// Takes a look at the process: whether it runs, and under which number.
    pub fn process_state(&mut self, poll: ChildPoll) -> (r: (bool, Option<u32>))
        ensures
            old(self)@.observed(poll@) == (final(self)@, r.0, r.1),
    {
        if !self.child {
            return (false, None);
        }
        match poll {
            ChildPoll::Exited(status) => {
                self.fail(concat2("frpc exited: ", status.as_str()));
                self.child = false;
                (false, None)
            },
            ChildPoll::Running(pid) => (true, pid),
            ChildPoll::Unknown(e, pid) => {
                self.fail(concat2("Failed to query frpc status: ", e.as_str()));
                (true, pid)
            },
        }
    }

    /// Begins a start: an error where the client is disabled, nothing to do
    /// where it runs, and otherwise the configuration is to be written.
    pub fn start(&mut self, poll: ChildPoll) -> (r: Result<StartStep, String>)
        ensures
            !old(self)@.config.enabled ==> r is Err && r->Err_0@
                == "FRP is disabled (FRP_ENABLED=false)"@ && final(self)@ == old(self)@,
            old(self)@.config.enabled ==> r is Ok && ({
                let (state, running, pid) = (FrpcView { desired: true, ..old(self)@ }).observed(
                    poll@,
                );
                &&& final(self)@ == state
                &&& r->Ok_0@ == if running {
                    StartView::Running
                } else {
                    StartView::Write {
                        path: state.config_path,
                        text: ini_text(state.config, state.mappings),
                    }
                }
            }),
    {
        if !self.config.enabled {
            return Err("FRP is disabled (FRP_ENABLED=false)".to_owned());
        }
        self.desired_running = true;
        let state = self.process_state(poll);
        if state.0 {
            return Ok(StartStep::Running);
        }
        Ok(StartStep::Write { path: self.config_path.clone(), text: self.build_ini() })
    }

    /// Goes on with a start after the configuration has been written, or has
    /// not.
    pub fn on_config_written(&mut self, outcome: Result<(), String>) -> (r: Result<
        StartStep,
        String,
    >)
        ensures
            match outcome {
                Err(e) => r is Err && r->Err_0@ == "Failed to write frpc.ini: "@ + e@
                    && final(self)@ == old(self)@,
                Ok(_) => r is Ok && (final(self)@, r->Ok_0@) == old(self)@.configured(),
            },
    {
        match outcome {
            Err(e) => Err(concat2("Failed to write frpc.ini: ", e.as_str())),
            Ok(_) => {
                if self.child {
                    return Ok(StartStep::Running);
                }
                let line = concat4(
                    "starting frpc: ",
                    self.config.frpc_path.as_str(),
                    " -c ",
                    self.config_path.as_str(),
                );
                self.note(line.as_str());
                let args = strings(&["-c", self.config_path.as_str()]);
                assert(chars::views(args@) =~= seq!["-c"@, self@.config_path]);
                Ok(StartStep::Spawn { program: self.config.frpc_path.clone(), args })
            },
        }
    }

    /// Ends a start: the process has been started at `now`, or has not.
    pub fn on_spawned(&mut self, outcome: Result<(), String>, now: Timestamp) -> (r: Result<
        (),
        String,
    >)
        ensures
            match outcome {
                Err(e) => r is Err && r->Err_0@ == "Failed to start frpc: "@ + e@ && final(self)@
                    == old(self)@,
                Ok(_) => r is Ok && final(self)@ == (FrpcView {
                    child: true,
                    started_at: Some(now),
                    last_error: None,
                    ..old(self)@
                }),
            },
    {
        match outcome {
            Err(e) => Err(concat2("Failed to start frpc: ", e.as_str())),
            Ok(_) => {
                self.child = true;
                self.started_at = Some(now);
                self.last_error = None;
                Ok(())
            },
        }
    }

    /// Notes a line that the process wrote.
    pub fn on_output(&mut self, stderr: bool, line: &str)
        ensures
            final(self)@ == (FrpcView {
                log: log_ring::last_of(
                    old(self)@.log.push(
                        if stderr {
                            "[frpc stderr] "@ + line@
                        } else {
                            "[frpc stdout] "@ + line@
                        },
                    ),
                    log_ring::MAX_LINES as int,
                ),
                ..old(self)@
            }),
    {
        if stderr {
            self.log_lines.push(concat2("[frpc stderr] ", line));
        } else {
            self.log_lines.push(concat2("[frpc stdout] ", line));
        }
    }

    /// Begins a stop. The answer tells whether there is a process to kill.
    pub fn stop(&mut self) -> (r: bool)
        ensures
            r == old(self)@.child,
            final(self)@ == (FrpcView {
                desired: false,
                child: false,
                log: if r {
                    noted(old(self)@.log, "stopping frpc"@)
                } else {
                    old(self)@.log
                },
                ..old(self)@
            }),
    {
        self.desired_running = false;
        if !self.child {
            return false;
        }
        self.child = false;
        self.note("stopping frpc");
        true
    }

    /// Ends a stop: the process was killed and waited for, with these failures.
    pub fn on_stopped(&mut self, kill: Option<String>, wait: Option<String>)
        ensures
            final(self)@ == old(self)@.failing(
                "Failed to kill frpc: "@,
                chars::opt_view(kill),
            ).failing("Failed to wait for frpc: "@, chars::opt_view(wait)),
    {
        if let Some(e) = kill {
            self.fail(concat2("Failed to kill frpc: ", e.as_str()));
        }
        if let Some(e) = wait {
            self.fail(concat2("Failed to wait for frpc: ", e.as_str()));
        }
    }

    /// Counts a restart. The count begins anew after the largest number.
    pub fn count_restart(&mut self)
        ensures
            final(self)@ == (FrpcView {
                restart_count: if old(self)@.restart_count == u32::MAX {
                    0
                } else {
                    (old(self)@.restart_count + 1) as u32
                },
                ..old(self)@
            }),
    {
        self.restart_count = if self.restart_count == u32::MAX {
            0
        } else {
            self.restart_count + 1
        };
    }

    /// The state for reports.
    pub fn status(&mut self, poll: ChildPoll) -> (r: FrpcStatus)
        ensures
            ({
                let (state, running, pid) = old(self)@.observed(poll@);
                &&& final(self)@ == state
                &&& r.enabled == state.config.enabled
                &&& r.desired_running == state.desired
                &&& r.running == running
                &&& r.pid == pid
                &&& r.started_at == state.started_at
                &&& r.restart_count == state.restart_count
                &&& chars::opt_view(r.last_error) == state.last_error
                &&& r.config_path@ == state.config_path
                &&& r.server_addr@ == state.config.server_addr@
                &&& r.server_port == state.config.server_port
                &&& mappings_shown(
                    r.mappings@,
                    state.mappings,
                    if running {
                        "active"@
                    } else {
                        "disconnected"@
                    },
                )
            }),
    {
        let (running, pid) = self.process_state(poll);
        let word = if running {
            "active"
        } else {
            "disconnected"
        };
        FrpcStatus {
            enabled: self.config.enabled,
            desired_running: self.desired_running,
            running,
            pid,
            started_at: self.started_at,
            restart_count: self.restart_count,
            last_error: self.last_error.clone(),
            config_path: self.config_path.clone(),
            server_addr: self.config.server_addr.clone(),
            server_port: self.config.server_port,
            mappings: mapping_statuses(&self.mappings, word),
        }
    }

    /// Looks after the process: whether it has to be started again, because it
    /// should run and does not. That counts as a restart.
    pub fn supervise_tick(&mut self, poll: ChildPoll) -> (r: bool)
        ensures
            ({
                let (state, running, pid) = old(self)@.observed(poll@);
                &&& r == (old(self)@.desired && !running)
                &&& !old(self)@.desired ==> final(self)@ == old(self)@
                &&& old(self)@.desired && running ==> final(self)@ == state
                &&& r ==> final(self)@ == (FrpcView {
                    restart_count: if state.restart_count == u32::MAX {
                        0
                    } else {
                        (state.restart_count + 1) as u32
                    },
                    log: noted(state.log, "frpc not running, restarting"@),
                    ..state
                })
            }),
    {
        if !self.desired_running {
            return false;
        }
        let state = self.process_state(poll);
        if state.0 {
            return false;
        }
        self.count_restart();
        self.note("frpc not running, restarting");
        true
    }
}

/// The mappings as reports show them, all in the same state.
pub open spec fn mappings_shown(
    shown: Seq<PortMappingStatus>,
    mappings: Seq<tunnel::PortMappingView>,
    word: Seq<char>,
) -> bool {
    &&& shown.len() == mappings.len()
    &&& forall|i: int|
        0 <= i < shown.len() ==> (#[trigger] shown[i]).mapping@ == mappings[i]
            && shown[i].status@ == word && shown[i].active_connections == 0
}

/// The mappings as reports show them, all in the same state.
pub fn mapping_statuses(mappings: &Vec<PortMapping>, word: &str) -> (r: Vec<PortMappingStatus>)
    ensures
        mappings_shown(r@, tunnel::mapping_views(mappings@), word@),
{
    let mut r: Vec<PortMappingStatus> = Vec::new();
    let mut i: usize = 0;
    while i < mappings.len()
        invariant
            i <= mappings@.len(),
            mappings_shown(r@, tunnel::mapping_views(mappings@).take(i as int), word@),
        decreases mappings@.len() - i,
    {
        r.push(
            PortMappingStatus {
                mapping: mappings[i].clone(),
                status: word.to_owned(),
                active_connections: 0,
            },
        );
        i = i + 1;
    }
    assert(tunnel::mapping_views(mappings@).take(mappings@.len() as int)
        =~= tunnel::mapping_views(mappings@));
    r
}

/// A process that has been stopped is not started again until somebody asks
/// for it: looking after it does nothing.
pub proof fn stopped_stays_stopped(state: FrpcView, poll: PollView)
    requires
        !state.desired,
        !state.child,
    ensures
        state.observed(poll) == (state, false, None::<u32>),
{
}

/// A process that was seen to end leaves its reason behind, in the last error
/// and in the log.
pub proof fn exit_leaves_reason(state: FrpcView, status: Seq<char>)
    requires
        state.child,
    ensures
        ({
            let (after, running, pid) = state.observed(PollView::Exited(status));
            &&& !running
            &&& !after.child
            &&& after.last_error == Some("frpc exited: "@ + status)
            &&& after.log.last() == "[frp] "@ + ("frpc exited: "@ + status)
            &&& after.desired == state.desired
        }),
{
}

} // verus!
