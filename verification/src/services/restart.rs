//! Restarting the agent: each platform has its own ways, tried one after the
//! other.

use vstd::prelude::*;

use crate::text::chars;
use crate::text::chars::{concat2, concat3, concat5, strings};

verus! {

/// Why the agent cannot be restarted.
#[derive(Debug)]
pub enum RestartError {
    /// A command failed.
    CommandFailed(String),
    /// The restart could not be scheduled.
    ScheduleTaskFailed,
    /// Reading, writing or starting something failed.
    Io(String),
    /// The platform has no way to restart.
    Unsupported,
}

impl RestartError {
    /// The description of the error.
    pub open spec fn text(self) -> Seq<char> {
        match self {
            RestartError::CommandFailed(e) => "Failed to execute command: "@ + e@,
            RestartError::ScheduleTaskFailed => "Failed to schedule restart task"@,
            RestartError::Io(e) => "IO error: "@ + e@,
            RestartError::Unsupported => "Restart method not supported on this platform"@,
        }
    }

    /// Describes the error.
    pub fn to_text(&self) -> (r: String)
        ensures
            r@ == self.text(),
    {
        match self {
            RestartError::CommandFailed(e) => concat2("Failed to execute command: ", e.as_str()),
            RestartError::ScheduleTaskFailed => "Failed to schedule restart task".to_owned(),
            RestartError::Io(e) => concat2("IO error: ", e.as_str()),
            RestartError::Unsupported => "Restart method not supported on this platform".to_owned(),
        }
    }
}

/// How the agent runs.
#[derive(Debug)]
pub enum RestartMode {
    /// As a service of the system.
    Service,
    /// In a console, from this binary.
    Console(String),
}

/// The platform that the agent runs on.
#[derive(Clone, Copy, Debug, PartialEq, Eq, Structural)]
pub enum Platform {
    Unix,
    Windows,
    Other,
}

/// The name of the scheduled task.
pub const TASK_NAME: &'static str = "XJPDeployAgentRestart";

/// What the scheduled task runs.
pub const TASK_COMMAND: &'static str = "cmd /c \"net stop xjp-deploy-agent & timeout /t 3 /nobreak >nul & net start xjp-deploy-agent\"";

/// The script that restarts the service.
pub const RESTART_SCRIPT: &'static str = "@echo off\nREM XJP Deploy Agent Restart Script\nREM Wait for the calling process to exit\ntimeout /t 3 /nobreak > nul\n\nREM Stop the service\nnet stop xjp-deploy-agent > nul 2>&1\n\nREM Wait for service to fully stop\ntimeout /t 2 /nobreak > nul\n\nREM Start the service\nnet start xjp-deploy-agent\n\nREM Clean up this script\ndel \"%~f0\"\n";

/// The beginning of the script that starts a new binary, up to the directory.
pub const UPDATE_SCRIPT_HEAD: &'static str = "@echo off\ntitle XJP Deploy Agent - Auto Update\necho Waiting for old process to exit...\ntimeout /t 3 /nobreak > nul\n\necho Stopping any remaining processes...\ntaskkill /F /IM xjp-deploy-agent.exe > nul 2>&1\n\necho Waiting for file release...\ntimeout /t 2 /nobreak > nul\n\necho Starting new version...\ncd /d \"";

/// The middle of the script, from the directory to the binary.
pub const UPDATE_SCRIPT_MIDDLE: &'static str = "\"\necho Update completed at %DATE% %TIME% >> update.log\nstart \"\" \"";

/// The end of the script, after the binary.
pub const UPDATE_SCRIPT_TAIL: &'static str = "\"\n\necho Cleaning up...\ntimeout /t 2 /nobreak > nul\ndel \"%~f0\"\n";

/// The name of the script that restarts the service.
pub const RESTART_SCRIPT_NAME: &'static str = "xjp-deploy-agent-restart.bat";

/// The name of the script that starts a new binary.
pub const UPDATE_SCRIPT_NAME: &'static str = "xjp-deploy-agent-update.bat";

/// Something that a restart asks for.
#[derive(Debug)]
pub enum RestartAction {
    /// Run a command and tell how it went.
    Run { program: String, args: Vec<String> },
    /// Replace this process by the binary, with the arguments that it has.
    Exec { program: String },
    /// Write a script to the directory for temporary files.
    WriteScript { name: String, text: String },
    /// Start a command and do not wait for it.
    Spawn { program: String, args: Vec<String> },
    /// The restart is on its way, or it is not.
    Done(Result<(), RestartError>),
}

/// The contents of a `RestartAction`.
pub ghost enum RestartActionView {
    Run { program: Seq<char>, args: Seq<Seq<char>> },
    Exec { program: Seq<char> },
    WriteScript { name: Seq<char>, text: Seq<char> },
    Spawn { program: Seq<char>, args: Seq<Seq<char>> },
    /// Nothing, or the description of the error.
    Done(Result<(), Seq<char>>),
}

impl View for RestartAction {
    type V = RestartActionView;

    open spec fn view(&self) -> RestartActionView {
        match *self {
            RestartAction::Run { program, args } => RestartActionView::Run {
                program: program@,
                args: chars::views(args@),
            },
            RestartAction::Exec { program } => RestartActionView::Exec { program: program@ },
            RestartAction::WriteScript { name, text } => RestartActionView::WriteScript {
                name: name@,
                text: text@,
            },
            RestartAction::Spawn { program, args } => RestartActionView::Spawn {
                program: program@,
                args: chars::views(args@),
            },
            RestartAction::Done(r) => RestartActionView::Done(
                match r {
                    Ok(_) => Ok(()),
                    Err(e) => Err(e.text()),
                },
            ),
        }
    }
}

/// What became of something that a restart asked for.
#[derive(Debug)]
pub enum RestartEvent {
    /// The command ran.
    Ran { success: bool, stderr: String },
    /// The script was written to this path.
    Written { path: String },
    /// The command was started.
    Spawned,
    /// It could not be done.
    Failed(String),
}

/// The contents of a `RestartEvent`.
pub ghost enum RestartEventView {
    Ran { success: bool, stderr: Seq<char> },
    Written { path: Seq<char> },
    Spawned,
    Failed(Seq<char>),
}

impl View for RestartEvent {
    type V = RestartEventView;

    open spec fn view(&self) -> RestartEventView {
        match *self {
            RestartEvent::Ran { success, stderr } => RestartEventView::Ran {
                success,
                stderr: stderr@,
            },
            RestartEvent::Written { path } => RestartEventView::Written { path: path@ },
            RestartEvent::Spawned => RestartEventView::Spawned,
            RestartEvent::Failed(e) => RestartEventView::Failed(e@),
        }
    }
}

/// What a restart waits for.
#[derive(Debug)]
pub enum RestartPhase {
    /// The timer of systemd.
    Systemd,
    /// The new process image.
    Exec,
    /// The recovery options of the Windows service.
    Recovery,
    /// The removal of an old task.
    DeleteTask,
    /// The new task.
    CreateTask,
    /// The script that restarts the service, or starts a new binary.
    Script { console: bool },
    /// The process that runs the script on its own.
    Detached { console: bool, path: String },
    /// The last resort to run the script.
    Started { console: bool },
    /// Nothing more.
    Over,
}

/// The contents of a `RestartPhase`.
pub ghost enum RestartPhaseView {
    Systemd,
    Exec,
    Recovery,
    DeleteTask,
    CreateTask,
    Script { console: bool },
    Detached { console: bool, path: Seq<char> },
    Started { console: bool },
    Over,
}

impl View for RestartPhase {
    type V = RestartPhaseView;

    open spec fn view(&self) -> RestartPhaseView {
        match *self {
            RestartPhase::Systemd => RestartPhaseView::Systemd,
            RestartPhase::Exec => RestartPhaseView::Exec,
            RestartPhase::Recovery => RestartPhaseView::Recovery,
            RestartPhase::DeleteTask => RestartPhaseView::DeleteTask,
            RestartPhase::CreateTask => RestartPhaseView::CreateTask,
            RestartPhase::Script { console } => RestartPhaseView::Script { console },
            RestartPhase::Detached { console, path } => RestartPhaseView::Detached {
                console,
                path: path@,
            },
            RestartPhase::Started { console } => RestartPhaseView::Started { console },
            RestartPhase::Over => RestartPhaseView::Over,
        }
    }
}

/// A restart that is on its way.
#[derive(Debug)]
pub struct RestartManager {
    /// When the scheduled task runs, as "HH:MM".
    time: String,
    /// The day on which it runs, as "MM/DD/YYYY".
    date: String,
    phase: RestartPhase,
}

/// The contents of a `RestartManager`.
pub ghost struct RestartView {
    pub time: Seq<char>,
    pub date: Seq<char>,
    pub phase: RestartPhaseView,
}

impl View for RestartManager {
    type V = RestartView;

    closed spec fn view(&self) -> RestartView {
        RestartView { time: self.time@, date: self.date@, phase: self.phase@ }
    }
}

/// What a restart does next.
pub ghost struct RestartStep {
    pub phase: RestartPhaseView,
    pub action: RestartActionView,
}

/// The restart is on its way.
pub open spec fn done() -> RestartStep {
    RestartStep { phase: RestartPhaseView::Over, action: RestartActionView::Done(Ok(())) }
}

/// The restart failed with this error.
pub open spec fn failed(error: Seq<char>) -> RestartStep {
    RestartStep { phase: RestartPhaseView::Over, action: RestartActionView::Done(Err(error)) }
}

/// The restart failed because a command did.
pub open spec fn command_failed(error: Seq<char>) -> RestartStep {
    failed("Failed to execute command: "@ + error)
}

/// The restart failed because something could not be done.
pub open spec fn io_failed(error: Seq<char>) -> RestartStep {
    failed("IO error: "@ + error)
}

/// The script that starts a new binary.
pub open spec fn update_script(work_dir: Seq<char>, binary: Seq<char>) -> Seq<char> {
    UPDATE_SCRIPT_HEAD@ + work_dir + UPDATE_SCRIPT_MIDDLE@ + binary + UPDATE_SCRIPT_TAIL@
}

/// How a restart begins. The directory is that of the binary.
pub open spec fn begin_step(
    platform: Platform,
    mode: RestartMode,
    work_dir: Seq<char>,
) -> RestartStep {
    match (platform, mode) {
        (Platform::Unix, RestartMode::Service) => RestartStep {
            phase: RestartPhaseView::Systemd,
            action: RestartActionView::Run {
                program: "sudo"@,
                args: seq![
                    "/usr/bin/systemd-run"@,
                    "--on-active=2"@,
                    "--timer-property=AccuracySec=1s"@,
                    "/usr/bin/systemctl"@,
                    "restart"@,
                    "xjp-deploy-agent.service"@,
                ],
            },
        },
        (Platform::Unix, RestartMode::Console(binary)) => RestartStep {
            phase: RestartPhaseView::Exec,
            action: RestartActionView::Exec { program: binary@ },
        },
        (Platform::Windows, RestartMode::Service) => RestartStep {
            phase: RestartPhaseView::Recovery,
            action: RestartActionView::Run {
                program: "sc"@,
                args: seq![
                    "failure"@,
                    "xjp-deploy-agent"@,
                    "reset="@,
                    "0"@,
                    "actions="@,
                    "restart/3000/restart/5000/restart/10000"@,
                ],
            },
        },
        (Platform::Windows, RestartMode::Console(binary)) => RestartStep {
            phase: RestartPhaseView::Script { console: true },
            action: RestartActionView::WriteScript {
                name: UPDATE_SCRIPT_NAME@,
                text: update_script(work_dir, binary@),
            },
        },
        (Platform::Other, _) => failed("Restart method not supported on this platform"@),
    }
}

impl RestartView {
    /// What an event leads to: the next way is tried where one fails, as long
    /// as there is another.
    pub open spec fn step(self, event: RestartEventView) -> RestartStep {
        match self.phase {
            RestartPhaseView::Systemd => match event {
                RestartEventView::Ran { success, stderr } => if success {
                    done()
                } else {
                    command_failed(stderr)
                },
                RestartEventView::Failed(e) => io_failed(e),
                _ => command_failed(Seq::empty()),
            },
            RestartPhaseView::Exec => match event {
                RestartEventView::Failed(e) => command_failed("exec failed: "@ + e),
                _ => command_failed(Seq::empty()),
            },
            RestartPhaseView::Recovery => if event matches RestartEventView::Ran {
                success,
                stderr,
            } && success {
                done()
            } else {
                RestartStep {
                    phase: RestartPhaseView::DeleteTask,
                    action: RestartActionView::Run {
                        program: "schtasks"@,
                        args: seq!["/Delete"@, "/TN"@, TASK_NAME@, "/F"@],
                    },
                }
            },
            RestartPhaseView::DeleteTask => RestartStep {
                phase: RestartPhaseView::CreateTask,
                action: RestartActionView::Run {
                    program: "schtasks"@,
                    args: seq![
                        "/Create"@,
                        "/TN"@,
                        TASK_NAME@,
                        "/TR"@,
                        TASK_COMMAND@,
                        "/SC"@,
                        "ONCE"@,
                        "/ST"@,
                        self.time,
                        "/SD"@,
                        self.date,
                        "/RU"@,
                        "SYSTEM"@,
                        "/RL"@,
                        "HIGHEST"@,
                        "/F"@,
                    ],
                },
            },
            RestartPhaseView::CreateTask => match event {
                RestartEventView::Failed(e) => io_failed(e),
                RestartEventView::Ran { success: true, stderr } => done(),
                _ => RestartStep {
                    phase: RestartPhaseView::Script { console: false },
                    action: RestartActionView::WriteScript {
                        name: RESTART_SCRIPT_NAME@,
                        text: RESTART_SCRIPT@,
                    },
                },
            },
            RestartPhaseView::Script { console } => match event {
                RestartEventView::Written { path } => RestartStep {
                    phase: RestartPhaseView::Detached { console, path },
                    action: RestartActionView::Run {
                        program: "wmic"@,
                        args: seq![
                            "process"@,
                            "call"@,
                            "create"@,
                            "cmd /c \""@ + path + "\""@,
                        ],
                    },
                },
                RestartEventView::Failed(e) => io_failed(e),
                _ => io_failed(Seq::empty()),
            },
            RestartPhaseView::Detached { console, path } => if event matches RestartEventView::Ran {
                success,
                stderr,
            } && success {
                done()
            } else {
                RestartStep {
                    phase: RestartPhaseView::Started { console },
                    action: RestartActionView::Spawn {
                        program: "cmd"@,
                        args: if console {
                            seq!["/C"@, "start"@, ""@, path]
                        } else {
                            seq!["/C"@, "start"@, "/B"@, ""@, path]
                        },
                    },
                }
            },
            RestartPhaseView::Started { console } => match event {
                RestartEventView::Failed(e) => if console {
                    io_failed(e)
                } else {
                    command_failed(e)
                },
                _ => done(),
            },
            RestartPhaseView::Over => done(),
        }
    }
}

fn run(program: &str, args: Vec<String>) -> (r: RestartAction)
    ensures
        r@ == (RestartActionView::Run { program: program@, args: chars::views(args@) }),
{
    RestartAction::Run { program: program.to_owned(), args }
}

impl RestartManager {
    /// Begins a restart. The task that may have to be scheduled runs at the
    /// given time and day.
    pub fn schedule_restart(
        platform: Platform,
        mode: RestartMode,
        work_dir: &str,
        time: String,
        date: String,
    ) -> (r: (RestartManager, RestartAction))
        ensures
            r.0@.time == time@,
            r.0@.date == date@,
            begin_step(platform, mode, work_dir@) == (RestartStep {
                phase: r.0@.phase,
                action: r.1@,
            }),
    {
        let (phase, action) = match (platform, mode) {
            (Platform::Unix, RestartMode::Service) => {
                let args = strings(
                    &[
                        "/usr/bin/systemd-run",
                        "--on-active=2",
                        "--timer-property=AccuracySec=1s",
                        "/usr/bin/systemctl",
                        "restart",
                        "xjp-deploy-agent.service",
                    ],
                );
                assert(chars::views(args@) =~= seq![
                    "/usr/bin/systemd-run"@,
                    "--on-active=2"@,
                    "--timer-property=AccuracySec=1s"@,
                    "/usr/bin/systemctl"@,
                    "restart"@,
                    "xjp-deploy-agent.service"@,
                ]);
                (RestartPhase::Systemd, run("sudo", args))
            },
            (Platform::Unix, RestartMode::Console(binary)) => (
                RestartPhase::Exec,
                RestartAction::Exec { program: binary },
            ),
            (Platform::Windows, RestartMode::Service) => {
                let args = strings(
                    &[
                        "failure",
                        "xjp-deploy-agent",
                        "reset=",
                        "0",
                        "actions=",
                        "restart/3000/restart/5000/restart/10000",
                    ],
                );
                assert(chars::views(args@) =~= seq![
                    "failure"@,
                    "xjp-deploy-agent"@,
                    "reset="@,
                    "0"@,
                    "actions="@,
                    "restart/3000/restart/5000/restart/10000"@,
                ]);
                (RestartPhase::Recovery, run("sc", args))
            },
            (Platform::Windows, RestartMode::Console(binary)) => {
                let text = concat5(
                    UPDATE_SCRIPT_HEAD,
                    work_dir,
                    UPDATE_SCRIPT_MIDDLE,
                    binary.as_str(),
                    UPDATE_SCRIPT_TAIL,
                );
                (
                    RestartPhase::Script { console: true },
                    RestartAction::WriteScript { name: UPDATE_SCRIPT_NAME.to_owned(), text },
                )
            },
            (Platform::Other, _) => (
                RestartPhase::Over,
                RestartAction::Done(Err(RestartError::Unsupported)),
            ),
        };
        (RestartManager { time, date, phase }, action)
    }

    fn over(&mut self, outcome: Result<(), RestartError>) -> (r: RestartAction)
        ensures
            final(self)@ == (RestartView { phase: RestartPhaseView::Over, ..old(self)@ }),
            r@ == RestartActionView::Done(
                match outcome {
                    Ok(_) => Ok(()),
                    Err(e) => Err(e.text()),
                },
            ),
    {
        self.phase = RestartPhase::Over;
        RestartAction::Done(outcome)
    }

    fn delete_task(&mut self) -> (r: RestartAction)
        ensures
            final(self)@ == (RestartView { phase: RestartPhaseView::DeleteTask, ..old(self)@ }),
            r@ == (RestartActionView::Run {
                program: "schtasks"@,
                args: seq!["/Delete"@, "/TN"@, TASK_NAME@, "/F"@],
            }),
    {
        self.phase = RestartPhase::DeleteTask;
        let args = strings(&["/Delete", "/TN", TASK_NAME, "/F"]);
        assert(chars::views(args@) =~= seq!["/Delete"@, "/TN"@, TASK_NAME@, "/F"@]);
        run("schtasks", args)
    }

    fn create_task(&mut self) -> (r: RestartAction)
        ensures
            final(self)@ == (RestartView { phase: RestartPhaseView::CreateTask, ..old(self)@ }),
            r@ == (RestartActionView::Run {
                program: "schtasks"@,
                args: seq![
                    "/Create"@,
                    "/TN"@,
                    TASK_NAME@,
                    "/TR"@,
                    TASK_COMMAND@,
                    "/SC"@,
                    "ONCE"@,
                    "/ST"@,
                    old(self)@.time,
                    "/SD"@,
                    old(self)@.date,
                    "/RU"@,
                    "SYSTEM"@,
                    "/RL"@,
                    "HIGHEST"@,
                    "/F"@,
                ],
            }),
    {
        self.phase = RestartPhase::CreateTask;
        let args = strings(
            &[
                "/Create",
                "/TN",
                TASK_NAME,
                "/TR",
                TASK_COMMAND,
                "/SC",
                "ONCE",
                "/ST",
                self.time.as_str(),
                "/SD",
                self.date.as_str(),
                "/RU",
                "SYSTEM",
                "/RL",
                "HIGHEST",
                "/F",
            ],
        );
        assert(chars::views(args@) =~= seq![
            "/Create"@,
            "/TN"@,
            TASK_NAME@,
            "/TR"@,
            TASK_COMMAND@,
            "/SC"@,
            "ONCE"@,
            "/ST"@,
            self@.time,
            "/SD"@,
            self@.date,
            "/RU"@,
            "SYSTEM"@,
            "/RL"@,
            "HIGHEST"@,
            "/F"@,
        ]);
        run("schtasks", args)
    }

    fn detach(&mut self, console: bool, path: String) -> (r: RestartAction)
        ensures
            final(self)@ == (RestartView {
                phase: RestartPhaseView::Detached { console, path: path@ },
                ..old(self)@
            }),
            r@ == (RestartActionView::Run {
                program: "wmic"@,
                args: seq!["process"@, "call"@, "create"@, "cmd /c \""@ + path@ + "\""@],
            }),
    {
        let line = concat3("cmd /c \"", path.as_str(), "\"");
        let args = strings(&["process", "call", "create", line.as_str()]);
        assert(chars::views(args@) =~= seq!["process"@, "call"@, "create"@, line@]);
        self.phase = RestartPhase::Detached { console, path };
        run("wmic", args)
    }

    fn start_script(&mut self, console: bool, path: &str) -> (r: RestartAction)
        ensures
            final(self)@ == (RestartView {
                phase: RestartPhaseView::Started { console },
                ..old(self)@
            }),
            r@ == (RestartActionView::Spawn {
                program: "cmd"@,
                args: if console {
                    seq!["/C"@, "start"@, ""@, path@]
                } else {
                    seq!["/C"@, "start"@, "/B"@, ""@, path@]
                },
            }),
    {
        self.phase = RestartPhase::Started { console };
        let args = if console {
            let args = strings(&["/C", "start", "", path]);
            assert(chars::views(args@) =~= seq!["/C"@, "start"@, ""@, path@]);
            args
        } else {
            let args = strings(&["/C", "start", "/B", "", path]);
            assert(chars::views(args@) =~= seq!["/C"@, "start"@, "/B"@, ""@, path@]);
            args
        };
        RestartAction::Spawn { program: "cmd".to_owned(), args }
    }

    /// Takes what became of the last action, and gives the next one.
    pub fn on_event(&mut self, event: RestartEvent) -> (r: RestartAction)
        ensures
            final(self)@.time == old(self)@.time,
            final(self)@.date == old(self)@.date,
            old(self)@.step(event@) == (RestartStep { phase: final(self)@.phase, action: r@ }),
    {
        let mut phase = RestartPhase::Over;
        std::mem::swap(&mut phase, &mut self.phase);
        let succeeded = match &event {
            RestartEvent::Ran { success, .. } => *success,
            _ => false,
        };
        match phase {
            RestartPhase::Systemd => match event {
                RestartEvent::Ran { success, stderr } => {
                    if success {
                        self.over(Ok(()))
                    } else {
                        self.over(Err(RestartError::CommandFailed(stderr)))
                    }
                },
                RestartEvent::Failed(e) => self.over(Err(RestartError::Io(e))),
                _ => {
                    proof {
                        reveal_strlit("");
                        assert(""@ =~= Seq::<char>::empty());
                    }
                    self.over(Err(RestartError::CommandFailed("".to_owned())))
                },
            },
            RestartPhase::Exec => match event {
                RestartEvent::Failed(e) => {
                    self.over(
                        Err(RestartError::CommandFailed(concat2("exec failed: ", e.as_str()))),
                    )
                },
                _ => {
                    proof {
                        reveal_strlit("");
                        assert(""@ =~= Seq::<char>::empty());
                    }
                    self.over(Err(RestartError::CommandFailed("".to_owned())))
                },
            },
            RestartPhase::Recovery => {
                if succeeded {
                    self.over(Ok(()))
                } else {
                    self.delete_task()
                }
            },
            RestartPhase::DeleteTask => self.create_task(),
            RestartPhase::CreateTask => match event {
                RestartEvent::Failed(e) => self.over(Err(RestartError::Io(e))),
                _ => {
                    if succeeded {
                        self.over(Ok(()))
                    } else {
                        self.phase = RestartPhase::Script { console: false };
                        RestartAction::WriteScript {
                            name: RESTART_SCRIPT_NAME.to_owned(),
                            text: RESTART_SCRIPT.to_owned(),
                        }
                    }
                },
            },
            RestartPhase::Script { console } => match event {
                RestartEvent::Written { path } => self.detach(console, path),
                RestartEvent::Failed(e) => self.over(Err(RestartError::Io(e))),
                _ => {
                    proof {
                        reveal_strlit("");
                        assert(""@ =~= Seq::<char>::empty());
                    }
                    self.over(Err(RestartError::Io("".to_owned())))
                },
            },
            RestartPhase::Detached { console, path } => {
                if succeeded {
                    self.over(Ok(()))
                } else {
                    self.start_script(console, path.as_str())
                }
            },
            RestartPhase::Started { console } => match event {
                RestartEvent::Failed(e) => {
                    if console {
                        self.over(Err(RestartError::Io(e)))
                    } else {
                        self.over(Err(RestartError::CommandFailed(e)))
                    }
                },
                _ => self.over(Ok(())),
            },
            RestartPhase::Over => self.over(Ok(())),
        }
    }
}

/// How far a restart is from its end.
pub open spec fn steps_left(phase: RestartPhaseView) -> nat {
    match phase {
        RestartPhaseView::Recovery => 6,
        RestartPhaseView::DeleteTask => 5,
        RestartPhaseView::CreateTask => 4,
        RestartPhaseView::Script { .. } => 3,
        RestartPhaseView::Detached { .. } => 2,
        RestartPhaseView::Started { .. } => 1,
        RestartPhaseView::Systemd => 1,
        RestartPhaseView::Exec => 1,
        RestartPhaseView::Over => 0,
    }
}

/// A restart comes to its end: each event brings it nearer, and at the end it
/// tells how it went.
pub proof fn restart_ends(state: RestartView, event: RestartEventView)
    requires
        !(state.phase is Over),
    ensures
        steps_left(state.step(event).phase) < steps_left(state.phase),
        state.step(event).phase is Over <==> state.step(event).action is Done,
{
}

} // verus!
