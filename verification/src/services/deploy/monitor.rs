//! The watch over the new container after it has gone live.

use vstd::prelude::*;

use crate::services::deploy::action;
use crate::services::deploy::action::{Actions, ProcessOutput};
use crate::services::deploy::canary;
use crate::services::deploy::canary::{elapsed, log_lines, part_or, ComposeCommand};
use crate::services::deploy::fatal;
use crate::services::deploy::fatal::find_pattern;
use crate::text::case;
use crate::text::case::to_lowercase;
use crate::text::chars;
use crate::text::chars::{concat2, concat3, concat5, str_eq, strings};
use crate::text::edit;
use crate::text::edit::trim_start_char;
use crate::text::number;
use crate::text::number::{decimal, parse_i32, parse_u32, signed_decimal};
use crate::text::search;
use crate::text::search::contains;
use crate::text::split;
use crate::text::split::{split, trim};

verus! {

/// Seconds that the container is watched for.
pub const POST_DEPLOY_MONITOR_SECONDS: u64 = 90;

/// Milliseconds between two looks.
pub const MONITOR_INTERVAL_MS: u64 = 5000;

/// Restarts that make a crash loop.
pub const MAX_RESTARTS_BEFORE_ALERT: u32 = 2;

/// The state of a container.
#[derive(Debug)]
pub enum ContainerState {
    Running { restart_count: u32, health_status: String },
    Exited { exit_code: i32 },
    NotFound,
    Unknown(String),
}

/// The contents of a `ContainerState`.
pub ghost enum StateView {
    Running { restart_count: u32, health_status: Seq<char> },
    Exited { exit_code: i32 },
    NotFound,
    Unknown(Seq<char>),
}

impl View for ContainerState {
    type V = StateView;

    open spec fn view(&self) -> StateView {
        match *self {
            ContainerState::Running { restart_count, health_status } => StateView::Running {
                restart_count,
                health_status: health_status@,
            },
            ContainerState::Exited { exit_code } => StateView::Exited { exit_code },
            ContainerState::NotFound => StateView::NotFound,
            ContainerState::Unknown(s) => StateView::Unknown(s@),
        }
    }
}

/// The number that a field writes, or 0.
pub open spec fn count_of(parts: Seq<Seq<char>>, i: int) -> u32 {
    if i < parts.len() {
        match number::parse_spec(parts[i], u32::MAX as int) {
            Some(n) => n as u32,
            None => 0,
        }
    } else {
        0
    }
}

/// The signed number that a field writes, or 0.
pub open spec fn code_of(parts: Seq<Seq<char>>, i: int) -> i32 {
    if i < parts.len() {
        match number::parse_i32_spec(parts[i]) {
            Some(n) => n as i32,
            None => 0,
        }
    } else {
        0
    }
}

/// The state that the answer of docker describes.
pub open spec fn state_of(r: Result<action::OutputView, Seq<char>>) -> StateView {
    match r {
        Err(_) => StateView::NotFound,
        Ok(o) => if o.success() {
            let parts = split::split_spec(split::trim_spec(o.stdout), '|');
            let status = canary::field_or(parts, 0, "unknown"@);
            if status == "running"@ {
                StateView::Running {
                    restart_count: count_of(parts, 2),
                    health_status: canary::field_or(parts, 1, "none"@),
                }
            } else if status == "exited"@ || status == "dead"@ {
                StateView::Exited { exit_code: code_of(parts, 3) }
            } else {
                StateView::Unknown(status)
            }
        } else if search::has_substring(o.stderr, "No such object"@) {
            StateView::NotFound
        } else {
            StateView::Unknown(o.stderr)
        },
    }
}

/// Reads the state of a container.
pub fn get_container_state(result: &Result<ProcessOutput, String>) -> (r: ContainerState)
    ensures
        r@ == state_of(action::result_view(*result)),
{
    let o = match result {
        Err(_) => {
            return ContainerState::NotFound;
        },
        Ok(o) => o,
    };
    if !o.is_success() {
        if contains(o.stderr.as_str(), "No such object") {
            return ContainerState::NotFound;
        }
        return ContainerState::Unknown(o.stderr.clone());
    }
    let parts = split(trim(o.stdout.as_str()).as_str(), '|');
    let status = part_or(&parts, 0, "unknown");
    if str_eq(status.as_str(), "running") {
        let mut restart_count: u32 = 0;
        if parts.len() > 2 {
            assert(parts@[2]@ == chars::views(parts@)[2]);
            if let Some(n) = parse_u32(parts[2].as_str()) {
                restart_count = n;
            }
        }
        ContainerState::Running { restart_count, health_status: part_or(&parts, 1, "none") }
    } else if str_eq(status.as_str(), "exited") || str_eq(status.as_str(), "dead") {
        let mut exit_code: i32 = 0;
        if parts.len() > 3 {
            assert(parts@[3]@ == chars::views(parts@)[3]);
            if let Some(n) = parse_i32(parts[3].as_str()) {
                exit_code = n;
            }
        }
        ContainerState::Exited { exit_code }
    } else {
        ContainerState::Unknown(status)
    }
}

/// How far the watch has come.
#[derive(Clone, Copy, Debug, PartialEq, Eq, Structural)]
pub enum MonitorPhase {
    /// Asking compose for the container.
    FindId,
    /// Asking docker for its name.
    FindName,
    /// Looking at its state.
    State,
    /// Reading its log; the restart count at the last look.
    Logs { restart_count: u32 },
    /// Showing the log of the container that has exited.
    ExitLogs { exit_code: i32 },
    /// Waiting before the next look.
    Waiting,
    /// The watch is over.
    Ended,
}

/// The watch over one container.
#[derive(Debug)]
pub struct PostDeployMonitor {
    pub compose: ComposeCommand,
    pub compose_path: String,
    pub work_dir: String,
    pub service_name: String,
    /// Name of the container.
    pub container: String,
    /// The clock when the watch began.
    pub since: u64,
    /// The restart count at the first look.
    pub initial_restarts: Option<u32>,
    /// The length of the log at the last look.
    pub log_len: u64,
    pub phase: MonitorPhase,
}

/// The contents of a `PostDeployMonitor`.
pub ghost struct MonitorView {
    pub compose: ComposeCommand,
    pub compose_path: Seq<char>,
    pub work_dir: Seq<char>,
    pub service_name: Seq<char>,
    pub container: Seq<char>,
    pub since: u64,
    pub initial_restarts: Option<u32>,
    pub log_len: u64,
    pub phase: MonitorPhase,
}

impl View for PostDeployMonitor {
    type V = MonitorView;

    open spec fn view(&self) -> MonitorView {
        MonitorView {
            compose: self.compose,
            compose_path: self.compose_path@,
            work_dir: self.work_dir@,
            service_name: self.service_name@,
            container: self.container@,
            since: self.since,
            initial_restarts: self.initial_restarts,
            log_len: self.log_len,
            phase: self.phase,
        }
    }
}

/// What a step of the watch leads to.
pub ghost struct MonitorStepView {
    pub state: MonitorView,
    pub actions: Seq<action::ActionView>,
    pub verdict: Option<Result<(), Seq<char>>>,
}

/// How the watch ended, where a step ended it.
#[derive(Debug)]
pub struct MonitorStep {
    pub verdict: Option<Result<(), String>>,
}

/// The restarts since the first look. A container that was made anew counts
/// from zero again.
pub open spec fn restarts_since(initial: u32, now: u32) -> u32 {
    if now >= initial {
        (now - initial) as u32
    } else {
        0
    }
}

/// An issue that is logged and reported.
pub open spec fn issue(
    acts: Seq<action::ActionView>,
    text: Seq<char>,
    restart_count: u32,
) -> Seq<action::ActionView> {
    acts.push(action::err("[POST-DEPLOY ISSUE] "@ + text)).push(
        action::ActionView::Report {
            text: "[POST-DEPLOY ALERT] "@ + text + " (restarts: "@ + number::decimal_spec(
                restart_count as nat,
            ) + ")"@,
        },
    )
}

/// Logs and reports an issue.
fn report_post_deploy_issue(acts: &mut Actions, text: &str, restart_count: u32)
    ensures
        final(acts)@ == issue(old(acts)@, text@, restart_count),
{
    acts.err(concat2("[POST-DEPLOY ISSUE] ", text).as_str());
    acts.report(
        concat5(
            "[POST-DEPLOY ALERT] ",
            text,
            " (restarts: ",
            decimal(restart_count as u64).as_str(),
            ")",
        ).as_str(),
    );
}

/// The number of bytes of a text.
pub open spec fn utf8_len(s: Seq<char>) -> u64 {
    (vstd::utf8::encode_utf8(s).len() as usize) as u64
}

/// The lower-case text of both outputs.
pub open spec fn combined_log(o: action::OutputView) -> Seq<char> {
    case::lowercase_of(o.stdout) + case::lowercase_of(o.stderr)
}

impl MonitorView {
    /// The same watch in another phase.
    pub open spec fn at(self, phase: MonitorPhase) -> MonitorView {
        MonitorView { phase, ..self }
    }

    /// A step that asks for more.
    pub open spec fn go(
        self,
        phase: MonitorPhase,
        actions: Seq<action::ActionView>,
    ) -> MonitorStepView {
        MonitorStepView { state: self.at(phase), actions, verdict: None }
    }

    /// A step that ends the watch.
    pub open spec fn end(
        self,
        actions: Seq<action::ActionView>,
        verdict: Result<(), Seq<char>>,
    ) -> MonitorStepView {
        MonitorStepView { state: self.at(MonitorPhase::Ended), actions, verdict: Some(verdict) }
    }

    /// Looks at the state, unless the time is over.
    pub open spec fn look(self, acts: Seq<action::ActionView>, clock: u64) -> MonitorStepView {
        if canary::elapsed_spec(self.since, clock) < POST_DEPLOY_MONITOR_SECONDS * 1_000_000_000 {
            self.go(
                MonitorPhase::State,
                acts.push(
                    action::run(
                        "docker"@,
                        seq![
                            "inspect"@,
                            "--format"@,
                            "{{.State.Status}}|{{.State.Health.Status}}|{{.RestartCount}}|{{.State.ExitCode}}"@,
                            self.container,
                        ],
                    ),
                ),
            )
        } else {
            self.end(acts, Ok(()))
        }
    }

    /// The name of the container is known.
    pub open spec fn named(self, name: Seq<char>, clock: u64) -> MonitorStepView {
        (MonitorView { container: name, ..self }).look(
            Seq::<action::ActionView>::empty().push(action::out("Monitoring container: "@ + name)),
            clock,
        )
    }

    /// Waits before the next look, and tells the progress every half minute.
    pub open spec fn pause(self, acts: Seq<action::ActionView>, clock: u64) -> MonitorStepView {
        let secs = canary::elapsed_spec(self.since, clock) / 1_000_000_000;
        let told = if secs % 30 == 0 && secs > 0 {
            acts.push(
                action::out(
                    "... monitoring: "@ + number::decimal_spec(secs as nat) + "s / "@
                        + number::decimal_spec(POST_DEPLOY_MONITOR_SECONDS as nat) + "s"@,
                ),
            )
        } else {
            acts
        };
        self.go(
            MonitorPhase::Waiting,
            told.push(action::ActionView::Sleep { millis: MONITOR_INTERVAL_MS }),
        )
    }

    /// The container runs.
    pub open spec fn saw_running(
        self,
        restart_count: u32,
        health: Seq<char>,
    ) -> MonitorStepView {
        let none = Seq::<action::ActionView>::empty();
        let initial = match self.initial_restarts {
            Some(n) => n,
            None => restart_count,
        };
        let s = MonitorView { initial_restarts: Some(initial), ..self };
        let n = restarts_since(initial, restart_count);
        let count = number::decimal_spec(n as nat);
        let told = if n > 0 {
            issue(
                none.push(
                    action::err(
                        "⚠ Container has restarted "@ + count + " time(s) since deployment!"@,
                    ),
                ),
                "Container restarted "@ + count + " times"@,
                restart_count,
            )
        } else {
            none
        };
        if n >= MAX_RESTARTS_BEFORE_ALERT {
            s.end(
                told,
                Err("Container in crash loop: "@ + count + " restarts since deployment"@),
            )
        } else {
            let health_told = if health == "unhealthy"@ {
                issue(
                    told.push(action::err("⚠ Container health check is failing!"@)),
                    "Container unhealthy"@,
                    restart_count,
                )
            } else {
                told
            };
            s.go(
                MonitorPhase::Logs { restart_count },
                health_told.push(
                    action::run("docker"@, seq!["logs"@, "--tail"@, "20"@, self.container]),
                ),
            )
        }
    }

    /// The state of the container came back.
    pub open spec fn looked(self, state: StateView, clock: u64) -> MonitorStepView {
        let none = Seq::<action::ActionView>::empty();
        match state {
            StateView::Running { restart_count, health_status } => self.saw_running(
                restart_count,
                health_status,
            ),
            StateView::Exited { exit_code } => self.go(
                MonitorPhase::ExitLogs { exit_code },
                none.push(
                    action::err(
                        "✗ Container exited with code "@ + number::signed_decimal_spec(
                            exit_code as int,
                        ),
                    ),
                ).push(
                    action::out(
                        ">>> docker logs "@ + self.container + " (last "@ + number::decimal_spec(50)
                            + " lines)"@,
                    ),
                ).push(
                    action::run(
                        "docker"@,
                        seq!["logs"@, "--tail"@, number::decimal_spec(50), self.container],
                    ),
                ),
            ),
            StateView::NotFound => self.end(
                none.push(action::err("✗ Container not found!"@)),
                Err("Container no longer exists"@),
            ),
            StateView::Unknown(status) => self.pause(
                none.push(action::err("⚠ Unknown container status: "@ + status)),
                clock,
            ),
        }
    }

    /// The log came back: where it has grown, a fatal pattern in it is an
    /// issue.
    pub open spec fn read_log(
        self,
        restart_count: u32,
        r: Result<action::OutputView, Seq<char>>,
        clock: u64,
    ) -> MonitorStepView {
        let none = Seq::<action::ActionView>::empty();
        match r {
            Err(_) => self.pause(none, clock),
            Ok(o) => {
                let text = combined_log(o);
                if utf8_len(text) > self.log_len {
                    let s = MonitorView { log_len: utf8_len(text), ..self };
                    match fatal::first_pattern(text) {
                        Some(p) => s.pause(
                            issue(
                                none.push(
                                    action::err("⚠ Fatal pattern detected in logs: "@ + p),
                                ),
                                "Fatal error: "@ + p,
                                restart_count,
                            ),
                            clock,
                        ),
                        None => s.pause(none, clock),
                    }
                } else {
                    self.pause(none, clock)
                }
            },
        }
    }

    /// The outcome of a command came back.
    #[verifier::opaque]
    pub open spec fn on_output_spec(
        self,
        r: Result<action::OutputView, Seq<char>>,
        clock: u64,
    ) -> MonitorStepView {
        let none = Seq::<action::ActionView>::empty();
        match self.phase {
            MonitorPhase::FindId => match r {
                Ok(o) => if o.success() && split::trim_spec(o.stdout).len() > 0 {
                    self.go(
                        MonitorPhase::FindName,
                        none.push(
                            action::run(
                                "docker"@,
                                seq![
                                    "inspect"@,
                                    "--format"@,
                                    "{{.Name}}"@,
                                    split::trim_spec(o.stdout),
                                ],
                            ),
                        ),
                    )
                } else {
                    self.named(self.service_name, clock)
                },
                Err(_) => self.named(self.service_name, clock),
            },
            MonitorPhase::FindName => match r {
                Ok(o) => if o.success() {
                    self.named(
                        edit::trim_start_char_spec(split::trim_spec(o.stdout), '/'),
                        clock,
                    )
                } else {
                    self.named(self.service_name, clock)
                },
                Err(_) => self.named(self.service_name, clock),
            },
            MonitorPhase::State => self.looked(state_of(r), clock),
            MonitorPhase::Logs { restart_count } => self.read_log(restart_count, r, clock),
            MonitorPhase::ExitLogs { exit_code } => {
                let code = number::signed_decimal_spec(exit_code as int);
                self.end(
                    issue(
                        canary::CanaryView::log_lines(r),
                        "Container exited (code "@ + code + ")"@,
                        0,
                    ),
                    Err("Container exited with code "@ + code),
                )
            },
            _ => MonitorStepView { state: self, actions: none, verdict: None },
        }
    }

    /// The pause is over.
    #[verifier::opaque]
    pub open spec fn on_wake_spec(self, clock: u64) -> MonitorStepView {
        let none = Seq::<action::ActionView>::empty();
        match self.phase {
            MonitorPhase::Waiting => self.look(none, clock),
            _ => MonitorStepView { state: self, actions: none, verdict: None },
        }
    }

    /// The watch begins.
    pub open spec fn begin_spec(self, clock: u64) -> MonitorStepView {
        (MonitorView { since: clock, ..self }).go(
            MonitorPhase::FindId,
            Seq::<action::ActionView>::empty().push(
                action::run_in(
                    self.compose.program_spec(),
                    self.compose.prefix() + seq![
                        "-f"@,
                        self.compose_path,
                        "ps"@,
                        "-q"@,
                        self.service_name,
                    ],
                    self.work_dir,
                ),
            ),
        )
    }
}

impl PostDeployMonitor {
    fn look(&mut self, acts: &mut Actions, clock: u64) -> (r: MonitorStep)
        ensures
            old(self)@.look(old(acts)@, clock) == (MonitorStepView {
                state: final(self)@,
                actions: final(acts)@,
                verdict: canary::verdict_view(r.verdict),
            }),
    {
        if elapsed(self.since, clock) < POST_DEPLOY_MONITOR_SECONDS * 1_000_000_000 {
            let args = strings(
                &[
                    "inspect",
                    "--format",
                    "{{.State.Status}}|{{.State.Health.Status}}|{{.RestartCount}}|{{.State.ExitCode}}",
                    self.container.as_str(),
                ],
            );
            assert(chars::views(args@) =~= seq![
                "inspect"@,
                "--format"@,
                "{{.State.Status}}|{{.State.Health.Status}}|{{.RestartCount}}|{{.State.ExitCode}}"@,
                self@.container,
            ]);
            acts.run("docker", args);
            self.phase = MonitorPhase::State;
            MonitorStep { verdict: None }
        } else {
            self.phase = MonitorPhase::Ended;
            MonitorStep { verdict: Some(Ok(())) }
        }
    }

    fn named(&mut self, acts: &mut Actions, name: String, clock: u64) -> (r: MonitorStep)
        requires
            old(acts)@ == Seq::<action::ActionView>::empty(),
        ensures
            old(self)@.named(name@, clock) == (MonitorStepView {
                state: final(self)@,
                actions: final(acts)@,
                verdict: canary::verdict_view(r.verdict),
            }),
    {
        acts.out(concat2("Monitoring container: ", name.as_str()).as_str());
        self.container = name;
        self.look(acts, clock)
    }

    fn pause(&mut self, acts: &mut Actions, clock: u64) -> (r: MonitorStep)
        ensures
            old(self)@.pause(old(acts)@, clock) == (MonitorStepView {
                state: final(self)@,
                actions: final(acts)@,
                verdict: canary::verdict_view(r.verdict),
            }),
    {
        let secs = elapsed(self.since, clock) / 1_000_000_000;
        if secs % 30 == 0 && secs > 0 {
            acts.out(
                concat5(
                    "... monitoring: ",
                    decimal(secs).as_str(),
                    "s / ",
                    decimal(POST_DEPLOY_MONITOR_SECONDS).as_str(),
                    "s",
                ).as_str(),
            );
        }
        acts.sleep(MONITOR_INTERVAL_MS);
        self.phase = MonitorPhase::Waiting;
        MonitorStep { verdict: None }
    }

    fn saw_running(&mut self, acts: &mut Actions, restart_count: u32, health: &str) -> (r:
        MonitorStep)
        requires
            old(acts)@ == Seq::<action::ActionView>::empty(),
        ensures
            old(self)@.saw_running(restart_count, health@) == (MonitorStepView {
                state: final(self)@,
                actions: final(acts)@,
                verdict: canary::verdict_view(r.verdict),
            }),
    {
        let initial: u32 = match self.initial_restarts {
            Some(n) => n,
            None => restart_count,
        };
        self.initial_restarts = Some(initial);
        let n: u32 = if restart_count >= initial {
            restart_count - initial
        } else {
            0
        };
        let count = decimal(n as u64);
        if n > 0 {
            acts.err(
                concat3(
                    "⚠ Container has restarted ",
                    count.as_str(),
                    " time(s) since deployment!",
                ).as_str(),
            );
            report_post_deploy_issue(
                acts,
                concat3("Container restarted ", count.as_str(), " times").as_str(),
                restart_count,
            );
        }
        if n >= MAX_RESTARTS_BEFORE_ALERT {
            self.phase = MonitorPhase::Ended;
            let error = concat3(
                "Container in crash loop: ",
                count.as_str(),
                " restarts since deployment",
            );
            return MonitorStep { verdict: Some(Err(error)) };
        }
        if str_eq(health, "unhealthy") {
            acts.err("⚠ Container health check is failing!");
            report_post_deploy_issue(acts, "Container unhealthy", restart_count);
        }
        let args = strings(&["logs", "--tail", "20", self.container.as_str()]);
        assert(chars::views(args@) =~= seq!["logs"@, "--tail"@, "20"@, self@.container]);
        acts.run("docker", args);
        self.phase = MonitorPhase::Logs { restart_count };
        MonitorStep { verdict: None }
    }

    fn looked(&mut self, acts: &mut Actions, state: ContainerState, clock: u64) -> (r: MonitorStep)
        requires
            old(acts)@ == Seq::<action::ActionView>::empty(),
        ensures
            old(self)@.looked(state@, clock) == (MonitorStepView {
                state: final(self)@,
                actions: final(acts)@,
                verdict: canary::verdict_view(r.verdict),
            }),
    {
        match state {
            ContainerState::Running { restart_count, health_status } => self.saw_running(
                acts,
                restart_count,
                health_status.as_str(),
            ),
            ContainerState::Exited { exit_code } => {
                let code = signed_decimal(exit_code as i64);
                acts.err(concat2("✗ Container exited with code ", code.as_str()).as_str());
                let n = decimal(50);
                acts.out(
                    concat5(
                        ">>> docker logs ",
                        self.container.as_str(),
                        " (last ",
                        n.as_str(),
                        " lines)",
                    ).as_str(),
                );
                let args = strings(&["logs", "--tail", n.as_str(), self.container.as_str()]);
                assert(chars::views(args@) =~= seq!["logs"@, "--tail"@, n@, self@.container]);
                acts.run("docker", args);
                self.phase = MonitorPhase::ExitLogs { exit_code };
                MonitorStep { verdict: None }
            },
            ContainerState::NotFound => {
                acts.err("✗ Container not found!");
                self.phase = MonitorPhase::Ended;
                MonitorStep { verdict: Some(Err("Container no longer exists".to_owned())) }
            },
            ContainerState::Unknown(status) => {
                acts.err(concat2("⚠ Unknown container status: ", status.as_str()).as_str());
                self.pause(acts, clock)
            },
        }
    }

    fn read_log(
        &mut self,
        acts: &mut Actions,
        restart_count: u32,
        result: Result<ProcessOutput, String>,
        clock: u64,
    ) -> (r: MonitorStep)
        requires
            old(acts)@ == Seq::<action::ActionView>::empty(),
        ensures
            old(self)@.read_log(restart_count, action::result_view(result), clock) == (
            MonitorStepView {
                state: final(self)@,
                actions: final(acts)@,
                verdict: canary::verdict_view(r.verdict),
            }),
    {
        if let Ok(o) = result {
            let text = concat2(
                to_lowercase(o.stdout.as_str()).as_str(),
                to_lowercase(o.stderr.as_str()).as_str(),
            );
            let len = text.as_str().len() as u64;
            assert(len == utf8_len(combined_log(o@)));
            if len > self.log_len {
                self.log_len = len;
                if let Some(p) = find_pattern(text.as_str()) {
                    acts.err(concat2("⚠ Fatal pattern detected in logs: ", p.as_str()).as_str());
                    report_post_deploy_issue(
                        acts,
                        concat2("Fatal error: ", p.as_str()).as_str(),
                        restart_count,
                    );
                }
            }
        }
        self.pause(acts, clock)
    }

    /// Begins the watch.
    pub fn begin(&mut self, acts: &mut Actions, clock: u64)
        requires
            old(acts)@ == Seq::<action::ActionView>::empty(),
        ensures
            old(self)@.begin_spec(clock) == (MonitorStepView {
                state: final(self)@,
                actions: final(acts)@,
                verdict: None,
            }),
    {
        self.since = clock;
        let rest = strings(
            &["-f", self.compose_path.as_str(), "ps", "-q", self.service_name.as_str()],
        );
        assert(chars::views(rest@) =~= seq![
            "-f"@,
            self@.compose_path,
            "ps"@,
            "-q"@,
            self@.service_name,
        ]);
        let args = self.compose.args(rest);
        acts.run_in(self.compose.program(), args, self.work_dir.as_str());
        self.phase = MonitorPhase::FindId;
    }

    /// Takes the outcome of the command that the watch waits for.
    pub fn on_output(
        &mut self,
        acts: &mut Actions,
        result: Result<ProcessOutput, String>,
        clock: u64,
    ) -> (r: MonitorStep)
        requires
            old(acts)@ == Seq::<action::ActionView>::empty(),
        ensures
            old(self)@.on_output_spec(action::result_view(result), clock) == (MonitorStepView {
                state: final(self)@,
                actions: final(acts)@,
                verdict: canary::verdict_view(r.verdict),
            }),
    {
        reveal(MonitorView::on_output_spec);
        match self.phase {
            MonitorPhase::FindId => {
                if let Ok(o) = &result {
                    if o.is_success() {
                        let id = trim(o.stdout.as_str());
                        if !id.as_str().is_empty() {
                            let args = strings(
                                &["inspect", "--format", "{{.Name}}", id.as_str()],
                            );
                            assert(chars::views(args@) =~= seq![
                                "inspect"@,
                                "--format"@,
                                "{{.Name}}"@,
                                id@,
                            ]);
                            acts.run("docker", args);
                            self.phase = MonitorPhase::FindName;
                            return MonitorStep { verdict: None };
                        }
                    }
                }
                let name = self.service_name.clone();
                self.named(acts, name, clock)
            },
            MonitorPhase::FindName => {
                if let Ok(o) = &result {
                    if o.is_success() {
                        let name = trim_start_char(trim(o.stdout.as_str()).as_str(), '/');
                        return self.named(acts, name, clock);
                    }
                }
                let name = self.service_name.clone();
                self.named(acts, name, clock)
            },
            MonitorPhase::State => {
                let state = get_container_state(&result);
                self.looked(acts, state, clock)
            },
            MonitorPhase::Logs { restart_count } => self.read_log(
                acts,
                restart_count,
                result,
                clock,
            ),
            MonitorPhase::ExitLogs { exit_code } => {
                let code = signed_decimal(exit_code as i64);
                log_lines(acts, &result);
                assert(acts@ =~= canary::CanaryView::log_lines(action::result_view(result)));
                report_post_deploy_issue(
                    acts,
                    concat3("Container exited (code ", code.as_str(), ")").as_str(),
                    0,
                );
                self.phase = MonitorPhase::Ended;
                let error = concat2("Container exited with code ", code.as_str());
                MonitorStep { verdict: Some(Err(error)) }
            },
            _ => MonitorStep { verdict: None },
        }
    }

    /// Takes the end of the pause that the watch waits for.
    pub fn on_wake(&mut self, acts: &mut Actions, clock: u64) -> (r: MonitorStep)
        requires
            old(acts)@ == Seq::<action::ActionView>::empty(),
        ensures
            old(self)@.on_wake_spec(clock) == (MonitorStepView {
                state: final(self)@,
                actions: final(acts)@,
                verdict: canary::verdict_view(r.verdict),
            }),
    {
        reveal(MonitorView::on_wake_spec);
        match self.phase {
            MonitorPhase::Waiting => self.look(acts, clock),
            _ => MonitorStep { verdict: None },
        }
    }
}

} // verus!
