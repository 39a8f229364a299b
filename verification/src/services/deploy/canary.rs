//! The canary: a container of the new image that must prove healthy before
//! the old one is replaced.

use vstd::prelude::*;

use crate::services::deploy::action;
use crate::services::deploy::action::{Actions, ProcessOutput};
use crate::services::deploy::fatal;
use crate::services::deploy::fatal::check_log;
use crate::text::chars;
use crate::text::chars::{
    concat2, concat3, concat4, concat5, first_chars, last_chars, str_eq, strings,
};
use crate::text::duration;
use crate::text::duration::tenths;
use crate::text::number;
use crate::text::number::decimal;
use crate::text::search;
use crate::text::search::contains;
use crate::text::split;
use crate::text::split::{split, trim};

verus! {

/// Seconds that the canary has to become healthy.
pub const CANARY_MAX_WAIT_SECONDS: u64 = 60;

/// Milliseconds between two looks at its health.
pub const HEALTH_CHECK_INTERVAL_MS: u64 = 500;

/// Which compose command there is.
#[derive(Clone, Copy, Debug, PartialEq, Eq, Structural)]
pub enum ComposeCommand {
    /// `docker-compose`.
    Standalone,
    /// `docker compose`.
    Plugin,
}

impl ComposeCommand {
    /// The program.
    pub open spec fn program_spec(self) -> Seq<char> {
        match self {
            ComposeCommand::Standalone => "docker-compose"@,
            ComposeCommand::Plugin => "docker"@,
        }
    }

    /// The arguments that stand before all others.
    pub open spec fn prefix(self) -> Seq<Seq<char>> {
        match self {
            ComposeCommand::Standalone => seq![],
            ComposeCommand::Plugin => seq!["compose"@],
        }
    }

    /// The description in the log.
    pub open spec fn description(self) -> Seq<char> {
        match self {
            ComposeCommand::Standalone => "docker-compose []"@,
            ComposeCommand::Plugin => "docker [\"compose\"]"@,
        }
    }

    /// The program.
    pub fn program(&self) -> (r: &'static str)
        ensures
            r@ == self.program_spec(),
    {
        match self {
            ComposeCommand::Standalone => "docker-compose",
            ComposeCommand::Plugin => "docker",
        }
    }

    /// The description in the log.
    pub fn describe(&self) -> (r: &'static str)
        ensures
            r@ == self.description(),
    {
        match self {
            ComposeCommand::Standalone => "docker-compose []",
            ComposeCommand::Plugin => "docker [\"compose\"]",
        }
    }

    /// All arguments, where `rest` are those of the subcommand.
    pub fn args(&self, rest: Vec<String>) -> (r: Vec<String>)
        ensures
            chars::views(r@) == self.prefix() + chars::views(rest@),
    {
        let ghost wanted = self.prefix() + chars::views(rest@);
        match self {
            ComposeCommand::Standalone => {
                assert(chars::views(rest@) =~= wanted);
                rest
            },
            ComposeCommand::Plugin => {
                let mut r: Vec<String> = Vec::new();
                let mut tail = rest;
                r.push("compose".to_owned());
                r.append(&mut tail);
                assert(chars::views(r@) =~= wanted);
                r
            },
        }
    }
}

/// The name of the canary of a task: the prefix and the first eight characters
/// of the task's name.
pub open spec fn canary_name_spec(task_id: Seq<char>) -> Seq<char> {
    "deploy-canary-"@ + chars::first_chars_spec(task_id, 8)
}

/// The name of the canary of a task.
pub fn canary_container_name(task_id: &str) -> (r: String)
    ensures
        r@ == canary_name_spec(task_id@),
{
    concat2("deploy-canary-", first_chars(task_id, 8).as_str())
}

/// What comes after the canary has been removed.
#[derive(Debug)]
pub enum AfterClean {
    /// The canary is started.
    Start,
    /// The check has failed.
    Fail { error: String },
    /// The check has passed.
    Pass,
}

/// How far the check has come.
#[derive(Debug)]
pub enum CanaryPhase {
    /// Looking whether the canary container exists.
    CleanCheck { after: AfterClean },
    /// Removing the canary container.
    CleanRemove { after: AfterClean },
    /// Starting the canary.
    Starting,
    /// Looking at its health; the clock when the wait began.
    Inspecting { since: u64 },
    /// Waiting before the next look.
    Waiting { since: u64 },
    /// Reading why it is unhealthy.
    HealthLog,
    /// Showing its log before it is removed.
    ShowLogs { error: String },
    /// Asking it over HTTP.
    HttpCheck,
    /// Reading its log.
    FatalCheck,
    /// The check is over.
    Ended,
}

/// The check of one canary.
#[derive(Debug)]
pub struct CanaryCheck {
    /// Name of the container.
    pub name: String,
    pub compose: ComposeCommand,
    pub compose_path: String,
    pub work_dir: String,
    pub service: Option<String>,
    pub health_port: u16,
    pub phase: CanaryPhase,
}

/// The contents of an `AfterClean`.
pub ghost enum AfterView {
    Start,
    Fail { error: Seq<char> },
    Pass,
}

/// The contents of a `CanaryPhase`.
pub ghost enum PhaseView {
    CleanCheck { after: AfterView },
    CleanRemove { after: AfterView },
    Starting,
    Inspecting { since: u64 },
    Waiting { since: u64 },
    HealthLog,
    ShowLogs { error: Seq<char> },
    HttpCheck,
    FatalCheck,
    Ended,
}

/// The contents of a `CanaryCheck`.
pub ghost struct CanaryView {
    pub name: Seq<char>,
    pub compose: ComposeCommand,
    pub compose_path: Seq<char>,
    pub work_dir: Seq<char>,
    pub service: Option<Seq<char>>,
    pub health_port: u16,
    pub phase: PhaseView,
}

impl View for AfterClean {
    type V = AfterView;

    open spec fn view(&self) -> AfterView {
        match *self {
            AfterClean::Start => AfterView::Start,
            AfterClean::Fail { error } => AfterView::Fail { error: error@ },
            AfterClean::Pass => AfterView::Pass,
        }
    }
}

impl View for CanaryPhase {
    type V = PhaseView;

    open spec fn view(&self) -> PhaseView {
        match *self {
            CanaryPhase::CleanCheck { after } => PhaseView::CleanCheck { after: after@ },
            CanaryPhase::CleanRemove { after } => PhaseView::CleanRemove { after: after@ },
            CanaryPhase::Starting => PhaseView::Starting,
            CanaryPhase::Inspecting { since } => PhaseView::Inspecting { since },
            CanaryPhase::Waiting { since } => PhaseView::Waiting { since },
            CanaryPhase::HealthLog => PhaseView::HealthLog,
            CanaryPhase::ShowLogs { error } => PhaseView::ShowLogs { error: error@ },
            CanaryPhase::HttpCheck => PhaseView::HttpCheck,
            CanaryPhase::FatalCheck => PhaseView::FatalCheck,
            CanaryPhase::Ended => PhaseView::Ended,
        }
    }
}

impl View for CanaryCheck {
    type V = CanaryView;

    open spec fn view(&self) -> CanaryView {
        CanaryView {
            name: self.name@,
            compose: self.compose,
            compose_path: self.compose_path@,
            work_dir: self.work_dir@,
            service: chars::opt_view(self.service),
            health_port: self.health_port,
            phase: self.phase@,
        }
    }
}

/// How the check ended, where a step ended it.
#[derive(Debug)]
pub struct CanaryStep {
    pub verdict: Option<Result<(), String>>,
}

/// What a step of the check leads to.
pub ghost struct StepView {
    pub state: CanaryView,
    pub actions: Seq<action::ActionView>,
    pub verdict: Option<Result<(), Seq<char>>>,
}

/// The contents of a verdict.
pub open spec fn verdict_view(v: Option<Result<(), String>>) -> Option<Result<(), Seq<char>>> {
    match v {
        None => None,
        Some(Ok(())) => Some(Ok(())),
        Some(Err(e)) => Some(Err(e@)),
    }
}

/// The nanoseconds from `since` to `clock`.
pub open spec fn elapsed_spec(since: u64, clock: u64) -> u64 {
    if clock >= since {
        (clock - since) as u64
    } else {
        0
    }
}

/// The nanoseconds from `since` to `clock`.
pub fn elapsed(since: u64, clock: u64) -> (r: u64)
    ensures
        r == elapsed_spec(since, clock),
{
    if clock >= since {
        clock - since
    } else {
        0
    }
}

/// The field at index `i`, or a default.
pub open spec fn field_or(parts: Seq<Seq<char>>, i: int, default: Seq<char>) -> Seq<char> {
    if i < parts.len() {
        parts[i]
    } else {
        default
    }
}

/// The field at index `i`, or a default.
pub fn part_or(parts: &Vec<String>, i: usize, default: &str) -> (r: String)
    ensures
        r@ == field_or(chars::views(parts@), i as int, default@),
{
    if i < parts.len() {
        parts[i].clone()
    } else {
        default.to_owned()
    }
}

/// What the health log says: its last 200 characters, where there are more.
pub open spec fn health_log_text(r: Result<action::OutputView, Seq<char>>) -> Seq<char> {
    match r {
        Ok(o) => if o.success() {
            let logs = split::trim_spec(o.stdout);
            if logs.len() == 0 {
                "No health check logs available"@
            } else if logs.len() > 200 {
                "..."@ + chars::last_chars_spec(logs, 200)
            } else {
                logs
            }
        } else {
            "Failed to get health check logs"@
        },
        Err(_) => "Failed to get health check logs"@,
    }
}

/// What the health log says.
fn health_log(r: &Result<ProcessOutput, String>) -> (t: String)
    ensures
        t@ == health_log_text(action::result_view(*r)),
{
    match r {
        Ok(o) => if o.is_success() {
            let logs = trim(o.stdout.as_str());
            if logs.as_str().is_empty() {
                "No health check logs available".to_owned()
            } else {
                if logs.as_str().unicode_len() > 200 {
                    concat2("...", last_chars(logs.as_str(), 200).as_str())
                } else {
                    logs
                }
            }
        } else {
            "Failed to get health check logs".to_owned()
        },
        Err(_) => "Failed to get health check logs".to_owned(),
    }
}

impl CanaryView {
    /// The service that the canary stands for.
    pub open spec fn service_name(self) -> Seq<char> {
        match self.service {
            Some(s) => s,
            None => "xjp-backend"@,
        }
    }

    /// The ports that the canary publishes.
    pub open spec fn ports(self) -> Seq<char> {
        "19999:"@ + number::decimal_spec(self.health_port as nat)
    }

    /// The same check in another phase.
    pub open spec fn at(self, phase: PhaseView) -> CanaryView {
        CanaryView { phase, ..self }
    }

    /// A step that asks for more.
    pub open spec fn go(self, phase: PhaseView, actions: Seq<action::ActionView>) -> StepView {
        StepView { state: self.at(phase), actions, verdict: None }
    }

    /// A step that ends the check.
    pub open spec fn end(
        self,
        actions: Seq<action::ActionView>,
        verdict: Result<(), Seq<char>>,
    ) -> StepView {
        StepView { state: self.at(PhaseView::Ended), actions, verdict: Some(verdict) }
    }

    /// Looks whether the canary container exists.
    pub open spec fn clean(self, acts: Seq<action::ActionView>, after: AfterView) -> StepView {
        self.go(
            PhaseView::CleanCheck { after },
            acts.push(
                action::run(
                    "docker"@,
                    seq!["ps"@, "-a"@, "-q"@, "-f"@, "name=^"@ + self.name + "$"@],
                ),
            ),
        )
    }

    /// Starts the canary.
    pub open spec fn start(self, acts: Seq<action::ActionView>) -> StepView {
        self.go(
            PhaseView::Starting,
            acts.push(
                action::out(
                    ">>> "@ + self.compose.program_spec() + " -f "@ + self.compose_path
                        + " run -d --name "@ + self.name + " --no-deps -p "@ + self.ports() + " "@
                        + self.service_name(),
                ),
            ).push(
                action::run_in(
                    self.compose.program_spec(),
                    self.compose.prefix() + seq![
                        "-f"@,
                        self.compose_path,
                        "run"@,
                        "-d"@,
                        "--name"@,
                        self.name,
                        "--no-deps"@,
                        "-p"@,
                        self.ports(),
                        self.service_name(),
                    ],
                    self.work_dir,
                ),
            ),
        )
    }

    /// Goes on after the canary has been removed, or could not be.
    pub open spec fn cleaned(
        self,
        acts: Seq<action::ActionView>,
        after: AfterView,
        outcome: Result<(), Seq<char>>,
    ) -> StepView {
        match after {
            AfterView::Start => match outcome {
                Ok(()) => self.start(acts),
                Err(e) => self.start(
                    acts.push(
                        action::err("Warning: Failed to clean up existing canary: "@ + e),
                    ),
                ),
            },
            AfterView::Fail { error } => self.end(acts, Err(error)),
            AfterView::Pass => match outcome {
                Ok(()) => self.end(acts, Ok(())),
                Err(e) => self.end(
                    acts.push(action::err("Warning: Failed to clean up canary: "@ + e)),
                    Ok(()),
                ),
            },
        }
    }

    /// Looks at the health, unless the wait has taken too long.
    pub open spec fn look(self, acts: Seq<action::ActionView>, since: u64, clock: u64) -> StepView {
        if elapsed_spec(since, clock) > CANARY_MAX_WAIT_SECONDS * 1_000_000_000 {
            self.wait_failed(
                acts,
                "Timeout after "@ + number::decimal_spec(CANARY_MAX_WAIT_SECONDS as nat)
                    + "s waiting for healthy status"@,
            )
        } else {
            self.go(
                PhaseView::Inspecting { since },
                acts.push(
                    action::run(
                        "docker"@,
                        seq![
                            "inspect"@,
                            "--format"@,
                            "{{.State.Status}}|{{.State.Health.Status}}|{{.State.ExitCode}}"@,
                            self.name,
                        ],
                    ),
                ),
            )
        }
    }

    /// Shows the last lines of the log before the check fails.
    pub open spec fn show(
        self,
        acts: Seq<action::ActionView>,
        lines: nat,
        error: Seq<char>,
    ) -> StepView {
        self.go(
            PhaseView::ShowLogs { error },
            acts.push(
                action::out(
                    ">>> docker logs "@ + self.name + " (last "@ + number::decimal_spec(lines)
                        + " lines)"@,
                ),
            ).push(
                action::run(
                    "docker"@,
                    seq!["logs"@, "--tail"@, number::decimal_spec(lines), self.name],
                ),
            ),
        )
    }

    /// The canary did not become healthy.
    pub open spec fn wait_failed(self, acts: Seq<action::ActionView>, error: Seq<char>) -> StepView {
        self.show(acts.push(action::err("✗ Canary health wait failed: "@ + error)), 50, error)
    }

    /// The canary became healthy after `took` nanoseconds.
    pub open spec fn became_healthy(self, acts: Seq<action::ActionView>, took: u64) -> StepView {
        self.go(
            PhaseView::HttpCheck,
            acts.push(
                action::out("✓ Canary became healthy in "@ + duration::tenths_spec(took) + "s"@),
            ).push(action::out(">>> curl -sf http://127.0.0.1:19999/health"@)).push(
                action::run(
                    "curl"@,
                    seq!["-sf"@, "--max-time"@, "5"@, "http://127.0.0.1:19999/health"@],
                ),
            ),
        )
    }

    /// Waits before the next look.
    pub open spec fn pause(self, acts: Seq<action::ActionView>, since: u64) -> StepView {
        self.go(
            PhaseView::Waiting { since },
            acts.push(action::ActionView::Sleep { millis: HEALTH_CHECK_INTERVAL_MS }),
        )
    }

    /// The look at the health came back.
    pub open spec fn inspected(
        self,
        since: u64,
        r: Result<action::OutputView, Seq<char>>,
        clock: u64,
    ) -> StepView {
        let none = Seq::<action::ActionView>::empty();
        let took = elapsed_spec(since, clock);
        match r {
            Err(e) => self.wait_failed(none, "Failed to inspect container: "@ + e),
            Ok(o) => if !o.success() {
                if search::has_substring(o.stderr, "No such object"@) {
                    self.wait_failed(none, "Container no longer exists"@)
                } else {
                    self.pause(none, since)
                }
            } else {
                let parts = split::split_spec(split::trim_spec(o.stdout), '|');
                let status = field_or(parts, 0, "unknown"@);
                let health = field_or(parts, 1, "none"@);
                let code = field_or(parts, 2, "0"@);
                if status == "exited"@ || status == "dead"@ {
                    self.wait_failed(
                        none,
                        "Container died (status: "@ + status + ", exit_code: "@ + code + ")"@,
                    )
                } else if health == "healthy"@ {
                    self.became_healthy(none, took)
                } else if health == "unhealthy"@ {
                    self.go(
                        PhaseView::HealthLog,
                        none.push(
                            action::run(
                                "docker"@,
                                seq![
                                    "inspect"@,
                                    "--format"@,
                                    "{{range .State.Health.Log}}{{.Output}}{{end}}"@,
                                    self.name,
                                ],
                            ),
                        ),
                    )
                } else if health == "starting"@ {
                    self.pause(none, since)
                } else if health == "none"@ || health == ""@ {
                    if status == "running"@ && took >= 3_000_000_000 {
                        self.became_healthy(
                            none.push(
                                action::out(
                                    "Note: No Docker HEALTHCHECK defined, using running status"@,
                                ),
                            ),
                            took,
                        )
                    } else {
                        self.pause(none, since)
                    }
                } else {
                    self.pause(
                        none.push(action::out("Unknown health status: "@ + health)),
                        since,
                    )
                }
            },
        }
    }

    /// The answer over HTTP came back.
    pub open spec fn answered(self, r: Result<action::OutputView, Seq<char>>) -> StepView {
        let none = Seq::<action::ActionView>::empty();
        match r {
            Err(e) => self.clean(
                none.push(action::err("✗ Failed to run HTTP check: "@ + e)),
                AfterView::Fail { error: "Failed to run health check: "@ + e },
            ),
            Ok(o) => if o.success() {
                self.go(
                    PhaseView::FatalCheck,
                    none.push(action::out("✓ Canary HTTP health check passed"@)).push(
                        action::out(">>> Checking canary logs for fatal patterns..."@),
                    ).push(
                        action::run("docker"@, seq!["logs"@, "--tail"@, "100"@, self.name]),
                    ),
                )
            } else {
                self.show(
                    none.push(action::err("✗ Canary HTTP check failed: "@ + o.stderr)),
                    30,
                    "Canary HTTP health check failed"@,
                )
            },
        }
    }

    /// The log came back.
    pub open spec fn searched(self, r: Result<action::OutputView, Seq<char>>) -> StepView {
        let none = Seq::<action::ActionView>::empty();
        let found = match r {
            Ok(o) => fatal::log_report(o.stdout, o.stderr),
            Err(_) => None,
        };
        match found {
            Some(p) => self.show(
                none.push(action::err("✗ Found fatal pattern in logs: '"@ + p + "'"@)),
                30,
                "Canary container has fatal error: "@ + p,
            ),
            None => self.clean(
                none.push(action::out("✓ No fatal patterns found in logs"@)).push(
                    action::out(">>> Cleaning up canary container "@ + self.name + "..."@),
                ),
                AfterView::Pass,
            ),
        }
    }

    /// The check whether the canary container exists came back.
    pub open spec fn clean_checked(
        self,
        after: AfterView,
        r: Result<action::OutputView, Seq<char>>,
    ) -> StepView {
        let none = Seq::<action::ActionView>::empty();
        match r {
            Err(e) => self.cleaned(
                none,
                after,
                Err("Failed to check if container exists: "@ + e),
            ),
            Ok(o) => if !o.success() {
                self.cleaned(none, after, Err("Failed to check container: "@ + o.stderr))
            } else if split::trim_spec(o.stdout).len() == 0 {
                self.cleaned(none, after, Ok(()))
            } else {
                self.go(
                    PhaseView::CleanRemove { after },
                    none.push(action::out(">>> docker rm -f "@ + self.name)).push(
                        action::run("docker"@, seq!["rm"@, "-f"@, self.name]),
                    ),
                )
            },
        }
    }

    /// The removal of the canary container came back.
    pub open spec fn clean_removed(
        self,
        after: AfterView,
        r: Result<action::OutputView, Seq<char>>,
    ) -> StepView {
        let none = Seq::<action::ActionView>::empty();
        match r {
            Err(e) => self.cleaned(none, after, Err("Failed to execute docker rm: "@ + e)),
            Ok(o) => if o.success() {
                self.cleaned(
                    none.push(action::out("✓ Removed canary container: "@ + self.name)),
                    after,
                    Ok(()),
                )
            } else {
                self.cleaned(
                    none,
                    after,
                    Err("Failed to remove container "@ + self.name + ": "@ + o.stderr),
                )
            },
        }
    }

    /// The start of the canary came back.
    pub open spec fn launched(
        self,
        r: Result<action::OutputView, Seq<char>>,
        clock: u64,
    ) -> StepView {
        let none = Seq::<action::ActionView>::empty();
        match r {
            Err(e) => self.end(none, Err("Failed to start canary container: "@ + e)),
            Ok(o) => if o.success() {
                self.look(
                    none.push(
                        action::out(
                            ">>> Waiting for canary to become healthy (max "@
                                + number::decimal_spec(CANARY_MAX_WAIT_SECONDS as nat) + "s)..."@,
                        ),
                    ),
                    clock,
                    clock,
                )
            } else {
                self.clean(
                    none.push(action::err("Canary start stderr: "@ + o.stderr)).push(
                        action::out("Canary start stdout: "@ + o.stdout),
                    ),
                    AfterView::Fail { error: "Failed to start canary container: "@ + o.stderr },
                )
            },
        }
    }

    /// The last lines of the log, to be shown.
    pub open spec fn log_lines(r: Result<action::OutputView, Seq<char>>) -> Seq<action::ActionView> {
        let none = Seq::<action::ActionView>::empty();
        match r {
            Ok(o) => {
                let first = if o.stdout.len() > 0 {
                    none.push(action::out("[stdout]\n"@ + o.stdout))
                } else {
                    none
                };
                if o.stderr.len() > 0 {
                    first.push(action::err("[stderr]\n"@ + o.stderr))
                } else {
                    first
                }
            },
            Err(_) => none,
        }
    }

    /// The outcome of a command came back.
    #[verifier::opaque]
    pub open spec fn on_output_spec(
        self,
        r: Result<action::OutputView, Seq<char>>,
        clock: u64,
    ) -> StepView {
        let none = Seq::<action::ActionView>::empty();
        match self.phase {
            PhaseView::CleanCheck { after } => self.clean_checked(after, r),
            PhaseView::CleanRemove { after } => self.clean_removed(after, r),
            PhaseView::Starting => self.launched(r, clock),
            PhaseView::Inspecting { since } => self.inspected(since, r, clock),
            PhaseView::HealthLog => self.wait_failed(
                none,
                "Container marked unhealthy: "@ + health_log_text(r),
            ),
            PhaseView::ShowLogs { error } => self.clean(
                CanaryView::log_lines(r),
                AfterView::Fail { error },
            ),
            PhaseView::HttpCheck => self.answered(r),
            PhaseView::FatalCheck => self.searched(r),
            _ => StepView { state: self, actions: none, verdict: None },
        }
    }

    /// The pause is over.
    #[verifier::opaque]
    pub open spec fn on_wake_spec(self, clock: u64) -> StepView {
        let none = Seq::<action::ActionView>::empty();
        match self.phase {
            PhaseView::Waiting { since } => self.look(none, since, clock),
            _ => StepView { state: self, actions: none, verdict: None },
        }
    }

    /// The check begins.
    pub open spec fn begin_spec(self) -> StepView {
        self.clean(
            Seq::<action::ActionView>::empty().push(
                action::out(">>> Ensuring canary container "@ + self.name + " is clean..."@),
            ),
            AfterView::Start,
        )
    }
}

impl CanaryCheck {
    fn service_text(&self) -> (r: String)
        ensures
            r@ == self@.service_name(),
    {
        match &self.service {
            Some(s) => s.clone(),
            None => "xjp-backend".to_owned(),
        }
    }

    fn ports_text(&self) -> (r: String)
        ensures
            r@ == self@.ports(),
    {
        concat2("19999:", decimal(self.health_port as u64).as_str())
    }

    fn end(&mut self, verdict: Result<(), String>) -> (r: CanaryStep)
        ensures
            final(self)@ == old(self)@.at(PhaseView::Ended),
            r.verdict == Some(verdict),
    {
        self.phase = CanaryPhase::Ended;
        CanaryStep { verdict: Some(verdict) }
    }

    fn clean(&mut self, acts: &mut Actions, after: AfterClean) -> (r: CanaryStep)
        ensures
            old(self)@.clean(old(acts)@, after@) == (StepView {
                state: final(self)@,
                actions: final(acts)@,
                verdict: verdict_view(r.verdict),
            }),
    {
        let filter = concat3("name=^", self.name.as_str(), "$");
        let args = strings(&["ps", "-a", "-q", "-f", filter.as_str()]);
        assert(chars::views(args@) =~= seq!["ps"@, "-a"@, "-q"@, "-f"@, filter@]);
        acts.run("docker", args);
        self.phase = CanaryPhase::CleanCheck { after };
        CanaryStep { verdict: None }
    }

    fn start(&mut self, acts: &mut Actions) -> (r: CanaryStep)
        ensures
            old(self)@.start(old(acts)@) == (StepView {
                state: final(self)@,
                actions: final(acts)@,
                verdict: verdict_view(r.verdict),
            }),
    {
        let service = self.service_text();
        let ports = self.ports_text();
        let mut line = concat5(
            ">>> ",
            self.compose.program(),
            " -f ",
            self.compose_path.as_str(),
            " run -d --name ",
        );
        line.append(self.name.as_str());
        line.append(" --no-deps -p ");
        line.append(ports.as_str());
        line.append(" ");
        line.append(service.as_str());
        acts.out(line.as_str());
        let rest = strings(
            &[
                "-f",
                self.compose_path.as_str(),
                "run",
                "-d",
                "--name",
                self.name.as_str(),
                "--no-deps",
                "-p",
                ports.as_str(),
                service.as_str(),
            ],
        );
        assert(chars::views(rest@) =~= seq![
            "-f"@,
            self@.compose_path,
            "run"@,
            "-d"@,
            "--name"@,
            self@.name,
            "--no-deps"@,
            "-p"@,
            ports@,
            service@,
        ]);
        let args = self.compose.args(rest);
        acts.run_in(self.compose.program(), args, self.work_dir.as_str());
        self.phase = CanaryPhase::Starting;
        CanaryStep { verdict: None }
    }

    fn cleaned(
        &mut self,
        acts: &mut Actions,
        after: AfterClean,
        outcome: Result<(), String>,
    ) -> (r: CanaryStep)
        ensures
            old(self)@.cleaned(
                old(acts)@,
                after@,
                match outcome {
                    Ok(()) => Ok(()),
                    Err(e) => Err(e@),
                },
            ) == (StepView {
                state: final(self)@,
                actions: final(acts)@,
                verdict: verdict_view(r.verdict),
            }),
    {
        match after {
            AfterClean::Start => {
                if let Err(e) = outcome {
                    acts.err(
                        concat2(
                            "Warning: Failed to clean up existing canary: ",
                            e.as_str(),
                        ).as_str(),
                    );
                }
                self.start(acts)
            },
            AfterClean::Fail { error } => self.end(Err(error)),
            AfterClean::Pass => {
                if let Err(e) = outcome {
                    acts.err(concat2("Warning: Failed to clean up canary: ", e.as_str()).as_str());
                }
                self.end(Ok(()))
            },
        }
    }

    fn show(&mut self, acts: &mut Actions, lines: u64, error: String) -> (r: CanaryStep)
        ensures
            old(self)@.show(old(acts)@, lines as nat, error@) == (StepView {
                state: final(self)@,
                actions: final(acts)@,
                verdict: verdict_view(r.verdict),
            }),
    {
        let n = decimal(lines);
        acts.out(
            concat5(">>> docker logs ", self.name.as_str(), " (last ", n.as_str(), " lines)").as_str(),
        );
        let args = strings(&["logs", "--tail", n.as_str(), self.name.as_str()]);
        assert(chars::views(args@) =~= seq!["logs"@, "--tail"@, n@, self@.name]);
        acts.run("docker", args);
        self.phase = CanaryPhase::ShowLogs { error };
        CanaryStep { verdict: None }
    }

    fn wait_failed(&mut self, acts: &mut Actions, error: String) -> (r: CanaryStep)
        ensures
            old(self)@.wait_failed(old(acts)@, error@) == (StepView {
                state: final(self)@,
                actions: final(acts)@,
                verdict: verdict_view(r.verdict),
            }),
    {
        acts.err(concat2("✗ Canary health wait failed: ", error.as_str()).as_str());
        self.show(acts, 50, error)
    }

    fn look(&mut self, acts: &mut Actions, since: u64, clock: u64) -> (r: CanaryStep)
        ensures
            old(self)@.look(old(acts)@, since, clock) == (StepView {
                state: final(self)@,
                actions: final(acts)@,
                verdict: verdict_view(r.verdict),
            }),
    {
        if elapsed(since, clock) > CANARY_MAX_WAIT_SECONDS * 1_000_000_000 {
            return self.wait_failed(
                acts,
                concat3(
                    "Timeout after ",
                    decimal(CANARY_MAX_WAIT_SECONDS).as_str(),
                    "s waiting for healthy status",
                ),
            );
        }
        let args = strings(
            &[
                "inspect",
                "--format",
                "{{.State.Status}}|{{.State.Health.Status}}|{{.State.ExitCode}}",
                self.name.as_str(),
            ],
        );
        assert(chars::views(args@) =~= seq![
            "inspect"@,
            "--format"@,
            "{{.State.Status}}|{{.State.Health.Status}}|{{.State.ExitCode}}"@,
            self@.name,
        ]);
        acts.run("docker", args);
        self.phase = CanaryPhase::Inspecting { since };
        CanaryStep { verdict: None }
    }

    fn became_healthy(&mut self, acts: &mut Actions, took: u64) -> (r: CanaryStep)
        ensures
            old(self)@.became_healthy(old(acts)@, took) == (StepView {
                state: final(self)@,
                actions: final(acts)@,
                verdict: verdict_view(r.verdict),
            }),
    {
        acts.out(
            concat3("✓ Canary became healthy in ", tenths(took).as_str(), "s").as_str(),
        );
        acts.out(">>> curl -sf http://127.0.0.1:19999/health");
        let args = strings(&["-sf", "--max-time", "5", "http://127.0.0.1:19999/health"]);
        assert(chars::views(args@) =~= seq![
            "-sf"@,
            "--max-time"@,
            "5"@,
            "http://127.0.0.1:19999/health"@,
        ]);
        acts.run("curl", args);
        self.phase = CanaryPhase::HttpCheck;
        CanaryStep { verdict: None }
    }

    fn pause(&mut self, acts: &mut Actions, since: u64) -> (r: CanaryStep)
        ensures
            old(self)@.pause(old(acts)@, since) == (StepView {
                state: final(self)@,
                actions: final(acts)@,
                verdict: verdict_view(r.verdict),
            }),
    {
        acts.sleep(HEALTH_CHECK_INTERVAL_MS);
        self.phase = CanaryPhase::Waiting { since };
        CanaryStep { verdict: None }
    }

    fn inspected(
        &mut self,
        acts: &mut Actions,
        since: u64,
        result: Result<ProcessOutput, String>,
        clock: u64,
    ) -> (r: CanaryStep)
        requires
            old(acts)@ == Seq::<action::ActionView>::empty(),
        ensures
            old(self)@.inspected(since, action::result_view(result), clock) == (StepView {
                state: final(self)@,
                actions: final(acts)@,
                verdict: verdict_view(r.verdict),
            }),
    {
        let took = elapsed(since, clock);
        let o = match result {
            Err(e) => {
                return self.wait_failed(
                    acts,
                    concat2("Failed to inspect container: ", e.as_str()),
                );
            },
            Ok(o) => o,
        };
        if !o.is_success() {
            if contains(o.stderr.as_str(), "No such object") {
                return self.wait_failed(acts, "Container no longer exists".to_owned());
            }
            return self.pause(acts, since);
        }
        let parts = split(trim(o.stdout.as_str()).as_str(), '|');
        let status = part_or(&parts, 0, "unknown");
        let health = part_or(&parts, 1, "none");
        let code = part_or(&parts, 2, "0");
        let (s, h) = (status.as_str(), health.as_str());
        if str_eq(s, "exited") || str_eq(s, "dead") {
            return self.wait_failed(
                acts,
                concat5("Container died (status: ", s, ", exit_code: ", code.as_str(), ")"),
            );
        }
        if str_eq(h, "healthy") {
            return self.became_healthy(acts, took);
        }
        if str_eq(h, "unhealthy") {
            let args = strings(
                &[
                    "inspect",
                    "--format",
                    "{{range .State.Health.Log}}{{.Output}}{{end}}",
                    self.name.as_str(),
                ],
            );
            assert(chars::views(args@) =~= seq![
                "inspect"@,
                "--format"@,
                "{{range .State.Health.Log}}{{.Output}}{{end}}"@,
                self@.name,
            ]);
            acts.run("docker", args);
            self.phase = CanaryPhase::HealthLog;
            return CanaryStep { verdict: None };
        }
        if str_eq(h, "starting") {
            return self.pause(acts, since);
        }
        if str_eq(h, "none") || str_eq(h, "") {
            if str_eq(s, "running") && took >= 3_000_000_000 {
                acts.out("Note: No Docker HEALTHCHECK defined, using running status");
                return self.became_healthy(acts, took);
            }
            return self.pause(acts, since);
        }
        acts.out(concat2("Unknown health status: ", h).as_str());
        self.pause(acts, since)
    }

    fn clean_checked(
        &mut self,
        acts: &mut Actions,
        after: AfterClean,
        result: Result<ProcessOutput, String>,
    ) -> (r: CanaryStep)
        requires
            old(acts)@ == Seq::<action::ActionView>::empty(),
        ensures
            old(self)@.clean_checked(after@, action::result_view(result)) == (StepView {
                state: final(self)@,
                actions: final(acts)@,
                verdict: verdict_view(r.verdict),
            }),
    {
        match result {
            Err(e) => self.cleaned(
                acts,
                after,
                Err(concat2("Failed to check if container exists: ", e.as_str())),
            ),
            Ok(o) => if !o.is_success() {
                self.cleaned(
                    acts,
                    after,
                    Err(concat2("Failed to check container: ", o.stderr.as_str())),
                )
            } else if trim(o.stdout.as_str()).as_str().is_empty() {
                self.cleaned(acts, after, Ok(()))
            } else {
                acts.out(concat2(">>> docker rm -f ", self.name.as_str()).as_str());
                let args = strings(&["rm", "-f", self.name.as_str()]);
                assert(chars::views(args@) =~= seq!["rm"@, "-f"@, self@.name]);
                acts.run("docker", args);
                self.phase = CanaryPhase::CleanRemove { after };
                CanaryStep { verdict: None }
            },
        }
    }

    fn clean_removed(
        &mut self,
        acts: &mut Actions,
        after: AfterClean,
        result: Result<ProcessOutput, String>,
    ) -> (r: CanaryStep)
        requires
            old(acts)@ == Seq::<action::ActionView>::empty(),
        ensures
            old(self)@.clean_removed(after@, action::result_view(result)) == (StepView {
                state: final(self)@,
                actions: final(acts)@,
                verdict: verdict_view(r.verdict),
            }),
    {
        match result {
            Err(e) => self.cleaned(
                acts,
                after,
                Err(concat2("Failed to execute docker rm: ", e.as_str())),
            ),
            Ok(o) => if o.is_success() {
                acts.out(concat2("✓ Removed canary container: ", self.name.as_str()).as_str());
                self.cleaned(acts, after, Ok(()))
            } else {
                let error = concat4(
                    "Failed to remove container ",
                    self.name.as_str(),
                    ": ",
                    o.stderr.as_str(),
                );
                self.cleaned(acts, after, Err(error))
            },
        }
    }

    fn launched(
        &mut self,
        acts: &mut Actions,
        result: Result<ProcessOutput, String>,
        clock: u64,
    ) -> (r: CanaryStep)
        requires
            old(acts)@ == Seq::<action::ActionView>::empty(),
        ensures
            old(self)@.launched(action::result_view(result), clock) == (StepView {
                state: final(self)@,
                actions: final(acts)@,
                verdict: verdict_view(r.verdict),
            }),
    {
        match result {
            Err(e) => self.end(Err(concat2("Failed to start canary container: ", e.as_str()))),
            Ok(o) => if o.is_success() {
                acts.out(
                    concat3(
                        ">>> Waiting for canary to become healthy (max ",
                        decimal(CANARY_MAX_WAIT_SECONDS).as_str(),
                        "s)...",
                    ).as_str(),
                );
                self.look(acts, clock, clock)
            } else {
                acts.err(concat2("Canary start stderr: ", o.stderr.as_str()).as_str());
                acts.out(concat2("Canary start stdout: ", o.stdout.as_str()).as_str());
                let error = concat2("Failed to start canary container: ", o.stderr.as_str());
                self.clean(acts, AfterClean::Fail { error })
            },
        }
    }

    fn answered(&mut self, acts: &mut Actions, result: Result<ProcessOutput, String>) -> (r:
        CanaryStep)
        requires
            old(acts)@ == Seq::<action::ActionView>::empty(),
        ensures
            old(self)@.answered(action::result_view(result)) == (StepView {
                state: final(self)@,
                actions: final(acts)@,
                verdict: verdict_view(r.verdict),
            }),
    {
        match result {
            Err(e) => {
                acts.err(concat2("✗ Failed to run HTTP check: ", e.as_str()).as_str());
                let error = concat2("Failed to run health check: ", e.as_str());
                self.clean(acts, AfterClean::Fail { error })
            },
            Ok(o) => if o.is_success() {
                acts.out("✓ Canary HTTP health check passed");
                acts.out(">>> Checking canary logs for fatal patterns...");
                let args = strings(&["logs", "--tail", "100", self.name.as_str()]);
                assert(chars::views(args@) =~= seq!["logs"@, "--tail"@, "100"@, self@.name]);
                acts.run("docker", args);
                self.phase = CanaryPhase::FatalCheck;
                CanaryStep { verdict: None }
            } else {
                acts.err(concat2("✗ Canary HTTP check failed: ", o.stderr.as_str()).as_str());
                self.show(acts, 30, "Canary HTTP health check failed".to_owned())
            },
        }
    }

    fn searched(&mut self, acts: &mut Actions, result: Result<ProcessOutput, String>) -> (r:
        CanaryStep)
        requires
            old(acts)@ == Seq::<action::ActionView>::empty(),
        ensures
            old(self)@.searched(action::result_view(result)) == (StepView {
                state: final(self)@,
                actions: final(acts)@,
                verdict: verdict_view(r.verdict),
            }),
    {
        let found = match result {
            Ok(o) => check_log(o.stdout.as_str(), o.stderr.as_str()),
            Err(_) => None,
        };
        match found {
            Some(p) => {
                acts.err(concat3("✗ Found fatal pattern in logs: '", p.as_str(), "'").as_str());
                let error = concat2("Canary container has fatal error: ", p.as_str());
                self.show(acts, 30, error)
            },
            None => {
                acts.out("✓ No fatal patterns found in logs");
                acts.out(
                    concat3(">>> Cleaning up canary container ", self.name.as_str(), "...").as_str(),
                );
                self.clean(acts, AfterClean::Pass)
            },
        }
    }

    fn shown(&mut self, acts: &mut Actions, error: String, result: Result<ProcessOutput, String>) -> (r:
        CanaryStep)
        requires
            old(acts)@ == Seq::<action::ActionView>::empty(),
        ensures
            old(self)@.clean(
                CanaryView::log_lines(action::result_view(result)),
                AfterView::Fail { error: error@ },
            ) == (StepView {
                state: final(self)@,
                actions: final(acts)@,
                verdict: verdict_view(r.verdict),
            }),
    {
        log_lines(acts, &result);
        self.clean(acts, AfterClean::Fail { error })
    }

    /// Begins the check.
    pub fn begin(&mut self, acts: &mut Actions) -> (r: CanaryStep)
        requires
            old(acts)@ == Seq::<action::ActionView>::empty(),
        ensures
            old(self)@.begin_spec() == (StepView {
                state: final(self)@,
                actions: final(acts)@,
                verdict: verdict_view(r.verdict),
            }),
    {
        acts.out(
            concat3(">>> Ensuring canary container ", self.name.as_str(), " is clean...").as_str(),
        );
        self.clean(acts, AfterClean::Start)
    }

    /// Takes the outcome of the command that the check waits for.
    pub fn on_output(
        &mut self,
        acts: &mut Actions,
        result: Result<ProcessOutput, String>,
        clock: u64,
    ) -> (r: CanaryStep)
        requires
            old(acts)@ == Seq::<action::ActionView>::empty(),
        ensures
            old(self)@.on_output_spec(action::result_view(result), clock) == (StepView {
                state: final(self)@,
                actions: final(acts)@,
                verdict: verdict_view(r.verdict),
            }),
    {
        reveal(CanaryView::on_output_spec);
        let mut phase = CanaryPhase::Ended;
        std::mem::swap(&mut phase, &mut self.phase);
        match phase {
            CanaryPhase::CleanCheck { after } => self.clean_checked(acts, after, result),
            CanaryPhase::CleanRemove { after } => self.clean_removed(acts, after, result),
            CanaryPhase::Starting => self.launched(acts, result, clock),
            CanaryPhase::Inspecting { since } => self.inspected(acts, since, result, clock),
            CanaryPhase::HealthLog => {
                let error = concat2(
                    "Container marked unhealthy: ",
                    health_log(&result).as_str(),
                );
                self.wait_failed(acts, error)
            },
            CanaryPhase::ShowLogs { error } => self.shown(acts, error, result),
            CanaryPhase::HttpCheck => self.answered(acts, result),
            CanaryPhase::FatalCheck => self.searched(acts, result),
            other => {
                self.phase = other;
                CanaryStep { verdict: None }
            },
        }
    }

    /// Takes the end of the pause that the check waits for.
    pub fn on_wake(&mut self, acts: &mut Actions, clock: u64) -> (r: CanaryStep)
        requires
            old(acts)@ == Seq::<action::ActionView>::empty(),
        ensures
            old(self)@.on_wake_spec(clock) == (StepView {
                state: final(self)@,
                actions: final(acts)@,
                verdict: verdict_view(r.verdict),
            }),
    {
        reveal(CanaryView::on_wake_spec);
        match self.phase {
            CanaryPhase::Waiting { since } => self.look(acts, since, clock),
            _ => CanaryStep { verdict: None },
        }
    }
}

/// Adds the last lines of a log.
pub fn log_lines(acts: &mut Actions, result: &Result<ProcessOutput, String>)
    ensures
        final(acts)@ == old(acts)@ + CanaryView::log_lines(action::result_view(*result)),
{
    if let Ok(o) = result {
        if !o.stdout.as_str().is_empty() {
            acts.out(concat2("[stdout]\n", o.stdout.as_str()).as_str());
        }
        if !o.stderr.as_str().is_empty() {
            acts.err(concat2("[stderr]\n", o.stderr.as_str()).as_str());
        }
    }
    assert(acts@ =~= old(acts)@ + CanaryView::log_lines(action::result_view(*result)));
}

} // verus!
