//! Tasks of the local video service.

use vstd::prelude::*;

use crate::domain::deploy;
use crate::domain::deploy::{DeployStage, DeployStatus};
use crate::services::deploy::action;
use crate::services::deploy::action::{Actions, DeployAction, EXIT_UNKNOWN};
use crate::text::chars;
use crate::text::chars::{concat2, concat3, str_eq};
use crate::text::number;
use crate::text::number::decimal;
use crate::text::split;

verus! {

/// The port of the service where none is given.
pub const DEFAULT_SERVICE_PORT: u16 = 19527;

/// What the service is asked to do.
#[derive(Debug)]
pub struct XiaojincutConfig {
    /// "import", "export", "status" or "timeline".
    pub task_type: String,
    pub input_path: Option<String>,
    pub output_dir: Option<String>,
    pub prompt: Option<String>,
    /// 19527 by default.
    pub port: Option<u16>,
}

/// What serde_json makes of a text that is JSON: the same value, laid out over
/// lines. Nothing where the text is no JSON.
pub uninterp spec fn pretty_json_of(text: Seq<char>) -> Option<Seq<char>>;

/// `from_str` of serde_json into a `Value`, and `to_string_pretty` of that
/// value: a function of the text alone.
#[verifier::external_body]
fn pretty_json(text: &str) -> (r: Option<String>)
    ensures
        chars::opt_view(r) == pretty_json_of(text@),
{
    match serde_json::from_str::<serde_json::Value>(text) {
        Ok(value) => Some(serde_json::to_string_pretty(&value).unwrap_or(text.to_owned())),
        Err(_) => None,
    }
}

/// What became of a request.
#[derive(Debug)]
pub enum HttpReply {
    /// The deployment was cancelled before the answer came.
    Cancelled,
    /// There was no answer.
    Failed(String),
    /// The status, its description, and the body.
    Answered { status: u16, status_text: String, body: String },
}

/// The contents of an `HttpReply`.
pub ghost enum ReplyView {
    Cancelled,
    Failed(Seq<char>),
    Answered { status: u16, status_text: Seq<char>, body: Seq<char> },
}

impl View for HttpReply {
    type V = ReplyView;

    open spec fn view(&self) -> ReplyView {
        match *self {
            HttpReply::Cancelled => ReplyView::Cancelled,
            HttpReply::Failed(e) => ReplyView::Failed(e@),
            HttpReply::Answered { status, status_text, body } => ReplyView::Answered {
                status,
                status_text: status_text@,
                body: body@,
            },
        }
    }
}

/// How far the task has come.
#[derive(Clone, Copy, Debug, PartialEq, Eq, Structural)]
pub enum TaskPhase {
    /// Nothing has happened.
    Ready,
    /// Asking whether the service runs.
    Health,
    /// Waiting for the answer to the task.
    Task,
    /// The task is over.
    Done,
}

/// A task of the local video service.
#[derive(Debug)]
pub struct XiaojincutDeploy {
    pub config: XiaojincutConfig,
    pub phase: TaskPhase,
}

/// The contents of a `XiaojincutDeploy`.
pub ghost struct TaskView {
    pub task_type: Seq<char>,
    pub input_path: Option<Seq<char>>,
    pub output_dir: Option<Seq<char>>,
    pub prompt: Option<Seq<char>>,
    pub port: Option<u16>,
    pub phase: TaskPhase,
}

impl View for XiaojincutDeploy {
    type V = TaskView;

    open spec fn view(&self) -> TaskView {
        TaskView {
            task_type: self.config.task_type@,
            input_path: chars::opt_view(self.config.input_path),
            output_dir: chars::opt_view(self.config.output_dir),
            prompt: chars::opt_view(self.config.prompt),
            port: self.config.port,
            phase: self.phase,
        }
    }
}

/// What a step of the task leads to.
pub ghost struct StepView {
    pub state: TaskView,
    pub actions: Seq<action::ActionView>,
}

/// A thick rule.
pub open spec fn thick_rule() -> Seq<char> {
    "═══════════════════════════════════════════════════════════"@
}

/// A thin rule.
pub open spec fn thin_rule() -> Seq<char> {
    "───────────────────────────────────────────────────────────"@
}

/// The status means success.
pub open spec fn ok_status(status: u16) -> bool {
    200 <= status <= 299
}

impl TaskView {
    /// The port of the service, as text.
    pub open spec fn port_text(self) -> Seq<char> {
        number::decimal_spec(
            match self.port {
                Some(p) => p as nat,
                None => DEFAULT_SERVICE_PORT as nat,
            },
        )
    }

    /// Where the service is asked.
    pub open spec fn base_url(self) -> Seq<char> {
        "http://localhost:"@ + self.port_text() + "/api"@
    }

    /// A step into a phase.
    pub open spec fn go(self, phase: TaskPhase, actions: Seq<action::ActionView>) -> StepView {
        StepView { state: TaskView { phase, ..self }, actions }
    }

    /// The end of the task.
    pub open spec fn end(
        self,
        acts: Seq<action::ActionView>,
        status: DeployStatus,
        exit_code: i32,
    ) -> StepView {
        self.go(
            TaskPhase::Done,
            acts.push(
                action::ActionView::Finish { status, exit_code, stages: Seq::empty() },
            ),
        )
    }

    /// The task begins.
    pub open spec fn begin_spec(self) -> StepView {
        let head = seq![
            action::out(thick_rule()),
            action::out("Xiaojincut Task: "@ + self.task_type),
            action::out(thick_rule()),
            action::out("Target: http://localhost:"@ + self.port_text()),
        ];
        let input = match self.input_path {
            Some(p) => head.push(action::out("Input: "@ + p)),
            None => head,
        };
        let output = match self.output_dir {
            Some(d) => input.push(action::out("Output Dir: "@ + d)),
            None => input,
        };
        let prompt = match self.prompt {
            Some(p) => output.push(action::out("Prompt: "@ + p)),
            None => output,
        };
        self.go(
            TaskPhase::Health,
            prompt.push(action::out(thin_rule())).push(
                action::out(">>> Checking xiaojincut service health..."@),
            ).push(
                action::ActionView::Request {
                    url: self.base_url() + "/health"@,
                    body: None,
                    timeout_secs: 5,
                    cancellable: true,
                },
            ),
        )
    }

    /// A request for the task.
    pub open spec fn ask(
        self,
        acts: Seq<action::ActionView>,
        path: Seq<char>,
        body: Option<Seq<(Seq<char>, Seq<char>)>>,
        timeout_secs: u64,
    ) -> StepView {
        self.go(
            TaskPhase::Task,
            acts.push(
                action::ActionView::Request {
                    url: self.base_url() + path,
                    body,
                    timeout_secs,
                    cancellable: false,
                },
            ),
        )
    }

    /// The service runs: the task is put to it.
    pub open spec fn dispatch(self, acts: Seq<action::ActionView>) -> StepView {
        if self.task_type == "import"@ {
            match self.input_path {
                Some(path) => self.ask(
                    acts.push(action::out(">>> Importing media: "@ + path)),
                    "/import"@,
                    Some(seq![("path"@, path)]),
                    60,
                ),
                None => self.end(
                    acts.push(action::err("❌ Missing input_path for import task"@)),
                    DeployStatus::Failed,
                    1,
                ),
            }
        } else if self.task_type == "export"@ {
            self.ask(
                acts.push(action::out(">>> Exporting timeline..."@)),
                "/export"@,
                Some(
                    match self.output_dir {
                        Some(dir) => seq![("output_dir"@, dir)],
                        None => seq![],
                    },
                ),
                300,
            )
        } else if self.task_type == "status"@ {
            self.ask(acts.push(action::out(">>> Getting status..."@)), "/status"@, None, 10)
        } else if self.task_type == "timeline"@ {
            self.ask(acts.push(action::out(">>> Getting timeline..."@)), "/timeline"@, None, 10)
        } else {
            self.end(
                acts.push(action::err("❌ Unknown task type: "@ + self.task_type)),
                DeployStatus::Failed,
                1,
            )
        }
    }

    /// The answer of the service to the question whether it runs.
    pub open spec fn health_answered(self, reply: ReplyView) -> StepView {
        let none = Seq::<action::ActionView>::empty();
        match reply {
            ReplyView::Cancelled => self.end(
                none.push(action::err("Task cancelled"@)),
                DeployStatus::Failed,
                EXIT_UNKNOWN,
            ),
            ReplyView::Failed(e) => self.end(
                none.push(action::err("❌ xiaojincut service not reachable: "@ + e)).push(
                    action::err(
                        "Tip: Start xiaojincut with: open /Applications/xiaojincut.app"@,
                    ),
                ),
                DeployStatus::Failed,
                1,
            ),
            ReplyView::Answered { status, status_text, .. } => if ok_status(status) {
                self.dispatch(none.push(action::out("✅ xiaojincut service is running"@)))
            } else {
                self.end(
                    none.push(
                        action::err("❌ xiaojincut health check failed: HTTP "@ + status_text),
                    ),
                    DeployStatus::Failed,
                    1,
                )
            },
        }
    }

    /// The answer of the service to the task, where `pretty` is the body laid
    /// out as JSON.
    pub open spec fn task_answered(self, reply: ReplyView, pretty: Option<Seq<char>>) -> StepView {
        let none = Seq::<action::ActionView>::empty();
        match reply {
            ReplyView::Cancelled => StepView { state: self, actions: none },
            ReplyView::Failed(e) => self.end(
                none.push(action::err("❌ Request failed: "@ + e)),
                DeployStatus::Failed,
                1,
            ),
            ReplyView::Answered { status, status_text, body } => if ok_status(status) {
                let head = none.push(action::out(thin_rule())).push(
                    action::out("✅ Task completed successfully"@),
                );
                let shown = match pretty {
                    Some(text) => head + split::lines_spec(text).map_values(
                        |l: Seq<char>| action::out(l),
                    ),
                    None => if body.len() > 0 {
                        head.push(action::out(body))
                    } else {
                        head
                    },
                };
                self.end(shown.push(action::out(thick_rule())), DeployStatus::Success, 0)
            } else {
                let head = none.push(action::err("❌ Task failed: HTTP "@ + status_text));
                self.end(
                    if body.len() > 0 {
                        head.push(action::err(body))
                    } else {
                        head
                    },
                    DeployStatus::Failed,
                    1,
                )
            },
        }
    }

    /// The JSON layout of the body of an answer.
    pub open spec fn body_layout(reply: ReplyView) -> Option<Seq<char>> {
        match reply {
            ReplyView::Answered { body, .. } => pretty_json_of(body),
            _ => None,
        }
    }

    /// What became of a request.
    pub open spec fn on_reply_spec(self, reply: ReplyView) -> StepView {
        match self.phase {
            TaskPhase::Health => self.health_answered(reply),
            TaskPhase::Task => self.task_answered(reply, TaskView::body_layout(reply)),
            _ => StepView { state: self, actions: Seq::empty() },
        }
    }
}

impl XiaojincutDeploy {
    /// A task that has not begun.
    pub fn new(config: XiaojincutConfig) -> (r: XiaojincutDeploy)
        ensures
            r.config == config,
            r.phase is Ready,
    {
        XiaojincutDeploy { config, phase: TaskPhase::Ready }
    }

    fn port_text(&self) -> (r: String)
        ensures
            r@ == self@.port_text(),
    {
        match self.config.port {
            Some(p) => decimal(p as u64),
            None => decimal(DEFAULT_SERVICE_PORT as u64),
        }
    }

    fn url(&self, path: &str) -> (r: String)
        ensures
            r@ == self@.base_url() + path@,
    {
        let mut r = concat3("http://localhost:", self.port_text().as_str(), "/api");
        r.append(path);
        r
    }

    fn end(&mut self, acts: &mut Actions, status: DeployStatus, exit_code: i32)
        ensures
            old(self)@.end(old(acts)@, status, exit_code) == (StepView {
                state: final(self)@,
                actions: final(acts)@,
            }),
    {
        let stages: Vec<DeployStage> = Vec::new();
        assert(deploy::stage_views(stages@) =~= Seq::empty());
        acts.finish(status, exit_code, &stages);
        self.phase = TaskPhase::Done;
    }

    fn ask(
        &mut self,
        acts: &mut Actions,
        path: &str,
        body: Option<Vec<(String, String)>>,
        timeout_secs: u64,
    )
        ensures
            old(self)@.ask(
                old(acts)@,
                path@,
                match body {
                    Some(b) => Some(chars::pairs(b@)),
                    None => None,
                },
                timeout_secs,
            ) == (StepView { state: final(self)@, actions: final(acts)@ }),
    {
        let url = self.url(path);
        acts.push(DeployAction::Request { url, body, timeout_secs, cancellable: false });
        self.phase = TaskPhase::Task;
    }

    /// Begins the task.
    pub fn begin(&mut self) -> (r: Vec<DeployAction>)
        ensures
            old(self)@.begin_spec() == (StepView {
                state: final(self)@,
                actions: action::action_views(r@),
            }),
    {
        let mut acts = Actions::new();
        acts.out("═══════════════════════════════════════════════════════════");
        acts.out(concat2("Xiaojincut Task: ", self.config.task_type.as_str()).as_str());
        acts.out("═══════════════════════════════════════════════════════════");
        acts.out(concat2("Target: http://localhost:", self.port_text().as_str()).as_str());
        if let Some(p) = &self.config.input_path {
            acts.out(concat2("Input: ", p.as_str()).as_str());
        }
        if let Some(d) = &self.config.output_dir {
            acts.out(concat2("Output Dir: ", d.as_str()).as_str());
        }
        if let Some(p) = &self.config.prompt {
            acts.out(concat2("Prompt: ", p.as_str()).as_str());
        }
        acts.out("───────────────────────────────────────────────────────────");
        acts.out(">>> Checking xiaojincut service health...");
        let url = self.url("/health");
        acts.push(
            DeployAction::Request { url, body: None, timeout_secs: 5, cancellable: true },
        );
        self.phase = TaskPhase::Health;
        assert(acts@ =~= old(self)@.begin_spec().actions);
        acts.list
    }

    fn dispatch(&mut self, acts: &mut Actions)
        ensures
            old(self)@.dispatch(old(acts)@) == (StepView {
                state: final(self)@,
                actions: final(acts)@,
            }),
    {
        let kind = self.config.task_type.clone();
        if str_eq(kind.as_str(), "import") {
            match self.config.input_path.clone() {
                Some(path) => {
                    acts.out(concat2(">>> Importing media: ", path.as_str()).as_str());
                    let mut body: Vec<(String, String)> = Vec::new();
                    body.push(("path".to_owned(), path));
                    assert(chars::pairs(body@) =~= seq![("path"@, path@)]);
                    self.ask(acts, "/import", Some(body), 60);
                },
                None => {
                    acts.err("❌ Missing input_path for import task");
                    self.end(acts, DeployStatus::Failed, 1);
                },
            }
        } else if str_eq(kind.as_str(), "export") {
            acts.out(">>> Exporting timeline...");
            let mut body: Vec<(String, String)> = Vec::new();
            if let Some(dir) = self.config.output_dir.clone() {
                body.push(("output_dir".to_owned(), dir));
            }
            assert(chars::pairs(body@) =~= match self@.output_dir {
                Some(dir) => seq![("output_dir"@, dir)],
                None => seq![],
            });
            self.ask(acts, "/export", Some(body), 300);
        } else if str_eq(kind.as_str(), "status") {
            acts.out(">>> Getting status...");
            self.ask(acts, "/status", None, 10);
        } else if str_eq(kind.as_str(), "timeline") {
            acts.out(">>> Getting timeline...");
            self.ask(acts, "/timeline", None, 10);
        } else {
            acts.err(concat2("❌ Unknown task type: ", kind.as_str()).as_str());
            self.end(acts, DeployStatus::Failed, 1);
        }
    }

    fn health_answered(&mut self, acts: &mut Actions, reply: HttpReply)
        requires
            old(acts)@ == Seq::<action::ActionView>::empty(),
        ensures
            old(self)@.health_answered(reply@) == (StepView {
                state: final(self)@,
                actions: final(acts)@,
            }),
    {
        match reply {
            HttpReply::Cancelled => {
                acts.err("Task cancelled");
                self.end(acts, DeployStatus::Failed, EXIT_UNKNOWN);
            },
            HttpReply::Failed(e) => {
                acts.err(concat2("❌ xiaojincut service not reachable: ", e.as_str()).as_str());
                acts.err("Tip: Start xiaojincut with: open /Applications/xiaojincut.app");
                self.end(acts, DeployStatus::Failed, 1);
            },
            HttpReply::Answered { status, status_text, body: _ } => {
                if 200 <= status && status <= 299 {
                    acts.out("✅ xiaojincut service is running");
                    self.dispatch(acts);
                } else {
                    acts.err(
                        concat2(
                            "❌ xiaojincut health check failed: HTTP ",
                            status_text.as_str(),
                        ).as_str(),
                    );
                    self.end(acts, DeployStatus::Failed, 1);
                }
            },
        }
    }

    /// Takes the answer to the task, where `pretty` is the body laid out as
    /// JSON, and reports it.
    pub fn task_answered(&mut self, acts: &mut Actions, reply: HttpReply, pretty: Option<String>)
        requires
            old(acts)@ == Seq::<action::ActionView>::empty(),
        ensures
            old(self)@.task_answered(reply@, chars::opt_view(pretty)) == (StepView {
                state: final(self)@,
                actions: final(acts)@,
            }),
    {
        match reply {
            HttpReply::Cancelled => {},
            HttpReply::Failed(e) => {
                acts.err(concat2("❌ Request failed: ", e.as_str()).as_str());
                self.end(acts, DeployStatus::Failed, 1);
            },
            HttpReply::Answered { status, status_text, body } => {
                if 200 <= status && status <= 299 {
                    acts.out("───────────────────────────────────────────────────────────");
                    acts.out("✅ Task completed successfully");
                    match pretty {
                        Some(text) => {
                            acts.out_lines(text.as_str());
                        },
                        None => {
                            if !body.as_str().is_empty() {
                                acts.out(body.as_str());
                            }
                        },
                    }
                    acts.out("═══════════════════════════════════════════════════════════");
                    self.end(acts, DeployStatus::Success, 0);
                } else {
                    acts.err(
                        concat2("❌ Task failed: HTTP ", status_text.as_str()).as_str(),
                    );
                    if !body.as_str().is_empty() {
                        acts.err(body.as_str());
                    }
                    self.end(acts, DeployStatus::Failed, 1);
                }
            },
        }
    }

    /// Takes what became of the request that the task waits for.
    pub fn on_reply(&mut self, reply: HttpReply) -> (r: Vec<DeployAction>)
        ensures
            old(self)@.on_reply_spec(reply@) == (StepView {
                state: final(self)@,
                actions: action::action_views(r@),
            }),
    {
        let mut acts = Actions::new();
        match self.phase {
            TaskPhase::Health => {
                self.health_answered(&mut acts, reply);
            },
            TaskPhase::Task => {
                let pretty = match &reply {
                    HttpReply::Answered { body, .. } => pretty_json(body.as_str()),
                    _ => None,
                };
                self.task_answered(&mut acts, reply, pretty);
            },
            _ => {},
        }
        acts.list
    }
}

} // verus!
