//! Deployment by a script.

use vstd::prelude::*;

use crate::domain::deploy;
use crate::domain::deploy::{finish_stage, start_stage, DeployStage, DeployStatus};
use crate::services::deploy::action;
use crate::services::deploy::action::{
    Actions, DeployAction, Moment, ProcessOutput, SpawnEnd, EXIT_CANCELLED, EXIT_UNKNOWN,
};
use crate::text::chars;
use crate::text::chars::{concat2, concat3, strings, to_chars};
use crate::text::number;
use crate::text::number::signed_decimal;
use crate::text::search;
use crate::text::search::{contains, starts_with};
use crate::text::split;
use crate::text::split::trim;
use crate::time;

verus! {

/// The trimmed line is output of the image builder: a number sign with a digit
/// behind it.
pub open spec fn is_builder_line(line: Seq<char>) -> bool {
    search::has_prefix(line, "#"@) && line.len() > 1 && '0' <= line[1] <= '9'
}

/// The line of the image builder is of interest.
pub open spec fn builder_line_matters(line: Seq<char>) -> bool {
    ||| search::has_substring(line, "DONE"@)
    ||| search::has_substring(line, "CACHED"@)
    ||| search::has_substring(line, "ERROR"@)
    ||| search::has_substring(line, "error:"@)
    ||| search::has_substring(line, "warning:"@)
    ||| search::has_substring(line, "Compiling"@)
    ||| search::has_substring(line, "Building"@)
    ||| search::has_substring(line, "Downloading"@)
    ||| search::has_substring(line, "Downloaded"@)
    ||| search::has_substring(line, "[stage"@)
    ||| search::has_substring(line, "[builder"@)
    ||| search::has_substring(line, "FROM"@)
    ||| search::has_substring(line, "RUN"@)
    ||| search::has_substring(line, "COPY"@)
    ||| search::has_substring(line, "exporting"@)
}

/// The line only tells how far a layer has been fetched.
pub open spec fn is_layer_line(line: Seq<char>) -> bool {
    search::has_substring(line, "sha256:"@) && (search::has_substring(line, "resolve"@)
        || search::has_substring(line, "Pulling"@) || search::has_substring(line, "Waiting"@))
}

/// The line is a progress bar.
pub open spec fn is_progress_bar(line: Seq<char>) -> bool {
    search::has_substring(line, "[>"@) || search::has_substring(line, "[ "@)
        || search::has_substring(line, "[="@)
}

/// The line is of interest to the deploy center.
pub open spec fn line_matters(raw: Seq<char>) -> bool {
    let line = split::trim_spec(raw);
    if line.len() == 0 {
        false
    } else if is_builder_line(line) {
        builder_line_matters(line)
    } else {
        !is_layer_line(line) && !is_progress_bar(line)
    }
}

/// Whether a line of a script's output is sent to the deploy center.
pub fn should_send_to_center(line: &str) -> (r: bool)
    ensures
        r == line_matters(line@),
{
    let text = trim(line);
    let t = text.as_str();
    if t.is_empty() {
        return false;
    }
    let v = to_chars(t);
    if starts_with(t, "#") && v.len() > 1 && '0' <= v[1] && v[1] <= '9' {
        return contains(t, "DONE") || contains(t, "CACHED") || contains(t, "ERROR") || contains(
            t,
            "error:",
        ) || contains(t, "warning:") || contains(t, "Compiling") || contains(t, "Building")
            || contains(t, "Downloading") || contains(t, "Downloaded") || contains(t, "[stage")
            || contains(t, "[builder") || contains(t, "FROM") || contains(t, "RUN") || contains(
            t,
            "COPY",
        ) || contains(t, "exporting");
    }
    if contains(t, "sha256:") && (contains(t, "resolve") || contains(t, "Pulling") || contains(
        t,
        "Waiting",
    )) {
        return false;
    }
    if contains(t, "[>") || contains(t, "[ ") || contains(t, "[=") {
        return false;
    }
    true
}

/// How far the deployment has come.
#[derive(Clone, Copy, Debug, PartialEq, Eq, Structural)]
pub enum ScriptPhase {
    /// Nothing has happened.
    Ready,
    /// Updating the repository.
    GitPull,
    /// Running the script.
    Script,
    /// The deployment is over.
    Done,
}

/// A deployment by a script.
#[derive(Debug)]
pub struct ScriptDeploy {
    pub project: String,
    pub work_dir: String,
    pub script: String,
    pub commit_hash: Option<String>,
    pub branch: Option<String>,
    pub stages: Vec<DeployStage>,
    pub phase: ScriptPhase,
}

/// The contents of a `ScriptDeploy`.
pub ghost struct ScriptView {
    pub project: Seq<char>,
    pub work_dir: Seq<char>,
    pub script: Seq<char>,
    pub commit_hash: Option<Seq<char>>,
    pub branch: Option<Seq<char>>,
    pub stages: Seq<deploy::StageView>,
    pub phase: ScriptPhase,
}

impl View for ScriptDeploy {
    type V = ScriptView;

    open spec fn view(&self) -> ScriptView {
        ScriptView {
            project: self.project@,
            work_dir: self.work_dir@,
            script: self.script@,
            commit_hash: chars::opt_view(self.commit_hash),
            branch: chars::opt_view(self.branch),
            stages: deploy::stage_views(self.stages@),
            phase: self.phase,
        }
    }
}

/// What a step of the deployment leads to.
pub ghost struct StepView {
    pub state: ScriptView,
    pub actions: Seq<action::ActionView>,
}

/// The text, or nothing.
pub open spec fn or_empty(o: Option<Seq<char>>) -> Seq<char> {
    match o {
        Some(s) => s,
        None => ""@,
    }
}

fn text_or_empty(o: &Option<String>) -> (r: String)
    ensures
        r@ == or_empty(chars::opt_view(*o)),
{
    match o {
        Some(s) => s.clone(),
        None => "".to_owned(),
    }
}

impl ScriptView {
    /// The same deployment with the stage at `i` begun.
    pub open spec fn started(self, i: int, now: time::Timestamp) -> ScriptView {
        ScriptView { stages: self.stages.update(i, self.stages[i].started(now)), ..self }
    }

    /// The same deployment with the stage at `i` ended.
    pub open spec fn finished(
        self,
        i: int,
        now: time::Timestamp,
        success: bool,
        message: Option<Seq<char>>,
    ) -> ScriptView {
        ScriptView {
            stages: self.stages.update(i, self.stages[i].finished(now, success, message)),
            ..self
        }
    }

    /// The publication of the stages.
    pub open spec fn publish(self) -> action::ActionView {
        action::ActionView::Stages { stages: self.stages }
    }

    /// A step into a phase.
    pub open spec fn go(self, phase: ScriptPhase, actions: Seq<action::ActionView>) -> StepView {
        StepView { state: ScriptView { phase, ..self }, actions }
    }

    /// The end of the deployment.
    pub open spec fn end(
        self,
        acts: Seq<action::ActionView>,
        status: DeployStatus,
        exit_code: i32,
    ) -> StepView {
        self.go(
            ScriptPhase::Done,
            acts.push(
                action::ActionView::Finish { status, exit_code, stages: self.stages },
            ),
        )
    }

    /// The deployment begins.
    pub open spec fn begin_spec(self, m: Moment) -> StepView {
        let head = seq![
            action::out("=== Starting deployment for "@ + self.project + " ==="@),
            action::out("Working directory: "@ + self.work_dir),
            action::out("Script: "@ + self.script),
        ];
        let commit = match self.commit_hash {
            Some(h) => head.push(action::out("Commit: "@ + h)),
            None => head,
        };
        let branch = match self.branch {
            Some(b) => commit.push(action::out("Branch: "@ + b)),
            None => commit,
        };
        let s = self.started(0, m.now);
        s.go(
            ScriptPhase::GitPull,
            branch.push(s.publish()).push(action::out(">>> git pull"@)).push(
                action::run_in("git"@, seq!["pull"@], self.work_dir),
            ),
        )
    }

    /// The repository is as it will be: the script runs, unless the deployment
    /// has been cancelled.
    pub open spec fn updated(self, acts: Seq<action::ActionView>, m: Moment) -> StepView {
        let told = acts.push(self.publish());
        if m.cancelled {
            self.end(
                told.push(action::err("=== Deployment CANCELLED ==="@)),
                DeployStatus::Failed,
                EXIT_CANCELLED,
            )
        } else {
            let s = self.started(1, m.now);
            s.go(
                ScriptPhase::Script,
                told.push(s.publish()).push(action::out(">>> "@ + self.script)).push(
                    action::ActionView::Spawn {
                        program: "bash"@,
                        args: seq!["-c"@, self.script],
                        dir: self.work_dir,
                        envs: seq![
                            ("COMMIT_HASH"@, or_empty(self.commit_hash)),
                            ("BRANCH"@, or_empty(self.branch)),
                        ],
                        filtered: true,
                    },
                ),
            )
        }
    }

    /// The outcome of a command came back. The update of the repository may
    /// fail.
    pub open spec fn on_output_spec(
        self,
        r: Result<action::OutputView, Seq<char>>,
        m: Moment,
    ) -> StepView {
        let none = Seq::<action::ActionView>::empty();
        if self.phase == ScriptPhase::GitPull {
            match r {
                Ok(o) => if o.success() {
                    self.finished(0, m.now, true, None).updated(none + action::output_logs(o), m)
                } else {
                    self.finished(
                        0,
                        m.now,
                        false,
                        Some("git pull failed, continuing anyway"@),
                    ).updated(
                        (none + action::output_logs(o)).push(
                            action::err("git pull failed, continuing anyway..."@),
                        ),
                        m,
                    )
                },
                Err(e) => self.finished(0, m.now, false, Some(e)).updated(
                    none.push(action::err("Failed to run git pull: "@ + e)),
                    m,
                ),
            }
        } else {
            StepView { state: self, actions: none }
        }
    }

    /// The script came to its end.
    pub open spec fn on_spawn_end_spec(self, end: action::SpawnEndView, m: Moment) -> StepView {
        let none = Seq::<action::ActionView>::empty();
        if self.phase == ScriptPhase::Script {
            match end {
                action::SpawnEndView::NotStarted(e) => self.finished(
                    1,
                    m.now,
                    false,
                    Some(e),
                ).end(
                    none.push(action::err("Failed to start script: "@ + e)),
                    DeployStatus::Failed,
                    EXIT_UNKNOWN,
                ),
                action::SpawnEndView::Cancelled => self.finished(
                    1,
                    m.now,
                    false,
                    Some("cancelled"@),
                ).end(
                    none.push(action::err("=== Deployment CANCELLED ==="@)),
                    DeployStatus::Failed,
                    EXIT_CANCELLED,
                ),
                action::SpawnEndView::Exited(code) => {
                    let c = match code {
                        Some(c) => c,
                        None => EXIT_UNKNOWN,
                    };
                    let text = number::signed_decimal_spec(c as int);
                    if c == 0 {
                        self.finished(1, m.now, true, None).end(
                            none.push(
                                action::out(
                                    "=== Deployment completed successfully (exit code: "@ + text
                                        + ") ==="@,
                                ),
                            ),
                            DeployStatus::Success,
                            c,
                        )
                    } else {
                        self.finished(1, m.now, false, None).end(
                            none.push(
                                action::err(
                                    "=== Deployment failed (exit code: "@ + text + ") ==="@,
                                ),
                            ),
                            DeployStatus::Failed,
                            c,
                        )
                    }
                },
                action::SpawnEndView::Lost(e) => self.finished(1, m.now, false, None).end(
                    none.push(action::err("=== Process error: "@ + e + " ==="@)),
                    DeployStatus::Failed,
                    EXIT_UNKNOWN,
                ),
            }
        } else {
            StepView { state: self, actions: none }
        }
    }
}

impl ScriptDeploy {
    /// The deployment has two stages.
    pub open spec fn wf(&self) -> bool {
        self.stages@.len() == 2
    }

    /// A deployment that has not begun.
    pub fn new(
        project: String,
        work_dir: String,
        script: String,
        commit_hash: Option<String>,
        branch: Option<String>,
    ) -> (r: ScriptDeploy)
        ensures
            r.wf(),
            r.project == project,
            r.work_dir == work_dir,
            r.script == script,
            r.commit_hash == commit_hash,
            r.branch == branch,
            r@.stages == seq![
                deploy::StageView::pending("git_pull"@, "Git Pull"@),
                deploy::StageView::pending("execute_script"@, "Execute Script"@),
            ],
            r.phase is Ready,
    {
        let mut stages: Vec<DeployStage> = Vec::new();
        stages.push(DeployStage::new("git_pull", "Git Pull"));
        stages.push(DeployStage::new("execute_script", "Execute Script"));
        assert(deploy::stage_views(stages@) =~= seq![
            deploy::StageView::pending("git_pull"@, "Git Pull"@),
            deploy::StageView::pending("execute_script"@, "Execute Script"@),
        ]);
        ScriptDeploy {
            project,
            work_dir,
            script,
            commit_hash,
            branch,
            stages,
            phase: ScriptPhase::Ready,
        }
    }

    /// Begins the deployment.
    pub fn begin(&mut self, m: &Moment) -> (r: Vec<DeployAction>)
        requires
            old(self).wf(),
        ensures
            final(self).wf(),
            old(self)@.begin_spec(*m) == (StepView {
                state: final(self)@,
                actions: action::action_views(r@),
            }),
    {
        let mut acts = Actions::new();
        acts.out(
            concat3("=== Starting deployment for ", self.project.as_str(), " ===").as_str(),
        );
        acts.out(concat2("Working directory: ", self.work_dir.as_str()).as_str());
        acts.out(concat2("Script: ", self.script.as_str()).as_str());
        if let Some(h) = &self.commit_hash {
            acts.out(concat2("Commit: ", h.as_str()).as_str());
        }
        if let Some(b) = &self.branch {
            acts.out(concat2("Branch: ", b.as_str()).as_str());
        }
        start_stage(&mut self.stages, 0, m.now);
        acts.stages(&self.stages);
        acts.out(">>> git pull");
        let args = strings(&["pull"]);
        assert(chars::views(args@) =~= seq!["pull"@]);
        acts.run_in("git", args, self.work_dir.as_str());
        self.phase = ScriptPhase::GitPull;
        assert(acts@ =~= old(self)@.begin_spec(*m).actions);
        acts.list
    }

    fn updated(&mut self, acts: &mut Actions, m: &Moment)
        requires
            old(self).wf(),
        ensures
            final(self).wf(),
            old(self)@.updated(old(acts)@, *m) == (StepView {
                state: final(self)@,
                actions: final(acts)@,
            }),
    {
        acts.stages(&self.stages);
        if m.cancelled {
            acts.err("=== Deployment CANCELLED ===");
            acts.finish(DeployStatus::Failed, EXIT_CANCELLED, &self.stages);
            self.phase = ScriptPhase::Done;
            return;
        }
        start_stage(&mut self.stages, 1, m.now);
        acts.stages(&self.stages);
        acts.out(concat2(">>> ", self.script.as_str()).as_str());
        let args = strings(&["-c", self.script.as_str()]);
        assert(chars::views(args@) =~= seq!["-c"@, self@.script]);
        let mut envs: Vec<(String, String)> = Vec::new();
        envs.push(("COMMIT_HASH".to_owned(), text_or_empty(&self.commit_hash)));
        envs.push(("BRANCH".to_owned(), text_or_empty(&self.branch)));
        assert(chars::pairs(envs@) =~= seq![
            ("COMMIT_HASH"@, or_empty(self@.commit_hash)),
            ("BRANCH"@, or_empty(self@.branch)),
        ]);
        acts.push(
            DeployAction::Spawn {
                program: "bash".to_owned(),
                args,
                dir: self.work_dir.clone(),
                envs,
                filtered: true,
            },
        );
        self.phase = ScriptPhase::Script;
    }

    /// Takes the outcome of the command that the deployment waits for.
    pub fn on_output(&mut self, result: Result<ProcessOutput, String>, m: &Moment) -> (r: Vec<
        DeployAction,
    >)
        requires
            old(self).wf(),
        ensures
            final(self).wf(),
            old(self)@.on_output_spec(action::result_view(result), *m) == (StepView {
                state: final(self)@,
                actions: action::action_views(r@),
            }),
    {
        let mut acts = Actions::new();
        if self.phase != ScriptPhase::GitPull {
            return acts.list;
        }
        match result {
            Ok(o) => {
                acts.output(&o);
                if o.is_success() {
                    finish_stage(&mut self.stages, 0, m.now, true, None);
                } else {
                    finish_stage(
                        &mut self.stages,
                        0,
                        m.now,
                        false,
                        Some("git pull failed, continuing anyway".to_owned()),
                    );
                    acts.err("git pull failed, continuing anyway...");
                }
            },
            Err(e) => {
                acts.err(concat2("Failed to run git pull: ", e.as_str()).as_str());
                finish_stage(&mut self.stages, 0, m.now, false, Some(e));
            },
        }
        self.updated(&mut acts, m);
        acts.list
    }

    /// Takes the end of the script that the deployment waits for.
    pub fn on_spawn_end(&mut self, end: SpawnEnd, m: &Moment) -> (r: Vec<DeployAction>)
        requires
            old(self).wf(),
        ensures
            final(self).wf(),
            old(self)@.on_spawn_end_spec(end@, *m) == (StepView {
                state: final(self)@,
                actions: action::action_views(r@),
            }),
    {
        let mut acts = Actions::new();
        if self.phase != ScriptPhase::Script {
            return acts.list;
        }
        let mut status = DeployStatus::Failed;
        let mut exit_code: i32 = EXIT_UNKNOWN;
        match end {
            SpawnEnd::NotStarted(e) => {
                acts.err(concat2("Failed to start script: ", e.as_str()).as_str());
                finish_stage(&mut self.stages, 1, m.now, false, Some(e));
            },
            SpawnEnd::Cancelled => {
                acts.err("=== Deployment CANCELLED ===");
                finish_stage(&mut self.stages, 1, m.now, false, Some("cancelled".to_owned()));
                exit_code = EXIT_CANCELLED;
            },
            SpawnEnd::Exited(code) => {
                if let Some(c) = code {
                    exit_code = c;
                }
                let text = signed_decimal(exit_code as i64);
                if exit_code == 0 {
                    status = DeployStatus::Success;
                    acts.out(
                        concat3(
                            "=== Deployment completed successfully (exit code: ",
                            text.as_str(),
                            ") ===",
                        ).as_str(),
                    );
                    finish_stage(&mut self.stages, 1, m.now, true, None);
                } else {
                    acts.err(
                        concat3(
                            "=== Deployment failed (exit code: ",
                            text.as_str(),
                            ") ===",
                        ).as_str(),
                    );
                    finish_stage(&mut self.stages, 1, m.now, false, None);
                }
            },
            SpawnEnd::Lost(e) => {
                acts.err(concat3("=== Process error: ", e.as_str(), " ===").as_str());
                finish_stage(&mut self.stages, 1, m.now, false, None);
            },
        }
        acts.finish(status, exit_code, &self.stages);
        self.phase = ScriptPhase::Done;
        acts.list
    }
}

} // verus!
