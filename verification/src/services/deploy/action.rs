//! What a deployment asks for, and what it is told.

use vstd::prelude::*;

use crate::domain::deploy;
use crate::domain::deploy::{clone_stages, DeployStage, DeployStatus, StageStatus};
use crate::text::chars;
use crate::text::chars::{concat2, concat5};
use crate::text::number;
use crate::text::number::signed_decimal;
use crate::text::split;
use crate::text::split::lines;
use crate::time::Timestamp;

verus! {

/// The exit code of a deployment that was cancelled.
pub const EXIT_CANCELLED: i32 = -2;

/// The exit code of a deployment that failed without one.
pub const EXIT_UNKNOWN: i32 = -1;

/// The stream that a log line belongs to.
#[derive(Clone, Copy, Debug, PartialEq, Eq, Structural)]
pub enum LogStream {
    Stdout,
    Stderr,
}

impl LogStream {
    /// The name of the stream.
    pub open spec fn label(self) -> Seq<char> {
        match self {
            LogStream::Stdout => "stdout"@,
            LogStream::Stderr => "stderr"@,
        }
    }

    /// The name of the stream.
    pub fn as_str(&self) -> (r: &'static str)
        ensures
            r@ == self.label(),
    {
        match self {
            LogStream::Stdout => "stdout",
            LogStream::Stderr => "stderr",
        }
    }
}

/// Something that a deployment asks for. The actions are carried out in order;
/// a list ends with the one whose outcome the deployment waits for.
#[derive(Debug)]
pub enum DeployAction {
    /// Write a line to the log, and tell the deploy center.
    Log { stream: LogStream, text: String },
    /// Tell the deploy center alone.
    Report { text: String },
    /// Publish the stages.
    Stages { stages: Vec<DeployStage> },
    /// Run a command and gather its output.
    Run { program: String, args: Vec<String>, dir: Option<String> },
    /// Run a command whose output is logged line by line and which a
    /// cancellation kills. Where it is filtered, lines of no interest are left
    /// out.
    Spawn {
        program: String,
        args: Vec<String>,
        dir: String,
        envs: Vec<(String, String)>,
        filtered: bool,
    },
    /// Send an HTTP request: a POST of a JSON object of texts where there is a
    /// body, a GET where there is none. A cancellation may end the wait for
    /// the answer.
    Request {
        url: String,
        body: Option<Vec<(String, String)>>,
        timeout_secs: u64,
        cancellable: bool,
    },
    /// Wait.
    Sleep { millis: u64 },
    /// End the task.
    Finish { status: DeployStatus, exit_code: i32, stages: Vec<DeployStage> },
}

/// The contents of a `DeployAction`.
pub ghost enum ActionView {
    Log { stream: LogStream, text: Seq<char> },
    Report { text: Seq<char> },
    Stages { stages: Seq<deploy::StageView> },
    Run { program: Seq<char>, args: Seq<Seq<char>>, dir: Option<Seq<char>> },
    Spawn {
        program: Seq<char>,
        args: Seq<Seq<char>>,
        dir: Seq<char>,
        envs: Seq<(Seq<char>, Seq<char>)>,
        filtered: bool,
    },
    Request {
        url: Seq<char>,
        body: Option<Seq<(Seq<char>, Seq<char>)>>,
        timeout_secs: u64,
        cancellable: bool,
    },
    Sleep { millis: u64 },
    Finish { status: DeployStatus, exit_code: i32, stages: Seq<deploy::StageView> },
}

impl View for DeployAction {
    type V = ActionView;

    open spec fn view(&self) -> ActionView {
        match *self {
            DeployAction::Log { stream, text } => ActionView::Log { stream, text: text@ },
            DeployAction::Report { text } => ActionView::Report { text: text@ },
            DeployAction::Stages { stages } => ActionView::Stages {
                stages: deploy::stage_views(stages@),
            },
            DeployAction::Run { program, args, dir } => ActionView::Run {
                program: program@,
                args: chars::views(args@),
                dir: chars::opt_view(dir),
            },
            DeployAction::Spawn { program, args, dir, envs, filtered } => ActionView::Spawn {
                program: program@,
                args: chars::views(args@),
                dir: dir@,
                envs: chars::pairs(envs@),
                filtered,
            },
            DeployAction::Request { url, body, timeout_secs, cancellable } => ActionView::Request {
                url: url@,
                body: match body {
                    Some(b) => Some(chars::pairs(b@)),
                    None => None,
                },
                timeout_secs,
                cancellable,
            },
            DeployAction::Sleep { millis } => ActionView::Sleep { millis },
            DeployAction::Finish { status, exit_code, stages } => ActionView::Finish {
                status,
                exit_code,
                stages: deploy::stage_views(stages@),
            },
        }
    }
}

/// The contents of a list of actions.
pub open spec fn action_views(v: Seq<DeployAction>) -> Seq<ActionView> {
    v.map_values(|a: DeployAction| a@)
}

/// What a gathered command left behind.
#[derive(Debug)]
pub struct ProcessOutput {
    /// Exit code; none where a signal ended the command.
    pub code: Option<i32>,
    pub stdout: String,
    pub stderr: String,
}

/// The contents of a `ProcessOutput`.
pub ghost struct OutputView {
    pub code: Option<i32>,
    pub stdout: Seq<char>,
    pub stderr: Seq<char>,
}

impl View for ProcessOutput {
    type V = OutputView;

    open spec fn view(&self) -> OutputView {
        OutputView { code: self.code, stdout: self.stdout@, stderr: self.stderr@ }
    }
}

impl OutputView {
    /// The command succeeded.
    pub open spec fn success(self) -> bool {
        self.code == Some(0i32)
    }

    /// The exit code, or -1 where there is none.
    pub open spec fn code_or(self) -> i32 {
        match self.code {
            Some(c) => c,
            None => EXIT_UNKNOWN,
        }
    }
}

impl ProcessOutput {
    /// Whether the command succeeded.
    pub fn is_success(&self) -> (r: bool)
        ensures
            r == self@.success(),
    {
        match self.code {
            Some(c) => c == 0,
            None => false,
        }
    }

    /// The exit code, or -1 where there is none.
    pub fn exit_code(&self) -> (r: i32)
        ensures
            r == self@.code_or(),
    {
        match self.code {
            Some(c) => c,
            None => EXIT_UNKNOWN,
        }
    }
}

/// The contents of what became of a command: its output, or why it could not
/// run.
pub open spec fn result_view(r: Result<ProcessOutput, String>) -> Result<OutputView, Seq<char>> {
    match r {
        Ok(o) => Ok(o@),
        Err(e) => Err(e@),
    }
}

/// How a streamed command came to its end.
#[derive(Debug)]
pub enum SpawnEnd {
    /// It could not be started.
    NotStarted(String),
    /// The deployment was cancelled, and the command was killed.
    Cancelled,
    /// It ended by itself; none where a signal ended it.
    Exited(Option<i32>),
    /// Its end could not be awaited.
    Lost(String),
}

/// The contents of a `SpawnEnd`.
pub ghost enum SpawnEndView {
    NotStarted(Seq<char>),
    Cancelled,
    Exited(Option<i32>),
    Lost(Seq<char>),
}

impl View for SpawnEnd {
    type V = SpawnEndView;

    open spec fn view(&self) -> SpawnEndView {
        match *self {
            SpawnEnd::NotStarted(e) => SpawnEndView::NotStarted(e@),
            SpawnEnd::Cancelled => SpawnEndView::Cancelled,
            SpawnEnd::Exited(c) => SpawnEndView::Exited(c),
            SpawnEnd::Lost(e) => SpawnEndView::Lost(e@),
        }
    }
}

/// When an event happened: the time of day, a clock that never goes back in
/// nanoseconds, and whether the deployment has been cancelled.
#[derive(Clone, Copy, Debug)]
pub struct Moment {
    pub now: Timestamp,
    pub clock_ns: u64,
    pub cancelled: bool,
}

/// A line of the standard output.
pub open spec fn out(text: Seq<char>) -> ActionView {
    ActionView::Log { stream: LogStream::Stdout, text }
}

/// A line of the error output.
pub open spec fn err(text: Seq<char>) -> ActionView {
    ActionView::Log { stream: LogStream::Stderr, text }
}

/// A command in no particular directory.
pub open spec fn run(program: Seq<char>, args: Seq<Seq<char>>) -> ActionView {
    ActionView::Run { program, args, dir: None }
}

/// A command in a directory.
pub open spec fn run_in(program: Seq<char>, args: Seq<Seq<char>>, dir: Seq<char>) -> ActionView {
    ActionView::Run { program, args, dir: Some(dir) }
}

/// The log lines for both outputs of a command, each where it is not empty.
pub open spec fn output_logs(o: OutputView) -> Seq<ActionView> {
    let first = if o.stdout.len() > 0 {
        seq![out(o.stdout)]
    } else {
        seq![]
    };
    if o.stderr.len() > 0 {
        first.push(err(o.stderr))
    } else {
        first
    }
}

/// A list of actions that grows.
pub struct Actions {
    pub list: Vec<DeployAction>,
}

impl View for Actions {
    type V = Seq<ActionView>;

    open spec fn view(&self) -> Seq<ActionView> {
        action_views(self.list@)
    }
}

impl Actions {
    /// No actions.
    pub fn new() -> (r: Actions)
        ensures
            r@ == Seq::<ActionView>::empty(),
    {
        let r = Actions { list: Vec::new() };
        assert(r@ =~= Seq::<ActionView>::empty());
        r
    }

    /// Adds an action.
    pub fn push(&mut self, action: DeployAction)
        ensures
            final(self)@ == old(self)@.push(action@),
    {
        self.list.push(action);
        assert(self@ =~= old(self)@.push(action@));
    }

    /// Adds the actions of another list.
    pub fn extend(&mut self, other: Actions)
        ensures
            final(self)@ == old(self)@ + other@,
    {
        let mut list = other.list;
        self.list.append(&mut list);
        assert(self@ =~= old(self)@ + other@);
    }

    /// Adds a line of the standard output.
    pub fn out(&mut self, text: &str)
        ensures
            final(self)@ == old(self)@.push(out(text@)),
    {
        self.push(DeployAction::Log { stream: LogStream::Stdout, text: text.to_owned() });
    }

    /// Adds a line of the error output.
    pub fn err(&mut self, text: &str)
        ensures
            final(self)@ == old(self)@.push(err(text@)),
    {
        self.push(DeployAction::Log { stream: LogStream::Stderr, text: text.to_owned() });
    }

    /// Adds the lines of a text to the standard output.
    pub fn out_lines(&mut self, text: &str)
        ensures
            final(self)@ == old(self)@ + split::lines_spec(text@).map_values(
                |l: Seq<char>| out(l),
            ),
    {
        let list = lines(text);
        let ghost start = self@;
        let ghost all = split::lines_spec(text@).map_values(|l: Seq<char>| out(l));
        let mut i: usize = 0;
        assert(start + all.take(0) =~= start);
        while i < list.len()
            invariant
                i <= list@.len(),
                chars::views(list@) == split::lines_spec(text@),
                all == split::lines_spec(text@).map_values(|l: Seq<char>| out(l)),
                self@ == start + all.take(i as int),
            decreases list@.len() - i,
        {
            assert(list@[i as int]@ == chars::views(list@)[i as int]);
            self.out(list[i].as_str());
            i = i + 1;
            assert(self@ =~= start + all.take(i as int));
        }
        assert(all.take(all.len() as int) =~= all);
    }

    /// Adds a report to the deploy center.
    pub fn report(&mut self, text: &str)
        ensures
            final(self)@ == old(self)@.push(ActionView::Report { text: text@ }),
    {
        self.push(DeployAction::Report { text: text.to_owned() });
    }

    /// Adds the log lines for both outputs of a command.
    pub fn output(&mut self, o: &ProcessOutput)
        ensures
            final(self)@ == old(self)@ + output_logs(o@),
    {
        if !o.stdout.as_str().is_empty() {
            self.out(o.stdout.as_str());
        }
        if !o.stderr.as_str().is_empty() {
            self.err(o.stderr.as_str());
        }
        assert(self@ =~= old(self)@ + output_logs(o@));
    }

    /// Publishes the stages.
    pub fn stages(&mut self, stages: &Vec<DeployStage>)
        ensures
            final(self)@ == old(self)@.push(
                ActionView::Stages { stages: deploy::stage_views(stages@) },
            ),
    {
        self.push(DeployAction::Stages { stages: clone_stages(stages) });
    }

    /// Runs a command in no particular directory.
    pub fn run(&mut self, program: &str, args: Vec<String>)
        ensures
            final(self)@ == old(self)@.push(run(program@, chars::views(args@))),
    {
        self.push(DeployAction::Run { program: program.to_owned(), args, dir: None });
    }

    /// Runs a command in a directory.
    pub fn run_in(&mut self, program: &str, args: Vec<String>, dir: &str)
        ensures
            final(self)@ == old(self)@.push(run_in(program@, chars::views(args@), dir@)),
    {
        self.push(
            DeployAction::Run { program: program.to_owned(), args, dir: Some(dir.to_owned()) },
        );
    }

    /// Waits.
    pub fn sleep(&mut self, millis: u64)
        ensures
            final(self)@ == old(self)@.push(ActionView::Sleep { millis }),
    {
        self.push(DeployAction::Sleep { millis });
    }

    /// Ends the task.
    pub fn finish(&mut self, status: DeployStatus, exit_code: i32, stages: &Vec<DeployStage>)
        ensures
            final(self)@ == old(self)@.push(
                ActionView::Finish { status, exit_code, stages: deploy::stage_views(stages@) },
            ),
    {
        self.push(DeployAction::Finish { status, exit_code, stages: clone_stages(stages) });
    }
}

/// The mark of a stage in the summary.
pub open spec fn stage_icon(status: StageStatus) -> Seq<char> {
    match status {
        StageStatus::Success => "✓"@,
        StageStatus::Failed => "✗"@,
        StageStatus::Skipped => "⊘"@,
        StageStatus::Running => "⟳"@,
        StageStatus::Pending => "○"@,
    }
}

/// The line of a stage in the summary.
pub open spec fn summary_line(s: deploy::StageView) -> Seq<char> {
    stage_icon(s.status) + " "@ + s.display_name + " ("@ + (match s.duration_ms {
        Some(d) => number::signed_decimal_spec(d as int) + "ms"@,
        None => "-"@,
    }) + ")"@
}

/// The lines of all stages in the summary.
pub open spec fn summary_lines(stages: Seq<deploy::StageView>) -> Seq<ActionView> {
    stages.map_values(|s: deploy::StageView| out(summary_line(s)))
}

impl Actions {
    /// Adds the lines of all stages.
    pub fn summary(&mut self, stages: &Vec<DeployStage>)
        ensures
            final(self)@ == old(self)@ + summary_lines(deploy::stage_views(stages@)),
    {
        let ghost start = self@;
        let ghost all = summary_lines(deploy::stage_views(stages@));
        let mut i: usize = 0;
        assert(start + all.take(0) =~= start);
        while i < stages.len()
            invariant
                i <= stages@.len(),
                all == summary_lines(deploy::stage_views(stages@)),
                self@ == start + all.take(i as int),
            decreases stages@.len() - i,
        {
            let s = &stages[i];
            let icon = match s.status {
                StageStatus::Success => "✓",
                StageStatus::Failed => "✗",
                StageStatus::Skipped => "⊘",
                StageStatus::Running => "⟳",
                StageStatus::Pending => "○",
            };
            let duration = match s.duration_ms {
                Some(d) => concat2(signed_decimal(d).as_str(), "ms"),
                None => "-".to_owned(),
            };
            let mut line = concat5(icon, " ", s.display_name.as_str(), " (", duration.as_str());
            line.append(")");
            assert(line@ == summary_line(s@));
            self.out(line.as_str());
            i = i + 1;
            assert(self@ =~= start + all.take(i as int));
        }
        assert(all.take(all.len() as int) =~= all);
    }
}

} // verus!
