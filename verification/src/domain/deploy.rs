//! Deployments: tasks, their stages, their log lines and their types.

use vstd::prelude::*;

use crate::text::chars;
use crate::time;
use crate::time::Timestamp;

verus! {

/// The state of a deployment.
#[derive(Clone, Copy, Debug, PartialEq, Eq, Structural)]
pub enum DeployStatus {
    Running,
    Success,
    Failed,
}

impl DeployStatus {
    /// The name of the state.
    pub open spec fn name(self) -> Seq<char> {
        match self {
            DeployStatus::Running => "running"@,
            DeployStatus::Success => "success"@,
            DeployStatus::Failed => "failed"@,
        }
    }

    /// The name of the state.
    pub fn as_str(&self) -> (r: &'static str)
        ensures
            r@ == self.name(),
    {
        match self {
            DeployStatus::Running => "running",
            DeployStatus::Success => "success",
            DeployStatus::Failed => "failed",
        }
    }

    /// Whether nothing more will happen to the deployment.
    pub open spec fn terminal(self) -> bool {
        self is Success || self is Failed
    }

    /// Whether nothing more will happen to the deployment.
    pub fn is_terminal(&self) -> (r: bool)
        ensures
            r == self.terminal(),
    {
        match self {
            DeployStatus::Running => false,
            DeployStatus::Success => true,
            DeployStatus::Failed => true,
        }
    }
}

/// The state of one stage of a deployment.
#[derive(Clone, Copy, Debug, PartialEq, Eq, Structural)]
pub enum StageStatus {
    Pending,
    Running,
    Success,
    Failed,
    Skipped,
}

/// One stage of a deployment.
#[derive(Debug)]
pub struct DeployStage {
    /// Identifier, such as "git_pull".
    pub name: String,
    /// Name for display, such as "Git Pull".
    pub display_name: String,
    pub started_at: Option<Timestamp>,
    pub finished_at: Option<Timestamp>,
    /// Duration in milliseconds.
    pub duration_ms: Option<i64>,
    pub status: StageStatus,
    pub message: Option<String>,
}

/// The contents of a `DeployStage`.
pub ghost struct StageView {
    pub name: Seq<char>,
    pub display_name: Seq<char>,
    pub started_at: Option<Timestamp>,
    pub finished_at: Option<Timestamp>,
    pub duration_ms: Option<i64>,
    pub status: StageStatus,
    pub message: Option<Seq<char>>,
}

impl View for DeployStage {
    type V = StageView;

    open spec fn view(&self) -> StageView {
        StageView {
            name: self.name@,
            display_name: self.display_name@,
            started_at: self.started_at,
            finished_at: self.finished_at,
            duration_ms: self.duration_ms,
            status: self.status,
            message: chars::opt_view(self.message),
        }
    }
}

impl StageView {
    /// A stage that has not begun.
    pub open spec fn pending(name: Seq<char>, display_name: Seq<char>) -> StageView {
        StageView {
            name,
            display_name,
            started_at: None,
            finished_at: None,
            duration_ms: None,
            status: StageStatus::Pending,
            message: None,
        }
    }

    /// This stage, begun at `now`.
    pub open spec fn started(self, now: Timestamp) -> StageView {
        StageView { started_at: Some(now), status: StageStatus::Running, ..self }
    }

    /// This stage, ended at `now`.
    pub open spec fn finished(
        self,
        now: Timestamp,
        success: bool,
        message: Option<Seq<char>>,
    ) -> StageView {
        StageView {
            finished_at: Some(now),
            status: if success {
                StageStatus::Success
            } else {
                StageStatus::Failed
            },
            message,
            duration_ms: match self.started_at {
                Some(begun) => Some(
                    time::quotient(now.instant() - begun.instant(), 1_000_000) as i64,
                ),
                None => self.duration_ms,
            },
            ..self
        }
    }

    /// This stage, passed over.
    pub open spec fn skipped(self, reason: Option<Seq<char>>) -> StageView {
        StageView { status: StageStatus::Skipped, message: reason, ..self }
    }
}

/// The contents of a list of stages.
pub open spec fn stage_views(v: Seq<DeployStage>) -> Seq<StageView> {
    v.map_values(|s: DeployStage| s@)
}

/// Begins the stage at index `i`.
pub fn start_stage(stages: &mut Vec<DeployStage>, i: usize, now: Timestamp)
    requires
        i < old(stages)@.len(),
    ensures
        final(stages)@.len() == old(stages)@.len(),
        stage_views(final(stages)@) == stage_views(old(stages)@).update(
            i as int,
            stage_views(old(stages)@)[i as int].started(now),
        ),
{
    let mut s = stages[i].clone();
    s.start_at(now);
    stages.set(i, s);
    assert(stage_views(stages@) =~= stage_views(old(stages)@).update(
        i as int,
        stage_views(old(stages)@)[i as int].started(now),
    ));
}

/// Ends the stage at index `i`.
pub fn finish_stage(
    stages: &mut Vec<DeployStage>,
    i: usize,
    now: Timestamp,
    success: bool,
    message: Option<String>,
)
    requires
        i < old(stages)@.len(),
    ensures
        final(stages)@.len() == old(stages)@.len(),
        stage_views(final(stages)@) == stage_views(old(stages)@).update(
            i as int,
            stage_views(old(stages)@)[i as int].finished(now, success, chars::opt_view(message)),
        ),
{
    let mut s = stages[i].clone();
    s.finish_at(now, success, message);
    stages.set(i, s);
    assert(stage_views(stages@) =~= stage_views(old(stages)@).update(
        i as int,
        stage_views(old(stages)@)[i as int].finished(now, success, chars::opt_view(message)),
    ));
}

/// Passes the stage at index `i` over.
pub fn skip_stage(stages: &mut Vec<DeployStage>, i: usize, reason: Option<String>)
    requires
        i < old(stages)@.len(),
    ensures
        final(stages)@.len() == old(stages)@.len(),
        stage_views(final(stages)@) == stage_views(old(stages)@).update(
            i as int,
            stage_views(old(stages)@)[i as int].skipped(chars::opt_view(reason)),
        ),
{
    let mut s = stages[i].clone();
    s.skip(reason);
    stages.set(i, s);
    assert(stage_views(stages@) =~= stage_views(old(stages)@).update(
        i as int,
        stage_views(old(stages)@)[i as int].skipped(chars::opt_view(reason)),
    ));
}

impl Clone for DeployStage {
    fn clone(&self) -> (r: DeployStage)
        ensures
            r == *self,
    {
        DeployStage {
            name: self.name.clone(),
            display_name: self.display_name.clone(),
            started_at: self.started_at,
            finished_at: self.finished_at,
            duration_ms: self.duration_ms,
            status: self.status,
            message: self.message.clone(),
        }
    }
}

/// Copies a list of stages.
pub fn clone_stages(v: &Vec<DeployStage>) -> (r: Vec<DeployStage>)
    ensures
        r@ == v@,
{
    let mut r: Vec<DeployStage> = Vec::new();
    let mut i: usize = 0;
    while i < v.len()
        invariant
            i <= v@.len(),
            r@ == v@.take(i as int),
        decreases v@.len() - i,
    {
        r.push(v[i].clone());
        i = i + 1;
        assert(r@ =~= v@.take(i as int));
    }
    assert(v@.take(v@.len() as int) =~= v@);
    r
}

impl DeployStage {
    /// A stage that has not begun.
    pub fn new(name: &str, display_name: &str) -> (r: DeployStage)
        ensures
            r@ == StageView::pending(name@, display_name@),
    {
        DeployStage {
            name: name.to_owned(),
            display_name: display_name.to_owned(),
            started_at: None,
            finished_at: None,
            duration_ms: None,
            status: StageStatus::Pending,
            message: None,
        }
    }

    /// This stage, begun at `now`.
    pub open spec fn started(self, now: Timestamp) -> DeployStage {
        DeployStage { started_at: Some(now), status: StageStatus::Running, ..self }
    }

    /// Begins the stage at `now`.
    pub fn start_at(&mut self, now: Timestamp)
        ensures
            *final(self) == old(self).started(now),
    {
        self.started_at = Some(now);
        self.status = StageStatus::Running;
    }

    /// Begins the stage now.
    pub fn start(&mut self)
        ensures
            exists|now: Timestamp| *final(self) == #[trigger] old(self).started(now),
    {
        let now = Timestamp::now();
        self.start_at(now);
        assert(*self == old(self).started(now));
    }

    /// This stage, ended at `now`. The duration is known where the stage had
    /// begun.
    pub open spec fn finished(self, now: Timestamp, success: bool, message: Option<String>) -> DeployStage {
        DeployStage {
            finished_at: Some(now),
            status: if success {
                StageStatus::Success
            } else {
                StageStatus::Failed
            },
            message,
            duration_ms: match self.started_at {
                Some(begun) => Some(
                    time::quotient(now.instant() - begun.instant(), 1_000_000) as i64,
                ),
                None => self.duration_ms,
            },
            ..self
        }
    }

    /// Ends the stage at `now`.
    pub fn finish_at(&mut self, now: Timestamp, success: bool, message: Option<String>)
        ensures
            *final(self) == old(self).finished(now, success, message),
    {
        self.finished_at = Some(now);
        self.status = if success {
            StageStatus::Success
        } else {
            StageStatus::Failed
        };
        self.message = message;
        if let Some(begun) = self.started_at {
            self.duration_ms = Some(now.millis_since(&begun));
        }
    }

    /// Ends the stage now.
    pub fn finish(&mut self, success: bool, message: Option<String>)
        ensures
            exists|now: Timestamp|
                *final(self) == #[trigger] old(self).finished(now, success, message),
    {
        let now = Timestamp::now();
        self.finish_at(now, success, message);
        assert(*self == old(self).finished(now, success, message));
    }

    /// Passes the stage over.
    pub fn skip(&mut self, reason: Option<String>)
        ensures
            *final(self) == (DeployStage {
                status: StageStatus::Skipped,
                message: reason,
                ..*old(self)
            }),
    {
        self.status = StageStatus::Skipped;
        self.message = reason;
    }
}

/// A deployment.
#[derive(Debug)]
pub struct DeployTask {
    pub id: String,
    pub project: String,
    pub status: DeployStatus,
    pub started_at: Timestamp,
    pub finished_at: Option<Timestamp>,
    pub exit_code: Option<i32>,
    pub stages: Vec<DeployStage>,
}

impl DeployTask {
    /// A deployment that runs since `now`.
    pub fn new_at(id: String, project: String, now: Timestamp) -> (r: DeployTask)
        ensures
            r.id == id,
            r.project == project,
            r.status is Running,
            r.started_at == now,
            r.finished_at is None,
            r.exit_code is None,
            r.stages@.len() == 0,
    {
        DeployTask {
            id,
            project,
            status: DeployStatus::Running,
            started_at: now,
            finished_at: None,
            exit_code: None,
            stages: Vec::new(),
        }
    }

    /// A deployment that starts to run now.
    pub fn new(id: String, project: String) -> (r: DeployTask)
        ensures
            r.id == id,
            r.project == project,
            r.status is Running,
            r.finished_at is None,
            r.exit_code is None,
            r.stages@.len() == 0,
    {
        DeployTask::new_at(id, project, Timestamp::now())
    }

    /// A deployment that waits for its turn from `now` on.
    pub fn new_queued_at(id: String, project: String, now: Timestamp) -> (r: DeployTask)
        ensures
            r.is_new(id@, project@, now),
    {
        DeployTask::new_at(id, project, now)
    }

    /// A deployment that waits for its turn from now on.
    pub fn new_queued(id: String, project: String) -> (r: DeployTask)
        ensures
            r.is_new(id@, project@, r.started_at),
    {
        DeployTask::new_queued_at(id, project, Timestamp::now())
    }

    /// Nothing has happened to the deployment since `now`.
    pub open spec fn is_new(self, id: Seq<char>, project: Seq<char>, now: Timestamp) -> bool {
        &&& self.id@ == id
        &&& self.project@ == project
        &&& self.status is Running
        &&& self.started_at == now
        &&& self.finished_at is None
        &&& self.exit_code is None
        &&& self.stages@.len() == 0
    }

    /// This deployment, over at `now`.
    pub open spec fn completed(
        self,
        now: Timestamp,
        status: DeployStatus,
        exit_code: Option<i32>,
    ) -> DeployTask {
        DeployTask { status, finished_at: Some(now), exit_code, ..self }
    }

    /// Ends the deployment at `now`.
    pub fn complete_at(&mut self, now: Timestamp, status: DeployStatus, exit_code: Option<i32>)
        ensures
            *final(self) == old(self).completed(now, status, exit_code),
    {
        self.status = status;
        self.finished_at = Some(now);
        self.exit_code = exit_code;
    }

    /// Ends the deployment now.
    pub fn complete(&mut self, status: DeployStatus, exit_code: Option<i32>)
        ensures
            exists|now: Timestamp|
                *final(self) == #[trigger] old(self).completed(now, status, exit_code),
    {
        let now = Timestamp::now();
        self.complete_at(now, status, exit_code);
        assert(*self == old(self).completed(now, status, exit_code));
    }
}

/// A line of a deployment's log.
#[derive(Debug)]
pub struct LogLine {
    pub timestamp: Timestamp,
    /// "stdout" or "stderr".
    pub stream: String,
    pub content: String,
}

impl Clone for LogLine {
    fn clone(&self) -> (r: LogLine)
        ensures
            r == *self,
    {
        LogLine {
            timestamp: self.timestamp,
            stream: self.stream.clone(),
            content: self.content.clone(),
        }
    }
}

impl LogLine {
    /// A line written at `now`.
    pub fn new_at(now: Timestamp, stream: &str, content: &str) -> (r: LogLine)
        ensures
            r.timestamp == now,
            r.stream@ == stream@,
            r.content@ == content@,
    {
        LogLine { timestamp: now, stream: stream.to_owned(), content: content.to_owned() }
    }

    /// A line written now.
    pub fn new(stream: &str, content: &str) -> (r: LogLine)
        ensures
            r.stream@ == stream@,
            r.content@ == content@,
    {
        LogLine::new_at(Timestamp::now(), stream, content)
    }

    /// A line of the standard output.
    pub fn stdout(content: &str) -> (r: LogLine)
        ensures
            r.stream@ == "stdout"@,
            r.content@ == content@,
    {
        LogLine::new("stdout", content)
    }

    /// A line of the error output.
    pub fn stderr(content: &str) -> (r: LogLine)
        ensures
            r.stream@ == "stderr"@,
            r.content@ == content@,
    {
        LogLine::new("stderr", content)
    }
}

/// How a project is deployed.
#[derive(Debug)]
pub enum DeployType {
    /// By a script.
    Script { script: String },
    /// By pulling an image and restarting compose services.
    DockerCompose {
        /// Compose file, absolute or relative to the work directory.
        compose_file: String,
        image: String,
        /// Repository to pull the configuration from.
        git_repo_dir: Option<String>,
        /// Service to restart; all where there is none.
        service: Option<String>,
    },
    /// By building an image and pushing it.
    DockerBuild {
        /// Default "Dockerfile".
        dockerfile: Option<String>,
        /// Default ".".
        build_context: Option<String>,
        image: String,
        /// Default: the hash of the commit.
        tag: Option<String>,
        /// Push the tag "latest" too.
        push_latest: bool,
        /// Default "master".
        branch: Option<String>,
    },
    /// By a task of the local video service.
    Xiaojincut {
        task_type: String,
        input_path: Option<String>,
        output_dir: Option<String>,
        prompt: Option<String>,
        /// Default 19527.
        port: Option<u16>,
    },
}

/// The contents of a `DeployType`.
pub ghost enum DeployTypeView {
    Script { script: Seq<char> },
    DockerCompose {
        compose_file: Seq<char>,
        image: Seq<char>,
        git_repo_dir: Option<Seq<char>>,
        service: Option<Seq<char>>,
    },
    DockerBuild {
        dockerfile: Option<Seq<char>>,
        build_context: Option<Seq<char>>,
        image: Seq<char>,
        tag: Option<Seq<char>>,
        push_latest: bool,
        branch: Option<Seq<char>>,
    },
    Xiaojincut {
        task_type: Seq<char>,
        input_path: Option<Seq<char>>,
        output_dir: Option<Seq<char>>,
        prompt: Option<Seq<char>>,
        port: Option<u16>,
    },
}

impl View for DeployType {
    type V = DeployTypeView;

    open spec fn view(&self) -> DeployTypeView {
        match *self {
            DeployType::Script { script } => DeployTypeView::Script { script: script@ },
            DeployType::DockerCompose {
                compose_file,
                image,
                git_repo_dir,
                service,
            } => DeployTypeView::DockerCompose {
                compose_file: compose_file@,
                image: image@,
                git_repo_dir: chars::opt_view(git_repo_dir),
                service: chars::opt_view(service),
            },
            DeployType::DockerBuild {
                dockerfile,
                build_context,
                image,
                tag,
                push_latest,
                branch,
            } => DeployTypeView::DockerBuild {
                dockerfile: chars::opt_view(dockerfile),
                build_context: chars::opt_view(build_context),
                image: image@,
                tag: chars::opt_view(tag),
                push_latest,
                branch: chars::opt_view(branch),
            },
            DeployType::Xiaojincut {
                task_type,
                input_path,
                output_dir,
                prompt,
                port,
            } => DeployTypeView::Xiaojincut {
                task_type: task_type@,
                input_path: chars::opt_view(input_path),
                output_dir: chars::opt_view(output_dir),
                prompt: chars::opt_view(prompt),
                port,
            },
        }
    }
}

impl Clone for DeployType {
    fn clone(&self) -> (r: DeployType)
        ensures
            r == *self,
    {
        match self {
            DeployType::Script { script } => DeployType::Script { script: script.clone() },
            DeployType::DockerCompose { compose_file, image, git_repo_dir, service } =>
                DeployType::DockerCompose {
                    compose_file: compose_file.clone(),
                    image: image.clone(),
                    git_repo_dir: git_repo_dir.clone(),
                    service: service.clone(),
                },
            DeployType::DockerBuild {
                dockerfile,
                build_context,
                image,
                tag,
                push_latest,
                branch,
            } => DeployType::DockerBuild {
                dockerfile: dockerfile.clone(),
                build_context: build_context.clone(),
                image: image.clone(),
                tag: tag.clone(),
                push_latest: *push_latest,
                branch: branch.clone(),
            },
            DeployType::Xiaojincut { task_type, input_path, output_dir, prompt, port } =>
                DeployType::Xiaojincut {
                    task_type: task_type.clone(),
                    input_path: input_path.clone(),
                    output_dir: output_dir.clone(),
                    prompt: prompt.clone(),
                    port: *port,
                },
        }
    }
}

impl DeployType {
    /// The name of the type.
    pub open spec fn kind_name(self) -> Seq<char> {
        match self {
            DeployType::Script { .. } => "script"@,
            DeployType::DockerCompose { .. } => "docker_compose"@,
            DeployType::DockerBuild { .. } => "docker_build"@,
            DeployType::Xiaojincut { .. } => "xiaojincut"@,
        }
    }

    /// The name of the type.
    pub fn name(&self) -> (r: &'static str)
        ensures
            r@ == self.kind_name(),
    {
        match self {
            DeployType::Script { .. } => "script",
            DeployType::DockerCompose { .. } => "docker_compose",
            DeployType::DockerBuild { .. } => "docker_build",
            DeployType::Xiaojincut { .. } => "xiaojincut",
        }
    }
}

} // verus!
