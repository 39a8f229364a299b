//! The deploy center: the requests that it is sent, and when they are sent
//! again.

use vstd::prelude::*;

use crate::domain::deploy::{DeployStage, DeployStatus, LogLine};
use crate::text::chars;
use crate::text::chars::{concat2, concat3, concat4};

verus! {

/// How often a status is sent at most.
pub const MAX_NOTIFY_ATTEMPTS: u32 = 3;

/// Seconds between two attempts.
pub const NOTIFY_RETRY_SECS: u64 = 2;

/// The client of the deploy center.
#[derive(Debug)]
pub struct DeployCenterClient {
    callback_url: Option<String>,
}

/// Why a status did not arrive.
#[derive(Debug)]
pub enum NotifyError {
    /// The last network error.
    Network(String),
    /// The deploy center answered with an error each time.
    NonSuccessStatus,
}

impl NotifyError {
    /// The description of the error.
    pub open spec fn text(self) -> Seq<char> {
        match self {
            NotifyError::Network(e) => "Network error: "@ + e@,
            NotifyError::NonSuccessStatus => "Server returned non-success status"@,
        }
    }

    /// Describes the error.
    pub fn to_text(&self) -> (r: String)
        ensures
            r@ == self.text(),
    {
        match self {
            NotifyError::Network(e) => concat2("Network error: ", e.as_str()),
            NotifyError::NonSuccessStatus => "Server returned non-success status".to_owned(),
        }
    }
}

/// How one attempt to send a status ended.
#[derive(Debug)]
pub enum NotifyReply {
    /// The deploy center accepted it.
    Accepted,
    /// The deploy center answered with an error.
    Rejected,
    /// There was no answer.
    Failed(String),
}

/// What to do after an attempt.
#[derive(Debug)]
pub enum NotifyStep {
    /// Wait and send again.
    Retry,
    /// Stop: the status arrived or it did not.
    Done(Result<(), NotifyError>),
}

/// The attempts to send one status.
#[derive(Debug)]
pub struct NotifyAttempts {
    /// Attempts made.
    pub made: u32,
    /// The last network error.
    pub last_error: Option<String>,
}

impl NotifyAttempts {
    /// No attempt was made yet.
    pub fn new() -> (r: NotifyAttempts)
        ensures
            r.made == 0,
            r.last_error is None,
    {
        NotifyAttempts { made: 0, last_error: None }
    }

    /// The last network error after one more reply.
    pub open spec fn error_after(self, reply: NotifyReply) -> Option<String> {
        match reply {
            NotifyReply::Failed(e) => Some(e),
            _ => self.last_error,
        }
    }

    /// Takes the reply to an attempt: an accepted status is done, and the
    /// third attempt is the last one; its failure reports the last network
    /// error where there was any.
    pub fn on_reply(&mut self, reply: NotifyReply) -> (r: NotifyStep)
        requires
            old(self).made < MAX_NOTIFY_ATTEMPTS,
        ensures
            final(self).made == old(self).made + 1,
            final(self).last_error == old(self).error_after(reply),
            reply is Accepted ==> r == NotifyStep::Done(Ok(())),
            !(reply is Accepted) && final(self).made < MAX_NOTIFY_ATTEMPTS ==> r
                == NotifyStep::Retry,
            !(reply is Accepted) && final(self).made == MAX_NOTIFY_ATTEMPTS ==> r
                == NotifyStep::Done(
                match final(self).last_error {
                    Some(e) => Err(NotifyError::Network(e)),
                    None => Err(NotifyError::NonSuccessStatus),
                },
            ),
    {
        self.made = self.made + 1;
        match reply {
            NotifyReply::Accepted => {
                return NotifyStep::Done(Ok(()));
            },
            NotifyReply::Rejected => {},
            NotifyReply::Failed(e) => {
                self.last_error = Some(e);
            },
        }
        if self.made < MAX_NOTIFY_ATTEMPTS {
            return NotifyStep::Retry;
        }
        match &self.last_error {
            Some(e) => NotifyStep::Done(Err(NotifyError::Network(e.clone()))),
            None => NotifyStep::Done(Err(NotifyError::NonSuccessStatus)),
        }
    }
}

/// A log line on its way to the deploy center.
#[derive(Debug)]
pub struct AppendRequest {
    pub url: String,
    pub line: String,
    pub stream: String,
}

impl AppendRequest {
    /// The request carries this line of a task's log to the deploy center at
    /// `center`.
    pub open spec fn is_for(
        self,
        center: Seq<char>,
        task_id: Seq<char>,
        stream: Seq<char>,
        content: Seq<char>,
    ) -> bool {
        &&& self.url@ == center + "/api/deploy/logs/"@ + task_id + "/append"@
        &&& self.line@ == content
        &&& self.stream@ == stream
    }
}

/// A status on its way to the deploy center.
#[derive(Debug)]
pub struct NotifyRequest {
    pub url: String,
    pub status: String,
    pub exit_code: i32,
    pub stages: Option<Vec<DeployStage>>,
}

impl NotifyRequest {
    /// The request carries this status of a task to the deploy center at
    /// `center`.
    pub open spec fn is_for(
        self,
        center: Seq<char>,
        task_id: Seq<char>,
        status: DeployStatus,
        exit_code: i32,
    ) -> bool {
        &&& self.url@ == center + "/api/deploy/logs/"@ + task_id
        &&& self.status@ == status.name()
        &&& self.exit_code == exit_code
    }
}

impl DeployCenterClient {
    /// Where the deploy center is reached.
    pub closed spec fn url(&self) -> Option<Seq<char>> {
        chars::opt_view(self.callback_url)
    }

    /// A client of the deploy center at `callback_url`.
    pub fn new(callback_url: Option<String>) -> (r: DeployCenterClient)
        ensures
            r.url() == chars::opt_view(callback_url),
    {
        DeployCenterClient { callback_url }
    }

    /// Whether the deploy center can be reached at all.
    pub fn has_callback(&self) -> (r: bool)
        ensures
            r == (self.url() is Some),
    {
        self.callback_url.is_some()
    }

    /// Where the deploy center is reached.
    pub fn callback_url(&self) -> (r: Option<&str>)
        ensures
            r is Some <==> self.url() is Some,
            r matches Some(s) ==> self.url() == Some(s@),
    {
        match &self.callback_url {
            Some(u) => Some(u.as_str()),
            None => None,
        }
    }

    /// Where a heartbeat of a task goes.
    pub fn heartbeat(&self, task_id: &str) -> (r: Option<String>)
        ensures
            chars::opt_view(r) == match self.url() {
                Some(u) => Some(u + "/api/deploy/logs/"@ + task_id@ + "/heartbeat"@),
                None => None,
            },
    {
        match &self.callback_url {
            Some(u) => Some(concat4(u.as_str(), "/api/deploy/logs/", task_id, "/heartbeat")),
            None => None,
        }
    }

    /// The request that sends a log line of a task.
    pub fn append_log(&self, task_id: &str, line: &LogLine) -> (r: Option<AppendRequest>)
        ensures
            r is Some <==> self.url() is Some,
            r matches Some(a) ==> a.is_for(self.url()->0, task_id@, line.stream@, line.content@),
    {
        self.append_log_simple(task_id, line.stream.as_str(), line.content.as_str())
    }

    /// The request that sends a log line, given by its stream and its text.
    pub fn append_log_simple(&self, task_id: &str, stream: &str, content: &str) -> (r: Option<
        AppendRequest,
    >)
        ensures
            r is Some <==> self.url() is Some,
            r matches Some(a) ==> a.is_for(self.url()->0, task_id@, stream@, content@),
    {
        match &self.callback_url {
            Some(u) => Some(
                AppendRequest {
                    url: concat4(u.as_str(), "/api/deploy/logs/", task_id, "/append"),
                    line: content.to_owned(),
                    stream: stream.to_owned(),
                },
            ),
            None => None,
        }
    }

    /// The request that sends the status of a task with its stages.
    pub fn notify_status_with_stages(
        &self,
        task_id: &str,
        status: DeployStatus,
        exit_code: i32,
        stages: Vec<DeployStage>,
    ) -> (r: Option<NotifyRequest>)
        ensures
            r is Some <==> self.url() is Some,
            r matches Some(n) ==> n.is_for(self.url()->0, task_id@, status, exit_code)
                && n.stages == Some(stages),
    {
        match &self.callback_url {
            Some(u) => Some(
                NotifyRequest {
                    url: concat3(u.as_str(), "/api/deploy/logs/", task_id),
                    status: status.as_str().to_owned(),
                    exit_code,
                    stages: Some(stages),
                },
            ),
            None => None,
        }
    }

    /// The request that sends the status of a task.
    pub fn notify_status(&self, task_id: &str, status: DeployStatus, exit_code: i32) -> (r: Option<
        NotifyRequest,
    >)
        ensures
            r is Some <==> self.url() is Some,
            r matches Some(n) ==> n.is_for(self.url()->0, task_id@, status, exit_code)
                && n.stages is None,
    {
        match &self.callback_url {
            Some(u) => Some(
                NotifyRequest {
                    url: concat3(u.as_str(), "/api/deploy/logs/", task_id),
                    status: status.as_str().to_owned(),
                    exit_code,
                    stages: None,
                },
            ),
            None => None,
        }
    }

    /// Where the configuration of a project comes from.
    pub fn fetch_config(&self, project_slug: &str) -> (r: Option<String>)
        ensures
            chars::opt_view(r) == match self.url() {
                Some(u) => Some(u + "/api/deploy/agent-config/"@ + project_slug@),
                None => None,
            },
    {
        match &self.callback_url {
            Some(u) => Some(concat3(u.as_str(), "/api/deploy/agent-config/", project_slug)),
            None => None,
        }
    }
}

} // verus!
