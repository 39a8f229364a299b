//! Commands, updates and logs that are asked for, and the configuration of
//! the agent.

use vstd::prelude::*;

use crate::config::autoupdate::{AutoUpdateConfig, AutoUpdateState, UpdateMetadata, UpdateProgress};
use crate::domain::tunnel::TunnelMode;
use crate::error::{ApiError, ApiResult};
use crate::services::deploy::action::ProcessOutput;
use crate::state::app_state::AppState;
use crate::text::chars;
use crate::text::chars::{concat2, concat3, concat4, str_eq, strings};
use crate::text::number;
use crate::text::number::{decimal, signed_decimal};
use crate::text::split;
use crate::text::split::lines;
use crate::time;
use crate::time::Timestamp;

verus! {

/// How many lines of the agent's log are given at most.
pub const MAX_AGENT_LOG_LINES: u32 = 200;

/// How many lines a stream of the agent's log begins with at most.
pub const MAX_INITIAL_LINES: u32 = 100;

/// A command to run.
#[derive(Debug)]
pub struct ExecRequest {
    pub command: String,
    pub cwd: Option<String>,
    /// Time limit in seconds.
    pub timeout: u64,
}

/// What a command left behind.
#[derive(Debug)]
pub struct ExecResponse {
    pub success: bool,
    pub exit_code: Option<i32>,
    pub stdout: String,
    pub stderr: String,
}

/// A request to update at once.
#[derive(Debug)]
pub struct ForceUpdateRequest {
    /// The version that the update must lead to.
    pub version: Option<String>,
}

/// Which lines of a service's log to give.
#[derive(Debug)]
pub struct ServiceLogsQuery {
    pub lines: u32,
    /// Such as "5m", "1h" or "1d".
    pub since: Option<String>,
    pub service: String,
}

/// How many lines of the agent's log to give.
#[derive(Debug)]
pub struct AgentLogsQuery {
    pub lines: u32,
}

/// How many lines a stream of the agent's log begins with.
#[derive(Debug)]
pub struct StreamLogsQuery {
    pub initial: u32,
}

/// The time limit of a command where the request does not say, in seconds.
pub fn default_timeout() -> (r: u64)
    ensures
        r == 60,
{
    60
}

/// How many lines of a service's log are given where the request does not
/// say.
pub fn default_lines() -> (r: u32)
    ensures
        r == 100,
{
    100
}

/// The service whose log is given where the request does not say.
pub fn default_service_name() -> (r: String)
    ensures
        r@ == "xjp-deploy-agent"@,
{
    "xjp-deploy-agent".to_owned()
}

/// How many lines of the agent's log are given where the request does not
/// say.
pub fn default_agent_log_lines() -> (r: u32)
    ensures
        r == 100,
{
    100
}

/// How many lines a stream of the agent's log begins with where the request
/// does not say.
pub fn default_initial_lines() -> (r: u32)
    ensures
        r == 50,
{
    50
}

/// What is left of `a` by the positive `b` when the quotient is rounded
/// towards zero.
pub open spec fn rest(a: int, b: int) -> int {
    a - b * time::quotient(a, b)
}

/// A time in days, hours, minutes and seconds.
pub open spec fn uptime_text_spec(secs: int) -> Seq<char> {
    number::signed_decimal_spec(time::quotient(secs, 86400)) + "d "@ + number::signed_decimal_spec(
        time::quotient(rest(secs, 86400), 3600),
    ) + "h "@ + number::signed_decimal_spec(time::quotient(rest(secs, 3600), 60)) + "m "@
        + number::signed_decimal_spec(rest(secs, 60)) + "s"@
}

/// The quotient, rounded towards zero, and what is left.
fn divide(a: i64, b: i64) -> (r: (i64, i64))
    requires
        0 < b <= 86400,
    ensures
        r.0 == time::quotient(a as int, b as int),
        r.1 == rest(a as int, b as int),
{
    let wide: i128 = a as i128;
    let by: i128 = b as i128;
    let q: i128 = if wide >= 0 {
        wide / by
    } else {
        -((-wide) / by)
    };
    proof {
        let m: int = if a >= 0 {
            a as int
        } else {
            -(a as int)
        };
        let d = m / (b as int);
        assert(0 <= d <= m && 0 <= m - d * (b as int) < b) by (nonlinear_arith)
            requires
                m >= 0,
                b > 0,
                d == m / (b as int),
        ;
        assert(q * (b as int) == if a >= 0 {
            d * (b as int)
        } else {
            -(d * (b as int))
        }) by (nonlinear_arith)
            requires
                q == if a >= 0 {
                    d
                } else {
                    -d
                },
        ;
        assert(q * (b as int) == (b as int) * q) by (nonlinear_arith);
    }
    let left: i128 = wide - q * by;
    (q as i64, left as i64)
}

/// Writes a time in days, hours, minutes and seconds.
pub fn uptime_text(secs: i64) -> (r: String)
    ensures
        r@ == uptime_text_spec(secs as int),
{
    let (days, in_day) = divide(secs, 86400);
    let (hours, _) = divide(in_day, 3600);
    let (_, in_hour) = divide(secs, 3600);
    let (minutes, _) = divide(in_hour, 60);
    let (_, seconds) = divide(secs, 60);
    let mut r = concat4(
        signed_decimal(days).as_str(),
        "d ",
        signed_decimal(hours).as_str(),
        "h ",
    );
    r.append(signed_decimal(minutes).as_str());
    r.append("m ");
    r.append(signed_decimal(seconds).as_str());
    r.append("s");
    r
}

/// How long the agent has been running at `now`.
pub fn uptime(state: &AppState, now: &Timestamp) -> (r: String)
    ensures
        r@ == uptime_text_spec(
            time::quotient(now.instant() - state.started_at.instant(), 1_000_000_000),
        ),
{
    uptime_text(now.seconds_since(&state.started_at))
}

/// The arguments of the shell that runs a command.
pub fn exec_args(request: &ExecRequest) -> (r: Vec<String>)
    ensures
        chars::views(r@) == seq!["-c"@, request.command@],
{
    let r = strings(&["-c", request.command.as_str()]);
    assert(chars::views(r@) =~= seq!["-c"@, request.command@]);
    r
}

/// What became of a command with a time limit.
#[derive(Debug)]
pub enum TimedOutput {
    /// It ended.
    Ended(ProcessOutput),
    /// It could not run.
    NotRun(String),
    /// The time was over.
    TimedOut,
}

/// The answer to a request to run a command.
pub fn exec_command(request: &ExecRequest, outcome: TimedOutput) -> (r: ApiResult<ExecResponse>)
    ensures
        match outcome {
            TimedOutput::Ended(o) => {
                &&& r matches Ok(e)
                &&& e.success == o@.success()
                &&& e.exit_code == o.code
                &&& e.stdout == o.stdout
                &&& e.stderr == o.stderr
            },
            TimedOutput::NotRun(why) => {
                &&& r matches Err(e)
                &&& e is Internal
                &&& e.parts().1 == "Failed to execute command: "@ + why@
            },
            TimedOutput::TimedOut => {
                &&& r matches Err(e)
                &&& e is Internal
                &&& e.parts().1 == "Command timed out after "@ + number::decimal_spec(
                    request.timeout as nat,
                ) + " seconds"@
            },
        },
{
    match outcome {
        TimedOutput::Ended(o) => Ok(
            ExecResponse {
                success: o.is_success(),
                exit_code: o.code,
                stdout: o.stdout,
                stderr: o.stderr,
            },
        ),
        TimedOutput::NotRun(why) => Err(
            ApiError::internal(concat2("Failed to execute command: ", why.as_str()).as_str()),
        ),
        TimedOutput::TimedOut => Err(
            ApiError::internal(
                concat3(
                    "Command timed out after ",
                    decimal(request.timeout).as_str(),
                    " seconds",
                ).as_str(),
            ),
        ),
    }
}

/// Begins an update that is asked for: gives the place of the description of
/// the latest version. There is none where updates are not configured.
pub fn force_update(state: &mut AppState) -> (r: ApiResult<String>)
    ensures
        match old(state).auto_update_config {
            Some(c) => {
                &&& r matches Ok(url)
                &&& url@ == c.endpoint@ + "/"@ + c.metadata_path@
                &&& *final(state) == (AppState {
                    auto_update_state: AutoUpdateState {
                        update_progress: UpdateProgress::Checking,
                        ..old(state).auto_update_state
                    },
                    ..*old(state)
                })
            },
            None => {
                &&& r matches Err(e)
                &&& e is BadRequest
                &&& e.parts().1 == "Auto-update is not configured on this agent"@
                &&& *final(state) == *old(state)
            },
        },
{
    let url = match &state.auto_update_config {
        Some(c) => c.metadata_url(),
        None => {
            return Err(ApiError::bad_request("Auto-update is not configured on this agent"));
        },
    };
    state.auto_update_state.update_progress = UpdateProgress::Checking;
    Ok(url)
}

/// What became of the request for the description of the latest version.
#[derive(Debug)]
pub enum FetchedMetadata {
    /// The description.
    Read(UpdateMetadata),
    /// It could not be fetched.
    NotFetched(String),
    /// It could not be read.
    NotRead(String),
}

/// The answer to a request to update at once.
#[derive(Debug)]
pub struct ForceUpdateResponse {
    pub status: String,
    pub target_version: String,
    pub message: String,
}

/// The description is not of the version that was asked for.
pub open spec fn is_other_version(request: ForceUpdateRequest, metadata: UpdateMetadata) -> bool {
    request.version matches Some(v) && metadata.version@ != v@
}

/// Goes on with an update that was asked for, with the description of the
/// latest version: the update to it is available, and the answer says that it
/// begins. It is refused where the description is not there or is of another
/// version than the one asked for.
pub fn force_update_to(
    state: &mut AppState,
    request: &ForceUpdateRequest,
    fetched: &FetchedMetadata,
) -> (r: ApiResult<ForceUpdateResponse>)
    ensures
        match *fetched {
            FetchedMetadata::NotFetched(why) => {
                &&& r matches Err(e)
                &&& e is Internal
                &&& e.parts().1 == "Failed to fetch update metadata: "@ + why@
            },
            FetchedMetadata::NotRead(why) => {
                &&& r matches Err(e)
                &&& e is Internal
                &&& e.parts().1 == "Failed to parse update metadata: "@ + why@
            },
            FetchedMetadata::Read(m) => if is_other_version(*request, m) {
                &&& r matches Err(e)
                &&& e is BadRequest
                &&& e.parts().1 == "Requested version "@ + request.version->0@
                    + " not found. Latest available: "@ + m.version@
            } else {
                &&& r matches Ok(u)
                &&& u.status@ == "update_started"@
                &&& u.target_version@ == match request.version {
                    Some(v) => v@,
                    None => "latest"@,
                }
                &&& u.message@
                    == "Update process started in background. The agent will restart if successful."@
                &&& *final(state) == (AppState {
                    auto_update_state: AutoUpdateState {
                        latest_version: Some(m.version),
                        update_available: true,
                        ..old(state).auto_update_state
                    },
                    ..*old(state)
                })
            },
        },
        r is Err ==> *final(state) == *old(state),
{
    match fetched {
        FetchedMetadata::NotFetched(why) => Err(
            ApiError::internal(
                concat2("Failed to fetch update metadata: ", why.as_str()).as_str(),
            ),
        ),
        FetchedMetadata::NotRead(why) => Err(
            ApiError::internal(
                concat2("Failed to parse update metadata: ", why.as_str()).as_str(),
            ),
        ),
        FetchedMetadata::Read(m) => {
            if let Some(v) = &request.version {
                if !str_eq(m.version.as_str(), v.as_str()) {
                    return Err(
                        ApiError::bad_request(
                            concat4(
                                "Requested version ",
                                v.as_str(),
                                " not found. Latest available: ",
                                m.version.as_str(),
                            ).as_str(),
                        ),
                    );
                }
            }
            state.auto_update_state.latest_version = Some(m.version.clone());
            state.auto_update_state.update_available = true;
            let target_version = match &request.version {
                Some(v) => v.clone(),
                None => "latest".to_owned(),
            };
            Ok(
                ForceUpdateResponse {
                    status: "update_started".to_owned(),
                    target_version,
                    message:
                        "Update process started in background. The agent will restart if successful.".to_owned(),
                },
            )
        },
    }
}

/// The arguments of journalctl that give the log of a service.
pub fn service_log_args(query: &ServiceLogsQuery) -> (r: Vec<String>)
    ensures
        chars::views(r@) == seq![
            "-u"@,
            query.service@,
            "-n"@,
            number::decimal_spec(query.lines as nat),
            "--no-pager"@,
        ] + match query.since {
            Some(s) => seq!["--since"@, s@],
            None => seq![],
        },
{
    let count = decimal(query.lines as u64);
    let mut r = strings(
        &["-u", query.service.as_str(), "-n", count.as_str(), "--no-pager"],
    );
    let ghost base = seq![
        "-u"@,
        query.service@,
        "-n"@,
        number::decimal_spec(query.lines as nat),
        "--no-pager"@,
    ];
    assert(chars::views(r@) =~= base);
    if let Some(s) = &query.since {
        r.push("--since".to_owned());
        r.push(s.clone());
        assert(chars::views(r@) =~= base + seq!["--since"@, s@]);
    } else {
        assert(chars::views(r@) =~= base + Seq::<Seq<char>>::empty());
    }
    r
}

/// The error output where there is any, or else the standard output.
pub open spec fn complaint(o: ProcessOutput) -> Seq<char> {
    if o.stderr@.len() == 0 {
        o.stdout@
    } else {
        o.stderr@
    }
}

fn complaint_of(o: &ProcessOutput) -> (r: String)
    ensures
        r@ == complaint(*o),
{
    if o.stderr.as_str().is_empty() {
        o.stdout.clone()
    } else {
        o.stderr.clone()
    }
}

/// The log of a service.
pub fn get_service_logs(outcome: TimedOutput) -> (r: ApiResult<String>)
    ensures
        match outcome {
            TimedOutput::Ended(o) => if o@.success() {
                r == Ok::<String, ApiError>(o.stdout)
            } else {
                &&& r matches Err(e)
                &&& e is Internal
                &&& e.parts().1 == "journalctl failed: "@ + complaint(o)
            },
            TimedOutput::NotRun(why) => {
                &&& r matches Err(e)
                &&& e is Internal
                &&& e.parts().1 == "Failed to execute journalctl: "@ + why@
            },
            TimedOutput::TimedOut => {
                &&& r matches Err(e)
                &&& e is Internal
                &&& e.parts().1 == "journalctl command timed out"@
            },
        },
{
    match outcome {
        TimedOutput::Ended(o) => if o.is_success() {
            Ok(o.stdout)
        } else {
            Err(
                ApiError::internal(
                    concat2("journalctl failed: ", complaint_of(&o).as_str()).as_str(),
                ),
            )
        },
        TimedOutput::NotRun(why) => Err(
            ApiError::internal(
                concat2("Failed to execute journalctl: ", why.as_str()).as_str(),
            ),
        ),
        TimedOutput::TimedOut => Err(ApiError::internal("journalctl command timed out")),
    }
}

/// The arguments of journalctl that give the last lines of the agent's log.
pub open spec fn agent_log_args_spec(count: nat) -> Seq<Seq<char>> {
    seq![
        "-u"@,
        "xjp-deploy-agent"@,
        "-n"@,
        number::decimal_spec(count),
        "--no-pager"@,
        "-o"@,
        "short-iso"@,
    ]
}

fn last_lines_args(count: u32) -> (r: Vec<String>)
    ensures
        chars::views(r@) == agent_log_args_spec(count as nat),
{
    let text = decimal(count as u64);
    let r = strings(
        &["-u", "xjp-deploy-agent", "-n", text.as_str(), "--no-pager", "-o", "short-iso"],
    );
    assert(chars::views(r@) =~= agent_log_args_spec(count as nat));
    r
}

/// The smaller one.
pub open spec fn smaller(a: u32, b: u32) -> u32 {
    if a < b {
        a
    } else {
        b
    }
}

/// The arguments of journalctl that give the agent's log, at most 200 lines of
/// it.
pub fn agent_log_args(query: &AgentLogsQuery) -> (r: Vec<String>)
    ensures
        chars::views(r@) == agent_log_args_spec(smaller(query.lines, MAX_AGENT_LOG_LINES) as nat),
{
    let count = if query.lines < MAX_AGENT_LOG_LINES {
        query.lines
    } else {
        MAX_AGENT_LOG_LINES
    };
    last_lines_args(count)
}

/// The arguments of journalctl that give the lines that a stream of the
/// agent's log begins with, at most 100.
pub fn initial_log_args(query: &StreamLogsQuery) -> (r: Vec<String>)
    ensures
        chars::views(r@) == agent_log_args_spec(smaller(query.initial, MAX_INITIAL_LINES) as nat),
{
    let count = if query.initial < MAX_INITIAL_LINES {
        query.initial
    } else {
        MAX_INITIAL_LINES
    };
    last_lines_args(count)
}

/// The arguments of journalctl that follow the agent's log.
pub fn follow_log_args() -> (r: Vec<String>)
    ensures
        chars::views(r@) == seq![
            "-u"@,
            "xjp-deploy-agent"@,
            "-f"@,
            "--no-pager"@,
            "-o"@,
            "short-iso"@,
        ],
{
    let r = strings(&["-u", "xjp-deploy-agent", "-f", "--no-pager", "-o", "short-iso"]);
    assert(chars::views(r@) =~= seq![
        "-u"@,
        "xjp-deploy-agent"@,
        "-f"@,
        "--no-pager"@,
        "-o"@,
        "short-iso"@,
    ]);
    r
}

/// The agent's log, or why it is not there.
#[derive(Debug)]
pub struct AgentLogs {
    pub lines: usize,
    pub logs: Vec<String>,
    pub error: Option<String>,
}

impl AgentLogs {
    /// There is no log, for this reason.
    pub open spec fn is_missing(self, why: Seq<char>) -> bool {
        &&& self.lines == 0
        &&& self.logs@.len() == 0
        &&& chars::opt_view(self.error) == Some(why)
    }

    fn missing(why: String) -> (r: AgentLogs)
        ensures
            r.is_missing(why@),
    {
        AgentLogs { lines: 0, logs: Vec::new(), error: Some(why) }
    }
}

/// The agent's log, line by line. A failure is no error of the request.
pub fn get_agent_logs(outcome: TimedOutput) -> (r: AgentLogs)
    ensures
        match outcome {
            TimedOutput::Ended(o) => if o@.success() {
                &&& chars::views(r.logs@) == split::lines_spec(o.stdout@)
                &&& r.lines == r.logs@.len()
                &&& r.error is None
            } else {
                r.is_missing(complaint(o))
            },
            TimedOutput::NotRun(why) => r.is_missing("Failed to execute journalctl: "@ + why@),
            TimedOutput::TimedOut => r.is_missing("journalctl command timed out"@),
        },
{
    match outcome {
        TimedOutput::Ended(o) => if o.is_success() {
            let logs = lines(o.stdout.as_str());
            let count = logs.len();
            AgentLogs { lines: count, logs, error: None }
        } else {
            AgentLogs::missing(complaint_of(&o))
        },
        TimedOutput::NotRun(why) => AgentLogs::missing(
            concat2("Failed to execute journalctl: ", why.as_str()),
        ),
        TimedOutput::TimedOut => AgentLogs::missing("journalctl command timed out".to_owned()),
    }
}

/// A message of a stream: its kind, where it has one, and its text.
#[derive(Debug)]
pub struct StreamMessage {
    pub event: Option<String>,
    pub data: String,
}

/// The contents of a list of messages.
pub open spec fn messages(v: Seq<StreamMessage>) -> Seq<(Option<Seq<char>>, Seq<char>)> {
    v.map_values(|m: StreamMessage| (chars::opt_view(m.event), m.data@))
}

/// What a stream of the agent's log begins with: the lines that are there,
/// where the command ran, and a mark behind them.
pub fn stream_agent_logs(history: Option<&str>) -> (r: Vec<StreamMessage>)
    ensures
        messages(r@) == (match history {
            Some(text) => split::lines_spec(text@).map_values(
                |l: Seq<char>| (None::<Seq<char>>, l),
            ),
            None => Seq::empty(),
        }).push((Some("history_end"@), "---"@)),
{
    let mut r: Vec<StreamMessage> = Vec::new();
    assert(messages(r@) =~= Seq::empty());
    if let Some(text) = history {
        let list = lines(text);
        let ghost all = split::lines_spec(text@).map_values(
            |l: Seq<char>| (None::<Seq<char>>, l),
        );
        let n = list.len();
        let mut i: usize = 0;
        assert(messages(r@) =~= all.take(0));
        while i < n
            invariant
                n == list@.len(),
                i <= n,
                chars::views(list@) == split::lines_spec(text@),
                all == split::lines_spec(text@).map_values(
                    |l: Seq<char>| (None::<Seq<char>>, l),
                ),
                messages(r@) == all.take(i as int),
            decreases n - i,
        {
            let ghost before = r@;
            assert(list@[i as int]@ == chars::views(list@)[i as int]);
            r.push(StreamMessage { event: None, data: list[i].clone() });
            i = i + 1;
            assert(messages(r@) =~= messages(before).push((None::<Seq<char>>, all[i - 1].1)));
            assert(messages(r@) =~= all.take(i as int));
        }
        assert(all.take(n as int) =~= all);
    }
    let ghost before = r@;
    r.push(StreamMessage { event: Some("history_end".to_owned()), data: "---".to_owned() });
    assert(messages(r@) =~= messages(before).push((Some("history_end"@), "---"@)));
    r
}

/// What a stream of the agent's log ends with: why the log could not be
/// followed, where it could not, and the mark of the end.
pub fn stream_ended(failure: Option<&str>) -> (r: Vec<StreamMessage>)
    ensures
        messages(r@) == match failure {
            Some(why) => seq![
                (Some("error"@), "Failed to start log stream: "@ + why@),
                (Some("end"@), "Stream ended"@),
            ],
            None => seq![(Some("end"@), "Stream ended"@)],
        },
{
    let mut r: Vec<StreamMessage> = Vec::new();
    if let Some(why) = failure {
        r.push(
            StreamMessage {
                event: Some("error".to_owned()),
                data: concat2("Failed to start log stream: ", why),
            },
        );
    }
    r.push(StreamMessage { event: Some("end".to_owned()), data: "Stream ended".to_owned() });
    assert(messages(r@) =~= match failure {
        Some(why) => seq![
            (Some("error"@), "Failed to start log stream: "@ + why@),
            (Some("end"@), "Stream ended"@),
        ],
        None => seq![(Some("end"@), "Stream ended"@)],
    });
    r
}

/// A project, for the report on the configuration.
#[derive(Debug)]
pub struct ProjectSummary {
    pub name: String,
    pub work_dir: String,
    pub deploy_type: String,
}

/// The report on the configuration.
#[derive(Debug)]
pub struct ConfigReport {
    pub version: String,
    pub started_at: String,
    pub port: u16,
    pub callback_url: Option<String>,
    pub projects: Vec<ProjectSummary>,
    pub auto_update: Option<AutoUpdateConfig>,
    pub tunnel_mode: String,
    pub tunnel_server_url: Option<String>,
    pub tunnel_port_mappings: usize,
    pub api_key_configured: bool,
}

/// The report on a project.
pub open spec fn project_shown(
    shown: ProjectSummary,
    name: Seq<char>,
    project: crate::config::project::ProjectConfig,
) -> bool {
    &&& shown.name@ == name
    &&& shown.work_dir == project.work_dir
    &&& shown.deploy_type@ == project.deploy_type.kind_name()
}

/// The name of a tunnel mode in the report on the configuration.
pub open spec fn mode_name(mode: TunnelMode) -> Seq<char> {
    match mode {
        TunnelMode::Disabled => "Disabled"@,
        TunnelMode::Server => "Server"@,
        TunnelMode::Client => "Client"@,
    }
}

fn project_summaries(state: &AppState) -> (r: Vec<ProjectSummary>)
    ensures
        r@.len() == state.projects.keys().len(),
        state.projects.keys().no_duplicates(),
        state.projects.keys().to_set() == state.projects@.dom(),
        forall|i: int|
            0 <= i < r@.len() ==> project_shown(
                #[trigger] r@[i],
                state.projects.keys()[i],
                state.projects@[state.projects.keys()[i]],
            ),
{
    let n = state.projects.len();
    let mut r: Vec<ProjectSummary> = Vec::new();
    let mut i: usize = 0;
    while i < n
        invariant
            n == state.projects.keys().len(),
            i <= n,
            r@.len() == i,
            forall|j: int|
                0 <= j < i ==> project_shown(
                    #[trigger] r@[j],
                    state.projects.keys()[j],
                    state.projects@[state.projects.keys()[j]],
                ),
        decreases n - i,
    {
        let project = state.projects.value_at(i);
        r.push(
            ProjectSummary {
                name: state.projects.key_at(i).clone(),
                work_dir: project.work_dir.clone(),
                deploy_type: project.deploy_type.name().to_owned(),
            },
        );
        i = i + 1;
    }
    r
}

/// The report on the configuration of the agent in this version. It does not
/// hold the API key.
pub fn get_config(state: &AppState, version: &str) -> (r: ConfigReport)
    ensures
        r.version@ == version@,
        r.started_at@ == time::rfc3339_text(state.started_at.seconds(), state.started_at.subsec()),
        r.port == state.config.port,
        r.callback_url == state.config.callback_url,
        r.projects@.len() == state.projects.keys().len(),
        state.projects.keys().no_duplicates(),
        state.projects.keys().to_set() == state.projects@.dom(),
        forall|i: int|
            0 <= i < r.projects@.len() ==> project_shown(
                #[trigger] r.projects@[i],
                state.projects.keys()[i],
                state.projects@[state.projects.keys()[i]],
            ),
        r.auto_update == state.auto_update_config,
        r.tunnel_mode@ == mode_name(state.tunnel_mode),
        r.tunnel_server_url == if state.tunnel_server_url@.len() == 0 {
            None
        } else {
            Some(state.tunnel_server_url)
        },
        r.tunnel_port_mappings == state.tunnel_port_mappings@.len(),
        r.api_key_configured == (state.api_key@.len() > 0),
{
    let tunnel_mode = match state.tunnel_mode {
        TunnelMode::Disabled => "Disabled",
        TunnelMode::Server => "Server",
        TunnelMode::Client => "Client",
    };
    let tunnel_server_url = if state.tunnel_server_url.as_str().is_empty() {
        None
    } else {
        Some(state.tunnel_server_url.clone())
    };
    let auto_update = match &state.auto_update_config {
        Some(c) => Some(c.clone()),
        None => None,
    };
    ConfigReport {
        version: version.to_owned(),
        started_at: state.started_at.to_rfc3339(),
        port: state.config.port,
        callback_url: state.config.callback_url.clone(),
        projects: project_summaries(state),
        auto_update,
        tunnel_mode: tunnel_mode.to_owned(),
        tunnel_server_url,
        tunnel_port_mappings: state.tunnel_port_mappings.len(),
        api_key_configured: !state.api_key.as_str().is_empty(),
    }
}

} // verus!
