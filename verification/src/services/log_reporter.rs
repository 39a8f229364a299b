//! Reporting the agent's own log to the deploy center, so that it can be read
//! while the agent is away.

use vstd::prelude::*;

use crate::api::containers;
use crate::api::containers::nonempty_line_list;
use crate::config::environment::Environment;
use crate::domain::tunnel::TunnelMode;
use crate::infra::deploy_center::DeployCenterClient;
use crate::text::chars;
use crate::text::chars::{concat2, concat3, concat4, strings};
use crate::text::number;
use crate::text::number::decimal;
use crate::text::search;
use crate::text::search::find_from;
use crate::time;
use crate::time::{parse_offset, TextTime, Timestamp};

verus! {

/// Seconds between two reports.
pub const REPORT_INTERVAL_SECS: u64 = 30;

/// How many lines a report holds at most.
pub const MAX_LINES_PER_BATCH: usize = 200;

/// Seconds that the journal may take.
pub const JOURNAL_TIMEOUT_SECS: u64 = 10;

/// Seconds that the deploy center may take.
pub const REPORT_TIMEOUT_SECS: u64 = 10;

/// What is known of the reports so far.
#[derive(Debug)]
pub struct LogReporterState {
    /// Up to when the log has been reported.
    pub last_report: Option<Timestamp>,
    /// How the last report went.
    pub last_result: Option<String>,
}

impl Default for LogReporterState {
    fn default() -> (r: LogReporterState)
        ensures
            r.last_report is None,
            r.last_result is None,
    {
        LogReporterState { last_report: None, last_result: None }
    }
}

/// A line of the log, with its time where it shows one.
#[derive(Debug)]
pub struct LogLineEntry {
    pub line: String,
    pub timestamp: Option<TextTime>,
}

/// A report to the deploy center.
#[derive(Debug)]
pub struct ReportLogsRequest {
    pub agent_id: String,
    pub agent_url: String,
    pub logs: Vec<LogLineEntry>,
}

/// What stands before the first space of a line.
pub open spec fn first_word(line: Seq<char>) -> Seq<char> {
    line.take(search::index_from(line, ' ', 0))
}

/// The time that a line of the journal begins with.
pub open spec fn shows_time(line: Seq<char>, t: Option<TextTime>) -> bool {
    time::time_parts(t) == time::offset_text_instant(first_word(line))
}

/// Reads the time that a line of the journal begins with, such as
/// "2024-01-08T22:42:15+0800 host agent[1]: text".
pub fn parse_journalctl_timestamp(line: &str) -> (r: Option<TextTime>)
    ensures
        shows_time(line@, r),
{
    let all = chars::to_chars(line);
    let end = find_from(&all, ' ', 0);
    let word = chars::from_range(&all, 0, end);
    assert(word@ =~= first_word(line@));
    parse_offset(word.as_str())
}

/// The entries show the lines, in order, with their times.
pub open spec fn entries_of(entries: Seq<LogLineEntry>, lines: Seq<Seq<char>>) -> bool {
    &&& entries.len() == lines.len()
    &&& forall|i: int|
        0 <= i < entries.len() ==> (#[trigger] entries[i]).line@ == lines[i] && shows_time(
            lines[i],
            entries[i].timestamp,
        )
}

/// The lines that a report holds.
pub open spec fn batch(lines: Seq<Seq<char>>) -> Seq<Seq<char>> {
    if lines.len() <= MAX_LINES_PER_BATCH {
        lines
    } else {
        lines.take(MAX_LINES_PER_BATCH as int)
    }
}

/// The report of some lines of the log.
pub fn build_report(agent_id: &str, agent_url: &str, lines: &Vec<String>) -> (r: ReportLogsRequest)
    ensures
        r.agent_id@ == agent_id@,
        r.agent_url@ == agent_url@,
        entries_of(r.logs@, batch(chars::views(lines@))),
{
    let n = if lines.len() <= MAX_LINES_PER_BATCH {
        lines.len()
    } else {
        MAX_LINES_PER_BATCH
    };
    let ghost all = batch(chars::views(lines@));
    let mut logs: Vec<LogLineEntry> = Vec::new();
    let mut i: usize = 0;
    while i < n
        invariant
            n <= lines@.len(),
            i <= n,
            all == batch(chars::views(lines@)),
            n == all.len(),
            entries_of(logs@, all.take(i as int)),
        decreases n - i,
    {
        assert(all[i as int] == lines@[i as int]@);
        logs.push(
            LogLineEntry {
                line: lines[i].clone(),
                timestamp: parse_journalctl_timestamp(lines[i].as_str()),
            },
        );
        i = i + 1;
    }
    assert(all.take(n as int) =~= all);
    ReportLogsRequest { agent_id: agent_id.to_owned(), agent_url: agent_url.to_owned(), logs }
}

/// The arguments of the command that reads the journal since a point in time.
pub fn journal_args(since: &Timestamp) -> (r: Vec<String>)
    ensures
        chars::views(r@) == seq![
            "-u"@,
            "xjp-deploy-agent"@,
            "--since"@,
            time::seconds_text(since.seconds()),
            "--no-pager"@,
            "-o"@,
            "short-iso"@,
            "-n"@,
            number::decimal_spec(MAX_LINES_PER_BATCH as nat),
        ],
{
    let since_text = since.to_seconds_text();
    let count = decimal(MAX_LINES_PER_BATCH as u64);
    let args = strings(
        &[
            "-u",
            "xjp-deploy-agent",
            "--since",
            since_text.as_str(),
            "--no-pager",
            "-o",
            "short-iso",
            "-n",
            count.as_str(),
        ],
    );
    assert(chars::views(args@) =~= seq![
        "-u"@,
        "xjp-deploy-agent"@,
        "--since"@,
        time::seconds_text(since.seconds()),
        "--no-pager"@,
        "-o"@,
        "short-iso"@,
        "-n"@,
        number::decimal_spec(MAX_LINES_PER_BATCH as nat),
    ]);
    args
}

/// The lines that the journal wrote: those that are not empty, and none where
/// the command did not succeed.
pub fn journal_lines(success: bool, stdout: &str) -> (r: Vec<String>)
    ensures
        chars::views(r@) == if success {
            containers::nonempty_lines(stdout@)
        } else {
            Seq::empty()
        },
{
    if !success {
        let r: Vec<String> = Vec::new();
        assert(chars::views(r@) =~= Seq::empty());
        return r;
    }
    nonempty_line_list(stdout)
}

/// The name of this agent.
pub fn get_agent_id(env: &Environment) -> (r: String)
    ensures
        r@ == env.host(),
{
    env.host_name()
}

/// Where this agent is reached.
pub open spec fn agent_url_spec(
    port: u16,
    host: Seq<char>,
    mode: TunnelMode,
    callback: Option<Seq<char>>,
    client_id: Seq<char>,
) -> Seq<char> {
    if mode is Client && callback is Some {
        callback->0 + "/tunnel/proxy/"@ + client_id
    } else {
        "http://"@ + host + ":"@ + number::decimal_spec(port as nat)
    }
}

/// Where this agent is reached: through the tunnel where it is a client of
/// one, and by its own name otherwise.
pub fn get_agent_url(
    port: u16,
    host: &str,
    mode: TunnelMode,
    center: &DeployCenterClient,
    client_id: &str,
) -> (r: String)
    ensures
        r@ == agent_url_spec(port, host@, mode, center.url(), client_id@),
{
    if let TunnelMode::Client = mode {
        if let Some(url) = center.callback_url() {
            return concat3(url, "/tunnel/proxy/", client_id);
        }
    }
    concat4("http://", host, ":", decimal(port as u64).as_str())
}

/// Where a report goes.
pub fn report_url(callback_url: &str, agent_id: &str) -> (r: String)
    ensures
        r@ == callback_url@ + "/api/deploy/agents/"@ + agent_id@ + "/service-logs"@,
{
    concat4(callback_url, "/api/deploy/agents/", agent_id, "/service-logs")
}

impl LogReporterState {
    /// Since when the log is to be reported at `now`: since the last report,
    /// or for one interval where there was none.
    pub fn since(&self, now: Timestamp) -> (r: Option<Timestamp>)
        ensures
            match self.last_report {
                Some(t) => r == Some(t),
                None => {
                    &&& r is Some <==> time::MIN_SECONDS <= now.seconds() - REPORT_INTERVAL_SECS
                        <= time::MAX_SECONDS
                    &&& r matches Some(t) ==> t.instant() == now.instant() - REPORT_INTERVAL_SECS
                        * 1_000_000_000
                },
            },
    {
        match self.last_report {
            Some(t) => Some(t),
            None => now.plus_seconds(-30),
        }
    }

    /// There was nothing to report at `now`.
    pub fn on_nothing(&mut self, now: Timestamp)
        ensures
            final(self).last_report == Some(now),
            chars::opt_view(final(self).last_result) == Some("No new logs"@),
    {
        self.last_report = Some(now);
        self.last_result = Some("No new logs".to_owned());
    }

    /// Takes the answer of the deploy center to a report of `count` lines at
    /// `now`, or the reason why there is none. Only an accepted report moves
    /// the point up to which the log is reported.
    pub fn on_reply(
        &mut self,
        now: Timestamp,
        count: usize,
        reply: Result<(bool, String, String), String>,
    ) -> (r: Result<(), String>)
        ensures
            reply matches Ok((true, status, body)) ==> {
                &&& r is Ok
                &&& final(self).last_report == Some(now)
                &&& chars::opt_view(final(self).last_result) == Some(
                    "Reported "@ + number::decimal_spec(count as nat) + " logs"@,
                )
            },
            reply matches Ok((false, status, body)) ==> {
                &&& r is Err
                &&& r->Err_0@ == "HTTP "@ + status@ + ": "@ + body@
            },
            reply matches Err(e) ==> r is Err && r->Err_0@ == e@,
            r is Err ==> {
                &&& final(self).last_report == old(self).last_report
                &&& chars::opt_view(final(self).last_result) == Some("Error: "@ + r->Err_0@)
            },
    {
        let error = match reply {
            Ok((accepted, status, body)) => {
                if accepted {
                    self.last_report = Some(now);
                    self.last_result = Some(
                        concat3("Reported ", decimal(count as u64).as_str(), " logs"),
                    );
                    return Ok(());
                }
                concat4("HTTP ", status.as_str(), ": ", body.as_str())
            },
            Err(e) => e,
        };
        self.last_result = Some(concat2("Error: ", error.as_str()));
        Err(error)
    }
}


} // verus!
