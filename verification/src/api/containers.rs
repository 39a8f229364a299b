//! Containers: the docker commands, and what their output means.

use vstd::prelude::*;

use crate::collections;
use crate::domain::container;
use crate::domain::container::{
    ContainerEnvResponse, ContainerInfo, ContainerLogsQuery, ContainerLogsResponse,
    ContainersResponse, EnvVar,
};
use crate::error::{ApiError, ApiResult};
use crate::infra::command::CommandOutput;
use crate::text::case;
use crate::text::chars;
use crate::text::chars::{concat2, concat3};
use crate::text::number;
use crate::text::number::decimal;
use crate::text::search;
use crate::text::search::contains;
use crate::text::split;
use crate::text::split::{lines, split, split_once, trim};

verus! {

/// The value that stands in for a secret.
pub open spec fn redacted() -> Seq<char> {
    "***REDACTED***"@
}

/// The field at index `i` of a line, or nothing where the line is shorter.
pub open spec fn field(parts: Seq<Seq<char>>, i: int) -> Seq<char> {
    if i < parts.len() {
        parts[i]
    } else {
        Seq::empty()
    }
}

/// The item without white space around it, where anything is left.
pub open spec fn trimmed_item(s: Seq<char>) -> Option<Seq<char>> {
    if split::trim_spec(s).len() > 0 {
        Some(split::trim_spec(s))
    } else {
        None
    }
}

/// The items between commas.
pub open spec fn port_items(s: Seq<char>) -> Seq<Seq<char>> {
    collections::keep_some(split::split_spec(s, ',').map_values(|p: Seq<char>| trimmed_item(p)))
}

/// The container that a line of the listing describes.
pub open spec fn container_of(line: Seq<char>) -> Option<container::ContainerInfoView> {
    if line.len() == 0 {
        None
    } else {
        let parts = split::split_spec(line, '|');
        Some(
            container::ContainerInfoView {
                id: field(parts, 0),
                name: field(parts, 1),
                image: field(parts, 2),
                status: field(parts, 3),
                state: field(parts, 4),
                created: field(parts, 5),
                ports: port_items(field(parts, 6)),
            },
        )
    }
}

/// The containers that the listing describes.
pub open spec fn containers_of(stdout: Seq<char>) -> Seq<container::ContainerInfoView> {
    collections::keep_some(
        split::lines_spec(stdout).map_values(|line: Seq<char>| container_of(line)),
    )
}

/// The arguments of the docker command that lists all containers.
pub fn list_containers_args() -> (r: Vec<String>)
    ensures
        chars::views(r@) == seq![
            "ps"@,
            "-a"@,
            "--format"@,
            "{{.ID}}|{{.Names}}|{{.Image}}|{{.Status}}|{{.State}}|{{.CreatedAt}}|{{.Ports}}"@,
        ],
{
    let mut r: Vec<String> = Vec::new();
    r.push("ps".to_owned());
    r.push("-a".to_owned());
    r.push("--format".to_owned());
    r.push(
        "{{.ID}}|{{.Names}}|{{.Image}}|{{.Status}}|{{.State}}|{{.CreatedAt}}|{{.Ports}}".to_owned(),
    );
    assert(chars::views(r@) =~= seq![
        "ps"@,
        "-a"@,
        "--format"@,
        "{{.ID}}|{{.Names}}|{{.Image}}|{{.Status}}|{{.State}}|{{.CreatedAt}}|{{.Ports}}"@,
    ]);
    r
}

fn part_at(parts: &Vec<String>, i: usize) -> (r: String)
    ensures
        r@ == field(chars::views(parts@), i as int),
{
    if i < parts.len() {
        parts[i].clone()
    } else {
        String::new()
    }
}

fn parse_ports(s: &str) -> (r: Vec<String>)
    ensures
        chars::views(r@) == port_items(s@),
{
    let items = split(s, ',');
    let ghost all = split::split_spec(s@, ',').map_values(|p: Seq<char>| trimmed_item(p));
    let mut r: Vec<String> = Vec::new();
    let mut i: usize = 0;
    assert(chars::views(r@) =~= collections::keep_some(all.take(0)));
    while i < items.len()
        invariant
            i <= items@.len(),
            chars::views(items@) == split::split_spec(s@, ','),
            all == split::split_spec(s@, ',').map_values(|p: Seq<char>| trimmed_item(p)),
            chars::views(r@) == collections::keep_some(all.take(i as int)),
        decreases items@.len() - i,
    {
        proof {
            collections::lemma_keep_some_step(all, i as int);
            assert(items@[i as int]@ == chars::views(items@)[i as int]);
        }
        let t = trim(items[i].as_str());
        if !t.as_str().is_empty() {
            let ghost before = r@;
            r.push(t);
            assert(chars::views(r@) =~= chars::views(before).push(t@));
        }
        i = i + 1;
    }
    assert(all.take(all.len() as int) =~= all);
    r
}

/// The contents of a list of containers.
pub open spec fn container_views(v: Seq<ContainerInfo>) -> Seq<container::ContainerInfoView> {
    v.map_values(|c: ContainerInfo| c@)
}

/// Reads the listing.
pub fn parse_containers(stdout: &str) -> (r: Vec<ContainerInfo>)
    ensures
        container_views(r@) == containers_of(stdout@),
{
    let all_lines = lines(stdout);
    let ghost all = split::lines_spec(stdout@).map_values(|line: Seq<char>| container_of(line));
    let mut r: Vec<ContainerInfo> = Vec::new();
    let mut i: usize = 0;
    assert(container_views(r@) =~= collections::keep_some(all.take(0)));
    while i < all_lines.len()
        invariant
            i <= all_lines@.len(),
            chars::views(all_lines@) == split::lines_spec(stdout@),
            all == split::lines_spec(stdout@).map_values(|line: Seq<char>| container_of(line)),
            container_views(r@) == collections::keep_some(all.take(i as int)),
        decreases all_lines@.len() - i,
    {
        proof {
            collections::lemma_keep_some_step(all, i as int);
            assert(all_lines@[i as int]@ == chars::views(all_lines@)[i as int]);
        }
        let line = all_lines[i].as_str();
        if !line.is_empty() {
            let parts = split(line, '|');
            let ports_text = part_at(&parts, 6);
            let c = ContainerInfo {
                id: part_at(&parts, 0),
                name: part_at(&parts, 1),
                image: part_at(&parts, 2),
                status: part_at(&parts, 3),
                state: part_at(&parts, 4),
                created: part_at(&parts, 5),
                ports: parse_ports(ports_text.as_str()),
            };
            let ghost before = r@;
            r.push(c);
            assert(container_views(r@) =~= container_views(before).push(c@));
        }
        i = i + 1;
    }
    assert(all.take(all.len() as int) =~= all);
    r
}

/// Answers the request for all containers from what the listing command gave:
/// its output, or why it could not run.
pub fn list_containers(output: Result<CommandOutput, String>) -> (r: ApiResult<ContainersResponse>)
    ensures
        match output {
            Err(e) => r is Err && r->Err_0 is Internal && r->Err_0.parts().1
                == "Failed to list containers: "@ + e@,
            Ok(o) => if o.success {
                r is Ok && container_views(r->Ok_0.containers@) == containers_of(o.stdout@)
            } else {
                r is Err && r->Err_0 is Internal && r->Err_0.parts().1
                    == "Docker command failed: "@ + o.stderr@
            },
        },
{
    match output {
        Err(e) => Err(
            ApiError::internal(concat2("Failed to list containers: ", e.as_str()).as_str()),
        ),
        Ok(o) => if o.success {
            Ok(ContainersResponse { containers: parse_containers(o.stdout.as_str()) })
        } else {
            Err(
                ApiError::internal(
                    concat2("Docker command failed: ", o.stderr.as_str()).as_str(),
                ),
            )
        },
    }
}

/// The arguments of the docker command that shows a log.
pub open spec fn logs_args_spec(name: Seq<char>, query: ContainerLogsQuery) -> Seq<Seq<char>> {
    let head = seq!["logs"@, "--tail"@, number::decimal_spec(query.tail as nat)];
    let stamped = if query.timestamps {
        head.push("--timestamps"@)
    } else {
        head
    };
    let since = match query.since {
        Some(s) => stamped.push("--since"@).push(s@),
        None => stamped,
    };
    since.push(name)
}

/// The arguments of the docker command that shows a log.
pub fn container_logs_args(container_name: &str, query: &ContainerLogsQuery) -> (r: Vec<String>)
    ensures
        chars::views(r@) == logs_args_spec(container_name@, *query),
{
    let mut r: Vec<String> = Vec::new();
    r.push("logs".to_owned());
    r.push("--tail".to_owned());
    r.push(decimal(query.tail as u64));
    if query.timestamps {
        r.push("--timestamps".to_owned());
    }
    if let Some(since) = &query.since {
        r.push("--since".to_owned());
        r.push(since.clone());
    }
    r.push(container_name.to_owned());
    assert(chars::views(r@) =~= logs_args_spec(container_name@, *query));
    r
}

/// The line where it is not empty.
pub open spec fn nonempty_line(s: Seq<char>) -> Option<Seq<char>> {
    if s.len() > 0 {
        Some(s)
    } else {
        None
    }
}

/// The lines of a text that are not empty.
pub open spec fn nonempty_lines(s: Seq<char>) -> Seq<Seq<char>> {
    collections::keep_some(split::lines_spec(s).map_values(|l: Seq<char>| nonempty_line(l)))
}

/// Appends the lines of `s` that are not empty to `r`.
fn push_nonempty_lines(r: &mut Vec<String>, s: &str)
    ensures
        chars::views(final(r)@) == chars::views(old(r)@) + nonempty_lines(s@),
{
    let all_lines = lines(s);
    let ghost start = chars::views(r@);
    let ghost all = split::lines_spec(s@).map_values(|l: Seq<char>| nonempty_line(l));
    let mut i: usize = 0;
    assert(start + collections::keep_some(all.take(0)) =~= start);
    while i < all_lines.len()
        invariant
            i <= all_lines@.len(),
            chars::views(all_lines@) == split::lines_spec(s@),
            all == split::lines_spec(s@).map_values(|l: Seq<char>| nonempty_line(l)),
            chars::views(r@) == start + collections::keep_some(all.take(i as int)),
        decreases all_lines@.len() - i,
    {
        proof {
            collections::lemma_keep_some_step(all, i as int);
            assert(all_lines@[i as int]@ == chars::views(all_lines@)[i as int]);
        }
        if !all_lines[i].as_str().is_empty() {
            let ghost before = r@;
            let ghost kept = collections::keep_some(all.take(i as int));
            let line = all_lines[i].clone();
            r.push(line);
            assert(chars::views(r@) =~= chars::views(before).push(line@));
            assert((start + kept).push(line@) =~= start + kept.push(line@));
        }
        i = i + 1;
    }
    assert(all.take(all.len() as int) =~= all);
}

/// The lines of a text that are not empty.
pub fn nonempty_line_list(s: &str) -> (r: Vec<String>)
    ensures
        chars::views(r@) == nonempty_lines(s@),
{
    let mut r: Vec<String> = Vec::new();
    push_nonempty_lines(&mut r, s);
    assert(chars::views(r@) =~= nonempty_lines(s@));
    r
}

/// The container that an error message speaks of.
pub open spec fn container_label(name: Seq<char>) -> Seq<char> {
    "Container '"@ + name + "'"@
}

/// Answers the request for a log from what the docker command gave. Both
/// outputs of the command are log text.
pub fn get_container_logs(container_name: &str, output: Result<CommandOutput, String>) -> (r:
    ApiResult<ContainerLogsResponse>)
    ensures
        match output {
            Err(e) => r is Err && r->Err_0 is Internal && r->Err_0.parts().1
                == "Failed to get logs: "@ + e@,
            Ok(o) => if !o.success && search::has_substring(o.stderr@, "No such container"@) {
                r is Err && r->Err_0 is NotFound && r->Err_0.parts().1 == container_label(
                    container_name@,
                )
            } else {
                &&& r is Ok
                &&& r->Ok_0.container@ == container_name@
                &&& chars::views(r->Ok_0.logs@) == nonempty_lines(o.stdout@) + nonempty_lines(
                    o.stderr@,
                )
                &&& r->Ok_0.total_lines == r->Ok_0.logs@.len()
            },
        },
{
    let o = match output {
        Err(e) => {
            return Err(ApiError::internal(concat2("Failed to get logs: ", e.as_str()).as_str()));
        },
        Ok(o) => o,
    };
    if !o.success && contains(o.stderr.as_str(), "No such container") {
        return Err(ApiError::not_found(concat3("Container '", container_name, "'").as_str()));
    }
    let mut logs: Vec<String> = Vec::new();
    push_nonempty_lines(&mut logs, o.stdout.as_str());
    push_nonempty_lines(&mut logs, o.stderr.as_str());
    assert(chars::views(logs@) =~= nonempty_lines(o.stdout@) + nonempty_lines(o.stderr@));
    let total_lines = logs.len();
    Ok(ContainerLogsResponse { container: container_name.to_owned(), logs, total_lines })
}

/// The variable that a line of the environment writes; the value of a secret
/// is replaced where `redact` is set.
pub open spec fn env_var_of(line: Seq<char>, redact: bool) -> Option<container::EnvVarView> {
    match split::split_once_spec(line, '=') {
        None => None,
        Some((key, value)) => {
            let sensitive = container::names_secret(case::lowercase_of(key));
            Some(
                container::EnvVarView {
                    key,
                    value: if redact && sensitive {
                        redacted()
                    } else {
                        value
                    },
                    sensitive,
                },
            )
        },
    }
}

/// The variables that the environment listing writes.
pub open spec fn env_vars_of(stdout: Seq<char>, redact: bool) -> Seq<container::EnvVarView> {
    collections::keep_some(
        split::lines_spec(stdout).map_values(|line: Seq<char>| env_var_of(line, redact)),
    )
}

/// The contents of a list of variables.
pub open spec fn env_var_views(v: Seq<EnvVar>) -> Seq<container::EnvVarView> {
    v.map_values(|e: EnvVar| e@)
}

/// Reads the environment listing.
pub fn parse_env_vars(stdout: &str, redact_sensitive: bool) -> (r: Vec<EnvVar>)
    ensures
        env_var_views(r@) == env_vars_of(stdout@, redact_sensitive),
{
    let all_lines = lines(stdout);
    let ghost all = split::lines_spec(stdout@).map_values(
        |line: Seq<char>| env_var_of(line, redact_sensitive),
    );
    let mut r: Vec<EnvVar> = Vec::new();
    let mut i: usize = 0;
    assert(env_var_views(r@) =~= collections::keep_some(all.take(0)));
    while i < all_lines.len()
        invariant
            i <= all_lines@.len(),
            chars::views(all_lines@) == split::lines_spec(stdout@),
            all == split::lines_spec(stdout@).map_values(
                |line: Seq<char>| env_var_of(line, redact_sensitive),
            ),
            env_var_views(r@) == collections::keep_some(all.take(i as int)),
        decreases all_lines@.len() - i,
    {
        proof {
            collections::lemma_keep_some_step(all, i as int);
            assert(all_lines@[i as int]@ == chars::views(all_lines@)[i as int]);
        }
        if let Some((key, value)) = split_once(all_lines[i].as_str(), '=') {
            let sensitive = EnvVar::is_sensitive_key(key.as_str());
            let shown = if redact_sensitive && sensitive {
                "***REDACTED***".to_owned()
            } else {
                value
            };
            let e = EnvVar::new(key, shown, sensitive);
            let ghost before = r@;
            r.push(e);
            assert(env_var_views(r@) =~= env_var_views(before).push(e@));
        }
        i = i + 1;
    }
    assert(all.take(all.len() as int) =~= all);
    r
}

/// The arguments of the docker command that lists the environment.
pub fn container_env_args(container_name: &str) -> (r: Vec<String>)
    ensures
        chars::views(r@) == seq![
            "inspect"@,
            "--format"@,
            "{{range .Config.Env}}{{.}}\n{{end}}"@,
            container_name@,
        ],
{
    let mut r: Vec<String> = Vec::new();
    r.push("inspect".to_owned());
    r.push("--format".to_owned());
    r.push("{{range .Config.Env}}{{.}}\n{{end}}".to_owned());
    r.push(container_name.to_owned());
    assert(chars::views(r@) =~= seq![
        "inspect"@,
        "--format"@,
        "{{range .Config.Env}}{{.}}\n{{end}}"@,
        container_name@,
    ]);
    r
}

/// Answers the request for a container's environment from what the docker
/// command gave.
pub fn get_container_env_internal(
    container_name: &str,
    redact_sensitive: bool,
    output: Result<CommandOutput, String>,
) -> (r: ApiResult<ContainerEnvResponse>)
    ensures
        match output {
            Err(e) => r is Err && r->Err_0 is Internal && r->Err_0.parts().1
                == "Failed to get environment: "@ + e@,
            Ok(o) => if o.success {
                &&& r is Ok
                &&& r->Ok_0.container@ == container_name@
                &&& env_var_views(r->Ok_0.env_vars@) == env_vars_of(o.stdout@, redact_sensitive)
            } else if search::has_substring(o.stderr@, "No such"@) {
                r is Err && r->Err_0 is NotFound && r->Err_0.parts().1 == container_label(
                    container_name@,
                )
            } else {
                r is Err && r->Err_0 is Internal && r->Err_0.parts().1
                    == "Docker inspect failed: "@ + o.stderr@
            },
        },
{
    let o = match output {
        Err(e) => {
            return Err(
                ApiError::internal(concat2("Failed to get environment: ", e.as_str()).as_str()),
            );
        },
        Ok(o) => o,
    };
    if !o.success {
        if contains(o.stderr.as_str(), "No such") {
            return Err(ApiError::not_found(concat3("Container '", container_name, "'").as_str()));
        }
        return Err(
            ApiError::internal(concat2("Docker inspect failed: ", o.stderr.as_str()).as_str()),
        );
    }
    Ok(
        ContainerEnvResponse {
            container: container_name.to_owned(),
            env_vars: parse_env_vars(o.stdout.as_str(), redact_sensitive),
        },
    )
}

proof fn lemma_secrets_hidden(s: Seq<Option<container::EnvVarView>>)
    requires
        forall|i: int|
            0 <= i < s.len() ==> (#[trigger] s[i] matches Some(e) ==> (e.sensitive ==> e.value
                == redacted())),
    ensures
        forall|i: int|
            0 <= i < collections::keep_some(s).len() ==> (#[trigger] collections::keep_some(
                s,
            )[i]).sensitive ==> collections::keep_some(s)[i].value == redacted(),
    decreases s.len(),
{
    if s.len() > 0 {
        let rest = s.drop_last();
        assert forall|i: int| 0 <= i < rest.len() implies (#[trigger] rest[i] matches Some(e) ==> (
        e.sensitive ==> e.value == redacted())) by {
            assert(rest[i] == s[i]);
        }
        lemma_secrets_hidden(rest);
        assert(s[s.len() - 1] == s.last());
        let kept = collections::keep_some(s);
        assert forall|i: int| 0 <= i < kept.len() && (#[trigger] kept[i]).sensitive implies kept[i].value
            == redacted() by {
            if i < collections::keep_some(rest).len() {
                assert(kept[i] == collections::keep_some(rest)[i]);
            }
        }
    }
}

/// A redacted environment never shows the value of a variable that it marks
/// as a secret.
pub proof fn secrets_are_redacted(stdout: Seq<char>)
    ensures
        forall|i: int|
            0 <= i < env_vars_of(stdout, true).len() ==> (#[trigger] env_vars_of(
                stdout,
                true,
            )[i]).sensitive ==> env_vars_of(stdout, true)[i].value == redacted(),
{
    lemma_secrets_hidden(
        split::lines_spec(stdout).map_values(|line: Seq<char>| env_var_of(line, true)),
    );
}

} // verus!
