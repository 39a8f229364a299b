//! What the interface lets in, what it hands on, and what it answers.

use vstd::prelude::*;

use crate::api::containers;
use crate::api::images;
use crate::api::images::{PrefetchMap, PrefetchTaskStatus};
use crate::api::tunnel;
use crate::api::tunnel::{ProxyReply, ProxyRequest};
use crate::collections;
use crate::domain::container;
use crate::domain::ssh::{SshAuthMode, SshSessionInfo};
use crate::domain::tunnel::{MessageView, TunnelMode};
use crate::error::ApiError;
use crate::middleware::auth;
use crate::middleware::auth::{Header, Headers};
use crate::services::ssh::server;
use crate::services::ssh::server::{SshServer, SshServerView};
use crate::state::app_state::AppState;
use crate::state::port_listener_manager::Listeners;
use crate::text::case;
use crate::text::chars;
use crate::text::edit;
use crate::text::number;
use crate::text::search;
use crate::text::split;
use crate::time::Timestamp;

verus! {

/// Each kind of error has its status, its name and its message.
pub proof fn errors_have_their_status(e: ApiError)
    ensures
        e is Unauthorized ==> e.parts().0 == 401 && e.error_type() == "unauthorized"@
            && e.response_message() == "Invalid or missing API key"@ && e.text() == "Unauthorized"@,
        e matches ApiError::NotFound(s) ==> e.parts() == (404int, s@) && e.error_type()
            == "not_found"@ && e.response_message() == s@ + " not found"@ && e.text()
            == "Not found: "@ + s@,
        e matches ApiError::BadRequest(s) ==> e.parts() == (400int, s@) && e.error_type()
            == "bad_request"@ && e.response_message() == s@ && e.text() == "Bad request: "@ + s@,
        e matches ApiError::Conflict(s) ==> e.parts() == (409int, s@) && e.error_type()
            == "conflict"@ && e.response_message() == s@ && e.text() == "Conflict: "@ + s@,
        e matches ApiError::Internal(s) ==> e.parts() == (500int, s@) && e.error_type()
            == "internal_error"@ && e.response_message() == s@ && e.text() == "Internal error: "@
            + s@,
        e matches ApiError::ServiceUnavailable(s) ==> e.parts() == (503int, s@) && e.error_type()
            == "service_unavailable"@ && e.response_message() == s@ && e.text()
            == "Service unavailable: "@ + s@,
{
}

/// Of the headers of one name, in whatever case, the first counts; one whose
/// value is no text counts as none.
pub proof fn first_header_counts(h: Header, rest: Seq<Header>, name: Seq<char>)
    ensures
        auth::header_value(Seq::empty(), name) is None,
        edit::eq_ignore_case(h.name@, name) ==> auth::header_value(seq![h] + rest, name)
            == chars::opt_view(h.value),
        !edit::eq_ignore_case(h.name@, name) ==> auth::header_value(seq![h] + rest, name)
            == auth::header_value(rest, name),
{
    let all = seq![h] + rest;
    assert(all[0] == h);
    assert(all.subrange(1, all.len() as int) =~= rest);
}

/// The fields of a container stand between bars, and one that is missing is
/// empty; its ports stand between commas, without white space and without empty
/// ones. An empty line is no container.
pub proof fn line_describes_a_container(line: Seq<char>, i: int, item: Seq<char>)
    requires
        0 <= i,
    ensures
        ({
            let p = split::split_spec(line, '|');
            let c = containers::container_of(line);
            &&& c is None <==> line.len() == 0
            &&& line.len() > 0 ==> c->0.id == containers::field(p, 0) && c->0.name
                == containers::field(p, 1) && c->0.image == containers::field(p, 2) && c->0.status
                == containers::field(p, 3) && c->0.state == containers::field(p, 4)
                && c->0.created == containers::field(p, 5) && c->0.ports == containers::port_items(
                containers::field(p, 6),
            )
            &&& i < p.len() ==> containers::field(p, i) == p[i]
            &&& i >= p.len() ==> containers::field(p, i).len() == 0
        }),
        split::trim_spec(item).len() > 0 ==> containers::trimmed_item(item) == Some(
            split::trim_spec(item),
        ),
        split::trim_spec(item).len() == 0 ==> containers::trimmed_item(item) is None,
        item.len() > 0 ==> containers::nonempty_line(item) == Some(item),
        item.len() == 0 ==> containers::nonempty_line(item) is None,
{
}

/// The log of a container is asked for with as many lines as wanted, with times
/// and since a time where that is wanted; the container comes last.
pub proof fn log_is_asked_for(name: Seq<char>, query: container::ContainerLogsQuery)
    ensures
        ({
            let a = containers::logs_args_spec(name, query);
            let n = a.len() as int;
            &&& a[0] == "logs"@ && a[1] == "--tail"@ && a[2] == number::decimal_spec(
                query.tail as nat,
            )
            &&& a[n - 1] == name
            &&& query.timestamps ==> a[3] == "--timestamps"@
            &&& query.since is Some ==> a[n - 3] == "--since"@ && a[n - 2] == query.since->0@
            &&& n == 4 + (if query.timestamps {
                1int
            } else {
                0
            }) + (if query.since is Some {
                2int
            } else {
                0
            })
        }),
{
}

/// A variable is a secret exactly where its name, in lower case, holds one of
/// the telling parts.
pub proof fn secrets_are_known_by_name(key: Seq<char>)
    ensures
        container::names_secret(key) <==> (search::has_substring(key, "password"@)
            || search::has_substring(key, "secret"@) || search::has_substring(key, "key"@)
            || search::has_substring(key, "token"@) || search::has_substring(key, "credential"@)
            || search::has_substring(key, "auth"@) || search::has_substring(key, "api_key"@)
            || search::has_substring(key, "apikey"@) || search::has_substring(key, "private"@)
            || search::has_substring(key, "jwt"@) || search::has_substring(key, "pem"@)
            || search::has_substring(key, "cert"@)),
{
}

/// A variable is what stands on both sides of the first "=". The value of a
/// secret is not shown where secrets are hidden, and every other value is.
pub proof fn variable_is_shown(key: Seq<char>, value: Seq<char>, line: Seq<char>, hide: bool)
    requires
        !key.contains('='),
        !line.contains('='),
    ensures
        ({
            let v = containers::env_var_of(key.push('=') + value, hide);
            let secret = container::names_secret(case::lowercase_of(key));
            &&& v is Some
            &&& v->0.key == key
            &&& v->0.sensitive == secret
            &&& hide && secret ==> v->0.value == "***REDACTED***"@
            &&& !(hide && secret) ==> v->0.value == value
        }),
        containers::env_var_of(line, hide) is None,
{
    crate::text::laws::first_separator_cuts(key, value, '=');
    crate::text::laws::first_separator_cuts(line, value, '=');
}

/// An image has a name without blanks.
pub proof fn image_needs_a_name(image: Seq<char>)
    ensures
        images::is_bad_image(image) <==> image.len() == 0 || exists|i: int|
            0 <= i < image.len() && #[trigger] image[i] == ' ',
{
}

/// A fetch that has ended keeps what it was, and has its duration and the time of
/// its end; it is completed where the command succeeded, and else it has failed,
/// for the reason that was given.
pub proof fn fetch_has_its_outcome(
    before: PrefetchTaskStatus,
    after: PrefetchTaskStatus,
    outcome: Result<(bool, String), String>,
    ms: u64,
    now: Timestamp,
)
    requires
        images::fetched(before, after, outcome, ms, now),
    ensures
        after.task_id == before.task_id && after.image == before.image && after.project
            == before.project && after.created_at == before.created_at,
        after.duration_ms == Some(ms),
        after.completed_at == Some(now),
        outcome is Ok && (outcome->Ok_0).0 ==> after.status@ == "completed"@ && after.error
            == before.error,
        outcome is Ok && !(outcome->Ok_0).0 ==> after.status@ == "failed"@ && after.error == Some(
            (outcome->Ok_0).1,
        ),
        outcome is Err ==> after.status@ == "failed"@ && after.error == Some(outcome->Err_0),
{
}

/// A new fetch runs; one is over when it is completed or has failed.
pub proof fn fetch_is_new_or_over(
    t: PrefetchTaskStatus,
    id: Seq<char>,
    image: Seq<char>,
    project: Option<Seq<char>>,
    now: Timestamp,
)
    ensures
        t.is_new(id, image, project, now) ==> t.task_id@ == id && t.image@ == image
            && chars::opt_view(t.project) == project && t.status@ == "running"@ && t.created_at
            == now && t.duration_ms is None && t.error is None && t.completed_at is None,
        t.is_over() <==> t.status@ == "completed"@ || t.status@ == "failed"@,
{
}

/// A cleanup drops what is an hour old. Of the rest, what goes is over and no
/// younger than anything over that stays, and no more goes than the limit of a
/// hundred asks for.
pub proof fn cleanup_drops_the_oldest(
    after: PrefetchMap,
    before: PrefetchMap,
    now: Timestamp,
    gone: Seq<char>,
    left: Seq<char>,
)
    requires
        images::is_cleanup_of(after, before, now),
    ensures
        after.dom().contains(left) ==> before.dom().contains(left) && after[left] == before[left]
            && now.instant() - before[left].created_at.instant() < 3_600_000_000_000,
        before.dom().contains(gone) && !after.dom().contains(gone) && now.instant()
            - before[gone].created_at.instant() < 3_600_000_000_000 ==> before[gone].is_over()
            && after.dom().len() + 1 >= 100 && (after.dom().contains(left) && after[left].is_over()
            ==> before[gone].created_at.instant() <= after[left].created_at.instant()),
        after.dom().len() >= 100 && after.dom().contains(left) ==> !after[left].is_over(),
{
    let fresh = images::fresh_tasks(before, now);
    if after.dom().contains(left) {
        assert(fresh.dom().contains(left));
        assert(after[left] == fresh[left]);
    }
    if before.dom().contains(gone) && images::is_fresh(before[gone], now) {
        assert(fresh.dom().contains(gone));
    }
}

/// A mapping is shown as listening exactly where its port is bound to its
/// client.
pub proof fn mapping_listens_when_bound(l: Listeners, client: Seq<char>, port: u16)
    ensures
        ({
            let bound = l.dom().contains(port) && l[port].bound == Some(client);
            &&& bound ==> tunnel::mapping_word(l, client, port) == "listening"@
            &&& !bound ==> tunnel::mapping_word(l, client, port) == "pending"@
        }),
        tunnel::connection_word(true) == "active"@,
        tunnel::connection_word(false) == "disconnected"@,
{
}

/// The token of the tunnel is the one of its header, or else that of the
/// protocol.
pub proof fn token_of_the_tunnel(h: Headers)
    ensures
        h.text_of("x-tunnel-token"@) is Some ==> tunnel::tunnel_token(h) == h.text_of(
            "x-tunnel-token"@,
        ),
        h.text_of("x-tunnel-token"@) is None ==> tunnel::tunnel_token(h) == h.text_of(
            "sec-websocket-protocol"@,
        ),
{
}

/// A request goes to the client as it is: with its method, its path behind a
/// slash, its headers but those of the connection, and its body where it is not
/// empty.
pub proof fn request_goes_as_it_is(r: ProxyRequest, id: Seq<char>)
    ensures
        tunnel::proxy_message(r, id) matches MessageView::HttpRequest {
            request_id,
            method,
            path,
            headers,
            body,
        } && request_id == id && method == r.method@ && headers == tunnel::forwarded_headers(
            r.headers.entries@,
        ) && (r.path is Some ==> path == "/"@ + r.path->0@) && (r.path is None ==> path == "/"@)
            && (r.body is Some && r.body->0@.len() > 0 ==> body == Some(r.body->0@)) && (r.body
            is None || r.body->0@.len() == 0 ==> body is None),
{
    if r.path is Some && r.path->0@.len() == 0 {
        assert("/"@ + r.path->0@ =~= "/"@);
    }
}

/// A header is handed on exactly where its value is a text and it does not
/// concern the connection; the order stays.
pub proof fn headers_are_handed_on(entries: Seq<Header>, h: Header)
    ensures
        ({
            let stays = edit::eq_ignore_case(h.name@, "host"@) || edit::eq_ignore_case(
                h.name@,
                "connection"@,
            ) || edit::eq_ignore_case(h.name@, "keep-alive"@) || edit::eq_ignore_case(
                h.name@,
                "transfer-encoding"@,
            ) || edit::eq_ignore_case(h.name@, "upgrade"@);
            &&& !stays && h.value is Some ==> tunnel::forwarded_headers(entries.push(h))
                == tunnel::forwarded_headers(entries).push((h.name@, h.value->0@))
            &&& stays || h.value is None ==> tunnel::forwarded_headers(entries.push(h))
                == tunnel::forwarded_headers(entries)
            &&& tunnel::forwarded_headers(Seq::empty()).len() == 0
        }),
{
    let f = |x: Header| tunnel::forwarded(x);
    assert(entries.push(h).map_values(f).drop_last() =~= entries.map_values(f));
    assert(entries.push(h).map_values(f).last() == f(h));
    assert(tunnel::forwarded_headers(entries.push(h)) == collections::keep_some(
        entries.push(h).map_values(f),
    ));
}

/// A request is handed on exactly where this side is the server of the tunnel,
/// its client is connected and its body could be read; the refusal says which of
/// these was missing.
pub proof fn request_may_be_refused(state: AppState, r: ProxyRequest, e: ProxyReply)
    ensures
        ({
            let serves = state.tunnel_mode == TunnelMode::Server;
            let there = state.tunnel_server_state@.clients.dom().contains(r.client_id@);
            &&& tunnel::may_forward(state, r) <==> serves && there && r.body is Some
            &&& tunnel::is_refusal(state, r, e) && !serves ==> e.status == 400 && e.error is None
                && e.text@ == "Tunnel server mode not enabled"@
            &&& tunnel::is_refusal(state, r, e) && serves && !there ==> e.status == 404
                && chars::opt_view(e.error) == Some("client_not_found"@) && e.text@ == "Client '"@
                + r.client_id@ + "' is not connected"@
            &&& tunnel::is_refusal(state, r, e) && serves && there ==> e.status == 400
                && e.error is None && e.text@ == "Failed to read request body"@
        }),
{
}

/// A user is let in by password exactly where passwords are taken, the name is
/// the one that is configured, the password is the key of the agent, and there is
/// room for a session.
pub proof fn user_is_let_in(s: SshServerView, user: Seq<char>, password: Seq<char>)
    ensures
        ({
            let r = server::password_reply(s, user, password);
            let known = user == s.config.username@ && password == s.api_key;
            let room = s.sessions.dom().len() < s.config.max_sessions;
            &&& r is Accept <==> s.config.auth_mode != SshAuthMode::PublicKey && known && room
            &&& r is UsePublicKey <==> s.config.auth_mode == SshAuthMode::PublicKey
            &&& r is Reject <==> s.config.auth_mode != SshAuthMode::PublicKey && !(known && room)
        }),
{
}

/// A session is recorded with its name, its user, its address and its time.
pub proof fn session_is_recorded(
    info: SshSessionInfo,
    session: server::SessionView,
    user: Seq<char>,
    now: Timestamp,
)
    requires
        server::records(info, session, user, now),
    ensures
        info.session_id@ == session.id,
        info.username@ == user,
        info.client_addr@ == session.addr,
        info.connected_at == now,
        info.last_activity == now,
{
}

/// A session has lasted too long once the seconds that are configured have gone
/// by since it began.
pub proof fn session_lasts_its_seconds(s: SshServerView, id: Seq<char>, now: Timestamp)
    requires
        s.sessions.dom().contains(id),
        s.config.session_timeout_secs > 0,
    ensures
        SshServer::lasted(s, id, now) <==> now.instant() - s.sessions[id].connected_at.instant()
            >= s.config.session_timeout_secs * 1_000_000_000,
{
}

/// The exit code of a command is handed on modulo two to the power of 32, and a
/// command without one counts as -1.
pub proof fn exit_code_is_handed_on(code: i32)
    ensures
        0 <= server::exit_status_spec(Some(code)) <= u32::MAX,
        (server::exit_status_spec(Some(code)) - code) % 0x1_0000_0000 == 0,
        server::exit_status_spec(None) == server::exit_status_spec(Some(-1i32)),
{
}

/// The mode of login goes by its name; every other name means the key.
pub proof fn login_goes_by_its_name(s: Seq<char>)
    ensures
        SshAuthMode::named(s) == SshAuthMode::PublicKey <==> s == "pubkey"@ || s == "publickey"@
            || s == "public_key"@,
        SshAuthMode::named(s) == SshAuthMode::Both <==> s == "both"@,
        SshAuthMode::named(s) == SshAuthMode::ApiKey <==> s != "pubkey"@ && s != "publickey"@ && s
            != "public_key"@ && s != "both"@,
{
    reveal_strlit("pubkey");
    reveal_strlit("publickey");
    reveal_strlit("public_key");
    reveal_strlit("both");
    assert("both"@[0] == 'b' && "pubkey"@[0] == 'p' && "publickey"@[0] == 'p' && "public_key"@[0]
        == 'p');
}

} // verus!
