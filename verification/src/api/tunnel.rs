//! The tunnel: its state, who may open it, and the requests that go through.

use vstd::prelude::*;

use crate::collections;
use crate::domain::tunnel;
use crate::domain::tunnel::{
    ConnectedClientInfo, PortMapping, PortMappingStatus, TunnelClientStatus, TunnelMessage,
    TunnelMode, TunnelServerStatus, TunnelStatusResponse,
};
use crate::infra::ids::new_id;
use crate::middleware::auth::{Header, Headers};
use crate::services::frp;
use crate::services::frp::{mapping_statuses, ChildPoll};
use crate::state::app_state::AppState;
use crate::state::port_listener_manager;
use crate::state::port_listener_manager::PortListenerManager;
use crate::state::tunnel_state;
use crate::state::tunnel_state::ClientState;
use crate::text::chars;
use crate::text::chars::{concat2, concat3, str_eq};
use crate::text::edit;
use crate::text::edit::eq_ignore_ascii_case;
use crate::text::number;
use crate::text::number::decimal;

verus! {

/// The largest body that is forwarded, in bytes.
pub const MAX_PROXY_BODY: usize = 10_485_760;

/// Seconds that a forwarded request is waited for.
pub const PROXY_TIMEOUT_SECS: u64 = 30;

/// The state of a mapping of a client: its port listens for the client, or it
/// does not yet.
pub open spec fn mapping_word(
    listeners: port_listener_manager::Listeners,
    client_id: Seq<char>,
    port: u16,
) -> Seq<char> {
    if listeners.dom().contains(port) && listeners[port].bound == Some(client_id) {
        "listening"@
    } else {
        "pending"@
    }
}

/// The report on the mappings of a client.
pub open spec fn client_mappings_shown(
    shown: Seq<PortMappingStatus>,
    mappings: Seq<PortMapping>,
    listeners: port_listener_manager::Listeners,
    client_id: Seq<char>,
) -> bool {
    &&& shown.len() == mappings.len()
    &&& forall|i: int|
        0 <= i < shown.len() ==> (#[trigger] shown[i]).mapping == mappings[i]
            && shown[i].status@ == mapping_word(listeners, client_id, mappings[i].remote_port)
            && shown[i].active_connections == 0
}

/// The report on a client.
pub open spec fn client_shown(
    info: ConnectedClientInfo,
    client: ClientState,
    listeners: port_listener_manager::Listeners,
) -> bool {
    &&& info.client_id == client.client_id
    &&& info.client_addr == client.client_addr
    &&& info.connected_at == client.connected_at
    &&& client_mappings_shown(
        info.port_mappings@,
        client.mappings@,
        listeners,
        client.client_id@,
    )
}

fn client_mapping_statuses(client: &ClientState, manager: &PortListenerManager) -> (r: Vec<
    PortMappingStatus,
>)
    ensures
        client_mappings_shown(r@, client.mappings@, manager@, client.client_id@),
{
    let n = client.mappings.len();
    let mut r: Vec<PortMappingStatus> = Vec::new();
    let mut i: usize = 0;
    while i < n
        invariant
            n == client.mappings@.len(),
            i <= n,
            client_mappings_shown(
                r@,
                client.mappings@.take(i as int),
                manager@,
                client.client_id@,
            ),
        decreases n - i,
    {
        let mapping = client.mappings[i].clone();
        let listening = match manager.get_listener(mapping.remote_port) {
            Some(l) => l.is_bound_to(client.client_id.as_str()),
            None => false,
        };
        let status = if listening {
            "listening".to_owned()
        } else {
            "pending".to_owned()
        };
        r.push(PortMappingStatus { mapping, status, active_connections: 0 });
        i = i + 1;
    }
    assert(client.mappings@.take(n as int) =~= client.mappings@);
    r
}

/// The report on the clients of a server.
pub open spec fn server_shown(
    shown: TunnelServerStatus,
    server: tunnel_state::TunnelServerState,
    listeners: port_listener_manager::Listeners,
    port: u16,
) -> bool {
    &&& shown.listening
    &&& shown.listen_port == port
    &&& shown.client_count == server@.clients.dom().len()
    &&& shown.client_connected == (shown.client_count > 0)
    &&& shown.clients@.len() == shown.client_count
    &&& shown.clients@.len() == server.client_order().len()
    &&& server.client_order().no_duplicates()
    &&& server.client_order().to_set() == server@.clients.dom()
    &&& forall|i: int|
        0 <= i < shown.clients@.len() ==> client_shown(
            #[trigger] shown.clients@[i],
            server@.clients[server.client_order()[i]],
            listeners,
        )
}

fn server_status(state: &AppState) -> (r: TunnelServerStatus)
    ensures
        server_shown(
            r,
            state.tunnel_server_state,
            state.port_listener_manager@,
            state.config.port,
        ),
{
    let connected = state.tunnel_server_state.connected_clients();
    let n = connected.len();
    let ghost order = state.tunnel_server_state.client_order();
    let ghost known = state.tunnel_server_state@.clients;
    let mut clients: Vec<ConnectedClientInfo> = Vec::new();
    let mut i: usize = 0;
    while i < n
        invariant
            n == connected@.len(),
            n == order.len(),
            i <= n,
            clients@.len() == i,
            forall|j: int| 0 <= j < n ==> *(#[trigger] connected@[j]) == known[order[j]],
            forall|j: int|
                0 <= j < i ==> client_shown(
                    #[trigger] clients@[j],
                    known[order[j]],
                    state.port_listener_manager@,
                ),
        decreases n - i,
    {
        let client = connected[i];
        assert(*client == known[order[i as int]]);
        clients.push(
            ConnectedClientInfo {
                client_id: client.client_id.clone(),
                client_addr: client.client_addr.clone(),
                connected_at: client.connected_at,
                port_mappings: client_mapping_statuses(client, &state.port_listener_manager),
            },
        );
        i = i + 1;
    }
    let client_count = state.tunnel_server_state.client_count();
    proof {
        order.unique_seq_to_set();
    }
    TunnelServerStatus {
        listening: true,
        listen_port: state.config.port,
        client_count,
        clients,
        client_connected: client_count > 0,
    }
}

/// The word for the state of a connection.
pub open spec fn connection_word(connected: bool) -> Seq<char> {
    if connected {
        "active"@
    } else {
        "disconnected"@
    }
}

/// The report on the client side of a tunnel that the agent runs itself.
pub open spec fn client_side_shown(shown: TunnelClientStatus, state: AppState) -> bool {
    let client = state.tunnel_client_state;
    &&& shown.connected == client.connected
    &&& shown.server_url == state.tunnel_server_url
    &&& shown.connected_at == client.connected_at
    &&& shown.last_error == client.last_error
    &&& shown.reconnect_count == client.reconnect_count
    &&& frp::mappings_shown(
        shown.mappings@,
        tunnel::mapping_views(state.tunnel_port_mappings@),
        connection_word(client.connected),
    )
}

/// The report on the managed frp client, after a look at its process.
pub open spec fn frp_shown(
    shown: TunnelClientStatus,
    before: frp::FrpcView,
    poll: frp::PollView,
) -> bool {
    let (view, running, pid) = before.observed(poll);
    &&& shown.connected == running
    &&& shown.server_url@ == view.config.server_addr@ + ":"@ + number::decimal_spec(
        view.config.server_port as nat,
    )
    &&& shown.connected_at == view.started_at
    &&& chars::opt_view(shown.last_error) == view.last_error
    &&& shown.reconnect_count == view.restart_count
    &&& frp::mappings_shown(shown.mappings@, view.mappings, connection_word(running))
}

/// The state of the tunnel. A managed frp client comes before a tunnel of the
/// agent's own; `poll` is what a look at its process found.
pub fn get_tunnel_status(state: &mut AppState, poll: ChildPoll) -> (r: TunnelStatusResponse)
    ensures
        match old(state).frp {
            Some(f) => {
                &&& r matches TunnelStatusResponse::Client(c)
                &&& frp_shown(c, f@, poll@)
                &&& final(state).frp matches Some(g)
                &&& g@ == f@.observed(poll@).0
                &&& *final(state) == (AppState { frp: final(state).frp, ..*old(state) })
            },
            None => {
                &&& *final(state) == *old(state)
                &&& match old(state).tunnel_mode {
                    TunnelMode::Server => {
                        &&& r matches TunnelStatusResponse::Server(s)
                        &&& server_shown(
                            s,
                            old(state).tunnel_server_state,
                            old(state).port_listener_manager@,
                            old(state).config.port,
                        )
                    },
                    TunnelMode::Client => {
                        &&& r matches TunnelStatusResponse::Client(c)
                        &&& client_side_shown(c, *old(state))
                    },
                    TunnelMode::Disabled => r is Disabled,
                }
            },
        },
{
    if let Some(f) = &mut state.frp {
        let status = f.status(poll);
        return TunnelStatusResponse::Client(
            TunnelClientStatus {
                connected: status.running,
                server_url: concat3(
                    status.server_addr.as_str(),
                    ":",
                    decimal(status.server_port as u64).as_str(),
                ),
                connected_at: status.started_at,
                last_error: status.last_error,
                reconnect_count: status.restart_count,
                mappings: status.mappings,
            },
        );
    }
    match state.tunnel_mode {
        TunnelMode::Server => TunnelStatusResponse::Server(server_status(state)),
        TunnelMode::Client => {
            let connected = state.tunnel_client_state.connected;
            let word = if connected {
                "active"
            } else {
                "disconnected"
            };
            TunnelStatusResponse::Client(
                TunnelClientStatus {
                    connected,
                    server_url: state.tunnel_server_url.clone(),
                    connected_at: state.tunnel_client_state.connected_at,
                    last_error: state.tunnel_client_state.last_error.clone(),
                    reconnect_count: state.tunnel_client_state.reconnect_count,
                    mappings: mapping_statuses(&state.tunnel_port_mappings, word),
                },
            )
        },
        TunnelMode::Disabled => TunnelStatusResponse::Disabled,
    }
}

/// An answer that the agent gives itself.
#[derive(Debug)]
pub struct ProxyReply {
    pub status: u16,
    /// The identifier of the error, where the answer is a JSON object; the
    /// text of the answer is then its message.
    pub error: Option<String>,
    pub text: String,
}

impl ProxyReply {
    /// The answer is this text.
    pub open spec fn says(self, status: u16, text: Seq<char>) -> bool {
        &&& self.status == status
        &&& self.error is None
        &&& self.text@ == text
    }

    fn plain(status: u16, text: &str) -> (r: ProxyReply)
        ensures
            r.says(status, text@),
    {
        ProxyReply { status, error: None, text: text.to_owned() }
    }
}

/// The token that a request to open the tunnel carries.
pub open spec fn tunnel_token(headers: Headers) -> Option<Seq<char>> {
    match headers.text_of("x-tunnel-token"@) {
        Some(t) => Some(t),
        None => headers.text_of("sec-websocket-protocol"@),
    }
}

/// Whether a request may open the tunnel: it carries the token, and the agent
/// is a tunnel server. Where it may, the answer is the address that the
/// client has.
pub fn tunnel_websocket_handler(state: &AppState, headers: &Headers) -> (r: Result<
    String,
    ProxyReply,
>)
    ensures
        if tunnel_token(*headers) != Some(state.tunnel_auth_token@) {
            &&& r matches Err(e)
            &&& e.says(401, "Invalid tunnel token"@)
        } else if state.tunnel_mode != TunnelMode::Server {
            &&& r matches Err(e)
            &&& e.says(400, "Tunnel server mode not enabled"@)
        } else {
            &&& r matches Ok(addr)
            &&& addr@ == match headers.text_of("x-forwarded-for"@) {
                Some(a) => a,
                None => "unknown"@,
            }
        },
{
    let token = match headers.get("x-tunnel-token") {
        Some(t) => Some(t),
        None => headers.get("sec-websocket-protocol"),
    };
    let allowed = match token {
        Some(t) => str_eq(t.as_str(), state.tunnel_auth_token.as_str()),
        None => false,
    };
    if !allowed {
        return Err(ProxyReply::plain(401, "Invalid tunnel token"));
    }
    if state.tunnel_mode != TunnelMode::Server {
        return Err(ProxyReply::plain(400, "Tunnel server mode not enabled"));
    }
    Ok(
        match headers.get("x-forwarded-for") {
            Some(a) => a.clone(),
            None => "unknown".to_owned(),
        },
    )
}

/// The path that the client is asked for.
pub open spec fn proxied_path(path: Option<Seq<char>>) -> Seq<char> {
    match path {
        Some(p) => if p.len() == 0 {
            "/"@
        } else {
            "/"@ + p
        },
        None => "/"@,
    }
}

/// The header belongs to one connection and is not forwarded.
pub open spec fn is_hop_by_hop(name: Seq<char>) -> bool {
    ||| edit::eq_ignore_case(name, "host"@)
    ||| edit::eq_ignore_case(name, "connection"@)
    ||| edit::eq_ignore_case(name, "keep-alive"@)
    ||| edit::eq_ignore_case(name, "transfer-encoding"@)
    ||| edit::eq_ignore_case(name, "upgrade"@)
}

/// A header as it is forwarded: not where it belongs to one connection, and
/// not where its value is no text.
pub open spec fn forwarded(h: Header) -> Option<(Seq<char>, Seq<char>)> {
    if is_hop_by_hop(h.name@) {
        None
    } else {
        match h.value {
            Some(v) => Some((h.name@, v@)),
            None => None,
        }
    }
}

/// The headers that are forwarded, in order.
pub open spec fn forwarded_headers(entries: Seq<Header>) -> Seq<(Seq<char>, Seq<char>)> {
    collections::keep_some(entries.map_values(|h: Header| forwarded(h)))
}

fn hop_by_hop(name: &str) -> (r: bool)
    ensures
        r == is_hop_by_hop(name@),
{
    eq_ignore_ascii_case(name, "host") || eq_ignore_ascii_case(name, "connection")
        || eq_ignore_ascii_case(name, "keep-alive") || eq_ignore_ascii_case(
        name,
        "transfer-encoding",
    ) || eq_ignore_ascii_case(name, "upgrade")
}

/// The headers that are forwarded, in order.
pub fn forward_headers(headers: &Headers) -> (r: Vec<(String, String)>)
    ensures
        chars::pairs(r@) == forwarded_headers(headers.entries@),
{
    let n = headers.entries.len();
    let ghost all = headers.entries@.map_values(|h: Header| forwarded(h));
    let mut r: Vec<(String, String)> = Vec::new();
    let mut i: usize = 0;
    assert(chars::pairs(r@) =~= collections::keep_some(all.take(0)));
    while i < n
        invariant
            n == headers.entries@.len(),
            i <= n,
            all == headers.entries@.map_values(|h: Header| forwarded(h)),
            chars::pairs(r@) == collections::keep_some(all.take(i as int)),
        decreases n - i,
    {
        proof {
            collections::lemma_keep_some_step(all, i as int);
        }
        let h = &headers.entries[i];
        if !hop_by_hop(h.name.as_str()) {
            if let Some(v) = &h.value {
                let ghost before = r@;
                r.push((h.name.clone(), v.clone()));
                assert(chars::pairs(r@) =~= chars::pairs(before).push((h.name@, v@)));
            }
        }
        i = i + 1;
    }
    assert(all.take(n as int) =~= all);
    r
}

/// A request that comes to the agent for one of its tunnel clients. The body
/// is absent where it could not be read, or was too large.
pub struct ProxyRequest {
    pub client_id: String,
    pub path: Option<String>,
    pub method: String,
    pub headers: Headers,
    pub body: Option<Vec<u8>>,
}

/// The body as it is forwarded: none where it is empty.
pub open spec fn forwarded_body(body: Seq<u8>) -> Option<Seq<u8>> {
    if body.len() == 0 {
        None
    } else {
        Some(body)
    }
}

/// The message that forwards a request.
pub open spec fn proxy_message(request: ProxyRequest, request_id: Seq<char>) -> tunnel::MessageView {
    tunnel::MessageView::HttpRequest {
        request_id,
        method: request.method@,
        path: proxied_path(chars::opt_view(request.path)),
        headers: forwarded_headers(request.headers.entries@),
        body: match request.body {
            Some(b) => forwarded_body(b@),
            None => None,
        },
    }
}

/// A request is forwarded where the agent is a tunnel server, the client is
/// connected and the body could be read.
pub open spec fn may_forward(state: AppState, request: ProxyRequest) -> bool {
    &&& state.tunnel_mode == TunnelMode::Server
    &&& state.tunnel_server_state@.clients.dom().contains(request.client_id@)
    &&& request.body is Some
}

/// The answer to a request that is not forwarded.
pub open spec fn is_refusal(state: AppState, request: ProxyRequest, e: ProxyReply) -> bool {
    if state.tunnel_mode != TunnelMode::Server {
        e.says(400, "Tunnel server mode not enabled"@)
    } else if !state.tunnel_server_state@.clients.dom().contains(request.client_id@) {
        &&& e.status == 404
        &&& chars::opt_view(e.error) == Some("client_not_found"@)
        &&& e.text@ == "Client '"@ + request.client_id@ + "' is not connected"@
    } else {
        e.says(400, "Failed to read request body"@)
    }
}

/// Forwards a request under this identifier: it waits for an answer from now
/// on, and the message goes to the client.
pub fn tunnel_proxy_handler_with(
    state: &mut AppState,
    request: ProxyRequest,
    request_id: String,
) -> (r: Result<TunnelMessage, ProxyReply>)
    ensures
        r is Ok <==> may_forward(*old(state), request),
        r matches Ok(m) ==> m@ == proxy_message(request, request_id@),
        r matches Err(e) ==> is_refusal(*old(state), request, e),
        r is Err ==> *final(state) == *old(state),
        r is Ok ==> *final(state) == (AppState {
            tunnel_server_state: final(state).tunnel_server_state,
            ..*old(state)
        }) && final(state).tunnel_server_state@ == (tunnel_state::ServerView {
            pending: old(state).tunnel_server_state@.pending.insert(request_id@),
            ..old(state).tunnel_server_state@
        }),
{
    if state.tunnel_mode != TunnelMode::Server {
        return Err(ProxyReply::plain(400, "Tunnel server mode not enabled"));
    }
    if !state.tunnel_server_state.has_client(request.client_id.as_str()) {
        return Err(
            ProxyReply {
                status: 404,
                error: Some("client_not_found".to_owned()),
                text: concat3("Client '", request.client_id.as_str(), "' is not connected"),
            },
        );
    }
    let body = match request.body {
        Some(b) => if b.len() == 0 {
            None
        } else {
            Some(b)
        },
        None => {
            return Err(ProxyReply::plain(400, "Failed to read request body"));
        },
    };
    let path = match &request.path {
        Some(p) => if p.as_str().is_empty() {
            "/".to_owned()
        } else {
            concat2("/", p.as_str())
        },
        None => "/".to_owned(),
    };
    let headers = forward_headers(&request.headers);
    state.tunnel_server_state.await_response(request_id.as_str());
    Ok(TunnelMessage::HttpRequest { request_id, method: request.method, path, headers, body })
}

/// Forwards a request under a new identifier of 36 characters, which comes
/// back with the message.
pub fn tunnel_proxy_handler(state: &mut AppState, request: ProxyRequest) -> (r: Result<
    (String, TunnelMessage),
    ProxyReply,
>)
    ensures
        r is Ok <==> may_forward(*old(state), request),
        r matches Err(e) ==> is_refusal(*old(state), request, e),
        r matches Ok(f) ==> {
            &&& f.0@.len() == 36
            &&& f.1@ == proxy_message(request, f.0@)
            &&& *final(state) == (AppState {
                tunnel_server_state: final(state).tunnel_server_state,
                ..*old(state)
            })
            &&& final(state).tunnel_server_state@ == (tunnel_state::ServerView {
                pending: old(state).tunnel_server_state@.pending.insert(f.0@),
                ..old(state).tunnel_server_state@
            })
        },
        r is Err ==> *final(state) == *old(state),
{
    let request_id = new_id();
    let id = request_id.clone();
    match tunnel_proxy_handler_with(state, request, request_id) {
        Ok(m) => Ok((id, m)),
        Err(e) => Err(e),
    }
}

/// Why a forwarded request was not answered.
#[derive(Clone, Copy, Debug, PartialEq, Eq, Structural)]
pub enum ProxyFailure {
    /// The message could not be sent to the client.
    NotSent,
    /// Nobody is left who could answer.
    Closed,
    /// The time was over.
    TimedOut,
}

/// Answers a forwarded request that was not answered. It waits no more where
/// it was not sent or the time was over.
pub fn proxy_failed(state: &mut AppState, request_id: &str, failure: ProxyFailure) -> (r: ProxyReply)
    ensures
        match failure {
            ProxyFailure::NotSent => r.says(502, "Failed to send request to client"@),
            ProxyFailure::Closed => r.says(502, "Response channel closed"@),
            ProxyFailure::TimedOut => r.says(504, "Request timeout"@),
        },
        *final(state) == (AppState {
            tunnel_server_state: final(state).tunnel_server_state,
            ..*old(state)
        }),
        final(state).tunnel_server_state@ == if failure is Closed {
            old(state).tunnel_server_state@
        } else {
            tunnel_state::ServerView {
                pending: old(state).tunnel_server_state@.pending.remove(request_id@),
                ..old(state).tunnel_server_state@
            }
        },
{
    match failure {
        ProxyFailure::NotSent => {
            state.tunnel_server_state.take_pending(request_id);
            ProxyReply::plain(502, "Failed to send request to client")
        },
        ProxyFailure::Closed => ProxyReply::plain(502, "Response channel closed"),
        ProxyFailure::TimedOut => {
            state.tunnel_server_state.take_pending(request_id);
            ProxyReply::plain(504, "Request timeout")
        },
    }
}

/// A forwarded request that is given up leaves nothing behind: where its
/// identifier was new, the requests that wait are those that waited before.
pub proof fn given_up_request_leaves_nothing(
    before: tunnel_state::ServerView,
    request_id: Seq<char>,
)
    requires
        !before.pending.contains(request_id),
    ensures
        before.pending.insert(request_id).remove(request_id) == before.pending,
{
    assert(before.pending.insert(request_id).remove(request_id) =~= before.pending);
}

/// Nothing that belongs to one connection is forwarded, and every other header
/// with a text is.
pub proof fn connection_headers_stay_behind(entries: Seq<Header>, i: int)
    requires
        0 <= i < forwarded_headers(entries).len(),
    ensures
        !is_hop_by_hop(forwarded_headers(entries)[i].0),
        exists|k: int|
            0 <= k < entries.len() && forwarded(#[trigger] entries[k]) == Some(
                forwarded_headers(entries)[i],
            ),
    decreases entries.len(),
{
    let all = entries.map_values(|h: Header| forwarded(h));
    let less = entries.drop_last();
    assert(all.drop_last() =~= less.map_values(|h: Header| forwarded(h)));
    if i < forwarded_headers(less).len() {
        connection_headers_stay_behind(less, i);
        let k = choose|k: int|
            0 <= k < less.len() && forwarded(#[trigger] less[k]) == Some(
                forwarded_headers(less)[i],
            );
        assert(entries[k] == less[k]);
    } else {
        assert(entries[entries.len() - 1] == entries.last());
    }
}

} // verus!
