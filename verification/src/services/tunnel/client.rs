//! The client side of the tunnel: it connects to the server, makes the
//! connections that the server asks for, and forwards local services.

use vstd::prelude::*;

use crate::collections::StrMap;
use crate::config::env::DEFAULT_PORT;
use crate::domain::tunnel;
use crate::domain::tunnel::{clone_mappings, PortMapping, TunnelMessage};
use crate::state::tunnel_state::TunnelClientState;
use crate::text::chars;
use crate::text::chars::{clone_bytes, clone_pairs, concat2, concat3, str_eq};
use crate::text::number;
use crate::text::number::decimal;
use crate::time::Timestamp;

verus! {

/// Seconds between two attempts to connect.
pub const RECONNECT_DELAY_SECS: u64 = 5;

/// Seconds between two heartbeats.
pub const PING_INTERVAL_SECS: u64 = 30;

/// How many bytes are read from a local service at once.
pub const READ_BUFFER_SIZE: usize = 65536;

/// Seconds that a new process waits for the session to be handed over.
pub const TAKEOVER_TIMEOUT_SECS: u64 = 30;

/// How a connection to the server came to its end.
#[derive(Debug)]
pub enum ClientResult {
    /// The connection ended.
    Disconnected,
    /// The agent shuts down.
    Shutdown,
    /// A new process has taken the session over.
    TakeoverComplete,
    /// This process took the session over, and the connection ended later.
    TakeoverSuccess,
    /// This process could not take the session over.
    TakeoverFailed(String),
}

/// The contents of a `ClientResult`.
pub ghost enum ResultView {
    Disconnected,
    Shutdown,
    TakeoverComplete,
    TakeoverSuccess,
    TakeoverFailed(Seq<char>),
}

impl View for ClientResult {
    type V = ResultView;

    open spec fn view(&self) -> ResultView {
        match *self {
            ClientResult::Disconnected => ResultView::Disconnected,
            ClientResult::Shutdown => ResultView::Shutdown,
            ClientResult::TakeoverComplete => ResultView::TakeoverComplete,
            ClientResult::TakeoverSuccess => ResultView::TakeoverSuccess,
            ClientResult::TakeoverFailed(e) => ResultView::TakeoverFailed(e@),
        }
    }
}

/// How this process takes a session over.
#[derive(Debug)]
pub struct TakeoverConfig {
    /// The session of this process.
    pub session_id: String,
    /// The file that tells the old process of the success.
    pub signal_file: Option<String>,
}

/// The host that `url::Url::parse` and `url::Url::host_str` find in a URL, or
/// the text of the parse error.
pub uninterp spec fn host_of_url(url: Seq<char>) -> Result<Option<Seq<char>>, Seq<char>>;

/// The contents of the host of a URL.
pub open spec fn host_view(r: Result<Option<String>, String>) -> Result<
    Option<Seq<char>>,
    Seq<char>,
> {
    match r {
        Ok(h) => Ok(chars::opt_view(h)),
        Err(e) => Err(e@),
    }
}

/// Calls `url::Url::parse` and `url::Url::host_str`: the host of the URL where
/// it has one, or the text of the error where it is no URL.
#[verifier::external_body]
fn url_host(url: &str) -> (r: Result<Option<String>, String>)
    ensures
        host_view(r) == host_of_url(url@),
{
    match url::Url::parse(url) {
        Ok(u) => Ok(u.host_str().map(|h| h.to_owned())),
        Err(e) => Err(e.to_string()),
    }
}

/// The headers of the request that opens the connection, for a server on this
/// host.
pub open spec fn handshake_pairs(
    host: Option<Seq<char>>,
    auth_token: Seq<char>,
    key: Seq<char>,
) -> Seq<(Seq<char>, Seq<char>)> {
    seq![
        ("x-tunnel-token"@, auth_token),
        (
            "Host"@,
            match host {
                Some(h) => h,
                None => "localhost"@,
            },
        ),
        ("Connection"@, "Upgrade"@),
        ("Upgrade"@, "websocket"@),
        ("Sec-WebSocket-Version"@, "13"@),
        ("Sec-WebSocket-Key"@, key),
    ]
}

/// The headers of the request that opens the connection, for a server on this
/// host.
pub fn handshake_for_host(host: &Option<String>, auth_token: &str, key: &str) -> (r: Vec<
    (String, String),
>)
    ensures
        chars::pairs(r@) == handshake_pairs(chars::opt_view(*host), auth_token@, key@),
{
    let host_name = match host {
        Some(h) => h.clone(),
        None => "localhost".to_owned(),
    };
    let mut r: Vec<(String, String)> = Vec::new();
    r.push(("x-tunnel-token".to_owned(), auth_token.to_owned()));
    r.push(("Host".to_owned(), host_name));
    r.push(("Connection".to_owned(), "Upgrade".to_owned()));
    r.push(("Upgrade".to_owned(), "websocket".to_owned()));
    r.push(("Sec-WebSocket-Version".to_owned(), "13".to_owned()));
    r.push(("Sec-WebSocket-Key".to_owned(), key.to_owned()));
    assert(chars::pairs(r@) =~= handshake_pairs(chars::opt_view(*host), auth_token@, key@));
    r
}

/// The headers of the request that opens the connection to the server; an
/// error where its address is no URL.
pub fn handshake(server_url: &str, auth_token: &str, key: &str) -> (r: Result<
    Vec<(String, String)>,
    String,
>)
    ensures
        match host_of_url(server_url@) {
            Ok(host) => r is Ok && chars::pairs(r->Ok_0@) == handshake_pairs(
                host,
                auth_token@,
                key@,
            ),
            Err(e) => r is Err && r->Err_0@ == e,
        },
{
    match url_host(server_url) {
        Ok(host) => Ok(handshake_for_host(&host, auth_token, key)),
        Err(e) => Err(e),
    }
}

/// Something that the client asks for.
#[derive(Debug)]
pub enum ClientAction {
    /// Send a message to the server.
    Send(TunnelMessage),
    /// Give a sign of life.
    SendPong(Vec<u8>),
    /// Tell the server that the connection ends.
    SendClose,
    /// Connect to a local service and tell how it went.
    Dial { conn_id: String, addr: String },
    /// Bytes go to a local service.
    Deliver { conn_id: String, data: Vec<u8> },
    /// A local service gets no more bytes.
    Drop { conn_id: String },
    /// Send a request to the local agent and tell how it went.
    Fetch {
        request_id: String,
        method: String,
        url: String,
        headers: Vec<(String, String)>,
        body: Option<Vec<u8>>,
    },
    /// The connection is over.
    Done(ClientResult),
}

/// The contents of a `ClientAction`.
pub ghost enum ClientActionView {
    Send(tunnel::MessageView),
    SendPong(Seq<u8>),
    SendClose,
    Dial { conn_id: Seq<char>, addr: Seq<char> },
    Deliver { conn_id: Seq<char>, data: Seq<u8> },
    Drop { conn_id: Seq<char> },
    Fetch {
        request_id: Seq<char>,
        method: Seq<char>,
        url: Seq<char>,
        headers: Seq<(Seq<char>, Seq<char>)>,
        body: Option<Seq<u8>>,
    },
    Done(ResultView),
}

impl View for ClientAction {
    type V = ClientActionView;

    open spec fn view(&self) -> ClientActionView {
        match *self {
            ClientAction::Send(m) => ClientActionView::Send(m@),
            ClientAction::SendPong(d) => ClientActionView::SendPong(d@),
            ClientAction::SendClose => ClientActionView::SendClose,
            ClientAction::Dial { conn_id, addr } => ClientActionView::Dial {
                conn_id: conn_id@,
                addr: addr@,
            },
            ClientAction::Deliver { conn_id, data } => ClientActionView::Deliver {
                conn_id: conn_id@,
                data: data@,
            },
            ClientAction::Drop { conn_id } => ClientActionView::Drop { conn_id: conn_id@ },
            ClientAction::Fetch { request_id, method, url, headers, body } =>
                ClientActionView::Fetch {
                    request_id: request_id@,
                    method: method@,
                    url: url@,
                    headers: chars::pairs(headers@),
                    body: chars::opt_bytes(body),
                },
            ClientAction::Done(r) => ClientActionView::Done(r@),
        }
    }
}

/// The contents of a list of actions.
pub open spec fn client_actions(v: Seq<ClientAction>) -> Seq<ClientActionView> {
    v.map_values(|a: ClientAction| a@)
}

/// The first mapping of a remote port.
pub open spec fn mapping_for_port(mappings: Seq<tunnel::PortMappingView>, port: u16) -> Option<
    tunnel::PortMappingView,
>
    decreases mappings.len(),
{
    if mappings.len() == 0 {
        None
    } else if mappings[0].remote_port == port {
        Some(mappings[0])
    } else {
        mapping_for_port(mappings.subrange(1, mappings.len() as int), port)
    }
}

/// The first mapping of a name.
pub open spec fn mapping_named(mappings: Seq<tunnel::PortMappingView>, name: Seq<char>) -> Option<
    tunnel::PortMappingView,
>
    decreases mappings.len(),
{
    if mappings.len() == 0 {
        None
    } else if mappings[0].name == name {
        Some(mappings[0])
    } else {
        mapping_named(mappings.subrange(1, mappings.len() as int), name)
    }
}

/// The first mapping of a remote port.
pub fn find_by_port(mappings: &Vec<PortMapping>, port: u16) -> (r: Option<&PortMapping>)
    ensures
        r is Some <==> mapping_for_port(tunnel::mapping_views(mappings@), port) is Some,
        r matches Some(m) ==> mapping_for_port(tunnel::mapping_views(mappings@), port) == Some(m@),
        r is None ==> forall|i: int|
            0 <= i < mappings@.len() ==> (#[trigger] mappings@[i]).remote_port != port,
        r matches Some(m) ==> exists|i: int|
            0 <= i < mappings@.len() && *m == #[trigger] mappings@[i] && m.remote_port == port
                && forall|j: int| 0 <= j < i ==> (#[trigger] mappings@[j]).remote_port != port,
{
    let ghost views = tunnel::mapping_views(mappings@);
    let n = mappings.len();
    let mut i: usize = 0;
    assert(views.subrange(0, n as int) =~= views);
    while i < n
        invariant
            n == mappings@.len(),
            i <= n,
            views == tunnel::mapping_views(mappings@),
            mapping_for_port(views, port) == mapping_for_port(
                views.subrange(i as int, n as int),
                port,
            ),
            forall|j: int| 0 <= j < i ==> (#[trigger] mappings@[j]).remote_port != port,
        decreases n - i,
    {
        let ghost rest = views.subrange(i as int, n as int);
        assert(rest[0] == mappings@[i as int]@);
        if mappings[i].remote_port == port {
            return Some(&mappings[i]);
        }
        assert(rest.subrange(1, rest.len() as int) =~= views.subrange(i + 1, n as int));
        i = i + 1;
    }
    None
}

/// The first mapping of a name.
pub fn find_by_name<'a>(mappings: &'a Vec<PortMapping>, name: &str) -> (r: Option<&'a PortMapping>)
    ensures
        r is Some <==> mapping_named(tunnel::mapping_views(mappings@), name@) is Some,
        r matches Some(m) ==> mapping_named(tunnel::mapping_views(mappings@), name@) == Some(m@),
        r is None ==> forall|i: int|
            0 <= i < mappings@.len() ==> (#[trigger] mappings@[i]).name@ != name@,
        r matches Some(m) ==> exists|i: int|
            0 <= i < mappings@.len() && *m == #[trigger] mappings@[i] && m.name@ == name@
                && forall|j: int| 0 <= j < i ==> (#[trigger] mappings@[j]).name@ != name@,
{
    let ghost views = tunnel::mapping_views(mappings@);
    let n = mappings.len();
    let mut i: usize = 0;
    assert(views.subrange(0, n as int) =~= views);
    while i < n
        invariant
            n == mappings@.len(),
            i <= n,
            views == tunnel::mapping_views(mappings@),
            mapping_named(views, name@) == mapping_named(
                views.subrange(i as int, n as int),
                name@,
            ),
            forall|j: int| 0 <= j < i ==> (#[trigger] mappings@[j]).name@ != name@,
        decreases n - i,
    {
        let ghost rest = views.subrange(i as int, n as int);
        assert(rest[0] == mappings@[i as int]@);
        if str_eq(mappings[i].name.as_str(), name) {
            return Some(&mappings[i]);
        }
        assert(rest.subrange(1, rest.len() as int) =~= views.subrange(i + 1, n as int));
        i = i + 1;
    }
    None
}

/// The method of a request to the local agent: GET stands in for one that is
/// not known.
pub open spec fn known_method(method: Seq<char>) -> Seq<char> {
    if method == "GET"@ || method == "POST"@ || method == "PUT"@ || method == "DELETE"@ || method
        == "PATCH"@ || method == "HEAD"@ || method == "OPTIONS"@ {
        method
    } else {
        "GET"@
    }
}

/// The method of a request to the local agent.
pub fn request_method(method: &str) -> (r: String)
    ensures
        r@ == known_method(method@),
{
    if str_eq(method, "GET") || str_eq(method, "POST") || str_eq(method, "PUT") || str_eq(
        method,
        "DELETE",
    ) || str_eq(method, "PATCH") || str_eq(method, "HEAD") || str_eq(method, "OPTIONS") {
        method.to_owned()
    } else {
        "GET".to_owned()
    }
}

/// The port of the local agent.
pub open spec fn agent_port(mappings: Seq<tunnel::PortMappingView>) -> u16 {
    match mapping_named(mappings, "deploy-agent"@) {
        Some(m) => m.local_port,
        None => DEFAULT_PORT,
    }
}

/// What a message of the server leaves of the local connections, and what the
/// client then asks for.
pub ghost struct Served {
    pub connections: Set<Seq<char>>,
    pub actions: Seq<ClientActionView>,
}

/// What a message of the server does.
pub open spec fn served(
    msg: tunnel::MessageView,
    mappings: Seq<tunnel::PortMappingView>,
    connections: Set<Seq<char>>,
) -> Served {
    match msg {
        tunnel::MessageView::Connect { conn_id, remote_port } => Served {
            connections,
            actions: match mapping_for_port(mappings, remote_port) {
                Some(m) => seq![
                    ClientActionView::Dial {
                        conn_id,
                        addr: m.local_host + ":"@ + number::decimal_spec(m.local_port as nat),
                    },
                ],
                None => seq![
                    ClientActionView::Send(
                        tunnel::MessageView::ConnectFailed {
                            conn_id,
                            error: "No mapping for port "@ + number::decimal_spec(
                                remote_port as nat,
                            ),
                        },
                    ),
                ],
            },
        },
        tunnel::MessageView::Data { conn_id, data } => Served {
            connections,
            actions: if connections.contains(conn_id) {
                seq![ClientActionView::Deliver { conn_id, data }]
            } else {
                seq![]
            },
        },
        tunnel::MessageView::Close { conn_id } => Served {
            connections: connections.remove(conn_id),
            actions: if connections.contains(conn_id) {
                seq![ClientActionView::Drop { conn_id }]
            } else {
                seq![]
            },
        },
        tunnel::MessageView::HttpRequest { request_id, method, path, headers, body } => Served {
            connections,
            actions: seq![
                ClientActionView::Fetch {
                    request_id,
                    method: known_method(method),
                    url: "http://127.0.0.1:"@ + number::decimal_spec(agent_port(mappings) as nat)
                        + path,
                    headers,
                    body,
                },
            ],
        },
        _ => Served { connections, actions: seq![] },
    }
}

/// Takes a message of the server: a connection is made through the first
/// mapping of its port, bytes go to connections that are there, and requests go
/// to the local agent. Everything else is left alone.
pub fn handle_server_message(
    msg: TunnelMessage,
    mappings: &Vec<PortMapping>,
    connections: &mut StrMap<()>,
) -> (r: Vec<ClientAction>)
    ensures
        served(msg@, tunnel::mapping_views(mappings@), old(connections)@.dom()) == (Served {
            connections: final(connections)@.dom(),
            actions: client_actions(r@),
        }),
{
    let mut r: Vec<ClientAction> = Vec::new();
    match &msg {
        TunnelMessage::Connect { conn_id, remote_port } => {
            match find_by_port(mappings, *remote_port) {
                Some(m) => {
                    let port = decimal(m.local_port as u64);
                    r.push(
                        ClientAction::Dial {
                            conn_id: conn_id.clone(),
                            addr: concat3(m.local_host.as_str(), ":", port.as_str()),
                        },
                    );
                },
                None => {
                    let port = decimal(*remote_port as u64);
                    r.push(
                        ClientAction::Send(
                            TunnelMessage::ConnectFailed {
                                conn_id: conn_id.clone(),
                                error: concat2("No mapping for port ", port.as_str()),
                            },
                        ),
                    );
                },
            }
        },
        TunnelMessage::Data { conn_id, data } => {
            if connections.contains_key(conn_id.as_str()) {
                r.push(
                    ClientAction::Deliver { conn_id: conn_id.clone(), data: clone_bytes(data) },
                );
            }
        },
        TunnelMessage::Close { conn_id } => {
            if connections.remove(conn_id.as_str()).is_some() {
                r.push(ClientAction::Drop { conn_id: conn_id.clone() });
            }
            assert(connections@.dom() =~= old(connections)@.dom().remove(conn_id@));
        },
        TunnelMessage::HttpRequest { request_id, method, path, headers, body } => {
            let local_port = match find_by_name(mappings, "deploy-agent") {
                Some(m) => m.local_port,
                None => DEFAULT_PORT,
            };
            let port = decimal(local_port as u64);
            let body = match body {
                Some(b) => Some(clone_bytes(b)),
                None => None,
            };
            r.push(
                ClientAction::Fetch {
                    request_id: request_id.clone(),
                    method: request_method(method.as_str()),
                    url: concat3("http://127.0.0.1:", port.as_str(), path.as_str()),
                    headers: clone_pairs(headers),
                    body,
                },
            );
        },
        _ => {},
    }
    assert(client_actions(r@) =~= served(
        msg@,
        tunnel::mapping_views(mappings@),
        old(connections)@.dom(),
    ).actions);
    r
}

/// Something that happens to the client.
#[derive(Debug)]
pub enum ClientEvent {
    /// A message came as text.
    Text(TunnelMessage),
    /// A message came as bytes.
    Binary(TunnelMessage),
    /// Something came that is no message.
    Unreadable,
    /// The server asks for a sign of life.
    Ping(Vec<u8>),
    /// The server gave a sign of life.
    Pong,
    /// The server closed the connection.
    Close,
    /// The connection failed.
    Failed(String),
    /// The connection ended.
    End,
    /// A message could not be sent.
    SendFailed,
    /// It is time for a heartbeat.
    Tick,
    /// The agent shuts down.
    Shutdown,
    /// The session was not handed over in time.
    TimedOut,
    /// A connection to a local service has been made.
    Dialed { conn_id: String },
    /// A connection to a local service could not be made.
    DialFailed { conn_id: String, error: String },
    /// A local service sent bytes; none where it closed the connection.
    LocalRead { conn_id: String, data: Vec<u8> },
    /// Reading from a local service failed.
    LocalFailed { conn_id: String },
    /// The local agent answered a request.
    Fetched { request_id: String, status: u16, headers: Vec<(String, String)>, body: Vec<u8> },
    /// The local agent did not answer a request.
    FetchFailed { request_id: String, error: String },
}

/// The contents of a `ClientEvent`.
pub ghost enum ClientEventView {
    Text(tunnel::MessageView),
    Binary(tunnel::MessageView),
    Unreadable,
    Ping(Seq<u8>),
    Pong,
    Close,
    Failed(Seq<char>),
    End,
    SendFailed,
    Tick,
    Shutdown,
    TimedOut,
    Dialed { conn_id: Seq<char> },
    DialFailed { conn_id: Seq<char>, error: Seq<char> },
    LocalRead { conn_id: Seq<char>, data: Seq<u8> },
    LocalFailed { conn_id: Seq<char> },
    Fetched {
        request_id: Seq<char>,
        status: u16,
        headers: Seq<(Seq<char>, Seq<char>)>,
        body: Seq<u8>,
    },
    FetchFailed { request_id: Seq<char>, error: Seq<char> },
}

impl View for ClientEvent {
    type V = ClientEventView;

    open spec fn view(&self) -> ClientEventView {
        match *self {
            ClientEvent::Text(m) => ClientEventView::Text(m@),
            ClientEvent::Binary(m) => ClientEventView::Binary(m@),
            ClientEvent::Unreadable => ClientEventView::Unreadable,
            ClientEvent::Ping(d) => ClientEventView::Ping(d@),
            ClientEvent::Pong => ClientEventView::Pong,
            ClientEvent::Close => ClientEventView::Close,
            ClientEvent::Failed(e) => ClientEventView::Failed(e@),
            ClientEvent::End => ClientEventView::End,
            ClientEvent::SendFailed => ClientEventView::SendFailed,
            ClientEvent::Tick => ClientEventView::Tick,
            ClientEvent::Shutdown => ClientEventView::Shutdown,
            ClientEvent::TimedOut => ClientEventView::TimedOut,
            ClientEvent::Dialed { conn_id } => ClientEventView::Dialed { conn_id: conn_id@ },
            ClientEvent::DialFailed { conn_id, error } => ClientEventView::DialFailed {
                conn_id: conn_id@,
                error: error@,
            },
            ClientEvent::LocalRead { conn_id, data } => ClientEventView::LocalRead {
                conn_id: conn_id@,
                data: data@,
            },
            ClientEvent::LocalFailed { conn_id } => ClientEventView::LocalFailed {
                conn_id: conn_id@,
            },
            ClientEvent::Fetched { request_id, status, headers, body } =>
                ClientEventView::Fetched {
                    request_id: request_id@,
                    status,
                    headers: chars::pairs(headers@),
                    body: body@,
                },
            ClientEvent::FetchFailed { request_id, error } => ClientEventView::FetchFailed {
                request_id: request_id@,
                error: error@,
            },
        }
    }
}

/// Where a connection to the server stands.
#[derive(Clone, Copy, Debug, PartialEq, Eq, Structural)]
pub enum ClientPhase {
    /// The session has not been handed over yet.
    Waiting,
    /// The connection is in use.
    Running,
    /// The connection is over.
    Over,
}

/// One connection to the server.
pub struct ClientSession {
    mappings: Vec<PortMapping>,
    takeover: Option<String>,
    phase: ClientPhase,
    connections: StrMap<()>,
}

/// The contents of a `ClientSession`.
pub ghost struct ClientView {
    pub mappings: Seq<tunnel::PortMappingView>,
    /// The session of this process, where it takes a session over.
    pub takeover: Option<Seq<char>>,
    pub phase: ClientPhase,
    /// The connections to local services.
    pub connections: Set<Seq<char>>,
}

impl View for ClientSession {
    type V = ClientView;

    closed spec fn view(&self) -> ClientView {
        ClientView {
            mappings: tunnel::mapping_views(self.mappings@),
            takeover: chars::opt_view(self.takeover),
            phase: self.phase,
            connections: self.connections@.dom(),
        }
    }
}

/// What an event leaves of the connection and of the state of the client, and
/// what the client then asks for.
pub ghost struct ClientStep {
    pub session: ClientView,
    pub state: TunnelClientState,
    pub actions: Seq<ClientActionView>,
}

/// The state of a client that connected at `now`.
pub open spec fn connected_state(state: TunnelClientState, now: Timestamp) -> TunnelClientState {
    TunnelClientState {
        connected: true,
        connected_at: Some(now),
        last_error: None,
        ..state
    }
}

impl ClientView {
    /// Nothing changes, and the client asks for something.
    pub open spec fn asks(
        self,
        state: TunnelClientState,
        actions: Seq<ClientActionView>,
    ) -> ClientStep {
        ClientStep { session: self, state, actions }
    }

    /// The client could not take the session over.
    pub open spec fn refused(self, state: TunnelClientState, error: Seq<char>) -> ClientStep {
        ClientStep {
            session: ClientView { phase: ClientPhase::Over, ..self },
            state,
            actions: seq![ClientActionView::Done(ResultView::TakeoverFailed(error))],
        }
    }

    /// The connection ends: nothing is left of the local connections, and the
    /// client is not connected.
    pub open spec fn ends(
        self,
        state: TunnelClientState,
        first: Seq<ClientActionView>,
        result: ResultView,
    ) -> ClientStep {
        ClientStep {
            session: ClientView {
                phase: ClientPhase::Over,
                connections: Set::empty(),
                ..self
            },
            state: TunnelClientState { connected: false, ..state },
            actions: first.push(ClientActionView::Done(result)),
        }
    }

    /// How the connection ended when nobody asked for it.
    pub open spec fn plain_end(self) -> ResultView {
        if self.takeover is Some {
            ResultView::TakeoverSuccess
        } else {
            ResultView::Disconnected
        }
    }

    /// What an event does while the session is not handed over.
    pub open spec fn waiting_step(
        self,
        event: ClientEventView,
        state: TunnelClientState,
        now: Timestamp,
    ) -> ClientStep {
        match event {
            ClientEventView::Text(tunnel::MessageView::TakeoverReady { session_id }) =>
                if self.takeover == Some(session_id) {
                    ClientStep {
                        session: ClientView { phase: ClientPhase::Running, ..self },
                        state: connected_state(state, now),
                        actions: seq![],
                    }
                } else {
                    self.asks(state, seq![])
                },
            ClientEventView::Text(tunnel::MessageView::TakeoverFailed { error }) => self.refused(
                state,
                error,
            ),
            ClientEventView::Ping(d) => self.asks(state, seq![ClientActionView::SendPong(d)]),
            ClientEventView::Close => self.refused(state, "Server closed connection"@),
            ClientEventView::Failed(e) => self.refused(state, "WebSocket error: "@ + e),
            ClientEventView::End => self.refused(state, "WebSocket stream ended"@),
            ClientEventView::TimedOut => self.refused(state, "Takeover timeout"@),
            _ => self.asks(state, seq![]),
        }
    }

    /// What a message of the server does.
    pub open spec fn hears(self, msg: tunnel::MessageView, state: TunnelClientState) -> ClientStep {
        let s = served(msg, self.mappings, self.connections);
        ClientStep {
            session: ClientView { connections: s.connections, ..self },
            state,
            actions: s.actions,
        }
    }

    /// What an event does while the connection is in use.
    pub open spec fn running_step(
        self,
        event: ClientEventView,
        state: TunnelClientState,
    ) -> ClientStep {
        match event {
            ClientEventView::Text(tunnel::MessageView::TakeoverComplete { new_session_id }) =>
                if self.takeover is None {
                    self.ends(
                        state,
                        seq![ClientActionView::SendClose],
                        ResultView::TakeoverComplete,
                    )
                } else {
                    self.asks(state, seq![])
                },
            ClientEventView::Text(m) => self.hears(m, state),
            ClientEventView::Binary(m) => self.hears(m, state),
            ClientEventView::Unreadable => self.asks(state, seq![]),
            ClientEventView::Ping(d) => self.asks(state, seq![ClientActionView::SendPong(d)]),
            ClientEventView::Pong => self.asks(state, seq![]),
            ClientEventView::Close => self.ends(state, seq![], self.plain_end()),
            ClientEventView::Failed(e) => self.ends(state, seq![], self.plain_end()),
            ClientEventView::End => self.ends(state, seq![], self.plain_end()),
            ClientEventView::SendFailed => self.ends(state, seq![], self.plain_end()),
            ClientEventView::Tick => self.asks(
                state,
                seq![ClientActionView::Send(tunnel::MessageView::Ping)],
            ),
            ClientEventView::Shutdown => self.ends(
                state,
                seq![ClientActionView::SendClose],
                ResultView::Shutdown,
            ),
            ClientEventView::TimedOut => self.asks(state, seq![]),
            ClientEventView::Dialed { conn_id } => ClientStep {
                session: ClientView { connections: self.connections.insert(conn_id), ..self },
                state,
                actions: seq![
                    ClientActionView::Send(tunnel::MessageView::Connected { conn_id }),
                ],
            },
            ClientEventView::DialFailed { conn_id, error } => self.asks(
                state,
                seq![
                    ClientActionView::Send(tunnel::MessageView::ConnectFailed { conn_id, error }),
                ],
            ),
            ClientEventView::LocalRead { conn_id, data } => if data.len() > 0 {
                self.asks(
                    state,
                    seq![ClientActionView::Send(tunnel::MessageView::Data { conn_id, data })],
                )
            } else {
                self.local_end(conn_id, state)
            },
            ClientEventView::LocalFailed { conn_id } => self.local_end(conn_id, state),
            ClientEventView::Fetched { request_id, status, headers, body } => self.asks(
                state,
                seq![
                    ClientActionView::Send(
                        tunnel::MessageView::HttpResponse {
                            request_id,
                            status,
                            headers,
                            body: if body.len() == 0 {
                                None
                            } else {
                                Some(body)
                            },
                        },
                    ),
                ],
            ),
            ClientEventView::FetchFailed { request_id, error } => self.asks(
                state,
                seq![
                    ClientActionView::Send(tunnel::MessageView::HttpError { request_id, error }),
                ],
            ),
        }
    }

    /// A local service sends nothing more.
    pub open spec fn local_end(self, conn_id: Seq<char>, state: TunnelClientState) -> ClientStep {
        ClientStep {
            session: ClientView { connections: self.connections.remove(conn_id), ..self },
            state,
            actions: seq![ClientActionView::Send(tunnel::MessageView::Close { conn_id })],
        }
    }

    /// What an event does.
    pub open spec fn step(
        self,
        event: ClientEventView,
        state: TunnelClientState,
        now: Timestamp,
    ) -> ClientStep {
        match self.phase {
            ClientPhase::Waiting => self.waiting_step(event, state, now),
            ClientPhase::Running => self.running_step(event, state),
            ClientPhase::Over => self.asks(state, seq![]),
        }
    }
}

impl ClientSession {
    /// A connection that has just been made: the client is connected, and it
    /// tells the server who it is and what it exposes.
    pub fn begin(
        client_id: &str,
        mappings: &Vec<PortMapping>,
        state: &mut TunnelClientState,
        now: Timestamp,
    ) -> (r: (ClientSession, TunnelMessage))
        ensures
            r.0@ == (ClientView {
                mappings: tunnel::mapping_views(mappings@),
                takeover: None,
                phase: ClientPhase::Running,
                connections: Set::empty(),
            }),
            r.1@ == (tunnel::MessageView::Config {
                client_id: client_id@,
                mappings: tunnel::mapping_views(mappings@),
            }),
            *final(state) == connected_state(*old(state), now),
    {
        state.connected = true;
        state.connected_at = Some(now);
        state.last_error = None;
        let session = ClientSession {
            mappings: clone_mappings(mappings),
            takeover: None,
            phase: ClientPhase::Running,
            connections: StrMap::new(),
        };
        assert(session@.connections =~= Set::empty());
        let message = TunnelMessage::Config {
            client_id: client_id.to_owned(),
            mappings: clone_mappings(mappings),
        };
        (session, message)
    }

    /// A connection that has just been made by a process that asks for the
    /// session of an older one.
    pub fn begin_takeover(client_id: &str, mappings: &Vec<PortMapping>, session_id: &str) -> (r: (
        ClientSession,
        TunnelMessage,
    ))
        ensures
            r.0@ == (ClientView {
                mappings: tunnel::mapping_views(mappings@),
                takeover: Some(session_id@),
                phase: ClientPhase::Waiting,
                connections: Set::empty(),
            }),
            r.1@ == (tunnel::MessageView::Takeover {
                client_id: client_id@,
                mappings: tunnel::mapping_views(mappings@),
                new_session_id: session_id@,
            }),
    {
        let session = ClientSession {
            mappings: clone_mappings(mappings),
            takeover: Some(session_id.to_owned()),
            phase: ClientPhase::Waiting,
            connections: StrMap::new(),
        };
        assert(session@.connections =~= Set::empty());
        let message = TunnelMessage::Takeover {
            client_id: client_id.to_owned(),
            mappings: clone_mappings(mappings),
            new_session_id: session_id.to_owned(),
        };
        (session, message)
    }

    /// Where the connection stands.
    pub fn phase(&self) -> (r: ClientPhase)
        ensures
            r == self@.phase,
    {
        self.phase
    }

    fn refuse(&mut self, error: String) -> (r: Vec<ClientAction>)
        ensures
            forall|state: TunnelClientState| #[trigger]
                old(self)@.refused(state, error@) == (ClientStep {
                    session: final(self)@,
                    state,
                    actions: client_actions(r@),
                }),
    {
        self.phase = ClientPhase::Over;
        let mut r: Vec<ClientAction> = Vec::new();
        r.push(ClientAction::Done(ClientResult::TakeoverFailed(error)));
        assert(client_actions(r@) =~= seq![
            ClientActionView::Done(ResultView::TakeoverFailed(error@)),
        ]);
        r
    }

    fn end(&mut self, state: &mut TunnelClientState, closes: bool, result: ClientResult) -> (r: Vec<
        ClientAction,
    >)
        ensures
            old(self)@.ends(
                *old(state),
                if closes {
                    seq![ClientActionView::SendClose]
                } else {
                    seq![]
                },
                result@,
            ) == (ClientStep {
                session: final(self)@,
                state: *final(state),
                actions: client_actions(r@),
            }),
    {
        self.phase = ClientPhase::Over;
        self.connections = StrMap::new();
        state.connected = false;
        let mut r: Vec<ClientAction> = Vec::new();
        if closes {
            r.push(ClientAction::SendClose);
        }
        r.push(ClientAction::Done(result));
        assert(self@.connections =~= Set::empty());
        let ghost first = if closes {
            seq![ClientActionView::SendClose]
        } else {
            seq![]
        };
        assert(client_actions(r@) =~= first.push(ClientActionView::Done(result@)));
        r
    }

    fn plain_result(&self) -> (r: ClientResult)
        ensures
            r@ == self@.plain_end(),
    {
        if self.takeover.is_some() {
            ClientResult::TakeoverSuccess
        } else {
            ClientResult::Disconnected
        }
    }

    fn on_waiting(&mut self, event: ClientEvent, state: &mut TunnelClientState, now: Timestamp) -> (r:
        Vec<ClientAction>)
        ensures
            old(self)@.waiting_step(event@, *old(state), now) == (ClientStep {
                session: final(self)@,
                state: *final(state),
                actions: client_actions(r@),
            }),
    {
        let mut r: Vec<ClientAction> = Vec::new();
        assert(client_actions(r@) =~= seq![]);
        match event {
            ClientEvent::Text(TunnelMessage::TakeoverReady { session_id }) => {
                let same = match &self.takeover {
                    Some(s) => str_eq(s.as_str(), session_id.as_str()),
                    None => false,
                };
                if same {
                    self.phase = ClientPhase::Running;
                    state.connected = true;
                    state.connected_at = Some(now);
                    state.last_error = None;
                }
                r
            },
            ClientEvent::Text(TunnelMessage::TakeoverFailed { error }) => self.refuse(error),
            ClientEvent::Ping(d) => {
                r.push(ClientAction::SendPong(d));
                assert(client_actions(r@) =~= seq![ClientActionView::SendPong(d@)]);
                r
            },
            ClientEvent::Close => self.refuse("Server closed connection".to_owned()),
            ClientEvent::Failed(e) => self.refuse(concat2("WebSocket error: ", e.as_str())),
            ClientEvent::End => self.refuse("WebSocket stream ended".to_owned()),
            ClientEvent::TimedOut => self.refuse("Takeover timeout".to_owned()),
            _ => r,
        }
    }

    fn hear(&mut self, msg: TunnelMessage) -> (r: Vec<ClientAction>)
        ensures
            forall|state: TunnelClientState| #[trigger]
                old(self)@.hears(msg@, state) == (ClientStep {
                    session: final(self)@,
                    state,
                    actions: client_actions(r@),
                }),
    {
        handle_server_message(msg, &self.mappings, &mut self.connections)
    }

    fn end_local(&mut self, conn_id: String) -> (r: Vec<ClientAction>)
        ensures
            forall|state: TunnelClientState| #[trigger]
                old(self)@.local_end(conn_id@, state) == (ClientStep {
                    session: final(self)@,
                    state,
                    actions: client_actions(r@),
                }),
    {
        self.connections.remove(conn_id.as_str());
        assert(self@.connections =~= old(self)@.connections.remove(conn_id@));
        let mut r: Vec<ClientAction> = Vec::new();
        r.push(ClientAction::Send(TunnelMessage::Close { conn_id }));
        assert(client_actions(r@) =~= seq![
            ClientActionView::Send(tunnel::MessageView::Close { conn_id: conn_id@ }),
        ]);
        r
    }

    fn send(msg: TunnelMessage) -> (r: Vec<ClientAction>)
        ensures
            client_actions(r@) == seq![ClientActionView::Send(msg@)],
    {
        let mut r: Vec<ClientAction> = Vec::new();
        r.push(ClientAction::Send(msg));
        assert(client_actions(r@) =~= seq![ClientActionView::Send(msg@)]);
        r
    }

    fn nothing() -> (r: Vec<ClientAction>)
        ensures
            client_actions(r@) == Seq::<ClientActionView>::empty(),
    {
        let r: Vec<ClientAction> = Vec::new();
        assert(client_actions(r@) =~= Seq::<ClientActionView>::empty());
        r
    }

    fn on_running(&mut self, event: ClientEvent, state: &mut TunnelClientState) -> (r: Vec<
        ClientAction,
    >)
        ensures
            old(self)@.running_step(event@, *old(state)) == (ClientStep {
                session: final(self)@,
                state: *final(state),
                actions: client_actions(r@),
            }),
    {
        let takes_over = self.takeover.is_some();
        match event {
            ClientEvent::Text(TunnelMessage::TakeoverComplete { new_session_id }) => {
                if takes_over {
                    ClientSession::nothing()
                } else {
                    self.end(state, true, ClientResult::TakeoverComplete)
                }
            },
            ClientEvent::Text(m) => self.hear(m),
            ClientEvent::Binary(m) => self.hear(m),
            ClientEvent::Unreadable => ClientSession::nothing(),
            ClientEvent::Ping(d) => {
                let mut r: Vec<ClientAction> = Vec::new();
                r.push(ClientAction::SendPong(d));
                assert(client_actions(r@) =~= seq![ClientActionView::SendPong(d@)]);
                r
            },
            ClientEvent::Pong => ClientSession::nothing(),
            ClientEvent::Close => {
                let result = self.plain_result();
                self.end(state, false, result)
            },
            ClientEvent::Failed(_) => {
                let result = self.plain_result();
                self.end(state, false, result)
            },
            ClientEvent::End => {
                let result = self.plain_result();
                self.end(state, false, result)
            },
            ClientEvent::SendFailed => {
                let result = self.plain_result();
                self.end(state, false, result)
            },
            ClientEvent::Tick => ClientSession::send(TunnelMessage::Ping),
            ClientEvent::Shutdown => self.end(state, true, ClientResult::Shutdown),
            ClientEvent::TimedOut => ClientSession::nothing(),
            ClientEvent::Dialed { conn_id } => {
                self.connections.insert(conn_id.clone(), ());
                assert(self@.connections =~= old(self)@.connections.insert(conn_id@));
                ClientSession::send(TunnelMessage::Connected { conn_id })
            },
            ClientEvent::DialFailed { conn_id, error } => ClientSession::send(
                TunnelMessage::ConnectFailed { conn_id, error },
            ),
            ClientEvent::LocalRead { conn_id, data } => {
                if data.len() > 0 {
                    ClientSession::send(TunnelMessage::Data { conn_id, data })
                } else {
                    self.end_local(conn_id)
                }
            },
            ClientEvent::LocalFailed { conn_id } => self.end_local(conn_id),
            ClientEvent::Fetched { request_id, status, headers, body } => {
                let body = if body.len() == 0 {
                    None
                } else {
                    Some(body)
                };
                ClientSession::send(
                    TunnelMessage::HttpResponse { request_id, status, headers, body },
                )
            },
            ClientEvent::FetchFailed { request_id, error } => ClientSession::send(
                TunnelMessage::HttpError { request_id, error },
            ),
        }
    }

    /// Takes an event.
    pub fn on_event(&mut self, event: ClientEvent, state: &mut TunnelClientState, now: Timestamp) -> (r:
        Vec<ClientAction>)
        ensures
            old(self)@.step(event@, *old(state), now) == (ClientStep {
                session: final(self)@,
                state: *final(state),
                actions: client_actions(r@),
            }),
    {
        match self.phase {
            ClientPhase::Waiting => self.on_waiting(event, state, now),
            ClientPhase::Running => self.on_running(event, state),
            ClientPhase::Over => ClientSession::nothing(),
        }
    }
}

/// What the client does after a connection.
#[derive(Clone, Copy, Debug, PartialEq, Eq, Structural)]
pub enum LoopStep {
    /// Connect.
    Connect,
    /// Connect again after the delay.
    Reconnect,
    /// Stop.
    Stop,
    /// End the process: another one has taken over.
    Exit,
}

/// Whether the client connects at all: it does so where there is something to
/// expose. The state forgets an earlier connection.
pub fn before_connect(
    mappings: &Vec<PortMapping>,
    shutdown: bool,
    state: &mut TunnelClientState,
) -> (r: LoopStep)
    ensures
        r == if mappings@.len() == 0 || shutdown {
            LoopStep::Stop
        } else {
            LoopStep::Connect
        },
        *final(state) == if r is Connect {
            TunnelClientState { connected: false, connected_at: None, ..*old(state) }
        } else {
            *old(state)
        },
{
    if mappings.len() == 0 || shutdown {
        return LoopStep::Stop;
    }
    state.connected = false;
    state.connected_at = None;
    LoopStep::Connect
}

/// What the client does after a connection that came to its end, or that could
/// not be made, and whether the agent shuts down.
pub open spec fn after_connect_step(
    outcome: Result<ClientResult, String>,
    shutdown: bool,
) -> LoopStep {
    match outcome {
        Ok(ClientResult::Shutdown) => LoopStep::Stop,
        Ok(ClientResult::TakeoverComplete) => LoopStep::Exit,
        _ => if shutdown {
            LoopStep::Stop
        } else {
            LoopStep::Reconnect
        },
    }
}

/// Decides what the client does after a connection that came to its end, or
/// that could not be made.
pub fn after_connect(
    outcome: Result<ClientResult, String>,
    shutdown: bool,
    state: &mut TunnelClientState,
) -> (r: LoopStep)
    requires
        old(state).reconnect_count < u32::MAX,
    ensures
        r == after_connect_step(outcome, shutdown),
        final(state).connected == old(state).connected,
        final(state).connected_at == old(state).connected_at,
        final(state).last_error == match outcome {
            Ok(_) => old(state).last_error,
            Err(e) => Some(e),
        },
        final(state).reconnect_count == old(state).reconnect_count + if r is Reconnect {
            1int
        } else {
            0
        },
{
    match outcome {
        Ok(ClientResult::Shutdown) => {
            return LoopStep::Stop;
        },
        Ok(ClientResult::TakeoverComplete) => {
            return LoopStep::Exit;
        },
        Ok(_) => {},
        Err(e) => {
            state.last_error = Some(e);
        },
    }
    if shutdown {
        return LoopStep::Stop;
    }
    state.reconnect_count = state.reconnect_count + 1;
    LoopStep::Reconnect
}

/// Why a process does not even try to take a session over.
pub fn check_takeover(mappings: &Vec<PortMapping>) -> (r: Option<ClientResult>)
    ensures
        r is Some <==> mappings@.len() == 0,
        r matches Some(e) ==> e@ == ResultView::TakeoverFailed("No port mappings"@),
{
    if mappings.len() == 0 {
        Some(ClientResult::TakeoverFailed("No port mappings".to_owned()))
    } else {
        None
    }
}

/// How a process that takes a session over ends, and the file that it writes
/// "ready" to: the signal file, where it took the session over.
pub fn after_takeover(outcome: Result<ClientResult, String>, config: &TakeoverConfig) -> (r: (
    ClientResult,
    Option<String>,
))
    ensures
        r.0@ == match outcome {
            Ok(result) => result@,
            Err(e) => ResultView::TakeoverFailed(e@),
        },
        chars::opt_view(r.1) == if r.0@ is TakeoverSuccess {
            chars::opt_view(config.signal_file)
        } else {
            None
        },
{
    match outcome {
        Ok(ClientResult::TakeoverSuccess) => (
            ClientResult::TakeoverSuccess,
            config.signal_file.clone(),
        ),
        Ok(result) => (result, None),
        Err(e) => (ClientResult::TakeoverFailed(e), None),
    }
}

/// A process takes a session over only when the server says that its own
/// session is ready: no other event brings it out of waiting into use.
pub proof fn takeover_needs_own_session(
    session: ClientView,
    event: ClientEventView,
    state: TunnelClientState,
    now: Timestamp,
)
    requires
        session.phase is Waiting,
        session.step(event, state, now).session.phase is Running,
    ensures
        event matches ClientEventView::Text(tunnel::MessageView::TakeoverReady { session_id })
            && session.takeover == Some(session_id),
{
}

/// A connection that is over leaves nothing behind: no local connection, and
/// the client is not connected. What happens later changes nothing.
pub proof fn over_leaves_nothing(
    session: ClientView,
    event: ClientEventView,
    state: TunnelClientState,
    now: Timestamp,
)
    ensures
        ({
            let s = session.step(event, state, now);
            &&& session.phase is Running && s.session.phase is Over ==> !s.state.connected
                && s.session.connections == Set::<Seq<char>>::empty()
            &&& session.phase is Over ==> s.session == session && s.state == state && s.actions
                == Seq::<ClientActionView>::empty()
        }),
{
}

/// A connection ends exactly when it asks for nothing more than to be done,
/// and it is done once.
pub proof fn done_exactly_when_over(
    session: ClientView,
    event: ClientEventView,
    state: TunnelClientState,
    now: Timestamp,
)
    requires
        !(session.phase is Over),
    ensures
        ({
            let s = session.step(event, state, now);
            s.session.phase is Over <==> s.actions.len() > 0 && s.actions.last() is Done
        }),
{
}

} // verus!
