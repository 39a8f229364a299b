//! The server side of the tunnel: one session per connected client.

use vstd::prelude::*;

use crate::domain::tunnel;
use crate::domain::tunnel::{clone_mappings, PortMapping, TunnelMessage};
use crate::state::port_listener_manager as ports;
use crate::state::port_listener_manager::{
    BindStep, ListenerEffect, PortBinding, PortListenerManager,
};
use crate::state::tunnel_state::{ClientState, TunnelServerState};
use crate::state::tunnel_state;
use crate::text::chars;
use crate::time::Timestamp;

verus! {

/// Seconds between two heartbeats.
pub const PING_INTERVAL_SECS: u64 = 30;

/// The status of an answer whose own status is none.
pub const INTERNAL_SERVER_ERROR: u16 = 500;

/// The status of an answer that says that the client failed.
pub const BAD_GATEWAY: u16 = 502;

/// Something that happens to the session.
#[derive(Debug)]
pub enum SocketEvent {
    /// A message came as text.
    Text(TunnelMessage),
    /// A message came as bytes.
    Binary(TunnelMessage),
    /// Something came that is no message.
    Unreadable,
    /// The peer asks for a sign of life.
    Ping(Vec<u8>),
    /// The peer gave a sign of life.
    Pong,
    /// The peer closed the connection.
    Close,
    /// The connection failed.
    Failed,
    /// The connection ended.
    End,
    /// A message is to go to the client.
    Outgoing(TunnelMessage),
    /// A message could not be sent.
    SendFailed,
    /// It is time for a heartbeat.
    Tick,
}

/// The contents of a `SocketEvent`.
pub ghost enum SocketEventView {
    Text(tunnel::MessageView),
    Binary(tunnel::MessageView),
    Unreadable,
    Ping(Seq<u8>),
    Pong,
    Close,
    Failed,
    End,
    Outgoing(tunnel::MessageView),
    SendFailed,
    Tick,
}

impl View for SocketEvent {
    type V = SocketEventView;

    open spec fn view(&self) -> SocketEventView {
        match *self {
            SocketEvent::Text(m) => SocketEventView::Text(m@),
            SocketEvent::Binary(m) => SocketEventView::Binary(m@),
            SocketEvent::Unreadable => SocketEventView::Unreadable,
            SocketEvent::Ping(d) => SocketEventView::Ping(d@),
            SocketEvent::Pong => SocketEventView::Pong,
            SocketEvent::Close => SocketEventView::Close,
            SocketEvent::Failed => SocketEventView::Failed,
            SocketEvent::End => SocketEventView::End,
            SocketEvent::Outgoing(m) => SocketEventView::Outgoing(m@),
            SocketEvent::SendFailed => SocketEventView::SendFailed,
            SocketEvent::Tick => SocketEventView::Tick,
        }
    }
}

/// Something that the session asks for.
#[derive(Debug)]
pub enum ServerAction {
    /// Send a message to the client.
    Send(TunnelMessage),
    /// Give a sign of life.
    SendPong(Vec<u8>),
    /// Start a listener and tell how it went.
    StartListener { port: u16, name: String },
    /// Pass on what follows for the connections of a port.
    Forward(Vec<(u16, Vec<ListenerEffect>)>),
    /// Answer an HTTP request that waits.
    Respond { request_id: String, status: u16, headers: Vec<(String, String)>, body: Option<Vec<u8>> },
    /// Answer an HTTP request that waits with a failure.
    RespondError { request_id: String, status: u16, error: String },
    /// End the session.
    Hangup,
}

/// The contents of a `ServerAction`.
pub ghost enum ServerActionView {
    Send(tunnel::MessageView),
    SendPong(Seq<u8>),
    StartListener { port: u16, name: Seq<char> },
    Forward(Seq<(u16, Seq<ports::EffectView>)>),
    Respond {
        request_id: Seq<char>,
        status: u16,
        headers: Seq<(Seq<char>, Seq<char>)>,
        body: Option<Seq<u8>>,
    },
    RespondError { request_id: Seq<char>, status: u16, error: Seq<char> },
    Hangup,
}

impl View for ServerAction {
    type V = ServerActionView;

    open spec fn view(&self) -> ServerActionView {
        match *self {
            ServerAction::Send(m) => ServerActionView::Send(m@),
            ServerAction::SendPong(d) => ServerActionView::SendPong(d@),
            ServerAction::StartListener { port, name } => ServerActionView::StartListener {
                port,
                name: name@,
            },
            ServerAction::Forward(e) => ServerActionView::Forward(ports::port_effects(e@)),
            ServerAction::Respond { request_id, status, headers, body } =>
                ServerActionView::Respond {
                    request_id: request_id@,
                    status,
                    headers: chars::pairs(headers@),
                    body: chars::opt_bytes(body),
                },
            ServerAction::RespondError { request_id, status, error } =>
                ServerActionView::RespondError { request_id: request_id@, status, error: error@ },
            ServerAction::Hangup => ServerActionView::Hangup,
        }
    }
}

/// The contents of an optional action.
pub open spec fn opt_action(o: Option<ServerAction>) -> Option<ServerActionView> {
    match o {
        Some(a) => Some(a@),
        None => None,
    }
}

/// The status of an answer: the one that the client gave, where it is a
/// status at all.
pub open spec fn reply_status_spec(status: u16) -> u16 {
    if 100 <= status < 1000 {
        status
    } else {
        INTERNAL_SERVER_ERROR
    }
}

/// The status of an answer: the one that the client gave, where it is a
/// status at all.
pub fn reply_status(status: u16) -> (r: u16)
    ensures
        r == reply_status_spec(status),
{
    if 100 <= status && status < 1000 {
        status
    } else {
        INTERNAL_SERVER_ERROR
    }
}

/// What a message leaves of the server and its listeners, and what the session
/// then asks for.
pub ghost struct Handled {
    pub server: tunnel_state::ServerView,
    pub listeners: ports::Listeners,
    pub action: Option<ServerActionView>,
}

/// What a message of a client that is registered does.
pub open spec fn handled(
    msg: tunnel::MessageView,
    client: Seq<char>,
    server: tunnel_state::ServerView,
    listeners: ports::Listeners,
    order: Seq<u16>,
) -> Handled {
    let nothing = Handled { server, listeners, action: None };
    match msg {
        tunnel::MessageView::Connected { .. }
        | tunnel::MessageView::ConnectFailed { .. }
        | tunnel::MessageView::Data { .. }
        | tunnel::MessageView::Close { .. } => Handled {
            server,
            listeners: ports::all_heard(listeners, client, msg),
            action: Some(
                ServerActionView::Forward(ports::all_effects(listeners, order, client, msg)),
            ),
        },
        tunnel::MessageView::HttpResponse { request_id, status, headers, body } => Handled {
            server: tunnel_state::ServerView {
                pending: server.pending.remove(request_id),
                ..server
            },
            listeners,
            action: if server.pending.contains(request_id) {
                Some(
                    ServerActionView::Respond {
                        request_id,
                        status: reply_status_spec(status),
                        headers,
                        body,
                    },
                )
            } else {
                None
            },
        },
        tunnel::MessageView::HttpError { request_id, error } => Handled {
            server: tunnel_state::ServerView {
                pending: server.pending.remove(request_id),
                ..server
            },
            listeners,
            action: if server.pending.contains(request_id) {
                Some(ServerActionView::RespondError { request_id, status: BAD_GATEWAY, error })
            } else {
                None
            },
        },
        _ => nothing,
    }
}

/// Takes a message of a client that is registered: what concerns connections
/// goes to the ports of the client, answers go to the requests that wait for
/// them, and everything else is left alone.
pub fn handle_client_message(
    msg: TunnelMessage,
    client_id: &str,
    server: &mut TunnelServerState,
    listeners: &mut PortListenerManager,
) -> (r: Option<ServerAction>)
    ensures
        handled(
            msg@,
            client_id@,
            old(server)@,
            old(listeners)@,
            old(listeners).port_order(),
        ) == (Handled { server: final(server)@, listeners: final(listeners)@, action: opt_action(r) }),
        r matches Some(ServerAction::Forward(_)) ==> ports::in_full(*old(listeners)),
        ports::ports_match(old(listeners)@) ==> ports::ports_match(final(listeners)@),
{
    match &msg {
        TunnelMessage::Connected { .. }
        | TunnelMessage::ConnectFailed { .. }
        | TunnelMessage::Data { .. }
        | TunnelMessage::Close { .. } => {
            let effects = listeners.handle_client_message(client_id, &msg);
            Some(ServerAction::Forward(effects))
        },
        TunnelMessage::HttpResponse { request_id, status, headers, body } => {
            if server.take_pending(request_id.as_str()) {
                let body = match body {
                    Some(b) => Some(chars::clone_bytes(b)),
                    None => None,
                };
                Some(
                    ServerAction::Respond {
                        request_id: request_id.clone(),
                        status: reply_status(*status),
                        headers: chars::clone_pairs(headers),
                        body,
                    },
                )
            } else {
                None
            }
        },
        TunnelMessage::HttpError { request_id, error } => {
            if server.take_pending(request_id.as_str()) {
                Some(
                    ServerAction::RespondError {
                        request_id: request_id.clone(),
                        status: BAD_GATEWAY,
                        error: error.clone(),
                    },
                )
            } else {
                None
            }
        },
        _ => None,
    }
}

/// The session of one connection.
#[derive(Debug)]
pub struct ServerSession {
    client_addr: String,
    client_id: Option<String>,
    binding: Option<PortBinding>,
    closed: bool,
}

/// The binding of ports that is under way.
pub ghost struct BindingView {
    pub wanted: Seq<tunnel::PortMappingView>,
    pub position: int,
}

/// The contents of a `ServerSession`.
pub ghost struct SessionView {
    pub addr: Seq<char>,
    /// The client, once it has said who it is.
    pub client: Option<Seq<char>>,
    /// The binding of ports, while it waits for a listener to be started.
    pub binding: Option<BindingView>,
    pub closed: bool,
}

impl View for ServerSession {
    type V = SessionView;

    closed spec fn view(&self) -> SessionView {
        SessionView {
            addr: self.client_addr@,
            client: chars::opt_view(self.client_id),
            binding: match self.binding {
                Some(b) => Some(BindingView { wanted: b.wanted(), position: b.position() }),
                None => None,
            },
            closed: self.closed,
        }
    }
}

/// What a step leaves of the session, the server and its listeners, and what
/// the session then asks for.
pub ghost struct SessionStep {
    pub session: SessionView,
    pub server: tunnel_state::ServerView,
    pub listeners: ports::Listeners,
    pub action: Option<ServerActionView>,
}

/// The client as it is registered, where `state` holds it.
pub open spec fn registers(
    state: ClientState,
    client: Seq<char>,
    addr: Seq<char>,
    mappings: Seq<tunnel::PortMappingView>,
    now: Timestamp,
) -> bool {
    &&& state.client_id@ == client
    &&& state.client_addr@ == addr
    &&& state.connected_at == now
    &&& tunnel::mapping_views(state.mappings@) == mappings
}

impl SessionView {
    /// The session goes on binding ports from mapping `i` on.
    pub open spec fn binds(
        self,
        server: tunnel_state::ServerView,
        listeners: ports::Listeners,
        client: Seq<char>,
        wanted: Seq<tunnel::PortMappingView>,
        i: int,
    ) -> SessionStep {
        let (bound, j) = ports::bound_from(listeners, wanted, client, i);
        if j == wanted.len() {
            SessionStep {
                session: SessionView { client: Some(client), binding: None, ..self },
                server,
                listeners: bound,
                action: None,
            }
        } else {
            SessionStep {
                session: SessionView {
                    client: Some(client),
                    binding: Some(BindingView { wanted, position: j }),
                    ..self
                },
                server,
                listeners: bound,
                action: Some(
                    ServerActionView::StartListener {
                        port: wanted[j].remote_port,
                        name: wanted[j].name,
                    },
                ),
            }
        }
    }

    /// The session ends: the client is removed, and its ports are unbound.
    pub open spec fn ends(
        self,
        server: tunnel_state::ServerView,
        listeners: ports::Listeners,
    ) -> SessionStep {
        SessionStep {
            session: SessionView { closed: true, ..self },
            server: match self.client {
                Some(c) => server.without_client(c),
                None => server,
            },
            listeners: match self.client {
                Some(c) => listeners.map_values(|l: ports::ListenerView| ports::unbound(l, c)),
                None => listeners,
            },
            action: Some(ServerActionView::Hangup),
        }
    }

    /// The session goes on as it is and asks for something.
    pub open spec fn goes_on(
        self,
        server: tunnel_state::ServerView,
        listeners: ports::Listeners,
        action: Option<ServerActionView>,
    ) -> SessionStep {
        SessionStep { session: self, server, listeners, action }
    }

    /// What a message does that comes from a client that is registered; from
    /// anybody else it is left alone.
    pub open spec fn hears(
        self,
        msg: tunnel::MessageView,
        server: tunnel_state::ServerView,
        listeners: ports::Listeners,
        order: Seq<u16>,
    ) -> SessionStep {
        match self.client {
            Some(c) => {
                let h = handled(msg, c, server, listeners, order);
                self.goes_on(h.server, h.listeners, h.action)
            },
            None => self.goes_on(server, listeners, None),
        }
    }

    /// What an event does, where `state` is the client that it registers.
    pub open spec fn step(
        self,
        event: SocketEventView,
        server: tunnel_state::ServerView,
        listeners: ports::Listeners,
        order: Seq<u16>,
        state: ClientState,
    ) -> SessionStep {
        match event {
            SocketEventView::Text(tunnel::MessageView::Config { client_id, mappings }) =>
                if self.client is None {
                    let rest = server.without_client(client_id);
                    let with = tunnel_state::ServerView {
                        clients: rest.clients.insert(client_id, state),
                        ..rest
                    };
                    self.binds(with, listeners, client_id, mappings, 0)
                } else {
                    self.goes_on(server, listeners, None)
                },
            SocketEventView::Text(msg) => self.hears(msg, server, listeners, order),
            SocketEventView::Binary(msg) => self.hears(msg, server, listeners, order),
            SocketEventView::Unreadable => self.goes_on(server, listeners, None),
            SocketEventView::Ping(d) => self.goes_on(
                server,
                listeners,
                Some(ServerActionView::SendPong(d)),
            ),
            SocketEventView::Pong => self.goes_on(server, listeners, None),
            SocketEventView::Close => self.ends(server, listeners),
            SocketEventView::Failed => self.ends(server, listeners),
            SocketEventView::End => self.ends(server, listeners),
            SocketEventView::Outgoing(m) => self.goes_on(
                server,
                listeners,
                Some(ServerActionView::Send(m)),
            ),
            SocketEventView::SendFailed => self.ends(server, listeners),
            SocketEventView::Tick => self.goes_on(
                server,
                listeners,
                Some(ServerActionView::Send(tunnel::MessageView::Ping)),
            ),
        }
    }

    /// What it does that the listener which the session waits for has been
    /// started, or could not be.
    pub open spec fn listener_step(
        self,
        started: bool,
        server: tunnel_state::ServerView,
        listeners: ports::Listeners,
    ) -> SessionStep {
        match (self.client, self.binding) {
            (Some(c), Some(b)) => if started {
                let m = b.wanted[b.position];
                self.binds(
                    server,
                    listeners.insert(
                        m.remote_port,
                        ports::ListenerView {
                            started: true,
                            ..ports::ListenerView::fresh(m.remote_port, m.name)
                        },
                    ),
                    c,
                    b.wanted,
                    b.position,
                )
            } else {
                SessionStep {
                    session: SessionView { client: None, binding: None, ..self },
                    server: server.without_client(c),
                    listeners,
                    action: None,
                }
            },
            _ => self.goes_on(server, listeners, None),
        }
    }
}

impl ServerSession {
    /// A binding is under way only for a client that is known.
    pub closed spec fn wf(&self) -> bool {
        match self.binding {
            Some(b) => {
                &&& b.wf()
                &&& b.position() < b.wanted().len()
                &&& self.client_id is Some
                &&& self.client_id->0@ == b.client()
            },
            None => true,
        }
    }

    /// A new connection from an address.
    pub fn new(client_addr: String) -> (r: ServerSession)
        ensures
            r.wf(),
            r@ == (SessionView { addr: client_addr@, client: None, binding: None, closed: false }),
    {
        ServerSession { client_addr, client_id: None, binding: None, closed: false }
    }

    /// Whether the session waits for a listener to be started. Other events
    /// have to wait meanwhile.
    pub fn is_binding(&self) -> (r: bool)
        ensures
            r == (self@.binding is Some),
    {
        self.binding.is_some()
    }

    /// Whether the session is over.
    pub fn is_closed(&self) -> (r: bool)
        ensures
            r == self@.closed,
    {
        self.closed
    }

    fn bind(
        &mut self,
        binding: PortBinding,
        listeners: &mut PortListenerManager,
        now: Timestamp,
        Ghost(server): Ghost<tunnel_state::ServerView>,
    ) -> (r: Option<ServerAction>)
        requires
            binding.wf(),
            old(self).client_id is Some,
            old(self).client_id->0@ == binding.client(),
            old(self).binding is None,
        ensures
            final(self).wf(),
            old(self)@.binds(
                server,
                old(listeners)@,
                binding.client(),
                binding.wanted(),
                binding.position(),
            ) == (SessionStep {
                session: final(self)@,
                server,
                listeners: final(listeners)@,
                action: opt_action(r),
            }),
            ports::ports_match(old(listeners)@) ==> ports::ports_match(final(listeners)@),
    {
        let mut binding = binding;
        match binding.advance(listeners, now) {
            BindStep::Done => None,
            BindStep::Start { port, name } => {
                self.binding = Some(binding);
                Some(ServerAction::StartListener { port, name })
            },
        }
    }

    fn register(
        &mut self,
        client_id: &String,
        mappings: &Vec<PortMapping>,
        server: &mut TunnelServerState,
        listeners: &mut PortListenerManager,
        now: Timestamp,
    ) -> (r: Option<ServerAction>)
        requires
            old(self).wf(),
            old(self)@.binding is None,
            old(self)@.client is None,
        ensures
            final(self).wf(),
            exists|state: ClientState|
                registers(
                    state,
                    client_id@,
                    old(self)@.addr,
                    tunnel::mapping_views(mappings@),
                    now,
                ) && #[trigger] old(self)@.step(
                    SocketEventView::Text(
                        tunnel::MessageView::Config {
                            client_id: client_id@,
                            mappings: tunnel::mapping_views(mappings@),
                        },
                    ),
                    old(server)@,
                    old(listeners)@,
                    old(listeners).port_order(),
                    state,
                ) == (SessionStep {
                    session: final(self)@,
                    server: final(server)@,
                    listeners: final(listeners)@,
                    action: opt_action(r),
                }),
            ports::ports_match(old(listeners)@) ==> ports::ports_match(final(listeners)@),
    {
        if server.has_client(client_id.as_str()) {
            server.remove_client(client_id.as_str());
        }
        let mut client = ClientState::new_at(client_id.clone(), self.client_addr.clone(), now);
        client.mappings = clone_mappings(mappings);
        let ghost state = client;
        server.add_client(client);
        self.client_id = Some(client_id.clone());
        let binding = PortBinding::begin(client_id.clone(), clone_mappings(mappings));
        let r = self.bind(binding, listeners, now, Ghost(server@));
        proof {
            assert(registers(
                state,
                client_id@,
                old(self)@.addr,
                tunnel::mapping_views(mappings@),
                now,
            ));
            let done = SessionStep {
                session: self@,
                server: server@,
                listeners: listeners@,
                action: opt_action(r),
            };
            assert(old(self)@.step(
                SocketEventView::Text(
                    tunnel::MessageView::Config {
                        client_id: client_id@,
                        mappings: tunnel::mapping_views(mappings@),
                    },
                ),
                old(server)@,
                old(listeners)@,
                old(listeners).port_order(),
                state,
            ) == done);
        }
        r
    }

    fn hear(
        &mut self,
        msg: TunnelMessage,
        server: &mut TunnelServerState,
        listeners: &mut PortListenerManager,
    ) -> (r: Option<ServerAction>)
        ensures
            *final(self) == *old(self),
            old(self)@.hears(
                msg@,
                old(server)@,
                old(listeners)@,
                old(listeners).port_order(),
            ) == (SessionStep {
                session: final(self)@,
                server: final(server)@,
                listeners: final(listeners)@,
                action: opt_action(r),
            }),
            r matches Some(ServerAction::Forward(_)) ==> ports::in_full(*old(listeners)),
            ports::ports_match(old(listeners)@) ==> ports::ports_match(final(listeners)@),
    {
        match &self.client_id {
            Some(c) => handle_client_message(msg, c.as_str(), server, listeners),
            None => None,
        }
    }

    fn end(&mut self, server: &mut TunnelServerState, listeners: &mut PortListenerManager) -> (r:
        Option<ServerAction>)
        ensures
            final(self).client_id == old(self).client_id,
            final(self).binding == old(self).binding,
            old(self)@.ends(old(server)@, old(listeners)@) == (SessionStep {
                session: final(self)@,
                server: final(server)@,
                listeners: final(listeners)@,
                action: opt_action(r),
            }),
            ports::ports_match(old(listeners)@) ==> ports::ports_match(final(listeners)@),
    {
        self.closed = true;
        if let Some(c) = &self.client_id {
            server.remove_client(c.as_str());
            listeners.unbind_client(c.as_str());
        }
        Some(ServerAction::Hangup)
    }

    /// Takes an event. The first configuration registers the client, in place
    /// of one with the same name, and binds its ports; after it, messages of
    /// the client are handled; the end of the connection removes the client and
    /// unbinds its ports.
    pub fn on_event(
        &mut self,
        event: SocketEvent,
        server: &mut TunnelServerState,
        listeners: &mut PortListenerManager,
        now: Timestamp,
    ) -> (r: Option<ServerAction>)
        requires
            old(self).wf(),
            old(self)@.binding is None,
        ensures
            final(self).wf(),
            exists|state: ClientState|
                (event@ matches SocketEventView::Text(
                    tunnel::MessageView::Config { client_id, mappings },
                ) ==> registers(state, client_id, old(self)@.addr, mappings, now))
                    && #[trigger] old(self)@.step(
                    event@,
                    old(server)@,
                    old(listeners)@,
                    old(listeners).port_order(),
                    state,
                ) == (SessionStep {
                    session: final(self)@,
                    server: final(server)@,
                    listeners: final(listeners)@,
                    action: opt_action(r),
                }),
            r matches Some(ServerAction::Forward(_)) ==> ports::in_full(*old(listeners)),
            ports::ports_match(old(listeners)@) ==> ports::ports_match(final(listeners)@),
    {
        let ghost before = self@;
        let ghost server0 = server@;
        let ghost listeners0 = listeners@;
        let ghost order = listeners.port_order();
        let ghost seen = event@;
        let fresh = self.client_id.is_none();
        if let SocketEvent::Text(TunnelMessage::Config { client_id, mappings }) = &event {
            if fresh {
                return self.register(client_id, mappings, server, listeners, now);
            }
            let ghost state = ClientState {
                client_id: *client_id,
                client_addr: self.client_addr,
                connected_at: now,
                mappings: *mappings,
            };
            proof {
                assert(before.step(seen, server0, listeners0, order, state) == (SessionStep {
                    session: self@,
                    server: server@,
                    listeners: listeners@,
                    action: None,
                }));
            }
            return None;
        }
        let ghost state: ClientState = arbitrary();
        let r = match event {
            SocketEvent::Text(msg) => self.hear(msg, server, listeners),
            SocketEvent::Binary(msg) => self.hear(msg, server, listeners),
            SocketEvent::Unreadable => None,
            SocketEvent::Ping(d) => Some(ServerAction::SendPong(d)),
            SocketEvent::Pong => None,
            SocketEvent::Close => self.end(server, listeners),
            SocketEvent::Failed => self.end(server, listeners),
            SocketEvent::End => self.end(server, listeners),
            SocketEvent::Outgoing(m) => Some(ServerAction::Send(m)),
            SocketEvent::SendFailed => self.end(server, listeners),
            SocketEvent::Tick => Some(ServerAction::Send(TunnelMessage::Ping)),
        };
        assert(before.step(seen, server0, listeners0, order, state) == (SessionStep {
            session: self@,
            server: server@,
            listeners: listeners@,
            action: opt_action(r),
        }));
        r
    }

    /// Takes the outcome of starting a listener: the session goes on binding
    /// ports, or it forgets the client where a listener could not be started.
    pub fn on_listener(
        &mut self,
        started: bool,
        server: &mut TunnelServerState,
        listeners: &mut PortListenerManager,
        now: Timestamp,
    ) -> (r: Option<ServerAction>)
        requires
            old(self).wf(),
        ensures
            final(self).wf(),
            old(self)@.listener_step(started, old(server)@, old(listeners)@) == (SessionStep {
                session: final(self)@,
                server: final(server)@,
                listeners: final(listeners)@,
                action: opt_action(r),
            }),
            ports::ports_match(old(listeners)@) ==> ports::ports_match(final(listeners)@),
    {
        let mut binding: Option<PortBinding> = None;
        std::mem::swap(&mut binding, &mut self.binding);
        match binding {
            Some(b) => {
                let mut b = b;
                if started {
                    b.on_started(listeners);
                    self.bind(b, listeners, now, Ghost(server@))
                } else {
                    if let Some(c) = &self.client_id {
                        server.remove_client(c.as_str());
                    }
                    self.client_id = None;
                    None
                }
            },
            None => None,
        }
    }
}

/// When a session ends, its client is registered no more and owns no port,
/// but every listener is still there.
pub proof fn ended_session_leaves_listeners(
    session: SessionView,
    server: tunnel_state::ServerView,
    listeners: ports::Listeners,
    client: Seq<char>,
    port: u16,
)
    requires
        session.client == Some(client),
        listeners.dom().contains(port),
    ensures
        ({
            let s = session.ends(server, listeners);
            &&& s.session.closed
            &&& !s.server.clients.dom().contains(client)
            &&& s.listeners.dom() == listeners.dom()
            &&& s.listeners[port].bound != Some(client)
            &&& listeners[port].bound != Some(client) ==> s.listeners[port] == listeners[port]
        }),
{
    ports::unbound_client_owns_no_port(listeners, client, port);
}

/// A client whose ports all have listeners is registered at once: no listener
/// has to be started again, and every port of it belongs to it.
pub proof fn returning_client_is_bound_at_once(
    session: SessionView,
    server: tunnel_state::ServerView,
    listeners: ports::Listeners,
    order: Seq<u16>,
    client: Seq<char>,
    mappings: Seq<tunnel::PortMappingView>,
    state: ClientState,
)
    requires
        session.client is None,
        session.binding is None,
        forall|i: int|
            0 <= i < mappings.len() ==> listeners.dom().contains(
                #[trigger] mappings[i].remote_port,
            ),
    ensures
        ({
            let s = session.step(
                SocketEventView::Text(tunnel::MessageView::Config { client_id: client, mappings }),
                server,
                listeners,
                order,
                state,
            );
            &&& s.action is None
            &&& s.session.client == Some(client)
            &&& s.session.binding is None
            &&& s.server.clients.dom().contains(client)
            &&& s.listeners == ports::all_bound(listeners, mappings, client, 0)
        }),
{
    lemma_all_there(listeners, mappings, client, 0);
    ports::binding_goes_on(listeners, mappings, client, 0);
}

proof fn lemma_all_there(
    m: ports::Listeners,
    mappings: Seq<tunnel::PortMappingView>,
    client: Seq<char>,
    i: int,
)
    requires
        0 <= i <= mappings.len(),
        forall|j: int|
            i <= j < mappings.len() ==> m.dom().contains(#[trigger] mappings[j].remote_port),
    ensures
        ports::bound_from(m, mappings, client, i).1 == mappings.len(),
    decreases mappings.len() - i,
{
    if i < mappings.len() {
        let port = mappings[i].remote_port;
        assert(m.dom().contains(port));
        lemma_all_there(
            m.insert(port, ports::ListenerView { bound: Some(client), ..m[port] }),
            mappings,
            client,
            i + 1,
        );
    }
}

} // verus!
