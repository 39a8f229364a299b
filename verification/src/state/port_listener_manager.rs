//! The ports on which the tunnel server listens. A listener outlives the
//! connection of the client that it is bound to: a client that comes back is
//! bound to the listener that is there.

use vstd::prelude::*;

use crate::collections;
use crate::collections::{PortMap, StrMap};
use crate::domain::tunnel;
use crate::domain::tunnel::{PortMapping, TunnelMessage};
use crate::text::chars;
use crate::text::chars::{clone_bytes, concat2, str_eq};
use crate::text::number;
use crate::text::number::decimal;
use crate::time::Timestamp;

verus! {

/// How many bytes are read from a connection at once.
pub const READ_BUFFER_SIZE: usize = 65536;

/// How many seconds a client has to make a connection.
pub const CONNECTION_TIMEOUT_SECS: u64 = 30;

/// How often binding a port is tried again.
pub const MAX_BIND_RETRIES: u32 = 5;

/// The client that a listener is bound to.
#[derive(Debug)]
pub struct BoundClient {
    pub client_id: String,
    pub bound_at: Timestamp,
}

/// Something that follows from a message of the client.
#[derive(Debug)]
pub enum ListenerEffect {
    /// The connection that waits for the client is ready.
    Ready { conn_id: String },
    /// The connection that waits for the client will not be made.
    Abandon { conn_id: String },
    /// Bytes go to a connection.
    Deliver { conn_id: String, data: Vec<u8> },
    /// A connection gets no more bytes.
    End { conn_id: String },
}

/// The contents of a `ListenerEffect`.
pub ghost enum EffectView {
    Ready { conn_id: Seq<char> },
    Abandon { conn_id: Seq<char> },
    Deliver { conn_id: Seq<char>, data: Seq<u8> },
    End { conn_id: Seq<char> },
}

impl View for ListenerEffect {
    type V = EffectView;

    open spec fn view(&self) -> EffectView {
        match *self {
            ListenerEffect::Ready { conn_id } => EffectView::Ready { conn_id: conn_id@ },
            ListenerEffect::Abandon { conn_id } => EffectView::Abandon { conn_id: conn_id@ },
            ListenerEffect::Deliver { conn_id, data } => EffectView::Deliver {
                conn_id: conn_id@,
                data: data@,
            },
            ListenerEffect::End { conn_id } => EffectView::End { conn_id: conn_id@ },
        }
    }
}

/// The contents of a list of effects.
pub open spec fn effect_views(v: Seq<ListenerEffect>) -> Seq<EffectView> {
    v.map_values(|e: ListenerEffect| e@)
}

/// A port on which the server listens.
pub struct PortListener {
    pub port: u16,
    /// The name of the service.
    pub name: String,
    bound_client: Option<BoundClient>,
    active_connections: StrMap<()>,
    pending_connections: StrMap<()>,
    cancelled: bool,
    started: bool,
}

/// The contents of a `PortListener`.
pub ghost struct ListenerView {
    pub port: u16,
    pub name: Seq<char>,
    /// The client that the port is bound to.
    pub bound: Option<Seq<char>>,
    /// The connections that are there.
    pub active: Set<Seq<char>>,
    /// The connections that wait for the client.
    pub pending: Set<Seq<char>>,
    pub cancelled: bool,
    pub started: bool,
}

impl View for PortListener {
    type V = ListenerView;

    closed spec fn view(&self) -> ListenerView {
        ListenerView {
            port: self.port,
            name: self.name@,
            bound: match self.bound_client {
                Some(b) => Some(b.client_id@),
                None => None,
            },
            active: self.active_connections@.dom(),
            pending: self.pending_connections@.dom(),
            cancelled: self.cancelled,
            started: self.started,
        }
    }
}

/// What a message leaves of a listener, and what follows from it.
pub ghost struct Heard {
    pub listener: ListenerView,
    pub effects: Seq<EffectView>,
}

impl ListenerView {
    /// A listener that has not begun.
    pub open spec fn fresh(port: u16, name: Seq<char>) -> ListenerView {
        ListenerView {
            port,
            name,
            bound: None,
            active: Set::empty(),
            pending: Set::empty(),
            cancelled: false,
            started: false,
        }
    }

    /// A connection is there no more.
    pub open spec fn without(self, conn_id: Seq<char>) -> ListenerView {
        ListenerView {
            active: self.active.remove(conn_id),
            pending: self.pending.remove(conn_id),
            ..self
        }
    }

    /// What a message of the client does.
    pub open spec fn heard(self, msg: tunnel::MessageView) -> Heard {
        match msg {
            tunnel::MessageView::Connected { conn_id } => Heard {
                listener: ListenerView { pending: self.pending.remove(conn_id), ..self },
                effects: if self.pending.contains(conn_id) {
                    seq![EffectView::Ready { conn_id }]
                } else {
                    seq![]
                },
            },
            tunnel::MessageView::ConnectFailed { conn_id, error } => Heard {
                listener: self.without(conn_id),
                effects: if self.pending.contains(conn_id) {
                    seq![EffectView::Abandon { conn_id }]
                } else {
                    seq![]
                } + if self.active.contains(conn_id) {
                    seq![EffectView::End { conn_id }]
                } else {
                    seq![]
                },
            },
            tunnel::MessageView::Data { conn_id, data } => Heard {
                listener: self,
                effects: if self.active.contains(conn_id) {
                    seq![EffectView::Deliver { conn_id, data }]
                } else {
                    seq![]
                },
            },
            tunnel::MessageView::Close { conn_id } => Heard {
                listener: ListenerView { active: self.active.remove(conn_id), ..self },
                effects: if self.active.contains(conn_id) {
                    seq![EffectView::End { conn_id }]
                } else {
                    seq![]
                },
            },
            _ => Heard { listener: self, effects: seq![] },
        }
    }
}

/// What a listener does next to begin.
#[derive(Debug)]
pub enum ListenStep {
    /// Nothing: it has begun.
    Running,
    /// Bind the address.
    Bind { addr: String },
}

/// What follows from a failure to bind a port.
#[derive(Clone, Copy, Debug, PartialEq, Eq, Structural)]
pub enum BindRetry {
    /// Try again after this many milliseconds.
    Again { delay_ms: u64 },
    /// Report the failure.
    GiveUp,
}

/// What follows from a failure to bind a port after `attempts` retries.
pub open spec fn bind_retry_spec(attempts: u32) -> BindRetry {
    if attempts < MAX_BIND_RETRIES {
        BindRetry::Again { delay_ms: (50 * (attempts + 1)) as u64 }
    } else {
        BindRetry::GiveUp
    }
}

/// What follows from a failure to bind a port after `attempts` retries.
pub fn bind_retry(attempts: u32) -> (r: BindRetry)
    ensures
        r == bind_retry_spec(attempts),
{
    if attempts < MAX_BIND_RETRIES {
        BindRetry::Again { delay_ms: 50 * (attempts as u64 + 1) }
    } else {
        BindRetry::GiveUp
    }
}

impl PortListener {
    /// A listener that has not begun and is bound to no client.
    pub fn new(port: u16, name: String) -> (r: PortListener)
        ensures
            r@ == ListenerView::fresh(port, name@),
    {
        let r = PortListener {
            port,
            name,
            bound_client: None,
            active_connections: StrMap::new(),
            pending_connections: StrMap::new(),
            cancelled: false,
            started: false,
        };
        assert(r@.active =~= Set::empty());
        assert(r@.pending =~= Set::empty());
        r
    }

    /// Binds a client, in place of another one.
    pub fn bind_at(&mut self, client_id: String, now: Timestamp)
        ensures
            final(self)@ == (ListenerView { bound: Some(client_id@), ..old(self)@ }),
    {
        self.bound_client = Some(BoundClient { client_id, bound_at: now });
    }

    /// Binds a client now, in place of another one.
    pub fn bind(&mut self, client_id: String)
        ensures
            final(self)@ == (ListenerView { bound: Some(client_id@), ..old(self)@ }),
    {
        let now = Timestamp::now();
        self.bind_at(client_id, now);
    }

    /// Unbinds the client, where it is the one that is bound.
    pub fn unbind(&mut self, client_id: &str) -> (r: bool)
        ensures
            r == (old(self)@.bound == Some(client_id@)),
            final(self)@ == if r {
                ListenerView { bound: None, ..old(self)@ }
            } else {
                old(self)@
            },
    {
        let same = match &self.bound_client {
            Some(b) => str_eq(b.client_id.as_str(), client_id),
            None => false,
        };
        if same {
            self.bound_client = None;
        }
        same
    }

    /// The client that is bound.
    pub fn bound_client_id(&self) -> (r: Option<&str>)
        ensures
            r is Some <==> self@.bound is Some,
            r matches Some(s) ==> self@.bound == Some(s@),
    {
        match &self.bound_client {
            Some(b) => Some(b.client_id.as_str()),
            None => None,
        }
    }

    /// Whether the bound client is this one.
    pub fn is_bound_to(&self, client_id: &str) -> (r: bool)
        ensures
            r == (self@.bound == Some(client_id@)),
    {
        match self.bound_client_id() {
            Some(s) => str_eq(s, client_id),
            None => false,
        }
    }

    /// The outcome of a message to the bound client, where `accepted` tells
    /// whether the channel of the client took it.
    pub fn send_to_client(&self, accepted: bool) -> (r: Result<(), &'static str>)
        ensures
            r is Ok <==> self@.bound is Some && accepted,
            r matches Err(e) ==> e@ == if self@.bound is Some {
                "Client channel closed"@
            } else {
                "No client bound"@
            },
    {
        if self.bound_client.is_none() {
            return Err("No client bound");
        }
        if accepted {
            Ok(())
        } else {
            Err("Client channel closed")
        }
    }

    /// Takes a message of the client.
    pub fn handle_client_message(&mut self, msg: &TunnelMessage) -> (r: Vec<ListenerEffect>)
        ensures
            old(self)@.heard(msg@) == (Heard {
                listener: final(self)@,
                effects: effect_views(r@),
            }),
    {
        let mut effects: Vec<ListenerEffect> = Vec::new();
        match msg {
            TunnelMessage::Connected { conn_id } => {
                if self.pending_connections.remove(conn_id.as_str()).is_some() {
                    effects.push(ListenerEffect::Ready { conn_id: conn_id.clone() });
                }
                assert(self@.pending =~= old(self)@.pending.remove(conn_id@));
            },
            TunnelMessage::ConnectFailed { conn_id, error } => {
                if self.pending_connections.remove(conn_id.as_str()).is_some() {
                    effects.push(ListenerEffect::Abandon { conn_id: conn_id.clone() });
                }
                if self.active_connections.remove(conn_id.as_str()).is_some() {
                    effects.push(ListenerEffect::End { conn_id: conn_id.clone() });
                }
                assert(self@.pending =~= old(self)@.pending.remove(conn_id@));
                assert(self@.active =~= old(self)@.active.remove(conn_id@));
            },
            TunnelMessage::Data { conn_id, data } => {
                if self.active_connections.contains_key(conn_id.as_str()) {
                    effects.push(
                        ListenerEffect::Deliver { conn_id: conn_id.clone(), data: clone_bytes(data) },
                    );
                }
            },
            TunnelMessage::Close { conn_id } => {
                if self.active_connections.remove(conn_id.as_str()).is_some() {
                    effects.push(ListenerEffect::End { conn_id: conn_id.clone() });
                }
                assert(self@.active =~= old(self)@.active.remove(conn_id@));
            },
            _ => {},
        }
        assert(effect_views(effects@) =~= old(self)@.heard(msg@).effects);
        effects
    }

    /// What a listener does to begin.
    pub fn start(&self) -> (r: ListenStep)
        ensures
            r is Running <==> self@.started,
            r matches ListenStep::Bind { addr } ==> addr@ == "0.0.0.0:"@ + number::decimal_spec(
                self@.port as nat,
            ),
    {
        if self.started {
            ListenStep::Running
        } else {
            ListenStep::Bind { addr: concat2("0.0.0.0:", decimal(self.port as u64).as_str()) }
        }
    }

    /// The port is bound.
    pub fn mark_started(&mut self)
        ensures
            final(self)@ == (ListenerView { started: true, ..old(self)@ }),
    {
        self.started = true;
    }

    /// Whether a new connection is taken: a client must be bound.
    pub fn accepts(&self) -> (r: bool)
        ensures
            r == (self@.bound is Some),
    {
        self.bound_client.is_some()
    }

    /// Registers a new connection, which then waits for the client.
    pub fn register_connection(&mut self, conn_id: &str)
        ensures
            final(self)@ == (ListenerView {
                active: old(self)@.active.insert(conn_id@),
                pending: old(self)@.pending.insert(conn_id@),
                ..old(self)@
            }),
    {
        self.pending_connections.insert(conn_id.to_owned(), ());
        self.active_connections.insert(conn_id.to_owned(), ());
        assert(self@.active =~= old(self)@.active.insert(conn_id@));
        assert(self@.pending =~= old(self)@.pending.insert(conn_id@));
    }

    /// Forgets a connection.
    pub fn cleanup_connection(&mut self, conn_id: &str)
        ensures
            final(self)@ == old(self)@.without(conn_id@),
    {
        self.pending_connections.remove(conn_id);
        self.active_connections.remove(conn_id);
        assert(self@.active =~= old(self)@.active.remove(conn_id@));
        assert(self@.pending =~= old(self)@.pending.remove(conn_id@));
    }

    /// Ends the listener.
    pub fn shutdown(&mut self)
        ensures
            final(self)@ == (ListenerView { cancelled: true, ..old(self)@ }),
    {
        self.cancelled = true;
    }

    /// How many connections there are.
    pub fn active_connection_count(&self) -> (r: usize)
        ensures
            r == self@.active.len(),
    {
        self.active_connections.len()
    }

    /// Whether the port is bound.
    pub fn is_started(&self) -> (r: bool)
        ensures
            r == self@.started,
    {
        self.started
    }
}

/// Where a connection of a listener stands.
#[derive(Clone, Copy, Debug, PartialEq, Eq, Structural)]
pub enum ConnectionPhase {
    /// The client is being asked to make the connection.
    Asking,
    /// The client is making the connection.
    Waiting,
    /// Bytes go both ways.
    Forwarding,
    /// Nothing more goes to the peer; what it sends still goes to the client.
    ReadOnly,
    /// The connection is over.
    Over,
}

/// Something that happens to a connection.
#[derive(Debug)]
pub enum ConnectionEvent {
    /// The message to the client was taken by its channel, or not.
    Sent { accepted: bool },
    /// The client made the connection.
    Ready,
    /// The client will not make the connection.
    Abandoned,
    /// The client took too long.
    TimedOut,
    /// The peer sent bytes; none where it closed the connection.
    Read { data: Vec<u8> },
    /// Reading from the peer failed.
    ReadFailed,
    /// Nothing more can go to the peer.
    WriteEnded,
}

/// The contents of a `ConnectionEvent`.
pub ghost enum ConnectionEventView {
    Sent { accepted: bool },
    Ready,
    Abandoned,
    TimedOut,
    Read { data: Seq<u8> },
    ReadFailed,
    WriteEnded,
}

impl View for ConnectionEvent {
    type V = ConnectionEventView;

    open spec fn view(&self) -> ConnectionEventView {
        match *self {
            ConnectionEvent::Sent { accepted } => ConnectionEventView::Sent { accepted },
            ConnectionEvent::Ready => ConnectionEventView::Ready,
            ConnectionEvent::Abandoned => ConnectionEventView::Abandoned,
            ConnectionEvent::TimedOut => ConnectionEventView::TimedOut,
            ConnectionEvent::Read { data } => ConnectionEventView::Read { data: data@ },
            ConnectionEvent::ReadFailed => ConnectionEventView::ReadFailed,
            ConnectionEvent::WriteEnded => ConnectionEventView::WriteEnded,
        }
    }
}

/// One connection of a listener.
#[derive(Debug)]
pub struct PortConnection {
    pub conn_id: String,
    pub phase: ConnectionPhase,
}

/// What an event leaves of a connection and its listener, and the message to
/// the client that follows.
pub ghost struct Moved {
    pub phase: ConnectionPhase,
    pub listener: ListenerView,
    pub message: Option<tunnel::MessageView>,
}

/// What an event does to the connection `id` in the given phase.
pub open spec fn connection_step(
    id: Seq<char>,
    phase: ConnectionPhase,
    listener: ListenerView,
    event: ConnectionEventView,
) -> Moved {
    let stay = Moved { phase, listener, message: None };
    let over = Moved { phase: ConnectionPhase::Over, listener: listener.without(id), message: None };
    let close = Some(tunnel::MessageView::Close { conn_id: id });
    match phase {
        ConnectionPhase::Asking => match event {
            ConnectionEventView::Sent { accepted } => if listener.bound is Some && accepted {
                Moved { phase: ConnectionPhase::Waiting, ..stay }
            } else {
                over
            },
            _ => stay,
        },
        ConnectionPhase::Waiting => match event {
            ConnectionEventView::Ready => Moved { phase: ConnectionPhase::Forwarding, ..stay },
            ConnectionEventView::Abandoned => over,
            ConnectionEventView::TimedOut => over,
            _ => stay,
        },
        ConnectionPhase::Forwarding => match event {
            ConnectionEventView::Read { data } => if data.len() > 0 {
                Moved { message: Some(tunnel::MessageView::Data { conn_id: id, data }), ..stay }
            } else {
                Moved { message: close, ..over }
            },
            ConnectionEventView::Sent { accepted } => if listener.bound is Some && accepted {
                stay
            } else {
                Moved { message: close, ..over }
            },
            ConnectionEventView::ReadFailed => Moved { message: close, ..over },
            ConnectionEventView::WriteEnded => Moved {
                phase: ConnectionPhase::ReadOnly,
                listener: listener.without(id),
                message: None,
            },
            _ => stay,
        },
        ConnectionPhase::ReadOnly => match event {
            ConnectionEventView::Read { data } => if data.len() > 0 {
                Moved { message: Some(tunnel::MessageView::Data { conn_id: id, data }), ..stay }
            } else {
                Moved { phase: ConnectionPhase::Over, listener, message: close }
            },
            ConnectionEventView::Sent { accepted } => if listener.bound is Some && accepted {
                stay
            } else {
                Moved { phase: ConnectionPhase::Over, listener, message: close }
            },
            ConnectionEventView::ReadFailed => Moved {
                phase: ConnectionPhase::Over,
                listener,
                message: close,
            },
            _ => stay,
        },
        ConnectionPhase::Over => stay,
    }
}

/// The contents of an optional message.
pub open spec fn opt_message(o: Option<TunnelMessage>) -> Option<tunnel::MessageView> {
    match o {
        Some(m) => Some(m@),
        None => None,
    }
}

impl PortConnection {
    /// Begins a connection: it is registered, and the client is asked to make
    /// it.
    pub fn open(listener: &mut PortListener, conn_id: String) -> (r: (PortConnection, TunnelMessage))
        ensures
            r.0.conn_id@ == conn_id@,
            r.0.phase is Asking,
            r.1@ == (tunnel::MessageView::Connect {
                conn_id: conn_id@,
                remote_port: old(listener)@.port,
            }),
            final(listener)@ == (ListenerView {
                active: old(listener)@.active.insert(conn_id@),
                pending: old(listener)@.pending.insert(conn_id@),
                ..old(listener)@
            }),
    {
        listener.register_connection(conn_id.as_str());
        let message = TunnelMessage::Connect {
            conn_id: conn_id.clone(),
            remote_port: listener.port,
        };
        (PortConnection { conn_id, phase: ConnectionPhase::Asking }, message)
    }

    fn close_message(&self) -> (r: Option<TunnelMessage>)
        ensures
            opt_message(r) == Some(tunnel::MessageView::Close { conn_id: self.conn_id@ }),
    {
        Some(TunnelMessage::Close { conn_id: self.conn_id.clone() })
    }

    /// Ends the connection and tells the client.
    fn finish(&mut self, listener: &mut PortListener) -> (r: Option<TunnelMessage>)
        ensures
            final(self).conn_id == old(self).conn_id,
            final(self).phase is Over,
            final(listener)@ == if old(self).phase is ReadOnly {
                old(listener)@
            } else {
                old(listener)@.without(old(self).conn_id@)
            },
            opt_message(r) == Some(tunnel::MessageView::Close { conn_id: old(self).conn_id@ }),
    {
        match self.phase {
            ConnectionPhase::ReadOnly => {},
            _ => {
                listener.cleanup_connection(self.conn_id.as_str());
            },
        }
        self.phase = ConnectionPhase::Over;
        self.close_message()
    }

    /// Takes an event. The answer is a message to the client, whose outcome is
    /// told by a `Sent` event where the message holds bytes.
    pub fn on_event(&mut self, listener: &mut PortListener, event: ConnectionEvent) -> (r: Option<
        TunnelMessage,
    >)
        ensures
            final(self).conn_id == old(self).conn_id,
            connection_step(old(self).conn_id@, old(self).phase, old(listener)@, event@) == (
            Moved {
                phase: final(self).phase,
                listener: final(listener)@,
                message: opt_message(r),
            }),
    {
        match (self.phase, event) {
            (ConnectionPhase::Asking, ConnectionEvent::Sent { accepted }) => {
                match listener.send_to_client(accepted) {
                    Ok(_) => {
                        self.phase = ConnectionPhase::Waiting;
                    },
                    Err(_) => {
                        listener.cleanup_connection(self.conn_id.as_str());
                        self.phase = ConnectionPhase::Over;
                    },
                }
                None
            },
            (ConnectionPhase::Waiting, ConnectionEvent::Ready) => {
                self.phase = ConnectionPhase::Forwarding;
                None
            },
            (ConnectionPhase::Waiting, ConnectionEvent::Abandoned) => {
                listener.cleanup_connection(self.conn_id.as_str());
                self.phase = ConnectionPhase::Over;
                None
            },
            (ConnectionPhase::Waiting, ConnectionEvent::TimedOut) => {
                listener.cleanup_connection(self.conn_id.as_str());
                self.phase = ConnectionPhase::Over;
                None
            },
            (ConnectionPhase::Forwarding, ConnectionEvent::WriteEnded) => {
                listener.cleanup_connection(self.conn_id.as_str());
                self.phase = ConnectionPhase::ReadOnly;
                None
            },
            (ConnectionPhase::Forwarding, ConnectionEvent::Read { data })
            | (ConnectionPhase::ReadOnly, ConnectionEvent::Read { data }) => {
                if data.len() > 0 {
                    Some(TunnelMessage::Data { conn_id: self.conn_id.clone(), data })
                } else {
                    self.finish(listener)
                }
            },
            (ConnectionPhase::Forwarding, ConnectionEvent::Sent { accepted })
            | (ConnectionPhase::ReadOnly, ConnectionEvent::Sent { accepted }) => {
                match listener.send_to_client(accepted) {
                    Ok(_) => None,
                    Err(_) => self.finish(listener),
                }
            },
            (ConnectionPhase::Forwarding, ConnectionEvent::ReadFailed)
            | (ConnectionPhase::ReadOnly, ConnectionEvent::ReadFailed) => {
                self.finish(listener)
            },
            _ => None,
        }
    }
}

/// All listeners, by their ports.
pub struct PortListenerManager {
    listeners: PortMap<PortListener>,
}

/// The listeners of some ports.
pub type Listeners = Map<u16, ListenerView>;

impl View for PortListenerManager {
    type V = Listeners;

    closed spec fn view(&self) -> Listeners {
        self.listeners@.map_values(|l: PortListener| l@)
    }
}

/// Every listener stands under its own port.
pub open spec fn ports_match(m: Listeners) -> bool {
    forall|p: u16| #[trigger] m.dom().contains(p) ==> m[p].port == p
}

/// The listener after the client is unbound.
pub open spec fn unbound(l: ListenerView, client: Seq<char>) -> ListenerView {
    if l.bound == Some(client) {
        ListenerView { bound: None, ..l }
    } else {
        l
    }
}

/// The listeners after a message of a client: those that are bound to it heard
/// it.
pub open spec fn all_heard(m: Listeners, client: Seq<char>, msg: tunnel::MessageView) -> Listeners {
    m.map_values(
        |l: ListenerView|
            if l.bound == Some(client) {
                l.heard(msg).listener
            } else {
                l
            },
    )
}

/// What follows from a message of a client, port by port.
pub open spec fn all_effects(
    m: Listeners,
    ports: Seq<u16>,
    client: Seq<char>,
    msg: tunnel::MessageView,
) -> Seq<(u16, Seq<EffectView>)> {
    collections::keep_some(
        ports.map_values(
            |p: u16|
                if m[p].bound == Some(client) {
                    Some((p, m[p].heard(msg).effects))
                } else {
                    None
                },
        ),
    )
}

/// The ports of a list that are bound to a client.
pub open spec fn ports_of(m: Listeners, ports: Seq<u16>, client: Seq<char>) -> Seq<u16> {
    collections::keep_some(
        ports.map_values(
            |p: u16|
                if m[p].bound == Some(client) {
                    Some(p)
                } else {
                    None
                },
        ),
    )
}

/// The order of the ports holds every port with a listener, and none twice.
pub open spec fn in_full(m: PortListenerManager) -> bool {
    &&& m.port_order().no_duplicates()
    &&& m.port_order().to_set() == m@.dom()
}

/// The contents of a list of effects by port.
pub open spec fn port_effects(v: Seq<(u16, Vec<ListenerEffect>)>) -> Seq<(u16, Seq<EffectView>)> {
    v.map_values(|e: (u16, Vec<ListenerEffect>)| (e.0, effect_views(e.1@)))
}

/// The state of one listener, for reports.
#[derive(Debug)]
pub struct ListenerStatus {
    pub port: u16,
    pub name: String,
    pub client_id: Option<String>,
    pub connections: usize,
}

/// The state of a listener, for reports.
pub open spec fn reports(s: ListenerStatus, l: ListenerView) -> bool {
    &&& s.port == l.port
    &&& s.name@ == l.name
    &&& chars::opt_view(s.client_id) == l.bound
    &&& s.connections == l.active.len()
}

impl PortListenerManager {
    /// The ports in the order in which their listeners stand.
    pub closed spec fn port_order(&self) -> Seq<u16> {
        self.listeners.keys()
    }

    /// A manager without listeners.
    pub fn new() -> (r: PortListenerManager)
        ensures
            r@ == Listeners::empty(),
    {
        let r = PortListenerManager { listeners: PortMap::new() };
        assert(r@ =~= Listeners::empty());
        r
    }

    /// The ports that have a listener.
    pub fn ports(&self) -> (r: Vec<u16>)
        ensures
            r@ == self.port_order(),
            r@.no_duplicates(),
            r@.to_set() == self@.dom(),
    {
        let n = self.listeners.len();
        let mut r: Vec<u16> = Vec::new();
        let mut i: usize = 0;
        while i < n
            invariant
                n == self.listeners.keys().len(),
                i <= n,
                r@ == self.listeners.keys().take(i as int),
            decreases n - i,
        {
            let ghost keys = self.listeners.keys();
            r.push(*self.listeners.key_at(i));
            assert(keys.take(i + 1) =~= keys.take(i as int).push(keys[i as int]));
            i = i + 1;
        }
        proof {
            let keys = self.listeners.keys();
            assert(keys.take(n as int) =~= keys);
            assert(self@.dom() =~= self.listeners@.dom());
        }
        r
    }

    /// The listener of a port.
    pub fn get_listener(&self, port: u16) -> (r: Option<&PortListener>)
        ensures
            r is Some <==> self@.dom().contains(port),
            r matches Some(l) ==> l@ == self@[port],
    {
        self.listeners.value_of(&port)
    }

    /// A listener for a port that has none, which is to be started and then
    /// added; nothing for a port that has one.
    pub fn ensure_listener(&self, port: u16, name: &str) -> (r: Option<PortListener>)
        ensures
            r is Some <==> !self@.dom().contains(port),
            r matches Some(l) ==> l@ == ListenerView::fresh(port, name@),
    {
        if self.listeners.has_key(&port) {
            None
        } else {
            Some(PortListener::new(port, name.to_owned()))
        }
    }

    /// Adds a listener under its port.
    pub fn add_listener(&mut self, listener: PortListener)
        ensures
            final(self)@ == old(self)@.insert(listener@.port, listener@),
            ports_match(old(self)@) ==> ports_match(final(self)@),
    {
        let port = listener.port;
        self.listeners.insert(port, listener);
        assert(self@ =~= old(self)@.insert(port, listener@));
    }

    /// Takes a listener out, so that it can be changed and added again.
    pub fn take_listener(&mut self, port: u16) -> (r: Option<PortListener>)
        ensures
            r is Some <==> old(self)@.dom().contains(port),
            r matches Some(l) ==> l@ == old(self)@[port],
            final(self)@ == old(self)@.remove(port),
    {
        let r = self.listeners.take_out(&port);
        assert(self@ =~= old(self)@.remove(port));
        r
    }

    fn put_back(&mut self, port: u16, listener: PortListener)
        ensures
            final(self)@ == old(self)@.insert(port, listener@),
    {
        self.listeners.insert(port, listener);
        assert(self@ =~= old(self)@.insert(port, listener@));
    }

    /// Binds a port to a client, where the port has a listener.
    pub fn bind_port(&mut self, port: u16, client_id: &str, now: Timestamp) -> (r: bool)
        ensures
            r == old(self)@.dom().contains(port),
            final(self)@ == if r {
                old(self)@.insert(
                    port,
                    ListenerView { bound: Some(client_id@), ..old(self)@[port] },
                )
            } else {
                old(self)@
            },
            ports_match(old(self)@) ==> ports_match(final(self)@),
    {
        match self.listeners.take_out(&port) {
            Some(listener) => {
                let mut listener = listener;
                listener.bind_at(client_id.to_owned(), now);
                self.listeners.insert(port, listener);
                assert(self@ =~= old(self)@.insert(
                    port,
                    ListenerView { bound: Some(client_id@), ..old(self)@[port] },
                ));
                true
            },
            None => {
                assert(self@ =~= old(self)@);
                false
            },
        }
    }

    /// Unbinds all ports of a client.
    pub fn unbind_client(&mut self, client_id: &str)
        ensures
            final(self)@ == old(self)@.map_values(|l: ListenerView| unbound(l, client_id@)),
            ports_match(old(self)@) ==> ports_match(final(self)@),
    {
        let ports = self.ports();
        let ghost before = self@;
        let ghost done = |l: ListenerView| unbound(l, client_id@);
        let mut i: usize = 0;
        while i < ports.len()
            invariant
                i <= ports@.len(),
                ports@.no_duplicates(),
                ports@.to_set() == before.dom(),
                done == (|l: ListenerView| unbound(l, client_id@)),
                self@ == changed(before, ports@.take(i as int), done),
            decreases ports@.len() - i,
        {
            let port = ports[i];
            proof {
                lemma_changed_step(before, ports@, done, i as int);
            }
            if let Some(listener) = self.take_listener(port) {
                let mut listener = listener;
                listener.unbind(client_id);
                self.put_back(port, listener);
                assert(self@ =~= changed(before, ports@.take(i + 1), done));
            }
            i = i + 1;
        }
        proof {
            lemma_changed_all(before, ports@, done);
        }
    }

    /// The ports that are bound to a client.
    pub fn get_client_ports(&self, client_id: &str) -> (r: Vec<u16>)
        ensures
            r@ == ports_of(self@, self.port_order(), client_id@),
            in_full(*self),
    {
        let ports = self.ports();
        let ghost all = ports@.map_values(
            |p: u16|
                if self@[p].bound == Some(client_id@) {
                    Some(p)
                } else {
                    None
                },
        );
        let mut r: Vec<u16> = Vec::new();
        let mut i: usize = 0;
        assert(r@ =~= collections::keep_some(all.take(0)));
        while i < ports.len()
            invariant
                i <= ports@.len(),
                ports@.to_set() == self@.dom(),
                all == ports@.map_values(
                    |p: u16|
                        if self@[p].bound == Some(client_id@) {
                            Some(p)
                        } else {
                            None
                        },
                ),
                r@ == collections::keep_some(all.take(i as int)),
            decreases ports@.len() - i,
        {
            let port = ports[i];
            proof {
                collections::lemma_keep_some_step(all, i as int);
                assert(ports@.to_set().contains(ports@[i as int]));
            }
            if let Some(listener) = self.get_listener(port) {
                if listener.is_bound_to(client_id) {
                    r.push(port);
                }
            }
            i = i + 1;
        }
        assert(all.take(all.len() as int) =~= all);
        r
    }

    /// Takes a message of a client: every port that is bound to the client
    /// hears it.
    pub fn handle_client_message(&mut self, client_id: &str, msg: &TunnelMessage) -> (r: Vec<
        (u16, Vec<ListenerEffect>),
    >)
        ensures
            final(self)@ == all_heard(old(self)@, client_id@, msg@),
            port_effects(r@) == all_effects(old(self)@, old(self).port_order(), client_id@, msg@),
            in_full(*old(self)),
            ports_match(old(self)@) ==> ports_match(final(self)@),
    {
        let ports = self.ports();
        let ghost before = self@;
        let ghost done = |l: ListenerView|
            if l.bound == Some(client_id@) {
                l.heard(msg@).listener
            } else {
                l
            };
        let ghost all = ports@.map_values(
            |p: u16|
                if before[p].bound == Some(client_id@) {
                    Some((p, before[p].heard(msg@).effects))
                } else {
                    None
                },
        );
        let mut r: Vec<(u16, Vec<ListenerEffect>)> = Vec::new();
        let mut i: usize = 0;
        assert(port_effects(r@) =~= collections::keep_some(all.take(0)));
        while i < ports.len()
            invariant
                i <= ports@.len(),
                ports@.no_duplicates(),
                ports@.to_set() == before.dom(),
                done == (|l: ListenerView|
                    if l.bound == Some(client_id@) {
                        l.heard(msg@).listener
                    } else {
                        l
                    }),
                all == ports@.map_values(
                    |p: u16|
                        if before[p].bound == Some(client_id@) {
                            Some((p, before[p].heard(msg@).effects))
                        } else {
                            None
                        },
                ),
                self@ == changed(before, ports@.take(i as int), done),
                port_effects(r@) == collections::keep_some(all.take(i as int)),
            decreases ports@.len() - i,
        {
            let port = ports[i];
            proof {
                lemma_changed_step(before, ports@, done, i as int);
                collections::lemma_keep_some_step(all, i as int);
            }
            if let Some(listener) = self.take_listener(port) {
                let mut listener = listener;
                if listener.is_bound_to(client_id) {
                    let effects = listener.handle_client_message(msg);
                    let ghost fewer = r@;
                    r.push((port, effects));
                    assert(port_effects(r@) =~= port_effects(fewer).push(
                        (port, effect_views(effects@)),
                    ));
                }
                self.put_back(port, listener);
                assert(self@ =~= changed(before, ports@.take(i + 1), done));
            }
            i = i + 1;
        }
        proof {
            assert(all.take(all.len() as int) =~= all);
            lemma_changed_all(before, ports@, done);
            assert(self@ == all_heard(before, client_id@, msg@));
            lemma_heard_port(before, client_id@, msg@);
        }
        r
    }

    /// The state of every listener.
    pub fn get_all_listeners(&self) -> (r: Vec<ListenerStatus>)
        ensures
            r@.len() == self.port_order().len(),
            in_full(*self),
            forall|i: int|
                0 <= i < r@.len() ==> reports(#[trigger] r@[i], self@[self.port_order()[i]]),
    {
        let n = self.listeners.len();
        assert(self@.dom() =~= self.listeners@.dom());
        let mut r: Vec<ListenerStatus> = Vec::new();
        let mut i: usize = 0;
        while i < n
            invariant
                n == self.listeners.keys().len(),
                i <= n,
                r@.len() == i,
                forall|j: int|
                    0 <= j < i ==> reports(#[trigger] r@[j], self@[self.port_order()[j]]),
            decreases n - i,
        {
            let listener = self.listeners.value_at(i);
            let client_id = match listener.bound_client_id() {
                Some(s) => Some(s.to_owned()),
                None => None,
            };
            r.push(
                ListenerStatus {
                    port: listener.port,
                    name: listener.name.clone(),
                    client_id,
                    connections: listener.active_connection_count(),
                },
            );
            i = i + 1;
        }
        r
    }

    /// Ends all listeners.
    pub fn shutdown_all(&mut self)
        ensures
            final(self)@ == old(self)@.map_values(
                |l: ListenerView| ListenerView { cancelled: true, ..l },
            ),
    {
        let ports = self.ports();
        let ghost before = self@;
        let ghost done = |l: ListenerView| ListenerView { cancelled: true, ..l };
        let mut i: usize = 0;
        while i < ports.len()
            invariant
                i <= ports@.len(),
                ports@.no_duplicates(),
                ports@.to_set() == before.dom(),
                done == (|l: ListenerView| ListenerView { cancelled: true, ..l }),
                self@ == changed(before, ports@.take(i as int), done),
            decreases ports@.len() - i,
        {
            let port = ports[i];
            proof {
                lemma_changed_step(before, ports@, done, i as int);
            }
            if let Some(listener) = self.take_listener(port) {
                let mut listener = listener;
                listener.shutdown();
                self.put_back(port, listener);
                assert(self@ =~= changed(before, ports@.take(i + 1), done));
            }
            i = i + 1;
        }
        proof {
            lemma_changed_all(before, ports@, done);
        }
    }
}

impl Default for PortListenerManager {
    fn default() -> (r: PortListenerManager)
        ensures
            r@ == Listeners::empty(),
    {
        PortListenerManager::new()
    }
}

/// The listeners after those of some ports have been changed.
spec fn changed(
    m: Listeners,
    ports: Seq<u16>,
    change: spec_fn(ListenerView) -> ListenerView,
) -> Listeners {
    Map::new(
        |p: u16| m.dom().contains(p),
        |p: u16|
            if ports.contains(p) {
                change(m[p])
            } else {
                m[p]
            },
    )
}

proof fn lemma_changed_step(
    m: Listeners,
    ports: Seq<u16>,
    change: spec_fn(ListenerView) -> ListenerView,
    i: int,
)
    requires
        0 <= i < ports.len(),
        ports.no_duplicates(),
        ports.to_set() == m.dom(),
    ensures
        m.dom().contains(ports[i]),
        changed(m, ports.take(i), change)[ports[i]] == m[ports[i]],
        changed(m, ports.take(i + 1), change) == changed(m, ports.take(i), change).insert(
            ports[i],
            change(m[ports[i]]),
        ),
{
    let less = ports.take(i);
    let more = ports.take(i + 1);
    assert(ports.to_set().contains(ports[i]));
    assert(more =~= less.push(ports[i]));
    assert forall|p: u16| more.contains(p) <==> less.contains(p) || p == ports[i] by {
        if less.contains(p) {
            assert(more[less.index_of(p)] == p);
        }
        if p == ports[i] {
            assert(more[i] == p);
        }
        if more.contains(p) && p != ports[i] {
            assert(less[more.index_of(p)] == p);
        }
    }
    assert(!less.contains(ports[i]));
    assert(changed(m, more, change) =~= changed(m, less, change).insert(
        ports[i],
        change(m[ports[i]]),
    ));
}

proof fn lemma_changed_all(
    m: Listeners,
    ports: Seq<u16>,
    change: spec_fn(ListenerView) -> ListenerView,
)
    requires
        ports.to_set() == m.dom(),
    ensures
        changed(m, ports.take(0), change) == m,
        changed(m, ports.take(ports.len() as int), change) == m.map_values(change),
{
    assert(changed(m, ports.take(0), change) =~= m);
    assert(ports.take(ports.len() as int) =~= ports);
    assert forall|p: u16| m.dom().contains(p) implies ports.contains(p) by {
        assert(ports.to_set().contains(p));
    }
    assert(changed(m, ports, change) =~= m.map_values(change));
}

proof fn lemma_heard_port(m: Listeners, client: Seq<char>, msg: tunnel::MessageView)
    ensures
        ports_match(m) ==> ports_match(all_heard(m, client, msg)),
{
}

/// What binding the ports of a client needs next.
#[derive(Debug)]
pub enum BindStep {
    /// A listener is to be started.
    Start { port: u16, name: String },
    /// All ports are bound.
    Done,
}

/// The binding of the ports of a client, one mapping after the other.
#[derive(Debug)]
pub struct PortBinding {
    client_id: String,
    mappings: Vec<PortMapping>,
    next: usize,
}

/// The listeners after the mappings from `i` on have been bound as far as
/// there are listeners, and the first mapping that is left.
pub open spec fn bound_from(
    m: Listeners,
    mappings: Seq<tunnel::PortMappingView>,
    client: Seq<char>,
    i: int,
) -> (Listeners, int)
    decreases mappings.len() - i,
{
    if 0 <= i < mappings.len() {
        let port = mappings[i].remote_port;
        if m.dom().contains(port) {
            bound_from(
                m.insert(port, ListenerView { bound: Some(client), ..m[port] }),
                mappings,
                client,
                i + 1,
            )
        } else {
            (m, i)
        }
    } else {
        (m, i)
    }
}

impl PortBinding {
    /// The client whose ports are bound.
    pub closed spec fn client(&self) -> Seq<char> {
        self.client_id@
    }

    /// The mappings whose ports are bound.
    pub closed spec fn wanted(&self) -> Seq<tunnel::PortMappingView> {
        tunnel::mapping_views(self.mappings@)
    }

    /// The first mapping that is left.
    pub closed spec fn position(&self) -> int {
        self.next as int
    }

    /// The binding is not beyond its mappings.
    pub open spec fn wf(&self) -> bool {
        0 <= self.position() <= self.wanted().len()
    }

    /// Begins to bind the ports of a client.
    pub fn begin(client_id: String, mappings: Vec<PortMapping>) -> (r: PortBinding)
        ensures
            r.wf(),
            r.client() == client_id@,
            r.wanted() == tunnel::mapping_views(mappings@),
            r.position() == 0,
    {
        PortBinding { client_id, mappings, next: 0 }
    }

    /// Binds ports until one has no listener or none is left.
    pub fn advance(&mut self, manager: &mut PortListenerManager, now: Timestamp) -> (r: BindStep)
        requires
            old(self).wf(),
        ensures
            final(self).wf(),
            final(self).client() == old(self).client(),
            final(self).wanted() == old(self).wanted(),
            (final(manager)@, final(self).position()) == bound_from(
                old(manager)@,
                old(self).wanted(),
                old(self).client(),
                old(self).position(),
            ),
            ports_match(old(manager)@) ==> ports_match(final(manager)@),
            r is Done <==> final(self).position() == old(self).wanted().len(),
            r matches BindStep::Start { port, name } ==> {
                let m = old(self).wanted()[final(self).position()];
                &&& port == m.remote_port
                &&& name@ == m.name
                &&& !final(manager)@.dom().contains(port)
            },
    {
        let ghost start = bound_from(
            manager@,
            self.wanted(),
            self.client(),
            self.position(),
        );
        let n = self.mappings.len();
        while self.next < n
            invariant
                n == self.mappings@.len(),
                self.mappings == old(self).mappings,
                self.client_id == old(self).client_id,
                self.next <= n,
                ports_match(old(manager)@) ==> ports_match(manager@),
                start == bound_from(manager@, self.wanted(), self.client(), self.position()),
            ensures
                self.next == n || !manager@.dom().contains(
                    self.mappings@[self.next as int].remote_port,
                ),
            decreases n - self.next,
        {
            let port = self.mappings[self.next].remote_port;
            assert(self.wanted()[self.next as int].remote_port == port);
            if !manager.bind_port(port, self.client_id.as_str(), now) {
                break ;
            }
            self.next = self.next + 1;
        }
        if self.next < n {
            assert(self.wanted()[self.next as int] == self.mappings@[self.next as int]@);
            BindStep::Start {
                port: self.mappings[self.next].remote_port,
                name: self.mappings[self.next].name.clone(),
            }
        } else {
            BindStep::Done
        }
    }

    /// The listener of the first mapping that is left has been started.
    pub fn on_started(&mut self, manager: &mut PortListenerManager)
        requires
            old(self).wf(),
            old(self).position() < old(self).wanted().len(),
        ensures
            *final(self) == *old(self),
            ({
                let m = old(self).wanted()[old(self).position()];
                final(manager)@ == old(manager)@.insert(
                    m.remote_port,
                    ListenerView {
                        started: true,
                        ..ListenerView::fresh(m.remote_port, m.name)
                    },
                )
            }),
            ports_match(old(manager)@) ==> ports_match(final(manager)@),
    {
        assert(self.wanted()[self.next as int] == self.mappings@[self.next as int]@);
        let mut listener = PortListener::new(
            self.mappings[self.next].remote_port,
            self.mappings[self.next].name.clone(),
        );
        listener.mark_started();
        manager.add_listener(listener);
    }
}

/// The listeners after all mappings from `i` on have been bound, where every
/// listener that was missing has been started.
pub open spec fn all_bound(
    m: Listeners,
    mappings: Seq<tunnel::PortMappingView>,
    client: Seq<char>,
    i: int,
) -> Listeners
    decreases mappings.len() - i,
{
    if 0 <= i < mappings.len() {
        let port = mappings[i].remote_port;
        let listener = if m.dom().contains(port) {
            m[port]
        } else {
            ListenerView { started: true, ..ListenerView::fresh(port, mappings[i].name) }
        };
        all_bound(
            m.insert(port, ListenerView { bound: Some(client), ..listener }),
            mappings,
            client,
            i + 1,
        )
    } else {
        m
    }
}

/// Binding as far as there are listeners, starting the listener that is
/// missing, and going on comes to the same as binding everything.
pub proof fn binding_goes_on(
    m: Listeners,
    mappings: Seq<tunnel::PortMappingView>,
    client: Seq<char>,
    i: int,
)
    requires
        0 <= i <= mappings.len(),
    ensures
        ({
            let (n, j) = bound_from(m, mappings, client, i);
            &&& i <= j <= mappings.len()
            &&& j == mappings.len() ==> n == all_bound(m, mappings, client, i)
            &&& j < mappings.len() ==> all_bound(m, mappings, client, i) == all_bound(
                n.insert(
                    mappings[j].remote_port,
                    ListenerView {
                        started: true,
                        ..ListenerView::fresh(mappings[j].remote_port, mappings[j].name)
                    },
                ),
                mappings,
                client,
                j,
            )
        }),
    decreases mappings.len() - i,
{
    if i < mappings.len() {
        let port = mappings[i].remote_port;
        if m.dom().contains(port) {
            binding_goes_on(
                m.insert(port, ListenerView { bound: Some(client), ..m[port] }),
                mappings,
                client,
                i + 1,
            );
        } else {
            let fresh = ListenerView {
                started: true,
                ..ListenerView::fresh(port, mappings[i].name)
            };
            let bound = ListenerView { bound: Some(client), ..fresh };
            assert(m.insert(port, fresh).insert(port, bound) =~= m.insert(port, bound));
        }
    }
}

/// After the ports of a client have been bound, each port that it maps belongs
/// to it, and no other port has changed.
pub proof fn bound_ports_belong_to_client(
    m: Listeners,
    mappings: Seq<tunnel::PortMappingView>,
    client: Seq<char>,
    i: int,
    port: u16,
)
    requires
        0 <= i <= mappings.len(),
    ensures
        ({
            let n = all_bound(m, mappings, client, i);
            let mapped = exists|j: int|
                i <= j < mappings.len() && #[trigger] mappings[j].remote_port == port;
            &&& mapped ==> n.dom().contains(port) && n[port].bound == Some(client)
            &&& !mapped ==> (n.dom().contains(port) <==> m.dom().contains(port))
            &&& !mapped && m.dom().contains(port) ==> n[port] == m[port]
        }),
    decreases mappings.len() - i,
{
    if i < mappings.len() {
        let p = mappings[i].remote_port;
        let listener = if m.dom().contains(p) {
            m[p]
        } else {
            ListenerView { started: true, ..ListenerView::fresh(p, mappings[i].name) }
        };
        let m2 = m.insert(p, ListenerView { bound: Some(client), ..listener });
        bound_ports_belong_to_client(m2, mappings, client, i + 1, port);
        assert(mappings[i].remote_port == p);
        if p == port {
            if !(exists|j: int|
                i + 1 <= j < mappings.len() && #[trigger] mappings[j].remote_port == port) {
                assert(m2.dom().contains(port) && m2[port].bound == Some(client));
            }
        }
    }
}

/// After a client has been unbound no port belongs to it; the ports of other
/// clients are as they were, and every listener is still there.
pub proof fn unbound_client_owns_no_port(m: Listeners, client: Seq<char>, port: u16)
    requires
        m.dom().contains(port),
    ensures
        ({
            let n = m.map_values(|l: ListenerView| unbound(l, client));
            &&& n.dom() == m.dom()
            &&& n[port].bound != Some(client)
            &&& m[port].bound != Some(client) ==> n[port] == m[port]
            &&& n[port].active == m[port].active
            &&& n[port].started == m[port].started
        }),
{
    assert(m.map_values(|l: ListenerView| unbound(l, client)).dom() =~= m.dom());
}

/// A client is heard by its own ports alone.
pub proof fn other_ports_hear_nothing(
    m: Listeners,
    client: Seq<char>,
    msg: tunnel::MessageView,
    port: u16,
)
    requires
        m.dom().contains(port),
        m[port].bound != Some(client),
    ensures
        all_heard(m, client, msg)[port] == m[port],
{
}

/// A connection that is over is registered nowhere, and it stays over.
pub proof fn over_is_forgotten(
    id: Seq<char>,
    phase: ConnectionPhase,
    listener: ListenerView,
    event: ConnectionEventView,
)
    requires
        phase is ReadOnly || phase is Over ==> !listener.active.contains(id)
            && !listener.pending.contains(id),
    ensures
        ({
            let moved = connection_step(id, phase, listener, event);
            &&& moved.phase is ReadOnly || moved.phase is Over ==> !moved.listener.active.contains(
                id,
            ) && !moved.listener.pending.contains(id)
            &&& phase is Over ==> moved.phase is Over && moved.message is None
        }),
{
}

} // verus!
