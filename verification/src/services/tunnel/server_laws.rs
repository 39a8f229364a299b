//! What the server side of the tunnel does with each event: which connection
//! gets the bytes, which client owns a port, and which request is answered.

use vstd::prelude::*;

use crate::collections;
use crate::domain::tunnel;
use crate::services::tunnel::server;
use crate::services::tunnel::server::{ServerActionView, SessionView, SocketEventView};
use crate::state::port_listener_manager;
use crate::state::port_listener_manager::{
    connection_step, BindRetry, ConnectionEventView, ConnectionPhase, EffectView, ListenerStatus,
    ListenerView, Listeners,
};
use crate::state::tunnel_state;
use crate::state::tunnel_state::ClientState;
use crate::text::chars;
use crate::time::Timestamp;

verus! {

/// A connection that is made for the port is asked for, and waits from the moment
/// when the client of the port has taken the request. Bytes go both ways once
/// the client has made it; a refusal, or half a minute of silence, ends it.
pub proof fn connection_is_made_in_turn(
    id: Seq<char>,
    l: ListenerView,
    event: ConnectionEventView,
)
    ensures
        ({
            let t = connection_step(id, ConnectionPhase::Asking, l, event);
            let taken = event matches ConnectionEventView::Sent { accepted } && accepted
                && l.bound is Some;
            &&& taken ==> t.phase is Waiting && t.listener == l
            &&& event is Sent && !taken ==> t.phase is Over && !t.listener.active.contains(id)
                && !t.listener.pending.contains(id)
            &&& !(event is Sent) ==> t.phase is Asking && t.listener == l
            &&& t.message is None
        }),
        ({
            let t = connection_step(id, ConnectionPhase::Waiting, l, event);
            let refused = event is Abandoned || event is TimedOut;
            &&& event is Ready ==> t.phase is Forwarding && t.listener == l
            &&& refused ==> t.phase is Over && !t.listener.active.contains(id)
                && !t.listener.pending.contains(id)
            &&& !(event is Ready) && !refused ==> t.phase is Waiting && t.listener == l
            &&& t.message is None
        }),
{
}

/// What the peer of a connection sends goes to the client as it is, under the
/// name of the connection. When the peer closes it, when reading fails, or when
/// the client does not take a message, the client is told that it is closed, and
/// it is over. When nothing more can go to the peer, what it sends still goes to
/// the client.
pub proof fn bytes_go_to_the_client(
    id: Seq<char>,
    phase: ConnectionPhase,
    l: ListenerView,
    event: ConnectionEventView,
)
    requires
        phase is Forwarding || phase is ReadOnly,
    ensures
        ({
            let t = connection_step(id, phase, l, event);
            let refused = event matches ConnectionEventView::Sent { accepted } && !(accepted
                && l.bound is Some);
            let ends = refused || event is ReadFailed || (event matches ConnectionEventView::Read {
                data,
            } && data.len() == 0);
            &&& event matches ConnectionEventView::Read { data } ==> data.len() > 0 ==> t.message
                == Some(tunnel::MessageView::Data { conn_id: id, data }) && t.phase == phase
                && t.listener == l
            &&& ends ==> t.message == Some(tunnel::MessageView::Close { conn_id: id })
                && t.phase is Over
            &&& ends && phase is Forwarding ==> t.listener.active == l.active.remove(id)
                && t.listener.pending == l.pending.remove(id)
            &&& event is WriteEnded && phase is Forwarding ==> t.phase is ReadOnly
                && t.message is None && t.listener.active == l.active.remove(id)
            &&& !ends && !(event is Read) && !(event is WriteEnded) ==> t.phase == phase
                && t.message is None && t.listener == l
            &&& t.listener.port == l.port && t.listener.name == l.name && t.listener.bound
                == l.bound && t.listener.started == l.started
        }),
{
}

/// A failed attempt to open a port is repeated five times, after 50 milliseconds
/// more each time.
pub proof fn port_is_tried_five_times(attempts: u32)
    ensures
        attempts < 5 ==> port_listener_manager::bind_retry_spec(attempts) == (BindRetry::Again {
            delay_ms: (50 * (attempts + 1)) as u64,
        }),
        attempts >= 5 ==> port_listener_manager::bind_retry_spec(attempts) is GiveUp,
{
}

/// A message of the client acts on the connection that it names, and on no
/// other: it makes a waiting one ready, gives up one, hands bytes to one, or ends
/// one. Nothing follows where no such connection is there.
pub proof fn message_acts_on_its_connection(
    l: ListenerView,
    id: Seq<char>,
    other: Seq<char>,
    data: Seq<u8>,
    error: Seq<char>,
)
    requires
        other != id,
    ensures
        ({
            let t = l.heard(tunnel::MessageView::Connected { conn_id: id });
            &&& l.pending.contains(id) ==> t.effects == seq![EffectView::Ready { conn_id: id }]
            &&& !l.pending.contains(id) ==> t.effects.len() == 0
            &&& t.listener.active == l.active
            &&& !t.listener.pending.contains(id)
            &&& t.listener.pending.contains(other) <==> l.pending.contains(other)
        }),
        ({
            let t = l.heard(tunnel::MessageView::ConnectFailed { conn_id: id, error });
            &&& l.pending.contains(id) <==> t.effects.contains(EffectView::Abandon { conn_id: id })
            &&& l.active.contains(id) <==> t.effects.contains(EffectView::End { conn_id: id })
            &&& !t.listener.active.contains(id) && !t.listener.pending.contains(id)
            &&& t.listener.active.contains(other) <==> l.active.contains(other)
            &&& t.listener.pending.contains(other) <==> l.pending.contains(other)
        }),
        ({
            let t = l.heard(tunnel::MessageView::Data { conn_id: id, data });
            &&& l.active.contains(id) ==> t.effects == seq![
                EffectView::Deliver { conn_id: id, data },
            ]
            &&& !l.active.contains(id) ==> t.effects.len() == 0
            &&& t.listener == l
        }),
        ({
            let t = l.heard(tunnel::MessageView::Close { conn_id: id });
            &&& l.active.contains(id) ==> t.effects == seq![EffectView::End { conn_id: id }]
            &&& !l.active.contains(id) ==> t.effects.len() == 0
            &&& !t.listener.active.contains(id)
            &&& t.listener.pending == l.pending
            &&& t.listener.active.contains(other) <==> l.active.contains(other)
        }),
{
    let t = l.heard(tunnel::MessageView::ConnectFailed { conn_id: id, error });
    if l.pending.contains(id) {
        assert(t.effects[0] == EffectView::Abandon { conn_id: id });
    }
    if l.active.contains(id) {
        assert(t.effects.last() == EffectView::End { conn_id: id });
    }
}

/// A message is heard at the ports of its client, each on its own; the other
/// ports stay as they are. What follows is listed port by port.
pub proof fn ports_of_the_client_hear(
    m: Listeners,
    client: Seq<char>,
    msg: tunnel::MessageView,
    ports: Seq<u16>,
    p: u16,
)
    requires
        m.dom().contains(p),
    ensures
        port_listener_manager::all_heard(m, client, msg).dom() == m.dom(),
        m[p].bound == Some(client) ==> port_listener_manager::all_heard(m, client, msg)[p]
            == m[p].heard(msg).listener,
        m[p].bound != Some(client) ==> port_listener_manager::all_heard(m, client, msg)[p] == m[p],
        m[p].bound == Some(client) ==> port_listener_manager::all_effects(
            m,
            ports.push(p),
            client,
            msg,
        ) == port_listener_manager::all_effects(m, ports, client, msg).push(
            (p, m[p].heard(msg).effects),
        ) && port_listener_manager::ports_of(m, ports.push(p), client)
            == port_listener_manager::ports_of(m, ports, client).push(p),
        m[p].bound != Some(client) ==> port_listener_manager::all_effects(
            m,
            ports.push(p),
            client,
            msg,
        ) == port_listener_manager::all_effects(m, ports, client, msg)
            && port_listener_manager::ports_of(m, ports.push(p), client)
            == port_listener_manager::ports_of(m, ports, client),
        port_listener_manager::all_effects(m, Seq::empty(), client, msg).len() == 0,
        port_listener_manager::ports_of(m, Seq::empty(), client).len() == 0,
{
    assert(port_listener_manager::all_heard(m, client, msg).dom() =~= m.dom());
    let f = |q: u16|
        if m[q].bound == Some(client) {
            Some((q, m[q].heard(msg).effects))
        } else {
            None
        };
    let g = |q: u16|
        if m[q].bound == Some(client) {
            Some(q)
        } else {
            None
        };
    assert(ports.push(p).map_values(f).drop_last() =~= ports.map_values(f));
    assert(ports.push(p).map_values(g).drop_last() =~= ports.map_values(g));
    assert(ports.push(p).map_values(f).last() == f(p));
    assert(ports.push(p).map_values(g).last() == g(p));
    assert(port_listener_manager::all_effects(m, ports.push(p), client, msg)
        == collections::keep_some(ports.push(p).map_values(f)));
    assert(port_listener_manager::ports_of(m, ports.push(p), client) == collections::keep_some(
        ports.push(p).map_values(g),
    ));
}

/// The answer to an HTTP request goes to the one who waits for it, once: with the
/// status, the headers and the body that came, or with 502 and the error. A
/// status that is none is 500.
pub proof fn request_is_answered_once(
    s: tunnel_state::ServerView,
    l: Listeners,
    order: Seq<u16>,
    client: Seq<char>,
    id: Seq<char>,
    status: u16,
    headers: Seq<(Seq<char>, Seq<char>)>,
    body: Option<Seq<u8>>,
    error: Seq<char>,
    other: Seq<char>,
)
    requires
        other != id,
    ensures
        ({
            let h = server::handled(
                tunnel::MessageView::HttpResponse { request_id: id, status, headers, body },
                client,
                s,
                l,
                order,
            );
            &&& s.pending.contains(id) ==> h.action == Some(
                ServerActionView::Respond {
                    request_id: id,
                    status: if 100 <= status <= 999 {
                        status
                    } else {
                        500
                    },
                    headers,
                    body,
                },
            )
            &&& !s.pending.contains(id) ==> h.action is None
            &&& !h.server.pending.contains(id)
            &&& h.server.pending.contains(other) <==> s.pending.contains(other)
            &&& h.server.clients == s.clients && h.server.ports == s.ports && h.listeners == l
        }),
        ({
            let h = server::handled(
                tunnel::MessageView::HttpError { request_id: id, error },
                client,
                s,
                l,
                order,
            );
            &&& s.pending.contains(id) ==> h.action == Some(
                ServerActionView::RespondError { request_id: id, status: 502, error },
            )
            &&& !s.pending.contains(id) ==> h.action is None
            &&& !h.server.pending.contains(id)
            &&& h.server.pending.contains(other) <==> s.pending.contains(other)
            &&& h.server.clients == s.clients && h.server.ports == s.ports && h.listeners == l
        }),
{
}

/// Messages on connections are passed on to the ports of the client, and leave
/// what the server knows as it is.
pub proof fn connection_messages_are_passed_on(
    s: tunnel_state::ServerView,
    l: Listeners,
    order: Seq<u16>,
    client: Seq<char>,
    msg: tunnel::MessageView,
)
    requires
        msg is Connected || msg is ConnectFailed || msg is Data || msg is Close,
    ensures
        ({
            let h = server::handled(msg, client, s, l, order);
            &&& h.server == s
            &&& h.listeners == port_listener_manager::all_heard(l, client, msg)
            &&& h.action == Some(
                ServerActionView::Forward(
                    port_listener_manager::all_effects(l, order, client, msg),
                ),
            )
        }),
{
}

/// A session belongs to the client that says who it is first. Its place is taken
/// from an older session of the same name, and its ports are opened from the
/// first one on.
pub proof fn first_message_names_the_client(
    v: SessionView,
    s: tunnel_state::ServerView,
    l: Listeners,
    order: Seq<u16>,
    state: ClientState,
    client: Seq<char>,
    mappings: Seq<tunnel::PortMappingView>,
)
    ensures
        ({
            let t = v.step(
                SocketEventView::Text(tunnel::MessageView::Config { client_id: client, mappings }),
                s,
                l,
                order,
                state,
            );
            &&& v.client is Some ==> t.session == v && t.server == s && t.listeners == l
                && t.action is None
            &&& v.client is None ==> t.session.client == Some(client) && t.session.addr == v.addr
                && t.session.closed == v.closed && t.server.clients.dom().contains(client)
                && t.server.clients[client] == state
        }),
        v.client is None && mappings.len() > 0 && !l.dom().contains(mappings[0].remote_port) ==> {
            let t = v.step(
                SocketEventView::Text(tunnel::MessageView::Config { client_id: client, mappings }),
                s,
                l,
                order,
                state,
            );
            t.action == Some(
                ServerActionView::StartListener {
                    port: mappings[0].remote_port,
                    name: mappings[0].name,
                },
            ) && t.listeners == l && t.session.binding is Some
        },
        v.client is None && mappings.len() == 0 ==> {
            let t = v.step(
                SocketEventView::Text(tunnel::MessageView::Config { client_id: client, mappings }),
                s,
                l,
                order,
                state,
            );
            t.action is None && t.listeners == l && t.session.binding is None
        },
{
}

/// A port that has a listener is bound to the client, and the next one follows;
/// the listener of a port that has none is started first.
pub proof fn ports_are_bound_in_order(
    l: Listeners,
    mappings: Seq<tunnel::PortMappingView>,
    client: Seq<char>,
    i: int,
)
    requires
        0 <= i <= mappings.len(),
    ensures
        i == mappings.len() ==> port_listener_manager::bound_from(l, mappings, client, i) == (l, i),
        i < mappings.len() && !l.dom().contains(mappings[i].remote_port)
            ==> port_listener_manager::bound_from(l, mappings, client, i) == (l, i),
        i < mappings.len() && l.dom().contains(mappings[i].remote_port)
            ==> port_listener_manager::bound_from(l, mappings, client, i)
            == port_listener_manager::bound_from(
            l.insert(
                mappings[i].remote_port,
                ListenerView { bound: Some(client), ..l[mappings[i].remote_port] },
            ),
            mappings,
            client,
            i + 1,
        ),
{
}

/// A listener that could not be started takes the client's registration back;
/// one that was started is there from then on.
pub proof fn listener_has_to_start(
    v: SessionView,
    s: tunnel_state::ServerView,
    l: Listeners,
    client: Seq<char>,
    wanted: Seq<tunnel::PortMappingView>,
    i: int,
)
    requires
        v.client == Some(client),
        v.binding == Some(server::BindingView { wanted, position: i }),
        0 <= i < wanted.len(),
    ensures
        ({
            let t = v.listener_step(false, s, l);
            &&& t.session.client is None && t.session.binding is None
            &&& !t.server.clients.dom().contains(client)
            &&& t.listeners == l
            &&& t.action is None
        }),
        ({
            let t = v.listener_step(true, s, l);
            &&& t.session.client == Some(client)
            &&& t.server == s
            &&& t.listeners.dom().contains(wanted[i].remote_port)
            &&& t.listeners[wanted[i].remote_port].bound == Some(client)
            &&& t.listeners[wanted[i].remote_port].started
            &&& t.listeners[wanted[i].remote_port].port == wanted[i].remote_port
        }),
{
    let port = wanted[i].remote_port;
    let l2 = l.insert(
        port,
        ListenerView { started: true, ..ListenerView::fresh(port, wanted[i].name) },
    );
    let l3 = l2.insert(port, ListenerView { bound: Some(client), ..l2[port] });
    assert(port_listener_manager::bound_from(l2, wanted, client, i)
        == port_listener_manager::bound_from(l3, wanted, client, i + 1));
    lemma_bound_stays(l3, wanted, client, i + 1, port);
}

proof fn lemma_bound_stays(
    l: Listeners,
    wanted: Seq<tunnel::PortMappingView>,
    client: Seq<char>,
    i: int,
    port: u16,
)
    requires
        0 <= i <= wanted.len(),
        l.dom().contains(port),
        l[port].bound == Some(client),
        l[port].started,
        l[port].port == port,
    ensures
        ({
            let n = port_listener_manager::bound_from(l, wanted, client, i).0;
            n.dom().contains(port) && n[port].bound == Some(client) && n[port].started
                && n[port].port == port
        }),
    decreases wanted.len() - i,
{
    if i < wanted.len() && l.dom().contains(wanted[i].remote_port) {
        let p = wanted[i].remote_port;
        lemma_bound_stays(
            l.insert(p, ListenerView { bound: Some(client), ..l[p] }),
            wanted,
            client,
            i + 1,
            port,
        );
    }
}

/// The end of a connection, a failure and a message that can not be sent end the
/// session: its client is gone, with its ports, and every listener is free of
/// it. Nothing else ends it.
pub proof fn session_ends_with_its_connection(
    v: SessionView,
    event: SocketEventView,
    s: tunnel_state::ServerView,
    l: Listeners,
    order: Seq<u16>,
    state: ClientState,
    port: u16,
)
    ensures
        ({
            let t = v.step(event, s, l, order, state);
            let over = event is Close || event is Failed || event is End || event is SendFailed;
            &&& over ==> t.session.closed && t.action == Some(ServerActionView::Hangup)
            &&& over && v.client is Some ==> !t.server.clients.dom().contains(v.client->0)
            &&& over && v.client is Some && l.dom().contains(port) ==> t.listeners.dom().contains(
                port,
            ) && t.listeners[port].bound != v.client
            &&& over && v.client is None ==> t.server == s && t.listeners == l
            &&& !over ==> t.session.closed == v.closed && t.action != Some(ServerActionView::Hangup)
        }),
{
}

/// The client is asked for a sign of life at each tick, gives one that it is
/// asked for, and gets the messages that are meant for it as they are. A client
/// that has not said who it is is not heard.
pub proof fn session_goes_on(
    v: SessionView,
    s: tunnel_state::ServerView,
    l: Listeners,
    order: Seq<u16>,
    state: ClientState,
    data: Seq<u8>,
    msg: tunnel::MessageView,
)
    ensures
        v.step(SocketEventView::Tick, s, l, order, state).action == Some(
            ServerActionView::Send(tunnel::MessageView::Ping),
        ),
        v.step(SocketEventView::Ping(data), s, l, order, state).action == Some(
            ServerActionView::SendPong(data),
        ),
        v.step(SocketEventView::Outgoing(msg), s, l, order, state).action == Some(
            ServerActionView::Send(msg),
        ),
        v.step(SocketEventView::Pong, s, l, order, state).action is None,
        v.step(SocketEventView::Unreadable, s, l, order, state).action is None,
        v.client is None && !(msg is Config) ==> {
            let t = v.step(SocketEventView::Text(msg), s, l, order, state);
            t.action is None && t.session == v && t.server == s && t.listeners == l
        },
        v.client is Some && !(msg is Config) ==> {
            let t = v.step(SocketEventView::Text(msg), s, l, order, state);
            let h = server::handled(msg, v.client->0, s, l, order);
            t.action == h.action && t.session == v && t.server == h.server && t.listeners
                == h.listeners
        },
        v.step(SocketEventView::Binary(msg), s, l, order, state) == v.hears(msg, s, l, order),
{
}

/// A client that is registered has the name, the address, the time and the
/// mappings of its session.
pub proof fn registered_client_is_itself(
    state: ClientState,
    client: Seq<char>,
    addr: Seq<char>,
    mappings: Seq<tunnel::PortMappingView>,
    now: Timestamp,
)
    requires
        server::registers(state, client, addr, mappings, now),
    ensures
        state.client_id@ == client,
        state.client_addr@ == addr,
        state.connected_at == now,
        tunnel::mapping_views(state.mappings@) == mappings,
{
}

/// A client that leaves takes its ports with it; the others keep theirs, and
/// requests that wait go on waiting.
pub proof fn leaving_client_takes_its_ports(
    s: tunnel_state::ServerView,
    client: Seq<char>,
    other: Seq<char>,
    port: u16,
)
    requires
        other != client,
        s.clients.dom().contains(client),
    ensures
        ({
            let t = s.without_client(client);
            &&& !t.clients.dom().contains(client)
            &&& t.clients.dom().contains(other) <==> s.clients.dom().contains(other)
            &&& s.clients.dom().contains(other) ==> t.clients[other] == s.clients[other]
            &&& t.ports.dom().contains(port) <==> s.ports.dom().contains(port) && s.ports[port]
                != client
            &&& t.ports.dom().contains(port) ==> t.ports[port] == s.ports[port]
            &&& t.pending == s.pending
        }),
{
}

/// A listener is reported with its port, its name, its client and the number of
/// its connections.
pub proof fn listener_is_reported(s: ListenerStatus, l: ListenerView)
    requires
        port_listener_manager::reports(s, l),
    ensures
        s.port == l.port,
        s.name@ == l.name,
        chars::opt_view(s.client_id) == l.bound,
        s.connections == l.active.len(),
{
}

/// A new listener is bound to nobody and has no connections.
pub proof fn new_listener_is_free(port: u16, name: Seq<char>, id: Seq<char>)
    ensures
        ({
            let l = ListenerView::fresh(port, name);
            &&& l.port == port && l.name == name
            &&& l.bound is None && !l.started && !l.cancelled
            &&& !l.active.contains(id) && !l.pending.contains(id)
        }),
{
}

} // verus!
