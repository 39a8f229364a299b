//! What the two ends of the tunnel do together.

use vstd::prelude::*;

use crate::collections;
use crate::domain::tunnel;
use crate::services::tunnel::client;
use crate::services::tunnel::server;
use crate::state::port_listener_manager as ports;
use crate::state::port_listener_manager::ConnectionPhase;
use crate::state::tunnel_state;
use crate::state::tunnel_state::{ClientState, TunnelClientState};
use crate::text::number;
use crate::time::Timestamp;

verus! {

/// A value that is there is kept.
proof fn lemma_kept<T>(s: Seq<Option<T>>, i: int)
    requires
        0 <= i < s.len(),
        s[i] is Some,
    ensures
        collections::keep_some(s).contains(s[i]->0),
    decreases s.len(),
{
    let rest = collections::keep_some(s.drop_last());
    if i == s.len() - 1 {
        assert(rest.push(s[i]->0)[rest.len() as int] == s[i]->0);
    } else {
        lemma_kept(s.drop_last(), i);
        let j = choose|j: int| 0 <= j < rest.len() && rest[j] == s[i]->0;
        match s.last() {
            Some(x) => {
                assert(rest.push(x)[j] == s[i]->0);
            },
            None => {},
        }
    }
}

/// What follows for a port from a message of the client that it is bound to.
proof fn lemma_port_hears(
    m: ports::Listeners,
    order: Seq<u16>,
    client: Seq<char>,
    msg: tunnel::MessageView,
    port: u16,
)
    requires
        order.contains(port),
        m[port].bound == Some(client),
    ensures
        ports::all_effects(m, order, client, msg).contains((port, m[port].heard(msg).effects)),
{
    let told = order.map_values(
        |p: u16|
            if m[p].bound == Some(client) {
                Some((p, m[p].heard(msg).effects))
            } else {
                None
            },
    );
    let i = choose|i: int| 0 <= i < order.len() && order[i] == port;
    assert(told[i] == Some((port, m[port].heard(msg).effects)));
    lemma_kept(told, i);
}

/// The effects of a port stand among those that an action forwards.
pub open spec fn forwards(
    action: Option<server::ServerActionView>,
    port: u16,
    effects: Seq<ports::EffectView>,
) -> bool {
    action matches Some(server::ServerActionView::Forward(all)) && all.contains((port, effects))
}

/// A connection on a port of the server makes the client connect to the
/// service that the port stands for, and the connection is used as soon as the
/// client has done so.
pub proof fn connection_is_made(
    id: Seq<char>,
    listener: ports::ListenerView,
    session: client::ClientView,
    mapping: tunnel::PortMappingView,
    state: TunnelClientState,
    now: Timestamp,
    serving: server::SessionView,
    name: Seq<char>,
    tunnels: tunnel_state::ServerView,
    m: ports::Listeners,
    order: Seq<u16>,
    any: ClientState,
)
    requires
        session.phase is Running,
        client::mapping_for_port(session.mappings, listener.port) == Some(mapping),
        serving.client == Some(name),
        order.contains(listener.port),
        m[listener.port].bound == Some(name),
        m[listener.port].pending.contains(id),
    ensures
        ({
            let asked = tunnel::MessageView::Connect { conn_id: id, remote_port: listener.port };
            let dialed = session.step(client::ClientEventView::Dialed { conn_id: id }, state, now);
            &&& session.step(client::ClientEventView::Text(asked), state, now).actions == seq![
                client::ClientActionView::Dial {
                    conn_id: id,
                    addr: mapping.local_host + ":"@ + number::decimal_spec(
                        mapping.local_port as nat,
                    ),
                },
            ]
            &&& dialed.session.connections.contains(id)
            &&& dialed.actions.len() == 1
            &&& dialed.actions[0] matches client::ClientActionView::Send(said)
            &&& forwards(
                serving.step(
                    server::SocketEventView::Text(said),
                    tunnels,
                    m,
                    order,
                    any,
                ).action,
                listener.port,
                seq![ports::EffectView::Ready { conn_id: id }],
            )
            &&& ports::connection_step(
                id,
                ConnectionPhase::Waiting,
                listener,
                ports::ConnectionEventView::Ready,
            ).phase is Forwarding
        }),
{
    let said = tunnel::MessageView::Connected { conn_id: id };
    lemma_port_hears(m, order, name, said, listener.port);
    let dialed = session.step(client::ClientEventView::Dialed { conn_id: id }, state, now);
    assert(dialed.actions[0] == client::ClientActionView::Send(said));
}

/// The bytes that arrive on a port of the server go to the local service of
/// the client, as they are.
pub proof fn bytes_reach_the_service(
    id: Seq<char>,
    phase: ConnectionPhase,
    listener: ports::ListenerView,
    data: Seq<u8>,
    session: client::ClientView,
    state: TunnelClientState,
    now: Timestamp,
)
    requires
        phase is Forwarding || phase is ReadOnly,
        data.len() > 0,
        session.phase is Running,
        session.connections.contains(id),
    ensures
        ({
            let moved = ports::connection_step(
                id,
                phase,
                listener,
                ports::ConnectionEventView::Read { data },
            );
            &&& moved.phase == phase
            &&& moved.message matches Some(said)
            &&& session.step(client::ClientEventView::Text(said), state, now) == (
            client::ClientStep {
                session,
                state,
                actions: seq![client::ClientActionView::Deliver { conn_id: id, data }],
            })
        }),
{
}

/// The bytes that the local service of a client sends go to the connection on
/// the port of the server, as they are.
pub proof fn bytes_reach_the_peer(
    id: Seq<char>,
    data: Seq<u8>,
    session: client::ClientView,
    state: TunnelClientState,
    now: Timestamp,
    serving: server::SessionView,
    name: Seq<char>,
    tunnels: tunnel_state::ServerView,
    m: ports::Listeners,
    order: Seq<u16>,
    port: u16,
    any: ClientState,
)
    requires
        data.len() > 0,
        session.phase is Running,
        serving.client == Some(name),
        order.contains(port),
        m[port].bound == Some(name),
        m[port].active.contains(id),
    ensures
        ({
            let read = session.step(
                client::ClientEventView::LocalRead { conn_id: id, data },
                state,
                now,
            );
            &&& read.session == session
            &&& read.actions.len() == 1
            &&& read.actions[0] matches client::ClientActionView::Send(said)
            &&& forwards(
                serving.step(
                    server::SocketEventView::Text(said),
                    tunnels,
                    m,
                    order,
                    any,
                ).action,
                port,
                seq![ports::EffectView::Deliver { conn_id: id, data }],
            )
        }),
{
    let said = tunnel::MessageView::Data { conn_id: id, data };
    lemma_port_hears(m, order, name, said, port);
    let read = session.step(client::ClientEventView::LocalRead { conn_id: id, data }, state, now);
    assert(read.actions[0] == client::ClientActionView::Send(said));
}

/// A request that is forwarded is made to the local agent with the same
/// headers and the same body, and what the local agent answers is the answer
/// to the request.
pub proof fn request_is_answered(
    request_id: Seq<char>,
    method: Seq<char>,
    path: Seq<char>,
    sent_headers: Seq<(Seq<char>, Seq<char>)>,
    sent_body: Option<Seq<u8>>,
    status: u16,
    headers: Seq<(Seq<char>, Seq<char>)>,
    body: Seq<u8>,
    session: client::ClientView,
    state: TunnelClientState,
    now: Timestamp,
    serving: server::SessionView,
    tunnels: tunnel_state::ServerView,
    m: ports::Listeners,
    order: Seq<u16>,
    any: ClientState,
)
    requires
        session.phase is Running,
        serving.client is Some,
        tunnels.pending.contains(request_id),
    ensures
        ({
            let asked = tunnel::MessageView::HttpRequest {
                request_id,
                method,
                path,
                headers: sent_headers,
                body: sent_body,
            };
            let fetched = session.step(
                client::ClientEventView::Fetched { request_id, status, headers, body },
                state,
                now,
            );
            &&& session.step(client::ClientEventView::Text(asked), state, now).actions == seq![
                client::ClientActionView::Fetch {
                    request_id,
                    method: client::known_method(method),
                    url: "http://127.0.0.1:"@ + number::decimal_spec(
                        client::agent_port(session.mappings) as nat,
                    ) + path,
                    headers: sent_headers,
                    body: sent_body,
                },
            ]
            &&& fetched.actions.len() == 1
            &&& fetched.actions[0] matches client::ClientActionView::Send(said)
            &&& {
                let after = serving.step(
                    server::SocketEventView::Text(said),
                    tunnels,
                    m,
                    order,
                    any,
                );
                &&& after.action == Some(
                    server::ServerActionView::Respond {
                        request_id,
                        status: server::reply_status_spec(status),
                        headers,
                        body: if body.len() == 0 {
                            None
                        } else {
                            Some(body)
                        },
                    },
                )
                &&& !after.server.pending.contains(request_id)
            }
        }),
{
    let fetched = session.step(
        client::ClientEventView::Fetched { request_id, status, headers, body },
        state,
        now,
    );
    assert(fetched.actions[0] is Send);
}

} // verus!
