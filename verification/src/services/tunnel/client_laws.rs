//! What the client side of the tunnel does with what it hears, said of the
//! messages and the mappings alone.

use vstd::prelude::*;

use crate::domain::tunnel;
use crate::services::tunnel::client;
use crate::services::tunnel::client::{ClientActionView, ClientEventView, ResultView};
use crate::state::tunnel_state::TunnelClientState;
use crate::text::number;
use crate::time::Timestamp;

verus! {

/// The mapping at `i` is the first one of the port.
pub open spec fn first_of_port(
    mappings: Seq<tunnel::PortMappingView>,
    port: u16,
    i: int,
) -> bool {
    &&& 0 <= i < mappings.len()
    &&& mappings[i].remote_port == port
    &&& forall|j: int| 0 <= j < i ==> (#[trigger] mappings[j]).remote_port != port
}

/// The mapping at `i` is the first one of the name.
pub open spec fn first_of_name(
    mappings: Seq<tunnel::PortMappingView>,
    name: Seq<char>,
    i: int,
) -> bool {
    &&& 0 <= i < mappings.len()
    &&& mappings[i].name == name
    &&& forall|j: int| 0 <= j < i ==> (#[trigger] mappings[j]).name != name
}

/// The look-up by port finds the mapping at the smallest index that has the
/// port, and none exactly where no index has it.
pub proof fn port_finds_its_first_mapping(mappings: Seq<tunnel::PortMappingView>, port: u16)
    ensures
        client::mapping_for_port(mappings, port) is None <==> forall|i: int|
            0 <= i < mappings.len() ==> (#[trigger] mappings[i]).remote_port != port,
        forall|i: int| #[trigger]
            first_of_port(mappings, port, i) ==> client::mapping_for_port(mappings, port) == Some(
                mappings[i],
            ),
    decreases mappings.len(),
{
    if mappings.len() > 0 {
        let rest = mappings.subrange(1, mappings.len() as int);
        port_finds_its_first_mapping(rest, port);
        if mappings[0].remote_port != port {
            assert forall|i: int| #[trigger] first_of_port(
                mappings,
                port,
                i,
            ) implies client::mapping_for_port(mappings, port) == Some(mappings[i]) by {
                assert(rest[i - 1] == mappings[i]);
                assert forall|j: int| 0 <= j < i - 1 implies (#[trigger] rest[j]).remote_port
                    != port by {
                    assert(rest[j] == mappings[j + 1]);
                }
                assert(first_of_port(rest, port, i - 1));
            }
            if client::mapping_for_port(mappings, port) is None {
                assert forall|i: int| 0 <= i < mappings.len() implies (
                #[trigger] mappings[i]).remote_port != port by {
                    if i > 0 {
                        assert(mappings[i] == rest[i - 1]);
                    }
                }
            }
            if forall|i: int|
                0 <= i < mappings.len() ==> (#[trigger] mappings[i]).remote_port != port {
                assert forall|i: int| 0 <= i < rest.len() implies (
                #[trigger] rest[i]).remote_port != port by {
                    assert(rest[i] == mappings[i + 1]);
                }
            }
        }
    }
}

/// The look-up by name finds the mapping at the smallest index that has the
/// name, and none exactly where no index has it.
pub proof fn name_finds_its_first_mapping(mappings: Seq<tunnel::PortMappingView>, name: Seq<char>)
    ensures
        client::mapping_named(mappings, name) is None <==> forall|i: int|
            0 <= i < mappings.len() ==> (#[trigger] mappings[i]).name != name,
        forall|i: int| #[trigger]
            first_of_name(mappings, name, i) ==> client::mapping_named(mappings, name) == Some(
                mappings[i],
            ),
    decreases mappings.len(),
{
    if mappings.len() > 0 {
        let rest = mappings.subrange(1, mappings.len() as int);
        name_finds_its_first_mapping(rest, name);
        if mappings[0].name != name {
            assert forall|i: int| #[trigger] first_of_name(
                mappings,
                name,
                i,
            ) implies client::mapping_named(mappings, name) == Some(mappings[i]) by {
                assert(rest[i - 1] == mappings[i]);
                assert forall|j: int| 0 <= j < i - 1 implies (#[trigger] rest[j]).name != name by {
                    assert(rest[j] == mappings[j + 1]);
                }
                assert(first_of_name(rest, name, i - 1));
            }
            if client::mapping_named(mappings, name) is None {
                assert forall|i: int| 0 <= i < mappings.len() implies (
                #[trigger] mappings[i]).name != name by {
                    if i > 0 {
                        assert(mappings[i] == rest[i - 1]);
                    }
                }
            }
            if forall|i: int| 0 <= i < mappings.len() ==> (#[trigger] mappings[i]).name != name {
                assert forall|i: int| 0 <= i < rest.len() implies (
                #[trigger] rest[i]).name != name by {
                    assert(rest[i] == mappings[i + 1]);
                }
            }
        }
    }
}

/// The message came in, as text or as bytes.
pub open spec fn brings(event: ClientEventView, msg: tunnel::MessageView) -> bool {
    event == ClientEventView::Text(msg) || event == ClientEventView::Binary(msg)
}

/// A connection that the server asks for is made to the local service of the
/// first mapping of its port; where no mapping has the port, the server is told
/// so. Nothing else changes.
pub proof fn connection_goes_by_its_mapping(
    session: client::ClientView,
    event: ClientEventView,
    state: TunnelClientState,
    now: Timestamp,
    conn_id: Seq<char>,
    port: u16,
    i: int,
)
    requires
        session.phase is Running,
        brings(event, tunnel::MessageView::Connect { conn_id, remote_port: port }),
    ensures
        ({
            let s = session.step(event, state, now);
            &&& s.session == session
            &&& s.state == state
            &&& first_of_port(session.mappings, port, i) ==> s.actions == seq![
                ClientActionView::Dial {
                    conn_id,
                    addr: session.mappings[i].local_host + ":"@ + number::decimal_spec(
                        session.mappings[i].local_port as nat,
                    ),
                },
            ]
            &&& (forall|j: int|
                0 <= j < session.mappings.len() ==> (#[trigger] session.mappings[j]).remote_port
                    != port) ==> s.actions == seq![
                ClientActionView::Send(
                    tunnel::MessageView::ConnectFailed {
                        conn_id,
                        error: "No mapping for port "@ + number::decimal_spec(port as nat),
                    },
                ),
            ]
        }),
{
    port_finds_its_first_mapping(session.mappings, port);
}

/// Bytes for a local connection that is there go to it as they came, and to no
/// other; those for one that is not there go nowhere.
pub proof fn bytes_go_to_their_connection(
    session: client::ClientView,
    event: ClientEventView,
    state: TunnelClientState,
    now: Timestamp,
    conn_id: Seq<char>,
    data: Seq<u8>,
)
    requires
        session.phase is Running,
        brings(event, tunnel::MessageView::Data { conn_id, data }),
    ensures
        ({
            let s = session.step(event, state, now);
            &&& s.session == session
            &&& s.state == state
            &&& session.connections.contains(conn_id) ==> s.actions == seq![
                ClientActionView::Deliver { conn_id, data },
            ]
            &&& !session.connections.contains(conn_id) ==> s.actions.len() == 0
        }),
{
}

/// A connection that the server closes is dropped, and it alone.
pub proof fn closed_connection_is_dropped(
    session: client::ClientView,
    event: ClientEventView,
    state: TunnelClientState,
    now: Timestamp,
    conn_id: Seq<char>,
    other: Seq<char>,
)
    requires
        session.phase is Running,
        brings(event, tunnel::MessageView::Close { conn_id }),
    ensures
        ({
            let s = session.step(event, state, now);
            &&& s.state == state
            &&& s.session.phase is Running
            &&& s.session.mappings == session.mappings
            &&& !s.session.connections.contains(conn_id)
            &&& other != conn_id ==> (s.session.connections.contains(other)
                <==> session.connections.contains(other))
            &&& session.connections.contains(conn_id) ==> s.actions == seq![
                ClientActionView::Drop { conn_id },
            ]
            &&& !session.connections.contains(conn_id) ==> s.actions.len() == 0
        }),
{
}

/// A request that comes through the tunnel goes to the agent on this host, on
/// the local port of the first mapping called "deploy-agent" or else on 9877,
/// with its path, headers and body as they came. Its method stays, where it is
/// one that is known.
pub proof fn request_goes_to_the_agent(
    session: client::ClientView,
    event: ClientEventView,
    state: TunnelClientState,
    now: Timestamp,
    request_id: Seq<char>,
    method: Seq<char>,
    path: Seq<char>,
    headers: Seq<(Seq<char>, Seq<char>)>,
    body: Option<Seq<u8>>,
    i: int,
)
    requires
        session.phase is Running,
        brings(event, tunnel::MessageView::HttpRequest { request_id, method, path, headers, body }),
    ensures
        ({
            let s = session.step(event, state, now);
            let all = session.mappings;
            &&& s.session == session
            &&& s.state == state
            &&& s.actions.len() == 1
            &&& s.actions[0] matches ClientActionView::Fetch {
                request_id: asked,
                method: verb,
                url,
                headers: sent,
                body: carried,
            } && {
                &&& asked == request_id
                &&& sent == headers
                &&& carried == body
                &&& method == "GET"@ || method == "POST"@ || method == "PUT"@ || method == "DELETE"@
                    || method == "PATCH"@ || method == "HEAD"@ || method == "OPTIONS"@ ==> verb
                    == method
                &&& !(method == "GET"@ || method == "POST"@ || method == "PUT"@ || method
                    == "DELETE"@ || method == "PATCH"@ || method == "HEAD"@ || method
                    == "OPTIONS"@) ==> verb == "GET"@
                &&& first_of_name(all, "deploy-agent"@, i) ==> url == "http://127.0.0.1:"@
                    + number::decimal_spec(all[i].local_port as nat) + path
                &&& (forall|j: int|
                    0 <= j < all.len() ==> (#[trigger] all[j]).name != "deploy-agent"@) ==> url
                    == "http://127.0.0.1:"@ + number::decimal_spec(9877) + path
            }
        }),
{
    name_finds_its_first_mapping(session.mappings, "deploy-agent"@);
}

/// What happens at a local connection is told to the server under the name of
/// the connection: that it was made, that it could not be made and why, the
/// bytes that came from it, and that it ended.
pub proof fn local_side_is_told(
    session: client::ClientView,
    state: TunnelClientState,
    now: Timestamp,
    conn_id: Seq<char>,
    error: Seq<char>,
    data: Seq<u8>,
    other: Seq<char>,
)
    requires
        session.phase is Running,
    ensures
        ({
            let s = session.step(ClientEventView::Dialed { conn_id }, state, now);
            &&& s.actions == seq![ClientActionView::Send(tunnel::MessageView::Connected { conn_id })]
            &&& s.session.connections.contains(conn_id)
            &&& other != conn_id ==> (s.session.connections.contains(other)
                <==> session.connections.contains(other))
            &&& s.session.phase is Running && s.session.mappings == session.mappings
            &&& s.state == state
        }),
        ({
            let s = session.step(ClientEventView::DialFailed { conn_id, error }, state, now);
            &&& s.actions == seq![
                ClientActionView::Send(tunnel::MessageView::ConnectFailed { conn_id, error }),
            ]
            &&& s.session == session && s.state == state
        }),
        data.len() > 0 ==> {
            let s = session.step(ClientEventView::LocalRead { conn_id, data }, state, now);
            &&& s.actions == seq![ClientActionView::Send(tunnel::MessageView::Data { conn_id, data })]
            &&& s.session == session && s.state == state
        },
        ({
            let s = session.step(
                ClientEventView::LocalRead { conn_id, data: Seq::empty() },
                state,
                now,
            );
            let t = session.step(ClientEventView::LocalFailed { conn_id }, state, now);
            &&& s == t
            &&& s.actions == seq![ClientActionView::Send(tunnel::MessageView::Close { conn_id })]
            &&& !s.session.connections.contains(conn_id)
            &&& other != conn_id ==> (s.session.connections.contains(other)
                <==> session.connections.contains(other))
            &&& s.session.phase is Running && s.session.mappings == session.mappings
            &&& s.state == state
        }),
{
}

/// What the local agent answers goes back to the server under the name of the
/// request; an empty body goes back as none.
pub proof fn answer_goes_back(
    session: client::ClientView,
    state: TunnelClientState,
    now: Timestamp,
    request_id: Seq<char>,
    status: u16,
    headers: Seq<(Seq<char>, Seq<char>)>,
    body: Seq<u8>,
    error: Seq<char>,
)
    requires
        session.phase is Running,
    ensures
        ({
            let s = session.step(
                ClientEventView::Fetched { request_id, status, headers, body },
                state,
                now,
            );
            &&& s.session == session && s.state == state
            &&& s.actions.len() == 1
            &&& s.actions[0] matches ClientActionView::Send(tunnel::MessageView::HttpResponse {
                request_id: r,
                status: c,
                headers: h,
                body: b,
            }) && r == request_id && c == status && h == headers && (body.len() > 0 ==> b == Some(
                body,
            )) && (body.len() == 0 ==> b is None)
        }),
        ({
            let s = session.step(ClientEventView::FetchFailed { request_id, error }, state, now);
            &&& s.session == session && s.state == state
            &&& s.actions == seq![
                ClientActionView::Send(tunnel::MessageView::HttpError { request_id, error }),
            ]
        }),
{
}

/// The client gives the sign of life that it is asked for, and asks for one at
/// every tick.
pub proof fn signs_of_life_are_given(
    session: client::ClientView,
    state: TunnelClientState,
    now: Timestamp,
    data: Seq<u8>,
)
    ensures
        !(session.phase is Over) ==> {
            let s = session.step(ClientEventView::Ping(data), state, now);
            s.actions == seq![ClientActionView::SendPong(data)] && s.session == session && s.state
                == state
        },
        session.phase is Running ==> {
            let s = session.step(ClientEventView::Tick, state, now);
            s.actions == seq![ClientActionView::Send(tunnel::MessageView::Ping)] && s.session
                == session && s.state == state
        },
{
}

/// A connection in use ends when the server closes it, when it fails or ends,
/// or when nothing can be sent: a process that took the session over has then
/// done so with success. A shutdown closes it; and a process whose session
/// another one took over closes it and is told to make room. No other event
/// ends it.
pub proof fn connection_in_use_ends(
    session: client::ClientView,
    event: ClientEventView,
    state: TunnelClientState,
    now: Timestamp,
    new_session_id: Seq<char>,
)
    requires
        session.phase is Running,
    ensures
        ({
            let s = session.step(event, state, now);
            let broken = event is Close || event is Failed || event is End || event is SendFailed;
            let replaced = event matches ClientEventView::Text(
                tunnel::MessageView::TakeoverComplete { .. },
            ) && session.takeover is None;
            &&& s.session.phase is Over <==> broken || event is Shutdown || replaced
            &&& broken && session.takeover is None ==> s.actions == seq![
                ClientActionView::Done(ResultView::Disconnected),
            ]
            &&& broken && session.takeover is Some ==> s.actions == seq![
                ClientActionView::Done(ResultView::TakeoverSuccess),
            ]
            &&& event is Shutdown ==> s.actions == seq![
                ClientActionView::SendClose,
                ClientActionView::Done(ResultView::Shutdown),
            ]
            &&& replaced ==> s.actions == seq![
                ClientActionView::SendClose,
                ClientActionView::Done(ResultView::TakeoverComplete),
            ]
        }),
{
}

/// A process that waits for a session gives up when the server refuses it,
/// closes the connection, when that fails or ends, or when it takes too long;
/// and it says why. It is connected once the server hands over its session.
pub proof fn takeover_ends_the_wait(
    session: client::ClientView,
    state: TunnelClientState,
    now: Timestamp,
    why: Seq<char>,
    id: Seq<char>,
)
    requires
        session.phase is Waiting,
    ensures
        forall|event: ClientEventView| #[trigger]
            session.step(event, state, now).session.phase is Over <==> event is Close || event is Failed
                || event is End || event is TimedOut || event matches ClientEventView::Text(
                tunnel::MessageView::TakeoverFailed { .. },
            ),
        session.step(
            ClientEventView::Text(tunnel::MessageView::TakeoverFailed { error: why }),
            state,
            now,
        ).actions == seq![ClientActionView::Done(ResultView::TakeoverFailed(why))],
        session.step(ClientEventView::Failed(why), state, now).actions == seq![
            ClientActionView::Done(ResultView::TakeoverFailed("WebSocket error: "@ + why)),
        ],
        session.step(ClientEventView::Close, state, now).actions == seq![
            ClientActionView::Done(ResultView::TakeoverFailed("Server closed connection"@)),
        ],
        session.step(ClientEventView::End, state, now).actions == seq![
            ClientActionView::Done(ResultView::TakeoverFailed("WebSocket stream ended"@)),
        ],
        session.step(ClientEventView::TimedOut, state, now).actions == seq![
            ClientActionView::Done(ResultView::TakeoverFailed("Takeover timeout"@)),
        ],
        session.takeover == Some(id) ==> {
            let s = session.step(
                ClientEventView::Text(tunnel::MessageView::TakeoverReady { session_id: id }),
                state,
                now,
            );
            &&& s.session.phase is Running
            &&& s.session.mappings == session.mappings
            &&& s.state.connected
            &&& s.state.connected_at == Some(now)
            &&& s.state.last_error is None
            &&& s.actions.len() == 0
        },
{
}

/// The request that opens the connection carries the token and the key, names
/// the host of the server, and asks for a web socket of version 13.
pub proof fn handshake_carries_the_token(
    host: Option<Seq<char>>,
    token: Seq<char>,
    key: Seq<char>,
)
    ensures
        client::handshake_pairs(host, token, key).contains(("x-tunnel-token"@, token)),
        client::handshake_pairs(host, token, key).contains(("Sec-WebSocket-Key"@, key)),
        client::handshake_pairs(host, token, key).contains(("Sec-WebSocket-Version"@, "13"@)),
        client::handshake_pairs(host, token, key).contains(("Connection"@, "Upgrade"@)),
        client::handshake_pairs(host, token, key).contains(("Upgrade"@, "websocket"@)),
        host matches Some(h) ==> client::handshake_pairs(host, token, key).contains(("Host"@, h)),
        host is None ==> client::handshake_pairs(host, token, key).contains(
            ("Host"@, "localhost"@),
        ),
        client::handshake_pairs(host, token, key).len() == 6,
{
    let p = client::handshake_pairs(host, token, key);
    assert(p[0] == ("x-tunnel-token"@, token));
    assert(p[2] == ("Connection"@, "Upgrade"@));
    assert(p[3] == ("Upgrade"@, "websocket"@));
    assert(p[4] == ("Sec-WebSocket-Version"@, "13"@));
    assert(p[5] == ("Sec-WebSocket-Key"@, key));
    assert(p[1].0 == "Host"@);
    assert(p.contains(p[1]));
}

/// After a connection the client stops on a shutdown, makes room for the
/// process that took its session over, and connects again otherwise.
pub proof fn client_connects_again(outcome: Result<client::ClientResult, String>, shutdown: bool)
    ensures
        client::after_connect_step(outcome, shutdown) is Exit <==> outcome == Ok::<_, String>(
            client::ClientResult::TakeoverComplete,
        ),
        client::after_connect_step(outcome, shutdown) is Stop <==> outcome == Ok::<_, String>(
            client::ClientResult::Shutdown,
        ) || (shutdown && outcome != Ok::<_, String>(client::ClientResult::TakeoverComplete)),
        client::after_connect_step(outcome, shutdown) is Reconnect || client::after_connect_step(
            outcome,
            shutdown,
        ) is Stop || client::after_connect_step(outcome, shutdown) is Exit,
{
}

} // verus!
