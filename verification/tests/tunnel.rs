//! The two ends of the tunnel, the ports that it opens and the proxy.

use xjp_deploy_agent::api::tunnel::{
    forward_headers, get_tunnel_status, proxy_failed, tunnel_proxy_handler,
    tunnel_proxy_handler_with, tunnel_websocket_handler, ProxyFailure, ProxyRequest,
};
use xjp_deploy_agent::config::env::EnvConfig;
use xjp_deploy_agent::config::environment::Environment;
use xjp_deploy_agent::domain::tunnel::{PortMapping, TunnelMessage, TunnelStatusResponse};
use xjp_deploy_agent::middleware::auth::{Header, Headers};
use xjp_deploy_agent::services::frp::ChildPoll;
use xjp_deploy_agent::services::tunnel::client::{
    after_connect, after_takeover, before_connect, check_takeover, handshake, handshake_for_host,
    request_method, ClientAction, ClientEvent, ClientPhase, ClientResult, ClientSession, LoopStep,
    TakeoverConfig,
};
use xjp_deploy_agent::services::tunnel::server::{
    reply_status, ServerAction, ServerSession, SocketEvent,
};
use xjp_deploy_agent::state::app_state::AppState;
use xjp_deploy_agent::state::port_listener_manager::{
    bind_retry, BindRetry, ConnectionEvent, ConnectionPhase, ListenStep, ListenerEffect,
    PortConnection, PortListener, PortListenerManager,
};
use xjp_deploy_agent::state::tunnel_state::{ClientState, TunnelClientState, TunnelServerState};
use xjp_deploy_agent::time::Timestamp;

fn at(secs: i64) -> Timestamp {
    Timestamp::new(secs, 0).unwrap()
}

fn mappings() -> Vec<PortMapping> {
    PortMapping::parse_mappings("web:18080:localhost:8080,deploy-agent:19877:127.0.0.1:9877")
}

// The client.

fn client() -> (ClientSession, TunnelClientState) {
    let mut state = TunnelClientState::new();
    let (session, hello) = ClientSession::begin("c-1", &mappings(), &mut state, at(5));
    assert!(matches!(hello, TunnelMessage::Config { client_id, mappings }
        if client_id == "c-1" && mappings.len() == 2));
    assert!(state.connected);
    (session, state)
}

#[test]
fn handshake_names_the_host_and_the_token() {
    let headers = handshake("ws://tunnel.example.com:9877/tunnel/ws", "t0", "k0").unwrap();
    let pairs: Vec<(&str, &str)> =
        headers.iter().map(|(k, v)| (k.as_str(), v.as_str())).collect();
    assert_eq!(
        pairs,
        vec![
            ("x-tunnel-token", "t0"),
            ("Host", "tunnel.example.com"),
            ("Connection", "Upgrade"),
            ("Upgrade", "websocket"),
            ("Sec-WebSocket-Version", "13"),
            ("Sec-WebSocket-Key", "k0"),
        ]
    );
    assert_eq!(handshake("no url", "t", "k"), Err("relative URL without a base".to_string()));
    assert_eq!(handshake_for_host(&None, "t", "k")[1].1, "localhost");
}

#[test]
fn connection_is_dialed_and_its_bytes_carried() {
    let (mut s, mut state) = client();
    let acts = s.on_event(
        ClientEvent::Text(TunnelMessage::Connect { conn_id: "a".into(), remote_port: 18080 }),
        &mut state,
        at(6),
    );
    assert!(matches!(acts.as_slice(), [ClientAction::Dial { conn_id, addr }]
        if conn_id == "a" && addr == "localhost:8080"));
    let acts = s.on_event(
        ClientEvent::Text(TunnelMessage::Connect { conn_id: "b".into(), remote_port: 1 }),
        &mut state,
        at(6),
    );
    assert!(matches!(acts.as_slice(),
        [ClientAction::Send(TunnelMessage::ConnectFailed { error, .. })]
        if error == "No mapping for port 1"));
    let data = |d: &[u8]| {
        ClientEvent::Binary(TunnelMessage::Data { conn_id: "a".into(), data: d.to_vec() })
    };
    assert!(s.on_event(data(b"x"), &mut state, at(6)).is_empty());
    let acts = s.on_event(ClientEvent::Dialed { conn_id: "a".into() }, &mut state, at(6));
    assert!(matches!(acts.as_slice(), [ClientAction::Send(TunnelMessage::Connected { .. })]));
    let acts = s.on_event(data(b"xy"), &mut state, at(6));
    assert!(matches!(acts.as_slice(), [ClientAction::Deliver { data, .. }] if data == b"xy"));
    let acts = s.on_event(
        ClientEvent::LocalRead { conn_id: "a".into(), data: b"z".to_vec() },
        &mut state,
        at(6),
    );
    assert!(matches!(acts.as_slice(), [ClientAction::Send(TunnelMessage::Data { data, .. })]
        if data == b"z"));
    let acts = s.on_event(
        ClientEvent::Text(TunnelMessage::Close { conn_id: "a".into() }),
        &mut state,
        at(6),
    );
    assert!(matches!(acts.as_slice(), [ClientAction::Drop { .. }]));
    assert!(s.on_event(data(b"x"), &mut state, at(6)).is_empty());
    let acts = s.on_event(
        ClientEvent::DialFailed { conn_id: "d".into(), error: "refused".into() },
        &mut state,
        at(6),
    );
    assert!(matches!(acts.as_slice(),
        [ClientAction::Send(TunnelMessage::ConnectFailed { error, .. })] if error == "refused"));
}

#[test]
fn request_is_fetched_from_the_agent() {
    let (mut s, mut state) = client();
    let acts = s.on_event(
        ClientEvent::Text(TunnelMessage::HttpRequest {
            request_id: "r".into(),
            method: "TRACE".into(),
            path: "/health".into(),
            headers: vec![("a".into(), "b".into())],
            body: None,
        }),
        &mut state,
        at(6),
    );
    assert!(matches!(acts.as_slice(), [ClientAction::Fetch { method, url, headers, .. }]
        if method == "GET" && url == "http://127.0.0.1:9877/health" && headers.len() == 1));
    let mut other = TunnelClientState::new();
    let (mut plain, _) = ClientSession::begin("c-2", &Vec::new(), &mut other, at(5));
    let asked = TunnelMessage::HttpRequest {
        request_id: "r".into(),
        method: "GET".into(),
        path: "/health".into(),
        headers: vec![],
        body: None,
    };
    let acts = plain.on_event(ClientEvent::Text(asked), &mut other, at(6));
    let port = EnvConfig::from_env(&Environment { vars: vec![], hostname: None }).port;
    assert!(matches!(acts.as_slice(), [ClientAction::Fetch { url, .. }]
        if url == &format!("http://127.0.0.1:{port}/health")));
    assert_eq!(request_method("PATCH"), "PATCH");
    let acts = s.on_event(
        ClientEvent::Fetched { request_id: "r".into(), status: 200, headers: vec![], body: vec![] },
        &mut state,
        at(6),
    );
    assert!(matches!(acts.as_slice(),
        [ClientAction::Send(TunnelMessage::HttpResponse { status: 200, body: None, .. })]));
    let acts = s.on_event(
        ClientEvent::FetchFailed { request_id: "r".into(), error: "e".into() },
        &mut state,
        at(6),
    );
    assert!(matches!(acts.as_slice(), [ClientAction::Send(TunnelMessage::HttpError { .. })]));
}

#[test]
fn client_session_ends_once() {
    for (event, closes) in [
        (ClientEvent::Close, false),
        (ClientEvent::End, false),
        (ClientEvent::SendFailed, false),
        (ClientEvent::Failed("x".into()), false),
        (ClientEvent::Shutdown, true),
        (ClientEvent::Text(TunnelMessage::TakeoverComplete { new_session_id: "n".into() }), true),
    ] {
        let (mut s, mut state) = client();
        let acts = s.on_event(event, &mut state, at(9));
        assert_eq!(matches!(acts.first(), Some(ClientAction::SendClose)), closes);
        assert!(matches!(acts.last(), Some(ClientAction::Done(_))));
        assert!(matches!(s.phase(), ClientPhase::Over));
        assert!(!state.connected);
        assert!(s.on_event(ClientEvent::Tick, &mut state, at(9)).is_empty());
    }
    let (mut s, mut state) = client();
    let acts = s.on_event(ClientEvent::Tick, &mut state, at(6));
    assert!(matches!(acts.as_slice(), [ClientAction::Send(TunnelMessage::Ping)]));
    let acts = s.on_event(ClientEvent::Ping(vec![1]), &mut state, at(6));
    assert!(matches!(acts.as_slice(), [ClientAction::SendPong(d)] if d == &vec![1]));
}

#[test]
fn takeover_waits_for_its_own_session() {
    let mut state = TunnelClientState::new();
    let (mut s, hello) = ClientSession::begin_takeover("c-1", &mappings(), "s-2");
    assert!(matches!(hello, TunnelMessage::Takeover { new_session_id, .. }
        if new_session_id == "s-2"));
    let ready =
        |id: &str| ClientEvent::Text(TunnelMessage::TakeoverReady { session_id: id.into() });
    s.on_event(ready("other"), &mut state, at(1));
    assert!(matches!(s.phase(), ClientPhase::Waiting));
    assert!(!state.connected);
    s.on_event(ready("s-2"), &mut state, at(2));
    assert!(matches!(s.phase(), ClientPhase::Running));
    assert!(state.connected);
    let acts = s.on_event(ClientEvent::Close, &mut state, at(3));
    assert!(matches!(acts.last(), Some(ClientAction::Done(ClientResult::TakeoverSuccess))));

    for (event, why) in [
        (ClientEvent::TimedOut, "Takeover timeout"),
        (ClientEvent::Close, "Server closed connection"),
        (ClientEvent::End, "WebSocket stream ended"),
        (ClientEvent::Failed("x".into()), "WebSocket error: x"),
        (ClientEvent::Text(TunnelMessage::TakeoverFailed { error: "busy".into() }), "busy"),
    ] {
        let (mut s, _) = ClientSession::begin_takeover("c-1", &mappings(), "s-2");
        let acts = s.on_event(event, &mut state, at(1));
        assert!(matches!(acts.as_slice(),
            [ClientAction::Done(ClientResult::TakeoverFailed(e))] if e == why));
    }
    assert!(check_takeover(&mappings()).is_none());
    assert!(matches!(check_takeover(&Vec::new()),
        Some(ClientResult::TakeoverFailed(e)) if e == "No port mappings"));
    let config =
        TakeoverConfig { session_id: "s-2".into(), signal_file: Some("/tmp/done".into()) };
    let (r, file) = after_takeover(Ok(ClientResult::TakeoverSuccess), &config);
    assert!(matches!(r, ClientResult::TakeoverSuccess));
    assert_eq!(file.as_deref(), Some("/tmp/done"));
    let (r, file) = after_takeover(Err("e".into()), &config);
    assert!(matches!(r, ClientResult::TakeoverFailed(e) if e == "e"));
    assert!(file.is_none());
}

#[test]
fn client_connects_again_until_it_is_told_to_stop() {
    let mut state = TunnelClientState::new();
    assert!(matches!(before_connect(&Vec::new(), false, &mut state), LoopStep::Stop));
    assert!(matches!(before_connect(&mappings(), true, &mut state), LoopStep::Stop));
    assert!(matches!(before_connect(&mappings(), false, &mut state), LoopStep::Connect));
    assert!(matches!(after_connect(Err("refused".into()), false, &mut state),
        LoopStep::Reconnect));
    assert_eq!(state.reconnect_count, 1);
    assert_eq!(state.last_error.as_deref(), Some("refused"));
    assert!(matches!(after_connect(Ok(ClientResult::Disconnected), false, &mut state),
        LoopStep::Reconnect));
    assert!(matches!(after_connect(Ok(ClientResult::Disconnected), true, &mut state),
        LoopStep::Stop));
    assert!(matches!(after_connect(Ok(ClientResult::Shutdown), false, &mut state),
        LoopStep::Stop));
    assert!(matches!(after_connect(Ok(ClientResult::TakeoverComplete), false, &mut state),
        LoopStep::Exit));
    assert_eq!(state.reconnect_count, 2);
}

// The server.

fn config(id: &str) -> SocketEvent {
    SocketEvent::Text(TunnelMessage::Config { client_id: id.into(), mappings: mappings() })
}

/// A session of a client for which both ports are opened.
fn registered(
    id: &str,
    server: &mut TunnelServerState,
    listeners: &mut PortListenerManager,
) -> ServerSession {
    let mut s = ServerSession::new("1.2.3.4".to_string());
    let mut next = s.on_event(config(id), server, listeners, at(1));
    while let Some(ServerAction::StartListener { .. }) = next {
        next = s.on_listener(true, server, listeners, at(1));
    }
    assert!(next.is_none());
    assert!(!s.is_binding());
    s
}

#[test]
fn client_is_registered_and_its_ports_opened() {
    let mut server = TunnelServerState::new();
    let mut listeners = PortListenerManager::new();
    let mut s = ServerSession::new("1.2.3.4".to_string());
    let hello = SocketEvent::Text(TunnelMessage::Close { conn_id: "x".into() });
    assert!(s.on_event(hello, &mut server, &mut listeners, at(1)).is_none());
    let first = s.on_event(config("c-1"), &mut server, &mut listeners, at(1));
    assert!(matches!(first, Some(ServerAction::StartListener { port: 18080, name })
        if name == "web"));
    assert!(s.is_binding());
    let second = s.on_listener(true, &mut server, &mut listeners, at(1));
    assert!(matches!(second, Some(ServerAction::StartListener { port: 19877, .. })));
    assert!(s.on_listener(true, &mut server, &mut listeners, at(1)).is_none());
    assert_eq!(listeners.get_client_ports("c-1"), vec![18080, 19877]);
    assert_eq!(server.get_client("c-1").unwrap().client_addr, "1.2.3.4");
    assert_eq!(server.connected_clients().len(), 1);
    let tick = s.on_event(SocketEvent::Tick, &mut server, &mut listeners, at(2));
    assert!(matches!(tick, Some(ServerAction::Send(TunnelMessage::Ping))));
}

#[test]
fn client_whose_port_cannot_be_opened_is_not_registered() {
    let mut server = TunnelServerState::new();
    let mut listeners = PortListenerManager::new();
    let mut s = ServerSession::new("1.2.3.4".to_string());
    s.on_event(config("c-1"), &mut server, &mut listeners, at(1));
    assert!(s.on_listener(false, &mut server, &mut listeners, at(1)).is_none());
    assert!(!server.has_client("c-1"));
    assert!(!s.is_binding());
    assert!(!s.is_closed());
}

#[test]
fn listeners_outlive_the_session() {
    let mut server = TunnelServerState::new();
    let mut listeners = PortListenerManager::new();
    let mut s = registered("c-1", &mut server, &mut listeners);
    let end = s.on_event(SocketEvent::Close, &mut server, &mut listeners, at(2));
    assert!(matches!(end, Some(ServerAction::Hangup)));
    assert!(s.is_closed());
    assert!(!server.has_client("c-1"));
    assert!(listeners.get_client_ports("c-1").is_empty());
    assert_eq!(listeners.ports(), vec![18080, 19877]);
    // The client that comes back is bound at once, without a new listener.
    let mut again = ServerSession::new("1.2.3.4".to_string());
    assert!(again.on_event(config("c-1"), &mut server, &mut listeners, at(3)).is_none());
    assert_eq!(listeners.get_client_ports("c-1"), vec![18080, 19877]);
}

#[test]
fn bytes_reach_only_the_ports_of_the_client() {
    let mut server = TunnelServerState::new();
    let mut listeners = PortListenerManager::new();
    let mut s = registered("c-1", &mut server, &mut listeners);
    let mut port = listeners.take_listener(18080).unwrap();
    let (_, ask) = PortConnection::open(&mut port, "k".to_string());
    assert!(matches!(ask, TunnelMessage::Connect { remote_port: 18080, .. }));
    listeners.add_listener(port);
    let data = SocketEvent::Text(TunnelMessage::Data { conn_id: "k".into(), data: vec![9] });
    let out = s.on_event(data, &mut server, &mut listeners, at(2));
    match out {
        Some(ServerAction::Forward(effects)) => {
            let heard: Vec<u16> =
                effects.iter().filter(|(_, e)| !e.is_empty()).map(|(p, _)| *p).collect();
            assert_eq!(heard, vec![18080]);
        }
        _ => panic!("the bytes are to be forwarded"),
    }
    let strange = listeners.handle_client_message(
        "c-2",
        &TunnelMessage::Data { conn_id: "k".into(), data: vec![9] },
    );
    assert!(strange.iter().all(|(_, e)| e.is_empty()));
}

#[test]
fn reply_reaches_the_request_that_waits() {
    let mut server = TunnelServerState::new();
    let mut listeners = PortListenerManager::new();
    let mut s = registered("c-1", &mut server, &mut listeners);
    server.await_response("r");
    let reply = || {
        SocketEvent::Binary(TunnelMessage::HttpResponse {
            request_id: "r".into(),
            status: 7,
            headers: vec![],
            body: Some(vec![1]),
        })
    };
    let out = s.on_event(reply(), &mut server, &mut listeners, at(2));
    assert!(matches!(out, Some(ServerAction::Respond { status: 500, body: Some(_), .. })));
    assert!(s.on_event(reply(), &mut server, &mut listeners, at(2)).is_none());
    assert_eq!(reply_status(204), 204);
    assert_eq!(reply_status(1000), 500);
    server.await_response("r");
    let error = SocketEvent::Text(TunnelMessage::HttpError {
        request_id: "r".into(),
        error: "refused".into(),
    });
    assert!(matches!(s.on_event(error, &mut server, &mut listeners, at(2)),
        Some(ServerAction::RespondError { status: 502, error, .. }) if error == "refused"));
}

// Both ends.

fn message(mut actions: Vec<ClientAction>) -> TunnelMessage {
    assert_eq!(actions.len(), 1);
    match actions.remove(0) {
        ClientAction::Send(message) => message,
        _ => panic!("a message is to be sent"),
    }
}

fn effects(action: Option<ServerAction>, port: u16) -> Vec<ListenerEffect> {
    match action {
        Some(ServerAction::Forward(all)) => {
            all.into_iter().find(|(p, _)| *p == port).map(|(_, e)| e).unwrap()
        }
        _ => panic!("the message is to be forwarded"),
    }
}

#[test]
fn bytes_pass_through_the_tunnel_as_they_are() {
    let mut server = TunnelServerState::new();
    let mut listeners = PortListenerManager::new();
    let mut serving = registered("c-1", &mut server, &mut listeners);
    let (mut session, mut state) = client();

    let mut port = listeners.take_listener(18080).unwrap();
    let (mut connection, ask) = PortConnection::open(&mut port, "k".to_string());
    assert!(connection.on_event(&mut port, ConnectionEvent::Sent { accepted: true }).is_none());
    listeners.add_listener(port);

    let acts = session.on_event(ClientEvent::Text(ask), &mut state, at(6));
    assert!(matches!(acts.as_slice(), [ClientAction::Dial { addr, .. }] if addr == "localhost:8080"));
    let dialed = ClientEvent::Dialed { conn_id: "k".into() };
    let said = message(session.on_event(dialed, &mut state, at(6)));
    let heard = serving.on_event(SocketEvent::Text(said), &mut server, &mut listeners, at(6));
    assert!(matches!(effects(heard, 18080).as_slice(), [ListenerEffect::Ready { conn_id }]
        if conn_id == "k"));

    let mut port = listeners.take_listener(18080).unwrap();
    assert!(connection.on_event(&mut port, ConnectionEvent::Ready).is_none());
    let read = ConnectionEvent::Read { data: vec![1, 2, 3] };
    let said = connection.on_event(&mut port, read).unwrap();
    listeners.add_listener(port);
    let acts = session.on_event(ClientEvent::Text(said), &mut state, at(7));
    assert!(matches!(acts.as_slice(), [ClientAction::Deliver { conn_id, data }]
        if conn_id == "k" && data == &[1, 2, 3]));

    let read = ClientEvent::LocalRead { conn_id: "k".into(), data: vec![4, 5] };
    let said = message(session.on_event(read, &mut state, at(7)));
    let heard = serving.on_event(SocketEvent::Text(said), &mut server, &mut listeners, at(7));
    assert!(matches!(effects(heard, 18080).as_slice(), [ListenerEffect::Deliver { conn_id, data }]
        if conn_id == "k" && data == &[4, 5]));
}

#[test]
fn request_passes_through_the_tunnel_and_back() {
    let mut server = TunnelServerState::new();
    let mut listeners = PortListenerManager::new();
    let mut serving = registered("c-1", &mut server, &mut listeners);
    let (mut session, mut state) = client();
    server.await_response("r");
    let asked = TunnelMessage::HttpRequest {
        request_id: "r".into(),
        method: "POST".into(),
        path: "/trigger/app".into(),
        headers: vec![("a".into(), "b".into())],
        body: Some(vec![7]),
    };
    let acts = session.on_event(ClientEvent::Text(asked), &mut state, at(6));
    assert!(matches!(acts.as_slice(), [ClientAction::Fetch { method, url, body: Some(b), .. }]
        if method == "POST" && url == "http://127.0.0.1:9877/trigger/app" && b == &[7]));
    let fetched = ClientEvent::Fetched {
        request_id: "r".into(),
        status: 201,
        headers: vec![("c".into(), "d".into())],
        body: vec![8],
    };
    let said = message(session.on_event(fetched, &mut state, at(7)));
    let out = serving.on_event(SocketEvent::Text(said), &mut server, &mut listeners, at(7));
    assert!(matches!(out, Some(ServerAction::Respond { request_id, status: 201, body: Some(b), .. })
        if request_id == "r" && b == [8]));
}

// Ports.

#[test]
fn port_connection_lives_from_connect_to_close() {
    let mut port = PortListener::new(18080, "web".to_string());
    assert!(matches!(port.start(), ListenStep::Bind { addr } if addr == "0.0.0.0:18080"));
    port.mark_started();
    assert!(matches!(port.start(), ListenStep::Running));
    assert!(!port.accepts());
    assert_eq!(port.send_to_client(true), Err("No client bound"));
    port.bind_at("c-1".to_string(), at(1));
    assert!(port.accepts());
    assert_eq!(port.bound_client_id(), Some("c-1"));
    assert_eq!(port.send_to_client(false), Err("Client channel closed"));
    assert!(port.send_to_client(true).is_ok());

    let (mut c, _) = PortConnection::open(&mut port, "k".to_string());
    assert_eq!(port.active_connection_count(), 1);
    assert!(c.on_event(&mut port, ConnectionEvent::Sent { accepted: true }).is_none());
    let effects = port.handle_client_message(&TunnelMessage::Connected { conn_id: "k".into() });
    assert!(matches!(effects.as_slice(), [ListenerEffect::Ready { .. }]));
    c.on_event(&mut port, ConnectionEvent::Ready);
    assert!(matches!(c.phase, ConnectionPhase::Forwarding));
    let out = c.on_event(&mut port, ConnectionEvent::Read { data: vec![1, 2] });
    assert!(matches!(out, Some(TunnelMessage::Data { data, .. }) if data == vec![1, 2]));
    let out = c.on_event(&mut port, ConnectionEvent::Read { data: vec![] });
    assert!(matches!(out, Some(TunnelMessage::Close { .. })));

    let (mut c, _) = PortConnection::open(&mut port, "m".to_string());
    c.on_event(&mut port, ConnectionEvent::Sent { accepted: true });
    c.on_event(&mut port, ConnectionEvent::TimedOut);
    assert!(matches!(c.phase, ConnectionPhase::Over));
    let effects = port.handle_client_message(&TunnelMessage::Data {
        conn_id: "m".into(),
        data: vec![1],
    });
    assert!(effects.is_empty());
    assert!(!port.unbind("c-2"));
    assert!(port.unbind("c-1"));
    assert!(!port.accepts());
}

#[test]
fn port_is_tried_six_times() {
    let delays: Vec<u64> = (0..5)
        .map(|n| match bind_retry(n) {
            BindRetry::Again { delay_ms } => delay_ms,
            BindRetry::GiveUp => 0,
        })
        .collect();
    assert_eq!(delays, vec![50, 100, 150, 200, 250]);
    assert!(matches!(bind_retry(5), BindRetry::GiveUp));
}

// The proxy and its state.

fn agent(mode: &str) -> AppState {
    let env = Environment {
        vars: [
            ("TUNNEL_MODE", mode),
            ("TUNNEL_AUTH_TOKEN", "t0"),
            ("TUNNEL_MAPPINGS", "web:18080:localhost:8080"),
            ("TUNNEL_SERVER_URL", "ws://s/tunnel/ws"),
        ]
        .iter()
        .map(|(k, v)| (k.to_string(), v.to_string()))
        .collect(),
        hostname: None,
    };
    AppState::new_at(&env, "/tmp/frpc.ini".to_string(), None, at(1))
}

fn headers(entries: &[(&str, Option<&str>)]) -> Headers {
    Headers {
        entries: entries
            .iter()
            .map(|(n, v)| Header { name: n.to_string(), value: v.map(|s| s.to_string()) })
            .collect(),
    }
}

fn proxy(client: &str, path: Option<&str>, body: Option<Vec<u8>>) -> ProxyRequest {
    ProxyRequest {
        client_id: client.to_string(),
        path: path.map(|p| p.to_string()),
        method: "POST".to_string(),
        headers: headers(&[
            ("Host", Some("h")),
            ("Keep-Alive", Some("1")),
            ("x-a", Some("b")),
            ("x-binary", None),
        ]),
        body,
    }
}

#[test]
fn tunnel_socket_needs_the_token() {
    let state = agent("server");
    let with = |name: &str, token: &str| headers(&[(name, Some(token))]);
    let no = tunnel_websocket_handler(&state, &with("x-tunnel-token", "t1")).unwrap_err();
    assert_eq!((no.status, no.text.as_str()), (401, "Invalid tunnel token"));
    assert_eq!(
        tunnel_websocket_handler(&state, &with("x-tunnel-token", "t0")).ok().as_deref(),
        Some("unknown")
    );
    let both = headers(&[
        ("Sec-WebSocket-Protocol", Some("t0")),
        ("X-Forwarded-For", Some("9.9.9.9")),
    ]);
    assert_eq!(tunnel_websocket_handler(&state, &both).ok().as_deref(), Some("9.9.9.9"));
    let no = tunnel_websocket_handler(&agent("client"), &with("x-tunnel-token", "t0"));
    let no = no.unwrap_err();
    assert_eq!((no.status, no.text.as_str()), (400, "Tunnel server mode not enabled"));
}

#[test]
fn proxied_request_waits_for_its_reply() {
    let mut state = agent("server");
    let missing = tunnel_proxy_handler(&mut state, proxy("c-1", None, None)).unwrap_err();
    assert_eq!(missing.status, 404);
    assert_eq!(missing.error.as_deref(), Some("client_not_found"));
    assert_eq!(missing.text, "Client 'c-1' is not connected");

    let mut c = ClientState::new_at("c-1".to_string(), "a".to_string(), at(1));
    c.mappings = mappings();
    state.tunnel_server_state.add_client(c);
    let sent = tunnel_proxy_handler_with(
        &mut state,
        proxy("c-1", Some("api/x"), Some(vec![1])),
        "r-1".to_string(),
    );
    match sent {
        Ok(TunnelMessage::HttpRequest { request_id, method, path, headers, body }) => {
            assert_eq!((request_id.as_str(), method.as_str()), ("r-1", "POST"));
            assert_eq!(path, "/api/x");
            assert_eq!(headers, vec![("x-a".to_string(), "b".to_string())]);
            assert_eq!(body, Some(vec![1]));
        }
        _ => panic!("the request is to be sent"),
    }
    let late = proxy_failed(&mut state, "r-1", ProxyFailure::TimedOut);
    assert_eq!((late.status, late.text.as_str()), (504, "Request timeout"));
    assert!(!state.tunnel_server_state.take_pending("r-1"));
    let gone = proxy_failed(&mut state, "r-2", ProxyFailure::NotSent);
    assert_eq!((gone.status, gone.text.as_str()), (502, "Failed to send request to client"));
    let closed = proxy_failed(&mut state, "r-2", ProxyFailure::Closed);
    assert_eq!((closed.status, closed.text.as_str()), (502, "Response channel closed"));
    let unread = tunnel_proxy_handler(
        &mut agent("client"),
        proxy("c-1", None, Some(Vec::new())),
    );
    assert_eq!(unread.unwrap_err().text, "Tunnel server mode not enabled");
    let (a, _) = tunnel_proxy_handler(&mut state, proxy("c-1", None, Some(Vec::new()))).unwrap();
    let (b, message) =
        tunnel_proxy_handler(&mut state, proxy("c-1", None, Some(Vec::new()))).unwrap();
    assert_ne!(a, b);
    assert!(matches!(message, TunnelMessage::HttpRequest { path, body: None, .. }
        if path == "/"));
}

#[test]
fn headers_of_the_connection_stay_behind() {
    let all = headers(&[
        ("CONNECTION", Some("x")),
        ("Transfer-Encoding", Some("x")),
        ("upgrade", Some("x")),
        ("accept", Some("*/*")),
    ]);
    assert_eq!(forward_headers(&all), vec![("accept".to_string(), "*/*".to_string())]);
}

#[test]
fn tunnel_status_follows_the_mode() {
    let mut state = agent("server");
    let mut c = ClientState::new_at("c-1".to_string(), "a".to_string(), at(1));
    c.mappings = mappings();
    state.tunnel_server_state.add_client(c);
    match get_tunnel_status(&mut state, ChildPoll::Running(None)) {
        TunnelStatusResponse::Server(s) => {
            assert_eq!((s.client_count, s.client_connected), (1, true));
            assert_eq!(s.clients[0].port_mappings[0].status, "pending");
        }
        _ => panic!("the agent is a server"),
    }
    let mut state = agent("client");
    state.tunnel_client_state.connected = true;
    match get_tunnel_status(&mut state, ChildPoll::Running(None)) {
        TunnelStatusResponse::Client(c) => {
            assert_eq!(c.server_url, "ws://s/tunnel/ws");
            assert_eq!(c.mappings[0].status, "active");
        }
        _ => panic!("the agent is a client"),
    }
    assert!(matches!(
        get_tunnel_status(&mut agent("disabled"), ChildPoll::Running(None)),
        TunnelStatusResponse::Disabled
    ));
}
