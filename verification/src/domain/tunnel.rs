//! The tunnel: modes, port mappings, protocol messages and status reports.

use vstd::prelude::*;

use crate::collections;
use crate::text::case;
use crate::text::case::to_lowercase;
use crate::text::chars;
use crate::text::chars::str_eq;
use crate::text::number;
use crate::text::number::parse_u16;
use crate::text::split;
use crate::text::split::{split, trim};
use crate::time::Timestamp;

verus! {

/// The part that this agent plays in the tunnel.
#[derive(Clone, Copy, Debug, PartialEq, Eq, Structural)]
pub enum TunnelMode {
    /// Accepts tunnel connections and exposes remote services.
    Server,
    /// Connects to a server and forwards local services.
    Client,
    /// No tunnel.
    Disabled,
}

impl Default for TunnelMode {
    fn default() -> (r: TunnelMode)
        ensures
            r is Disabled,
    {
        TunnelMode::Disabled
    }
}

impl TunnelMode {
    /// The mode that the lower-case name `s` stands for.
    pub open spec fn named(s: Seq<char>) -> TunnelMode {
        if s == "server"@ {
            TunnelMode::Server
        } else if s == "client"@ {
            TunnelMode::Client
        } else {
            TunnelMode::Disabled
        }
    }

    /// The mode that the lower-case name `s` stands for.
    pub fn from_lowercase(s: &str) -> (r: TunnelMode)
        ensures
            r == TunnelMode::named(s@),
    {
        if str_eq(s, "server") {
            TunnelMode::Server
        } else if str_eq(s, "client") {
            TunnelMode::Client
        } else {
            TunnelMode::Disabled
        }
    }

    /// The mode that `s` names, in any case of letters.
    pub fn from_str(s: &str) -> (r: TunnelMode)
        ensures
            r == TunnelMode::named(case::lowercase_of(s@)),
    {
        TunnelMode::from_lowercase(to_lowercase(s).as_str())
    }
}

/// A local service that the tunnel exposes on a remote port.
#[derive(Debug)]
pub struct PortMapping {
    /// Port on the server.
    pub remote_port: u16,
    pub local_host: String,
    pub local_port: u16,
    /// Name of the service, such as "minio".
    pub name: String,
}

/// The contents of a `PortMapping`.
pub ghost struct PortMappingView {
    pub remote_port: u16,
    pub local_host: Seq<char>,
    pub local_port: u16,
    pub name: Seq<char>,
}

impl View for PortMapping {
    type V = PortMappingView;

    open spec fn view(&self) -> PortMappingView {
        PortMappingView {
            remote_port: self.remote_port,
            local_host: self.local_host@,
            local_port: self.local_port,
            name: self.name@,
        }
    }
}

impl Clone for PortMapping {
    fn clone(&self) -> (r: PortMapping)
        ensures
            r == *self,
    {
        PortMapping {
            remote_port: self.remote_port,
            local_host: self.local_host.clone(),
            local_port: self.local_port,
            name: self.name.clone(),
        }
    }
}

/// Copies a list of mappings.
pub fn clone_mappings(v: &Vec<PortMapping>) -> (r: Vec<PortMapping>)
    ensures
        r@ == v@,
{
    let mut r: Vec<PortMapping> = Vec::new();
    let mut i: usize = 0;
    while i < v.len()
        invariant
            i <= v@.len(),
            r@ == v@.take(i as int),
        decreases v@.len() - i,
    {
        r.push(v[i].clone());
        i = i + 1;
        assert(r@ =~= v@.take(i as int));
    }
    assert(v@.take(v@.len() as int) =~= v@);
    r
}

/// The contents of a list of mappings.
pub open spec fn mapping_views(v: Seq<PortMapping>) -> Seq<PortMappingView> {
    v.map_values(|m: PortMapping| m@)
}

/// The mapping that one item of the configuration writes: four fields
/// between colons, the second and the fourth of them port numbers.
pub open spec fn mapping_of(item: Seq<char>) -> Option<PortMappingView> {
    let parts = split::split_spec(split::trim_spec(item), ':');
    if parts.len() == 4 {
        match (
            number::parse_spec(parts[1], u16::MAX as int),
            number::parse_spec(parts[3], u16::MAX as int),
        ) {
            (Some(remote), Some(local)) => Some(
                PortMappingView {
                    remote_port: remote as u16,
                    local_host: parts[2],
                    local_port: local as u16,
                    name: parts[0],
                },
            ),
            _ => None,
        }
    } else {
        None
    }
}

/// The mappings that the configuration text writes: those of its items that
/// write one, in order.
pub open spec fn mappings_of(text: Seq<char>) -> Seq<PortMappingView> {
    collections::keep_some(
        split::split_spec(text, ',').map_values(|item: Seq<char>| mapping_of(item)),
    )
}

impl PortMapping {
    /// A mapping.
    pub fn new(name: &str, remote_port: u16, local_host: &str, local_port: u16) -> (r: PortMapping)
        ensures
            r@ == (PortMappingView {
                remote_port,
                local_host: local_host@,
                local_port,
                name: name@,
            }),
    {
        PortMapping {
            name: name.to_owned(),
            remote_port,
            local_host: local_host.to_owned(),
            local_port,
        }
    }

    /// Reads one item.
    fn parse_mapping(item: &str) -> (r: Option<PortMapping>)
        ensures
            r is Some <==> mapping_of(item@) is Some,
            r matches Some(m) ==> mapping_of(item@) == Some(m@),
    {
        let parts = split(trim(item).as_str(), ':');
        if parts.len() != 4 {
            return None;
        }
        let remote = parse_u16(parts[1].as_str());
        let local = parse_u16(parts[3].as_str());
        match (remote, local) {
            (Some(remote_port), Some(local_port)) => Some(
                PortMapping {
                    name: parts[0].clone(),
                    remote_port,
                    local_host: parts[2].clone(),
                    local_port,
                },
            ),
            _ => None,
        }
    }

    /// Reads a list of mappings in the form
    /// "name:remote_port:local_host:local_port,...". Items of another form are
    /// left out.
    pub fn parse_mappings(mappings_str: &str) -> (r: Vec<PortMapping>)
        ensures
            mapping_views(r@) == mappings_of(mappings_str@),
    {
        let items = split(mappings_str, ',');
        let ghost all = split::split_spec(mappings_str@, ',').map_values(
            |item: Seq<char>| mapping_of(item),
        );
        let mut r: Vec<PortMapping> = Vec::new();
        let mut i: usize = 0;
        assert(mapping_views(r@) =~= collections::keep_some(all.take(0)));
        while i < items.len()
            invariant
                i <= items@.len(),
                chars::views(items@) == split::split_spec(mappings_str@, ','),
                all == split::split_spec(mappings_str@, ',').map_values(
                    |item: Seq<char>| mapping_of(item),
                ),
                mapping_views(r@) == collections::keep_some(all.take(i as int)),
            decreases items@.len() - i,
        {
            proof {
                collections::lemma_keep_some_step(all, i as int);
                assert(items@[i as int]@ == chars::views(items@)[i as int]);
            }
            let ghost before = r@;
            if let Some(m) = PortMapping::parse_mapping(items[i].as_str()) {
                r.push(m);
                assert(mapping_views(r@) =~= mapping_views(before).push(m@));
            }
            i = i + 1;
        }
        assert(all.take(all.len() as int) =~= all);
        r
    }
}

/// The text of a mapping in the configuration.
pub open spec fn mapping_text(m: PortMappingView) -> Seq<char> {
    split::join_spec(
        seq![
            m.name,
            number::decimal_spec(m.remote_port as nat),
            m.local_host,
            number::decimal_spec(m.local_port as nat),
        ],
        seq![':'],
    )
}

/// The mapping can be written: neither the name nor the host holds a
/// separator, and the name does not begin with white space.
pub open spec fn is_writable(m: PortMappingView) -> bool {
    &&& !m.name.contains(':')
    &&& !m.name.contains(',')
    &&& !m.local_host.contains(':')
    &&& !m.local_host.contains(',')
    &&& m.name.len() > 0 ==> !split::is_white_space(m.name[0])
}

proof fn lemma_mapping_reads_back(m: PortMappingView)
    requires
        is_writable(m),
    ensures
        mapping_of(mapping_text(m)) == Some(m),
        !mapping_text(m).contains(','),
{
    let remote = number::decimal_spec(m.remote_port as nat);
    let local = number::decimal_spec(m.local_port as nat);
    let parts = seq![m.name, remote, m.local_host, local];
    let text = mapping_text(m);
    number::decimal_reads_back(m.remote_port as nat);
    number::decimal_reads_back(m.local_port as nat);
    number::parse_of_decimal(m.remote_port as nat, u16::MAX as int);
    number::parse_of_decimal(m.local_port as nat, u16::MAX as int);
    assert(!remote.contains(':') && !remote.contains(','));
    assert(!local.contains(':') && !local.contains(','));
    split::split_undoes_join(parts, ':');
    let c = seq![':'];
    reveal_with_fuel(split::join_spec, 5);
    assert(parts.drop_last() =~= seq![m.name, remote, m.local_host]);
    assert(parts.drop_last().drop_last() =~= seq![m.name, remote]);
    assert(parts.drop_last().drop_last().drop_last() =~= seq![m.name]);
    assert(parts.drop_last().drop_last().drop_last().drop_last() =~= Seq::<Seq<char>>::empty());
    assert(text =~= m.name + c + remote + c + m.local_host + c + local);
    assert(text.last() == local.last());
    assert('0' <= local[local.len() - 1] <= '9');
    assert(text[0] == if m.name.len() > 0 {
        m.name[0]
    } else {
        ':'
    });
    split::trimmed_stays(text);
    assert forall|i: int| 0 <= i < text.len() implies text[i] != ',' by {
        let a = m.name.len() as int;
        let b = a + 1 + remote.len();
        let d = b + 1 + m.local_host.len();
        if i < a {
            assert(text[i] == m.name[i]);
            assert(m.name.contains(m.name[i]));
        } else if a < i < b {
            assert(text[i] == remote[i - a - 1]);
        } else if b < i < d {
            assert(text[i] == m.local_host[i - b - 1]);
            assert(m.local_host.contains(m.local_host[i - b - 1]));
        } else if d < i {
            assert(text[i] == local[i - d - 1]);
        }
    }
}

/// Mappings that are written in the form
/// "name:remote_port:local_host:local_port,..." are read back as they are, in
/// order.
pub proof fn mappings_read_back(mappings: Seq<PortMappingView>)
    requires
        mappings.len() > 0,
        forall|i: int| 0 <= i < mappings.len() ==> is_writable(#[trigger] mappings[i]),
    ensures
        mappings_of(
            split::join_spec(
                mappings.map_values(|m: PortMappingView| mapping_text(m)),
                seq![','],
            ),
        ) == mappings,
{
    let items = mappings.map_values(|m: PortMappingView| mapping_text(m));
    assert forall|i: int| 0 <= i < items.len() implies !(#[trigger] items[i]).contains(',') by {
        lemma_mapping_reads_back(mappings[i]);
    }
    split::split_undoes_join(items, ',');
    let read = items.map_values(|item: Seq<char>| mapping_of(item));
    assert forall|i: int| 0 <= i < read.len() implies #[trigger] read[i] == Some(mappings[i]) by {
        lemma_mapping_reads_back(mappings[i]);
    }
    collections::lemma_keep_all(read, mappings);
}

/// A message of the tunnel protocol.
#[derive(Debug)]
pub enum TunnelMessage {
    /// The client says who it is and what it exposes.
    Config { client_id: String, mappings: Vec<PortMapping> },
    /// The server asks the client for a new connection.
    Connect { conn_id: String, remote_port: u16 },
    /// The client has made the connection.
    Connected { conn_id: String },
    /// The client could not make the connection.
    ConnectFailed { conn_id: String, error: String },
    /// Bytes of a connection.
    Data { conn_id: String, data: Vec<u8> },
    /// The end of a connection.
    Close { conn_id: String },
    /// Heartbeat.
    Ping,
    /// Answer to a heartbeat.
    Pong,
    /// The server hands an HTTP request to the client.
    HttpRequest {
        request_id: String,
        method: String,
        path: String,
        headers: Vec<(String, String)>,
        body: Option<Vec<u8>>,
    },
    /// The client answers an HTTP request.
    HttpResponse {
        request_id: String,
        status: u16,
        headers: Vec<(String, String)>,
        body: Option<Vec<u8>>,
    },
    /// The client could not answer an HTTP request.
    HttpError { request_id: String, error: String },
    /// A new client process asks to take an existing session over.
    Takeover { client_id: String, mappings: Vec<PortMapping>, new_session_id: String },
    /// The server is ready to hand the session over.
    TakeoverReady { session_id: String },
    /// The server refuses to hand the session over.
    TakeoverFailed { error: String },
    /// The new client process has taken the session over.
    TakeoverComplete { new_session_id: String },
}

/// The contents of a `TunnelMessage`.
pub ghost enum MessageView {
    Config { client_id: Seq<char>, mappings: Seq<PortMappingView> },
    Connect { conn_id: Seq<char>, remote_port: u16 },
    Connected { conn_id: Seq<char> },
    ConnectFailed { conn_id: Seq<char>, error: Seq<char> },
    Data { conn_id: Seq<char>, data: Seq<u8> },
    Close { conn_id: Seq<char> },
    Ping,
    Pong,
    HttpRequest {
        request_id: Seq<char>,
        method: Seq<char>,
        path: Seq<char>,
        headers: Seq<(Seq<char>, Seq<char>)>,
        body: Option<Seq<u8>>,
    },
    HttpResponse {
        request_id: Seq<char>,
        status: u16,
        headers: Seq<(Seq<char>, Seq<char>)>,
        body: Option<Seq<u8>>,
    },
    HttpError { request_id: Seq<char>, error: Seq<char> },
    Takeover { client_id: Seq<char>, mappings: Seq<PortMappingView>, new_session_id: Seq<char> },
    TakeoverReady { session_id: Seq<char> },
    TakeoverFailed { error: Seq<char> },
    TakeoverComplete { new_session_id: Seq<char> },
}

impl View for TunnelMessage {
    type V = MessageView;

    open spec fn view(&self) -> MessageView {
        match *self {
            TunnelMessage::Config { client_id, mappings } => MessageView::Config {
                client_id: client_id@,
                mappings: mapping_views(mappings@),
            },
            TunnelMessage::Connect { conn_id, remote_port } => MessageView::Connect {
                conn_id: conn_id@,
                remote_port,
            },
            TunnelMessage::Connected { conn_id } => MessageView::Connected { conn_id: conn_id@ },
            TunnelMessage::ConnectFailed { conn_id, error } => MessageView::ConnectFailed {
                conn_id: conn_id@,
                error: error@,
            },
            TunnelMessage::Data { conn_id, data } => MessageView::Data {
                conn_id: conn_id@,
                data: data@,
            },
            TunnelMessage::Close { conn_id } => MessageView::Close { conn_id: conn_id@ },
            TunnelMessage::Ping => MessageView::Ping,
            TunnelMessage::Pong => MessageView::Pong,
            TunnelMessage::HttpRequest { request_id, method, path, headers, body } =>
                MessageView::HttpRequest {
                    request_id: request_id@,
                    method: method@,
                    path: path@,
                    headers: chars::pairs(headers@),
                    body: chars::opt_bytes(body),
                },
            TunnelMessage::HttpResponse { request_id, status, headers, body } =>
                MessageView::HttpResponse {
                    request_id: request_id@,
                    status,
                    headers: chars::pairs(headers@),
                    body: chars::opt_bytes(body),
                },
            TunnelMessage::HttpError { request_id, error } => MessageView::HttpError {
                request_id: request_id@,
                error: error@,
            },
            TunnelMessage::Takeover { client_id, mappings, new_session_id } =>
                MessageView::Takeover {
                    client_id: client_id@,
                    mappings: mapping_views(mappings@),
                    new_session_id: new_session_id@,
                },
            TunnelMessage::TakeoverReady { session_id } => MessageView::TakeoverReady {
                session_id: session_id@,
            },
            TunnelMessage::TakeoverFailed { error } => MessageView::TakeoverFailed {
                error: error@,
            },
            TunnelMessage::TakeoverComplete { new_session_id } => MessageView::TakeoverComplete {
                new_session_id: new_session_id@,
            },
        }
    }
}

/// A tunnel connection, for reports.
#[derive(Debug)]
pub struct TunnelConnectionInfo {
    pub id: String,
    pub connected_at: Timestamp,
    pub remote_addr: String,
    pub mappings: Vec<PortMapping>,
    pub bytes_sent: u64,
    pub bytes_received: u64,
}

/// The state of one mapping.
#[derive(Debug)]
pub struct PortMappingStatus {
    pub mapping: PortMapping,
    /// "active", "listening" or "error".
    pub status: String,
    pub active_connections: usize,
}

/// The state of the client side.
#[derive(Debug)]
pub struct TunnelClientStatus {
    pub connected: bool,
    pub server_url: String,
    pub connected_at: Option<Timestamp>,
    pub last_error: Option<String>,
    pub reconnect_count: u32,
    pub mappings: Vec<PortMappingStatus>,
}

/// A client that is connected to the server.
#[derive(Debug)]
pub struct ConnectedClientInfo {
    pub client_id: String,
    pub client_addr: String,
    pub connected_at: Timestamp,
    pub port_mappings: Vec<PortMappingStatus>,
}

/// The state of the server side.
#[derive(Debug)]
pub struct TunnelServerStatus {
    pub listening: bool,
    pub listen_port: u16,
    pub client_count: usize,
    pub clients: Vec<ConnectedClientInfo>,
    /// Whether any client is connected.
    pub client_connected: bool,
}

/// The state of the tunnel.
#[derive(Debug)]
pub enum TunnelStatusResponse {
    Server(TunnelServerStatus),
    Client(TunnelClientStatus),
    Disabled,
}

} // verus!
