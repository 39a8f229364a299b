//! The state of the tunnel on either side.

use vstd::prelude::*;

use crate::collections;
use crate::collections::{PortMap, StrMap};
use crate::domain::tunnel::PortMapping;
use crate::text::chars;
use crate::text::chars::str_eq;
use crate::time::Timestamp;

verus! {

/// A client, as the server sees it.
#[derive(Debug)]
pub struct ClientState {
    pub client_id: String,
    pub client_addr: String,
    pub connected_at: Timestamp,
    pub mappings: Vec<PortMapping>,
}

impl ClientState {
    /// A client that connected at `now` and exposes nothing.
    pub fn new_at(client_id: String, client_addr: String, now: Timestamp) -> (r: ClientState)
        ensures
            r.client_id == client_id,
            r.client_addr == client_addr,
            r.connected_at == now,
            r.mappings@.len() == 0,
    {
        ClientState { client_id, client_addr, connected_at: now, mappings: Vec::new() }
    }

    /// A client that connected now and exposes nothing.
    pub fn new(client_id: String, client_addr: String) -> (r: ClientState)
        ensures
            r.client_id == client_id,
            r.client_addr == client_addr,
            r.mappings@.len() == 0,
    {
        ClientState::new_at(client_id, client_addr, Timestamp::now())
    }
}

/// The tunnel on the side of the server.
pub struct TunnelServerState {
    clients: StrMap<ClientState>,
    port_to_client: PortMap<String>,
    pending_http_requests: StrMap<()>,
}

/// The contents of a `TunnelServerState`.
#[verifier::ext_equal]
pub ghost struct ServerView {
    /// The clients that are connected, by their names.
    pub clients: Map<Seq<char>, ClientState>,
    /// The client that a port belongs to.
    pub ports: Map<u16, Seq<char>>,
    /// The HTTP requests that wait for an answer.
    pub pending: Set<Seq<char>>,
}

impl View for TunnelServerState {
    type V = ServerView;

    closed spec fn view(&self) -> ServerView {
        ServerView {
            clients: self.clients@,
            ports: self.port_to_client@.map_values(|s: String| s@),
            pending: self.pending_http_requests@.dom(),
        }
    }
}

impl ServerView {
    /// A server without clients.
    pub open spec fn empty() -> ServerView {
        ServerView { clients: Map::empty(), ports: Map::empty(), pending: Set::empty() }
    }

    /// The server after a client is gone, with the ports that belonged to it.
    pub open spec fn without_client(self, client_id: Seq<char>) -> ServerView {
        if self.clients.dom().contains(client_id) {
            ServerView {
                clients: self.clients.remove(client_id),
                ports: collections::kept(self.ports, |p: u16, c: Seq<char>| c != client_id),
                ..self
            }
        } else {
            self
        }
    }
}

impl TunnelServerState {
    /// The names of the clients in the order in which they stand.
    pub closed spec fn client_order(&self) -> Seq<Seq<char>> {
        self.clients.keys()
    }

    /// A server without clients.
    pub fn new() -> (r: TunnelServerState)
        ensures
            r@ == ServerView::empty(),
    {
        let r = TunnelServerState {
            clients: StrMap::new(),
            port_to_client: PortMap::new(),
            pending_http_requests: StrMap::new(),
        };
        assert(r@ =~= ServerView::empty());
        r
    }

    /// Adds a client, in place of one with the same name.
    pub fn add_client(&mut self, client_state: ClientState)
        ensures
            final(self)@ == (ServerView {
                clients: old(self)@.clients.insert(client_state.client_id@, client_state),
                ..old(self)@
            }),
    {
        let client_id = client_state.client_id.clone();
        self.clients.insert(client_id, client_state);
    }

    /// Removes a client, with the ports that belong to it.
    pub fn remove_client(&mut self, client_id: &str) -> (r: Option<ClientState>)
        ensures
            final(self)@ == old(self)@.without_client(client_id@),
            r == if old(self)@.clients.dom().contains(client_id@) {
                Some(old(self)@.clients[client_id@])
            } else {
                None
            },
    {
        match self.clients.remove(client_id) {
            Some(client) => {
                let n = self.port_to_client.len();
                let ghost ports = self.port_to_client;
                let ghost test = |p: u16, c: String| c@ != client_id@;
                let mut marks: Vec<bool> = Vec::new();
                let mut i: usize = 0;
                while i < n
                    invariant
                        n == self.port_to_client.keys().len(),
                        i <= n,
                        marks@.len() == i,
                        test == (|p: u16, c: String| c@ != client_id@),
                        forall|j: int|
                            0 <= j < i ==> #[trigger] marks@[j] == test(
                                self.port_to_client.keys()[j],
                                self.port_to_client@[self.port_to_client.keys()[j]],
                            ),
                    decreases n - i,
                {
                    marks.push(!str_eq(self.port_to_client.value_at(i).as_str(), client_id));
                    i = i + 1;
                }
                self.port_to_client.retain_marked(&marks, Ghost(test));
                assert(self@ =~= old(self)@.without_client(client_id@));
                Some(client)
            },
            None => {
                assert(self@ =~= old(self)@);
                None
            },
        }
    }

    /// How many clients are connected.
    pub fn client_count(&self) -> (r: usize)
        ensures
            r == self@.clients.dom().len(),
    {
        self.clients.len()
    }

    /// Whether a client is connected.
    pub fn has_client(&self, client_id: &str) -> (r: bool)
        ensures
            r == self@.clients.dom().contains(client_id@),
    {
        self.clients.contains_key(client_id)
    }

    /// A client that is connected.
    pub fn get_client(&self, client_id: &str) -> (r: Option<&ClientState>)
        ensures
            r is Some <==> self@.clients.dom().contains(client_id@),
            r matches Some(c) ==> *c == self@.clients[client_id@],
    {
        self.clients.get(client_id)
    }

    /// The clients that are connected.
    pub fn connected_clients(&self) -> (r: Vec<&ClientState>)
        ensures
            r@.len() == self.client_order().len(),
            self.client_order().no_duplicates(),
            self.client_order().to_set() == self@.clients.dom(),
            forall|i: int|
                0 <= i < r@.len() ==> *(#[trigger] r@[i])
                    == self@.clients[self.client_order()[i]],
    {
        let n = self.clients.len();
        let mut r: Vec<&ClientState> = Vec::new();
        let mut i: usize = 0;
        while i < n
            invariant
                n == self.clients.keys().len(),
                i <= n,
                r@.len() == i,
                forall|j: int|
                    0 <= j < i ==> *(#[trigger] r@[j]) == self.clients@[self.clients.keys()[j]],
            decreases n - i,
        {
            r.push(self.clients.value_at(i));
            i = i + 1;
        }
        r
    }

    /// Notes that a port belongs to a client.
    pub fn register_port(&mut self, port: u16, client_id: String)
        ensures
            final(self)@ == (ServerView {
                ports: old(self)@.ports.insert(port, client_id@),
                ..old(self)@
            }),
    {
        self.port_to_client.insert(port, client_id);
        assert(self@.ports =~= old(self)@.ports.insert(port, client_id@));
    }

    /// The client that a port belongs to.
    pub fn get_client_by_port(&self, port: u16) -> (r: Option<String>)
        ensures
            chars::opt_view(r) == if self@.ports.dom().contains(port) {
                Some(self@.ports[port])
            } else {
                None
            },
    {
        match self.port_to_client.value_of(&port) {
            Some(s) => Some(s.clone()),
            None => None,
        }
    }

    /// Notes that an HTTP request waits for an answer.
    pub fn await_response(&mut self, request_id: &str)
        ensures
            final(self)@ == (ServerView {
                pending: old(self)@.pending.insert(request_id@),
                ..old(self)@
            }),
    {
        self.pending_http_requests.insert(request_id.to_owned(), ());
        assert(self@.pending =~= old(self)@.pending.insert(request_id@));
    }

    /// Notes that an HTTP request waits no more, and tells whether it did.
    pub fn take_pending(&mut self, request_id: &str) -> (r: bool)
        ensures
            r == old(self)@.pending.contains(request_id@),
            final(self)@ == (ServerView {
                pending: old(self)@.pending.remove(request_id@),
                ..old(self)@
            }),
    {
        let r = self.pending_http_requests.remove(request_id).is_some();
        assert(self@.pending =~= old(self)@.pending.remove(request_id@));
        r
    }
}

impl Default for TunnelServerState {
    fn default() -> (r: TunnelServerState)
        ensures
            r@ == ServerView::empty(),
    {
        TunnelServerState::new()
    }
}

/// The tunnel on the side of the client.
#[derive(Debug)]
pub struct TunnelClientState {
    pub connected: bool,
    pub connected_at: Option<Timestamp>,
    pub last_error: Option<String>,
    /// How often the client has connected again.
    pub reconnect_count: u32,
}

impl TunnelClientState {
    /// A client that is not connected.
    pub fn new() -> (r: TunnelClientState)
        ensures
            r == (TunnelClientState {
                connected: false,
                connected_at: None,
                last_error: None,
                reconnect_count: 0,
            }),
    {
        TunnelClientState {
            connected: false,
            connected_at: None,
            last_error: None,
            reconnect_count: 0,
        }
    }
}

impl Default for TunnelClientState {
    fn default() -> (r: TunnelClientState)
        ensures
            r == (TunnelClientState {
                connected: false,
                connected_at: None,
                last_error: None,
                reconnect_count: 0,
            }),
    {
        TunnelClientState::new()
    }
}

/// A client that has been removed is not there any more, and no port belongs
/// to it. The other clients and their ports are as they were.
pub proof fn removed_client_owns_nothing(server: ServerView, client: Seq<char>, port: u16)
    requires
        server.clients.dom().contains(client),
    ensures
        ({
            let s = server.without_client(client);
            &&& !s.clients.dom().contains(client)
            &&& s.ports.dom().contains(port) ==> s.ports[port] != client
            &&& server.ports.dom().contains(port) && server.ports[port] != client
                ==> s.ports.dom().contains(port) && s.ports[port] == server.ports[port]
            &&& s.clients == server.clients.remove(client)
            &&& s.pending == server.pending
        }),
{
}

} // verus!
