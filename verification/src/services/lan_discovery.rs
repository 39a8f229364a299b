//! Finding other agents in the local network: each agent broadcasts what it
//! offers, and remembers what it hears of the others.

use vstd::prelude::*;

use crate::collections;
use crate::collections::StrMap;
use crate::config::env::DEFAULT_PORT;
use crate::config::environment::Environment;
use crate::services::network;
use crate::text::chars;
use crate::text::chars::{clone_strings, concat2, concat5, str_eq};
use crate::text::number;
use crate::text::number::{decimal, parse_u16};
use crate::text::split;
use crate::text::split::{split, trim};
use crate::time::Timestamp;

verus! {

/// The port that broadcasts go to.
pub const BROADCAST_PORT: u16 = 19998;

/// Seconds between two broadcasts.
pub const BROADCAST_INTERVAL_SECS: u64 = 30;

/// Seconds after which an agent that was not heard of is taken to be gone.
pub const PEER_TIMEOUT_SECS: i64 = 120;

/// Seconds that a health check may take.
pub const HEALTH_CHECK_TIMEOUT_SECS: u64 = 5;

/// Seconds between two cleanups.
pub const CLEANUP_INTERVAL_SECS: u64 = 30;

/// The bytes that every broadcast begins with: "XJPA".
pub const BROADCAST_MAGIC: [u8; 4] = [88, 74, 80, 65];

/// The configuration of the discovery.
#[derive(Debug)]
pub struct LanDiscoveryConfig {
    pub enabled: bool,
    pub broadcast_port: u16,
    pub agent_id: String,
    pub api_port: u16,
    /// What this agent offers.
    pub local_services: Vec<LocalService>,
    pub capabilities: Vec<String>,
}

/// A service that an agent offers.
#[derive(Debug)]
pub struct LocalService {
    pub service_id: String,
    pub port: u16,
    pub protocol: String,
    pub health_path: Option<String>,
}

/// The contents of a `LocalService`.
pub type ServiceParts = (Seq<char>, u16, Seq<char>, Option<Seq<char>>);

impl View for LocalService {
    type V = ServiceParts;

    open spec fn view(&self) -> ServiceParts {
        (self.service_id@, self.port, self.protocol@, chars::opt_view(self.health_path))
    }
}

impl Clone for LocalService {
    fn clone(&self) -> (r: LocalService)
        ensures
            r == *self,
    {
        LocalService {
            service_id: self.service_id.clone(),
            port: self.port,
            protocol: self.protocol.clone(),
            health_path: self.health_path.clone(),
        }
    }
}

/// The contents of a list of services.
pub open spec fn service_list(v: Seq<LocalService>) -> Seq<ServiceParts> {
    v.map_values(|s: LocalService| s@)
}

/// The service that an item of the configuration writes:
/// "service_id:port:protocol:health_path", of which the last two may be
/// missing. A port that is no number is 0.
pub open spec fn service_of(item: Seq<char>) -> Option<ServiceParts> {
    let parts = split::split_spec(item, ':');
    if parts.len() >= 2 {
        Some(
            (
                parts[0],
                match number::parse_spec(parts[1], u16::MAX as int) {
                    Some(n) => n as u16,
                    None => 0,
                },
                if parts.len() > 2 {
                    parts[2]
                } else {
                    "http"@
                },
                if parts.len() > 3 {
                    Some(parts[3])
                } else {
                    None
                },
            ),
        )
    } else {
        None
    }
}

/// The services that a text writes.
pub open spec fn services_of(text: Seq<char>) -> Seq<ServiceParts> {
    collections::keep_some(
        split::split_spec(text, ',').map_values(|item: Seq<char>| service_of(item)),
    )
}

fn parse_service(item: &str) -> (r: Option<LocalService>)
    ensures
        r is Some <==> service_of(item@) is Some,
        r matches Some(s) ==> service_of(item@) == Some(s@),
{
    let parts = split(item, ':');
    let ghost views = split::split_spec(item@, ':');
    let n = parts.len();
    if n < 2 {
        return None;
    }
    assert(views[0] == parts@[0]@ && views[1] == parts@[1]@);
    let port = match parse_u16(parts[1].as_str()) {
        Some(p) => p,
        None => 0,
    };
    let protocol = if n > 2 {
        assert(views[2] == parts@[2]@);
        parts[2].clone()
    } else {
        "http".to_owned()
    };
    let health_path = if n > 3 {
        assert(views[3] == parts@[3]@);
        Some(parts[3].clone())
    } else {
        None
    };
    Some(LocalService { service_id: parts[0].clone(), port, protocol, health_path })
}

/// Reads the services that a text writes.
pub fn parse_services(text: &str) -> (r: Vec<LocalService>)
    ensures
        service_list(r@) == services_of(text@),
{
    let items = split(text, ',');
    let ghost all = split::split_spec(text@, ',').map_values(|item: Seq<char>| service_of(item));
    let mut r: Vec<LocalService> = Vec::new();
    let mut i: usize = 0;
    assert(service_list(r@) =~= collections::keep_some(all.take(0)));
    while i < items.len()
        invariant
            i <= items@.len(),
            chars::views(items@) == split::split_spec(text@, ','),
            all == split::split_spec(text@, ',').map_values(|item: Seq<char>| service_of(item)),
            service_list(r@) == collections::keep_some(all.take(i as int)),
        decreases items@.len() - i,
    {
        proof {
            collections::lemma_keep_some_step(all, i as int);
            assert(items@[i as int]@ == chars::views(items@)[i as int]);
        }
        let ghost before = r@;
        if let Some(s) = parse_service(items[i].as_str()) {
            r.push(s);
            assert(service_list(r@) =~= service_list(before).push(s@));
        }
        i = i + 1;
    }
    assert(all.take(all.len() as int) =~= all);
    r
}

/// The items of a list between commas, without the space around them.
pub open spec fn trimmed_items(text: Seq<char>) -> Seq<Seq<char>> {
    split::split_spec(text, ',').map_values(|s: Seq<char>| split::trim_spec(s))
}

fn split_trimmed(text: &str) -> (r: Vec<String>)
    ensures
        chars::views(r@) == trimmed_items(text@),
{
    let items = split(text, ',');
    let mut r: Vec<String> = Vec::new();
    let mut i: usize = 0;
    while i < items.len()
        invariant
            i <= items@.len(),
            chars::views(items@) == split::split_spec(text@, ','),
            r@.len() == i,
            forall|j: int|
                0 <= j < i ==> (#[trigger] r@[j])@ == split::trim_spec(
                    split::split_spec(text@, ',')[j],
                ),
        decreases items@.len() - i,
    {
        assert(items@[i as int]@ == chars::views(items@)[i as int]);
        r.push(trim(items[i].as_str()));
        i = i + 1;
    }
    assert(chars::views(r@) =~= trimmed_items(text@));
    r
}

impl LanDiscoveryConfig {
    /// This is the configuration that the environment gives, where the
    /// discovery is enabled.
    pub open spec fn is_from(self, env: &Environment) -> bool {
        &&& self.enabled
        &&& self.broadcast_port == env.number_or(
            "LAN_BROADCAST_PORT"@,
            u16::MAX as int,
            BROADCAST_PORT as int,
        )
        &&& self.agent_id@ == match env.either("TUNNEL_CLIENT_ID"@, "MESH_AGENT_ID"@) {
            Some(s) => s,
            None => env.host(),
        }
        &&& self.api_port == env.number_or("PORT"@, u16::MAX as int, DEFAULT_PORT as int)
        &&& service_list(self.local_services@) == match env.either(
            "LAN_LOCAL_SERVICES"@,
            "LOCAL_SERVICES"@,
        ) {
            Some(s) => services_of(s),
            None => Seq::empty(),
        }
        &&& chars::views(self.capabilities@) == match env.value("LAN_CAPABILITIES"@) {
            Some(s) => trimmed_items(s),
            None => Seq::empty(),
        }
    }

    /// Reads the configuration; none where the discovery is not enabled.
    pub fn from_env(env: &Environment) -> (r: Option<LanDiscoveryConfig>)
        ensures
            r is Some <==> env.exact_switch("LAN_DISCOVERY_ENABLED"@),
            r matches Some(c) ==> c.is_from(env),
    {
        if !env.get_exact_switch("LAN_DISCOVERY_ENABLED") {
            return None;
        }
        let agent_id = match env.load_with_fallback("TUNNEL_CLIENT_ID", "MESH_AGENT_ID") {
            Some(s) => s,
            None => env.host_name(),
        };
        let local_services = match env.load_with_fallback("LAN_LOCAL_SERVICES", "LOCAL_SERVICES") {
            Some(s) => parse_services(s.as_str()),
            None => {
                let none: Vec<LocalService> = Vec::new();
                assert(service_list(none@) =~= Seq::empty());
                none
            },
        };
        let capabilities = match env.var("LAN_CAPABILITIES") {
            Some(s) => split_trimmed(s.as_str()),
            None => {
                let none: Vec<String> = Vec::new();
                assert(chars::views(none@) =~= Seq::empty());
                none
            },
        };
        Some(
            LanDiscoveryConfig {
                enabled: true,
                broadcast_port: env.get_u16("LAN_BROADCAST_PORT", BROADCAST_PORT),
                agent_id,
                api_port: env.get_u16("PORT", DEFAULT_PORT),
                local_services,
                capabilities,
            },
        )
    }
}

/// A broadcast.
pub struct DiscoveryPacket {
    pub magic: [u8; 4],
    /// The version of the protocol.
    pub version: u8,
    pub agent_id: String,
    pub lan_ip: String,
    pub api_port: u16,
    pub capabilities: Vec<String>,
    /// What the agent offers, by the names of the services.
    pub services: StrMap<LocalService>,
    /// Seconds since the start of 1970.
    pub timestamp: i64,
}

/// The parts of a broadcast in the order in which they are sent.
pub type PacketParts = (
    Seq<u8>,
    u8,
    Seq<char>,
    Seq<char>,
    u16,
    Seq<Seq<char>>,
    Seq<(Seq<char>, ServiceParts)>,
    i64,
);

/// A service in the form in which it is sent.
pub type WireService = (String, (String, u16, String, Option<String>));

/// The contents of a list of services in the form in which they are sent.
pub open spec fn wire_services(v: Seq<WireService>) -> Seq<(Seq<char>, ServiceParts)> {
    v.map_values(
        |s: WireService| (s.0@, (s.1.0@, s.1.1, s.1.2@, chars::opt_view(s.1.3))),
    )
}

/// The bytes that `bincode::serialize` makes of the parts of a broadcast.
pub uninterp spec fn packet_bytes(parts: PacketParts) -> Seq<u8>;

/// The parts of a broadcast that `bincode::deserialize` finds in bytes, where
/// it finds them.
pub uninterp spec fn packet_parts(bytes: Seq<u8>) -> Option<PacketParts>;

/// Calls `bincode::serialize` on the parts of a broadcast. It sets no limit to
/// their size, so it fails on none of them; the bytes that it makes depend on
/// the parts alone, and `bincode::deserialize` finds the same parts in them.
#[verifier::external_body]
fn serialize_packet(
    magic: [u8; 4],
    version: u8,
    agent_id: &str,
    lan_ip: &str,
    api_port: u16,
    capabilities: &Vec<String>,
    services: &Vec<WireService>,
    timestamp: i64,
) -> (r: Result<Vec<u8>, String>)
    ensures
        r is Ok,
        r matches Ok(b) ==> b@ == packet_bytes(
            (
                magic@,
                version,
                agent_id@,
                lan_ip@,
                api_port,
                chars::views(capabilities@),
                wire_services(services@),
                timestamp,
            ),
        ),
        r matches Ok(b) ==> packet_parts(b@) == Some(
            (
                magic@,
                version,
                agent_id@,
                lan_ip@,
                api_port,
                chars::views(capabilities@),
                wire_services(services@),
                timestamp,
            ),
        ),
{
    let parts =
        (magic, version, agent_id, lan_ip, api_port, capabilities, services, timestamp);
    bincode::serialize(&parts).map_err(|e| e.to_string())
}

/// The contents of the parts that came with a broadcast.
pub open spec fn received_view(
    r: ([u8; 4], u8, String, String, u16, Vec<String>, Vec<WireService>, i64),
) -> PacketParts {
    (r.0@, r.1, r.2@, r.3@, r.4, chars::views(r.5@), wire_services(r.6@), r.7)
}

/// Calls `bincode::deserialize` for the parts of a broadcast: what it finds
/// depends on the bytes alone.
#[verifier::external_body]
fn deserialize_packet(bytes: &Vec<u8>) -> (r: Option<
    ([u8; 4], u8, String, String, u16, Vec<String>, Vec<WireService>, i64),
>)
    ensures
        r is Some <==> packet_parts(bytes@) is Some,
        r matches Some(p) ==> packet_parts(bytes@) == Some(received_view(p)),
{
    bincode::deserialize(bytes).ok()
}

/// The services in the order in which they are sent.
pub open spec fn sent_services(m: Map<Seq<char>, LocalService>, keys: Seq<Seq<char>>) -> Seq<
    (Seq<char>, ServiceParts),
> {
    keys.map_values(|k: Seq<char>| (k, m[k]@))
}

impl DiscoveryPacket {
    /// The parts of the broadcast.
    pub open spec fn parts(self) -> PacketParts {
        (
            self.magic@,
            self.version,
            self.agent_id@,
            self.lan_ip@,
            self.api_port,
            chars::views(self.capabilities@),
            sent_services(self.services@, self.services.keys()),
            self.timestamp,
        )
    }

    /// The bytes of the broadcast. They can be read back.
    pub fn serialize(&self) -> (r: Result<Vec<u8>, String>)
        ensures
            r is Ok,
            r matches Ok(b) ==> b@ == packet_bytes(self.parts()) && packet_parts(b@) == Some(
                self.parts(),
            ),
            self.services.keys().no_duplicates(),
            self.services.keys().to_set() == self.services@.dom(),
    {
        let n = self.services.len();
        let ghost keys = self.services.keys();
        let mut services: Vec<WireService> = Vec::new();
        let mut i: usize = 0;
        while i < n
            invariant
                n == keys.len(),
                keys == self.services.keys(),
                i <= n,
                services@.len() == i,
                forall|j: int|
                    0 <= j < i ==> #[trigger] wire_services(services@)[j] == (
                        keys[j],
                        self.services@[keys[j]]@,
                    ),
            decreases n - i,
        {
            let s = self.services.value_at(i);
            let ghost before = services@;
            services.push(
                (
                    self.services.key_at(i).clone(),
                    (s.service_id.clone(), s.port, s.protocol.clone(), s.health_path.clone()),
                ),
            );
            assert forall|j: int| 0 <= j < i + 1 implies #[trigger] wire_services(services@)[j]
                == (keys[j], self.services@[keys[j]]@) by {
                if j < i {
                    assert(wire_services(before)[j] == (keys[j], self.services@[keys[j]]@));
                    assert(services@[j] == before[j]);
                }
            }
            i = i + 1;
        }
        assert(wire_services(services@) =~= sent_services(self.services@, keys));
        serialize_packet(
            self.magic,
            self.version,
            self.agent_id.as_str(),
            self.lan_ip.as_str(),
            self.api_port,
            &self.capabilities,
            &services,
            self.timestamp,
        )
    }

    /// The services that came, by their names; the later one of two with the
    /// same name.
    pub open spec fn collected(services: Seq<(Seq<char>, ServiceParts)>) -> Map<
        Seq<char>,
        ServiceParts,
    >
        decreases services.len(),
    {
        if services.len() == 0 {
            Map::empty()
        } else {
            DiscoveryPacket::collected(services.drop_last()).insert(
                services.last().0,
                services.last().1,
            )
        }
    }

    /// This broadcast has these parts.
    pub open spec fn is_read_from(self, parts: PacketParts) -> bool {
        &&& self.magic@ == parts.0
        &&& self.version == parts.1
        &&& self.agent_id@ == parts.2
        &&& self.lan_ip@ == parts.3
        &&& self.api_port == parts.4
        &&& chars::views(self.capabilities@) == parts.5
        &&& self.services@.map_values(|s: LocalService| s@) == DiscoveryPacket::collected(parts.6)
        &&& self.timestamp == parts.7
    }

    /// The broadcast that has these parts.
    pub fn from_parts(
        parts: ([u8; 4], u8, String, String, u16, Vec<String>, Vec<WireService>, i64),
    ) -> (r: DiscoveryPacket)
        ensures
            r.is_read_from(received_view(parts)),
    {
        let (magic, version, agent_id, lan_ip, api_port, capabilities, wire, timestamp) = parts;
        let ghost all = wire_services(wire@);
        let mut services: StrMap<LocalService> = StrMap::new();
        let mut i: usize = 0;
        assert(services@.map_values(|s: LocalService| s@) =~= DiscoveryPacket::collected(
            all.take(0),
        ));
        while i < wire.len()
            invariant
                i <= wire@.len(),
                all == wire_services(wire@),
                services@.map_values(|s: LocalService| s@) == DiscoveryPacket::collected(
                    all.take(i as int),
                ),
            decreases wire@.len() - i,
        {
            let s = LocalService {
                service_id: wire[i].1.0.clone(),
                port: wire[i].1.1,
                protocol: wire[i].1.2.clone(),
                health_path: wire[i].1.3.clone(),
            };
            let ghost before = services@;
            services.insert(wire[i].0.clone(), s);
            proof {
                let more = all.take(i + 1);
                assert(more.drop_last() =~= all.take(i as int));
                assert(more.last() == (wire@[i as int].0@, s@));
                assert(services@.map_values(|s: LocalService| s@) =~= before.map_values(
                    |s: LocalService| s@,
                ).insert(wire@[i as int].0@, s@));
            }
            i = i + 1;
        }
        assert(all.take(all.len() as int) =~= all);
        DiscoveryPacket {
            magic,
            version,
            agent_id,
            lan_ip,
            api_port,
            capabilities,
            services,
            timestamp,
        }
    }

    /// Reads a broadcast.
    pub fn deserialize(bytes: &Vec<u8>) -> (r: Option<DiscoveryPacket>)
        ensures
            r is Some <==> packet_parts(bytes@) is Some,
            r matches Some(p) ==> p.is_read_from(packet_parts(bytes@)->0),
    {
        match deserialize_packet(bytes) {
            Some(parts) => Some(DiscoveryPacket::from_parts(parts)),
            None => None,
        }
    }
}

/// Bytes may be a broadcast: they begin as every broadcast does.
pub open spec fn begins_with_magic(bytes: Seq<u8>) -> bool {
    bytes.len() >= 4 && bytes.take(4) == BROADCAST_MAGIC@
}

/// Whether bytes begin as every broadcast does.
pub fn has_magic(bytes: &Vec<u8>) -> (r: bool)
    ensures
        r == begins_with_magic(bytes@),
{
    if bytes.len() < 4 {
        return false;
    }
    let magic = BROADCAST_MAGIC;
    let r = bytes[0] == magic[0] && bytes[1] == magic[1] && bytes[2] == magic[2] && bytes[3]
        == magic[3];
    proof {
        let first = bytes@.take(4);
        if r {
            assert(first =~= magic@);
        } else {
            assert(first[0] != magic@[0] || first[1] != magic@[1] || first[2] != magic@[2]
                || first[3] != magic@[3]);
        }
    }
    r
}

/// An agent that was heard of.
pub struct DiscoveredPeer {
    pub agent_id: String,
    pub lan_ip: String,
    pub api_port: u16,
    pub capabilities: Vec<String>,
    pub services: StrMap<LocalService>,
    pub discovered_at: Timestamp,
    pub last_seen: Timestamp,
    /// Whether the agent answers.
    pub healthy: bool,
    /// How long the answer took, in nanoseconds.
    pub latency_ns: Option<u64>,
}

/// Where a service of an agent is reached.
pub open spec fn service_url(ip: Seq<char>, s: LocalService) -> Seq<char> {
    s.protocol@ + "://"@ + ip + ":"@ + number::decimal_spec(s.port as nat)
}

/// Where a service of an agent is reached.
pub fn build_service_url(ip: &str, s: &LocalService) -> (r: String)
    ensures
        r@ == service_url(ip@, *s),
{
    concat5(s.protocol.as_str(), "://", ip, ":", decimal(s.port as u64).as_str())
}

impl DiscoveredPeer {
    /// Where a service is reached, where the agent offers it.
    pub fn get_service_url(&self, service_id: &str) -> (r: Option<String>)
        ensures
            chars::opt_view(r) == if self.services@.dom().contains(service_id@) {
                Some(service_url(self.lan_ip@, self.services@[service_id@]))
            } else {
                None
            },
    {
        match self.services.get(service_id) {
            Some(s) => Some(build_service_url(self.lan_ip.as_str(), s)),
            None => None,
        }
    }

    /// Where the agent itself is reached.
    pub fn api_url(&self) -> (r: String)
        ensures
            r@ == "http://"@ + self.lan_ip@ + ":"@ + number::decimal_spec(self.api_port as nat),
    {
        chars::concat4("http://", self.lan_ip.as_str(), ":", decimal(self.api_port as u64).as_str())
    }
}

/// The numbers of the discovery, for reports.
#[derive(Debug)]
pub struct LanDiscoveryStats {
    pub enabled: bool,
    pub local_ip: Option<String>,
    pub agent_id: String,
    pub broadcast_port: u16,
    pub total_peers: usize,
    pub healthy_peers: usize,
    pub total_services: usize,
    pub local_services: usize,
}

/// What is known of the other agents.
pub struct LanDiscovery {
    config: LanDiscoveryConfig,
    discovered_peers: StrMap<DiscoveredPeer>,
    local_ip: Option<String>,
}

/// The contents of a `LanDiscovery`.
pub ghost struct LanView {
    pub config: LanDiscoveryConfig,
    pub local_ip: Option<Seq<char>>,
    /// The other agents, by their names.
    pub peers: Map<Seq<char>, DiscoveredPeer>,
}

impl View for LanDiscovery {
    type V = LanView;

    closed spec fn view(&self) -> LanView {
        LanView {
            config: self.config,
            local_ip: chars::opt_view(self.local_ip),
            peers: self.discovered_peers@,
        }
    }
}

/// The agent that a broadcast makes known, whether it answers and how fast.
pub open spec fn heard_of(
    peer: DiscoveredPeer,
    old: Option<DiscoveredPeer>,
    packet: DiscoveryPacket,
    healthy: bool,
    latency_ns: Option<u64>,
    now: Timestamp,
) -> bool {
    &&& peer.last_seen == now
    &&& peer.healthy == healthy
    &&& peer.latency_ns == latency_ns
    &&& peer.services == packet.services
    &&& peer.capabilities == packet.capabilities
    &&& match old {
        Some(p) => {
            &&& peer.agent_id == p.agent_id
            &&& peer.lan_ip == p.lan_ip
            &&& peer.api_port == p.api_port
            &&& peer.discovered_at == p.discovered_at
        },
        None => {
            &&& peer.agent_id@ == packet.agent_id@
            &&& peer.lan_ip == packet.lan_ip
            &&& peer.api_port == packet.api_port
            &&& peer.discovered_at == now
        },
    }
}

/// The agent was not heard of for too long.
pub open spec fn is_stale(peer: DiscoveredPeer, now: Timestamp) -> bool {
    now.instant() - peer.last_seen.instant() > PEER_TIMEOUT_SECS * 1_000_000_000
}

/// The order by the time that the answer took: an agent without one comes
/// last.
pub open spec fn slowness(latency_ns: Option<u64>) -> int {
    match latency_ns {
        Some(n) => n as int,
        None => u64::MAX + 1,
    }
}

/// The agent answers and offers the service.
pub open spec fn provides(peer: DiscoveredPeer, service_id: Seq<char>) -> bool {
    peer.healthy && peer.services@.dom().contains(service_id)
}

/// The agent offers the service, and none that does so answers faster.
pub open spec fn is_best_provider(
    peers: Map<Seq<char>, DiscoveredPeer>,
    service_id: Seq<char>,
    id: Seq<char>,
) -> bool {
    &&& peers.dom().contains(id)
    &&& provides(peers[id], service_id)
    &&& forall|other: Seq<char>| #[trigger]
        peers.dom().contains(other) && provides(peers[other], service_id) ==> slowness(
            peers[id].latency_ns,
        ) <= slowness(peers[other].latency_ns)
}

/// Somebody offers the service.
pub open spec fn has_provider(peers: Map<Seq<char>, DiscoveredPeer>, service_id: Seq<char>) -> bool {
    exists|id: Seq<char>| #[trigger] peers.dom().contains(id) && provides(peers[id], service_id)
}

/// How many of the agents answer.
pub open spec fn healthy_among(keys: Seq<Seq<char>>, peers: Map<Seq<char>, DiscoveredPeer>) -> nat
    decreases keys.len(),
{
    if keys.len() == 0 {
        0
    } else {
        healthy_among(keys.drop_last(), peers) + if peers[keys.last()].healthy {
            1nat
        } else {
            0nat
        }
    }
}

/// How many services the agents offer together.
pub open spec fn services_among(keys: Seq<Seq<char>>, peers: Map<Seq<char>, DiscoveredPeer>) -> nat
    decreases keys.len(),
{
    if keys.len() == 0 {
        0
    } else {
        services_among(keys.drop_last(), peers) + peers[keys.last()].services@.dom().len()
    }
}

impl LanDiscovery {
    /// The names of the agents in the order in which they stand.
    pub closed spec fn peer_order(&self) -> Seq<Seq<char>> {
        self.discovered_peers.keys()
    }

    /// Nothing is known yet.
    pub fn new(config: LanDiscoveryConfig, local_ip: Option<String>) -> (r: LanDiscovery)
        ensures
            r@ == (LanView {
                config,
                local_ip: chars::opt_view(local_ip),
                peers: Map::empty(),
            }),
    {
        LanDiscovery { config, discovered_peers: StrMap::new(), local_ip }
    }

    /// The address that broadcasts are received on.
    pub fn bind_addr(&self) -> (r: String)
        ensures
            r@ == "0.0.0.0:"@ + number::decimal_spec(self@.config.broadcast_port as nat),
    {
        concat2("0.0.0.0:", decimal(self.config.broadcast_port as u64).as_str())
    }

    /// The broadcast of this agent at `now`.
    pub fn build_discovery_packet(&self, now: Timestamp) -> (r: DiscoveryPacket)
        ensures
            r.magic == BROADCAST_MAGIC,
            r.version == 1,
            r.agent_id == self@.config.agent_id,
            r.lan_ip@ == match self@.local_ip {
                Some(ip) => ip,
                None => "0.0.0.0"@,
            },
            r.api_port == self@.config.api_port,
            r.capabilities@ == self@.config.capabilities@,
            r.services@ == offered(self@.config.local_services@),
            r.timestamp == now.seconds(),
    {
        let mut services: StrMap<LocalService> = StrMap::new();
        let ghost all = self.config.local_services@;
        let mut i: usize = 0;
        while i < self.config.local_services.len()
            invariant
                i <= self.config.local_services@.len(),
                all == self.config.local_services@,
                services@ == offered(all.take(i as int)),
            decreases self.config.local_services@.len() - i,
        {
            let s = self.config.local_services[i].clone();
            services.insert(s.service_id.clone(), s);
            assert(all.take(i + 1).drop_last() =~= all.take(i as int));
            i = i + 1;
        }
        assert(all.take(all.len() as int) =~= all);
        let lan_ip = match &self.local_ip {
            Some(ip) => ip.clone(),
            None => "0.0.0.0".to_owned(),
        };
        DiscoveryPacket {
            magic: BROADCAST_MAGIC,
            version: 1,
            agent_id: self.config.agent_id.clone(),
            lan_ip,
            api_port: self.config.api_port,
            capabilities: clone_strings(&self.config.capabilities),
            services,
            timestamp: now.timestamp(),
        }
    }

    /// The broadcast that came, where it is one of another agent.
    pub fn receive(&self, bytes: &Vec<u8>) -> (r: Option<DiscoveryPacket>)
        ensures
            r is Some <==> begins_with_magic(bytes@) && packet_parts(bytes@) is Some
                && (packet_parts(bytes@)->0).2 != self@.config.agent_id@,
            r matches Some(p) ==> p.is_read_from(packet_parts(bytes@)->0),
    {
        if !has_magic(bytes) {
            return None;
        }
        match DiscoveryPacket::deserialize(bytes) {
            Some(packet) => {
                if str_eq(packet.agent_id.as_str(), self.config.agent_id.as_str()) {
                    None
                } else {
                    Some(packet)
                }
            },
            None => None,
        }
    }

    /// Where an agent is asked whether it answers.
    pub fn verify_url(ip: &str, port: u16) -> (r: String)
        ensures
            r@ == "http://"@ + ip@ + ":"@ + number::decimal_spec(port as nat) + "/health"@,
    {
        concat5("http://", ip, ":", decimal(port as u64).as_str(), "/health")
    }

    /// Remembers an agent that a broadcast made known at `now`. Of one that
    /// was known, the address stays as it was.
    pub fn handle_discovery(
        &mut self,
        packet: DiscoveryPacket,
        healthy: bool,
        latency_ns: Option<u64>,
        now: Timestamp,
    )
        ensures
            final(self)@.config == old(self)@.config,
            final(self)@.local_ip == old(self)@.local_ip,
            exists|peer: DiscoveredPeer|
                heard_of(
                    peer,
                    if old(self)@.peers.dom().contains(packet.agent_id@) {
                        Some(old(self)@.peers[packet.agent_id@])
                    } else {
                        None
                    },
                    packet,
                    healthy,
                    latency_ns,
                    now,
                ) && final(self)@.peers == #[trigger] old(self)@.peers.insert(
                    packet.agent_id@,
                    peer,
                ),
    {
        let ghost heard = packet;
        let id = packet.agent_id.clone();
        let ghost before = self.discovered_peers@;
        let peer = match self.discovered_peers.remove(id.as_str()) {
            Some(known) => DiscoveredPeer {
                agent_id: known.agent_id,
                lan_ip: known.lan_ip,
                api_port: known.api_port,
                capabilities: packet.capabilities,
                services: packet.services,
                discovered_at: known.discovered_at,
                last_seen: now,
                healthy,
                latency_ns,
            },
            None => DiscoveredPeer {
                agent_id: packet.agent_id,
                lan_ip: packet.lan_ip,
                api_port: packet.api_port,
                capabilities: packet.capabilities,
                services: packet.services,
                discovered_at: now,
                last_seen: now,
                healthy,
                latency_ns,
            },
        };
        let ghost added = peer;
        self.discovered_peers.insert(id, peer);
        proof {
            assert(self.discovered_peers@ =~= before.insert(heard.agent_id@, added));
            let known = if before.dom().contains(heard.agent_id@) {
                Some(before[heard.agent_id@])
            } else {
                None
            };
            assert(heard_of(added, known, heard, healthy, latency_ns, now));
            assert(self@.peers == old(self)@.peers.insert(heard.agent_id@, added));
        }
    }

    /// The agents that stay known at `now`.
    pub open spec fn after_cleanup(self, now: Timestamp) -> Map<Seq<char>, DiscoveredPeer> {
        collections::kept(self@.peers, |k: Seq<char>, p: DiscoveredPeer| !is_stale(p, now))
    }

    /// Forgets, at `now`, the agents that were not heard of for too long.
    pub fn cleanup(&mut self, now: Timestamp)
        ensures
            final(self)@ == (LanView { peers: old(self).after_cleanup(now), ..old(self)@ }),
    {
        let n = self.discovered_peers.len();
        let ghost test = |k: Seq<char>, p: DiscoveredPeer| !is_stale(p, now);
        let mut marks: Vec<bool> = Vec::new();
        let mut i: usize = 0;
        while i < n
            invariant
                n == self.discovered_peers.keys().len(),
                i <= n,
                marks@.len() == i,
                *self == *old(self),
                test == (|k: Seq<char>, p: DiscoveredPeer| !is_stale(p, now)),
                forall|j: int|
                    0 <= j < i ==> #[trigger] marks@[j] == test(
                        self.discovered_peers.keys()[j],
                        self.discovered_peers@[self.discovered_peers.keys()[j]],
                    ),
            decreases n - i,
        {
            let peer = self.discovered_peers.value_at(i);
            marks.push(!now.more_than_seconds_since(&peer.last_seen, PEER_TIMEOUT_SECS));
            i = i + 1;
        }
        self.discovered_peers.retain_marked(&marks, Ghost(test));
    }

    /// All agents that are known.
    pub fn get_peers(&self) -> (r: Vec<&DiscoveredPeer>)
        ensures
            r@.len() == self.peer_order().len(),
            self.peer_order().no_duplicates(),
            self.peer_order().to_set() == self@.peers.dom(),
            forall|i: int|
                0 <= i < r@.len() ==> *(#[trigger] r@[i]) == self@.peers[self.peer_order()[i]],
    {
        let n = self.discovered_peers.len();
        let mut r: Vec<&DiscoveredPeer> = Vec::new();
        let mut i: usize = 0;
        while i < n
            invariant
                n == self.discovered_peers.keys().len(),
                i <= n,
                r@.len() == i,
                forall|j: int|
                    0 <= j < i ==> *(#[trigger] r@[j])
                        == self.discovered_peers@[self.discovered_peers.keys()[j]],
            decreases n - i,
        {
            r.push(self.discovered_peers.value_at(i));
            i = i + 1;
        }
        r
    }

    /// The agents that answer, in the order in which they stand.
    pub fn get_healthy_peers(&self) -> (r: Vec<&DiscoveredPeer>)
        ensures
            peer_refs(r@) == healthy_list(self.peer_order(), self@.peers),
            self.peer_order().no_duplicates(),
            self.peer_order().to_set() == self@.peers.dom(),
    {
        let n = self.discovered_peers.len();
        let ghost keys = self.discovered_peers.keys();
        let ghost all = keys.map_values(|k: Seq<char>| if_healthy(self.discovered_peers@[k]));
        let mut r: Vec<&DiscoveredPeer> = Vec::new();
        let mut i: usize = 0;
        assert(peer_refs(r@) =~= collections::keep_some(all.take(0)));
        while i < n
            invariant
                n == keys.len(),
                keys == self.discovered_peers.keys(),
                all == keys.map_values(|k: Seq<char>| if_healthy(self.discovered_peers@[k])),
                i <= n,
                peer_refs(r@) == collections::keep_some(all.take(i as int)),
            decreases n - i,
        {
            proof {
                collections::lemma_keep_some_step(all, i as int);
            }
            let peer = self.discovered_peers.value_at(i);
            if peer.healthy {
                let ghost before = r@;
                r.push(peer);
                assert(peer_refs(r@) =~= peer_refs(before).push(*peer));
            }
            i = i + 1;
        }
        assert(all.take(all.len() as int) =~= all);
        r
    }

    /// An agent that offers a service and answers no slower than any other
    /// that does.
    pub fn get_service_provider(&self, service_id: &str) -> (r: Option<&DiscoveredPeer>)
        ensures
            r is Some <==> has_provider(self@.peers, service_id@),
            r matches Some(p) ==> exists|id: Seq<char>| #[trigger]
                is_best_provider(self@.peers, service_id@, id) && *p == self@.peers[id],
    {
        let n = self.discovered_peers.len();
        let ghost keys = self.discovered_peers.keys();
        let ghost peers = self.discovered_peers@;
        let mut best: Option<usize> = None;
        let mut i: usize = 0;
        while i < n
            invariant
                n == keys.len(),
                keys == self.discovered_peers.keys(),
                peers == self.discovered_peers@,
                i <= n,
                best matches Some(b) ==> b < i && provides(peers[keys[b as int]], service_id@),
                best is None ==> forall|j: int|
                    0 <= j < i ==> !provides(peers[#[trigger] keys[j]], service_id@),
                best matches Some(b) ==> forall|j: int|
                    0 <= j < i && provides(peers[#[trigger] keys[j]], service_id@) ==> slowness(
                        peers[keys[b as int]].latency_ns,
                    ) <= slowness(peers[keys[j]].latency_ns),
            decreases n - i,
        {
            let peer = self.discovered_peers.value_at(i);
            if peer.healthy && peer.services.contains_key(service_id) {
                let better = match best {
                    Some(b) => LanDiscovery::faster(
                        peer.latency_ns,
                        self.discovered_peers.value_at(b).latency_ns,
                    ),
                    None => true,
                };
                if better {
                    best = Some(i);
                }
            }
            i = i + 1;
        }
        proof {
            assert forall|id: Seq<char>| #[trigger] peers.dom().contains(id) implies exists|j: int|
                0 <= j < n && #[trigger] keys[j] == id by {
                assert(keys.to_set().contains(id));
                let j = keys.index_of(id);
                assert(keys[j] == id);
            }
        }
        match best {
            Some(b) => {
                let found = self.discovered_peers.value_at(b);
                proof {
                    let id = keys[b as int];
                    assert forall|other: Seq<char>| #[trigger]
                        peers.dom().contains(other) && provides(
                            peers[other],
                            service_id@,
                        ) implies slowness(peers[id].latency_ns) <= slowness(
                        peers[other].latency_ns,
                    ) by {
                        let j = choose|j: int| 0 <= j < n && #[trigger] keys[j] == other;
                        assert(keys[j] == other);
                    }
                    assert(is_best_provider(peers, service_id@, id));
                }
                Some(found)
            },
            None => {
                proof {
                    if has_provider(peers, service_id@) {
                        let id = choose|id: Seq<char>| #[trigger]
                            peers.dom().contains(id) && provides(peers[id], service_id@);
                        let j = choose|j: int| 0 <= j < n && #[trigger] keys[j] == id;
                        assert(keys[j] == id);
                    }
                }
                None
            },
        }
    }

    fn faster(a: Option<u64>, b: Option<u64>) -> (r: bool)
        ensures
            r == (slowness(a) < slowness(b)),
    {
        match (a, b) {
            (Some(x), Some(y)) => x < y,
            (Some(_), None) => true,
            (None, _) => false,
        }
    }

    /// Where a service is reached in the local network: at an agent that
    /// offers it and answers no slower than any other that does.
    pub fn get_service_url(&self, service_id: &str) -> (r: Option<String>)
        ensures
            r is Some <==> has_provider(self@.peers, service_id@),
            r matches Some(u) ==> exists|id: Seq<char>| #[trigger]
                is_best_provider(self@.peers, service_id@, id) && u@ == service_url(
                    self@.peers[id].lan_ip@,
                    self@.peers[id].services@[service_id@],
                ),
    {
        match self.get_service_provider(service_id) {
            Some(peer) => peer.get_service_url(service_id),
            None => None,
        }
    }

    /// These are the numbers for reports. The number of services stops at the
    /// largest number.
    pub open spec fn has_stats(&self, r: LanDiscoveryStats) -> bool {
        let services = services_among(self.peer_order(), self@.peers);
        &&& r.enabled == self@.config.enabled
        &&& chars::opt_view(r.local_ip) == self@.local_ip
        &&& r.agent_id == self@.config.agent_id
        &&& r.broadcast_port == self@.config.broadcast_port
        &&& self.peer_order().no_duplicates()
        &&& self.peer_order().to_set() == self@.peers.dom()
        &&& r.total_peers == self@.peers.dom().len()
        &&& r.healthy_peers == healthy_among(self.peer_order(), self@.peers)
        &&& r.total_services == if services > usize::MAX {
            usize::MAX as nat
        } else {
            services
        }
        &&& r.local_services == self@.config.local_services@.len()
    }

    /// The numbers for reports.
    pub fn get_stats(&self) -> (r: LanDiscoveryStats)
        ensures
            self.has_stats(r),
    {
        let n = self.discovered_peers.len();
        let ghost keys = self.discovered_peers.keys();
        let ghost peers = self.discovered_peers@;
        let mut healthy: usize = 0;
        let mut services: usize = 0;
        let mut i: usize = 0;
        while i < n
            invariant
                n == keys.len(),
                keys == self.discovered_peers.keys(),
                peers == self.discovered_peers@,
                i <= n,
                healthy <= i,
                healthy == healthy_among(keys.take(i as int), peers),
                services == services_among(keys.take(i as int), peers) || services_among(
                    keys.take(i as int),
                    peers,
                ) > usize::MAX && services == usize::MAX,
            decreases n - i,
        {
            assert(keys.take(i + 1).drop_last() =~= keys.take(i as int));
            let peer = self.discovered_peers.value_at(i);
            if peer.healthy {
                healthy = healthy + 1;
            }
            let more = peer.services.len();
            services = if more > usize::MAX - services {
                usize::MAX
            } else {
                services + more
            };
            i = i + 1;
        }
        assert(keys.take(n as int) =~= keys);
        LanDiscoveryStats {
            enabled: self.config.enabled,
            local_ip: self.local_ip.clone(),
            agent_id: self.config.agent_id.clone(),
            broadcast_port: self.config.broadcast_port,
            total_peers: n,
            healthy_peers: healthy,
            total_services: services,
            local_services: self.config.local_services.len(),
        }
    }

    /// Whether the discovery is enabled.
    pub fn is_enabled(&self) -> (r: bool)
        ensures
            r == self@.config.enabled,
    {
        self.config.enabled
    }
}

/// The services of a list, by their names; the later one of two with the same
/// name.
pub open spec fn offered(services: Seq<LocalService>) -> Map<Seq<char>, LocalService>
    decreases services.len(),
{
    if services.len() == 0 {
        Map::empty()
    } else {
        offered(services.drop_last()).insert(services.last().service_id@, services.last())
    }
}

/// The values behind a list of references.
pub open spec fn peer_refs(v: Seq<&DiscoveredPeer>) -> Seq<DiscoveredPeer> {
    v.map_values(|p: &DiscoveredPeer| *p)
}

/// The agent itself, where it answers.
pub open spec fn if_healthy(p: DiscoveredPeer) -> Option<DiscoveredPeer> {
    if p.healthy {
        Some(p)
    } else {
        None
    }
}

/// The agents that answer, in order.
pub open spec fn healthy_list(keys: Seq<Seq<char>>, peers: Map<Seq<char>, DiscoveredPeer>) -> Seq<
    DiscoveredPeer,
> {
    collections::keep_some(keys.map_values(|k: Seq<char>| if_healthy(peers[k])))
}

/// The address of this host, where it belongs to a private network.
pub fn is_private_ip(ip: &str) -> (r: bool)
    ensures
        r == network::private_ip(ip@),
{
    network::is_private_ip(ip)
}

proof fn lemma_collected_keys(
    m: Map<Seq<char>, LocalService>,
    keys: Seq<Seq<char>>,
)
    requires
        keys.no_duplicates(),
        forall|i: int| 0 <= i < keys.len() ==> m.dom().contains(#[trigger] keys[i]),
    ensures
        ({
            let c = DiscoveryPacket::collected(sent_services(m, keys));
            &&& forall|k: Seq<char>| #[trigger] c.dom().contains(k) <==> keys.contains(k)
            &&& forall|k: Seq<char>| #[trigger] c.dom().contains(k) ==> c[k] == m[k]@
        }),
    decreases keys.len(),
{
    let s = sent_services(m, keys);
    if keys.len() > 0 {
        let less = keys.drop_last();
        assert(s.drop_last() =~= sent_services(m, less));
        assert forall|i: int| 0 <= i < less.len() implies m.dom().contains(
            #[trigger] less[i],
        ) by {
            assert(less[i] == keys[i]);
        }
        lemma_collected_keys(m, less);
        assert(s.last() == (keys.last(), m[keys.last()]@));
        let c = DiscoveryPacket::collected(s);
        let d = DiscoveryPacket::collected(sent_services(m, less));
        assert(c == d.insert(keys.last(), m[keys.last()]@));
        assert forall|k: Seq<char>| keys.contains(k) <==> less.contains(k) || k == keys.last() by {
            if less.contains(k) {
                assert(keys[less.index_of(k)] == k);
            }
            if keys.contains(k) && k != keys.last() {
                let j = keys.index_of(k);
                assert(less[j] == k);
            }
            assert(keys[keys.len() - 1] == keys.last());
        }
    }
}

/// A broadcast that is read back is the one that was sent: it has the same
/// parts, and offers the same services.
pub proof fn broadcast_reads_back(
    sent: DiscoveryPacket,
    read: DiscoveryPacket,
    bytes: Seq<u8>,
)
    requires
        sent.services.keys().no_duplicates(),
        sent.services.keys().to_set() == sent.services@.dom(),
        bytes == packet_bytes(sent.parts()),
        packet_parts(bytes) == Some(sent.parts()),
        read.is_read_from(packet_parts(bytes)->0),
    ensures
        read.magic@ == sent.magic@,
        read.version == sent.version,
        read.agent_id@ == sent.agent_id@,
        read.lan_ip@ == sent.lan_ip@,
        read.api_port == sent.api_port,
        chars::views(read.capabilities@) == chars::views(sent.capabilities@),
        read.services@.map_values(|s: LocalService| s@) == sent.services@.map_values(
            |s: LocalService| s@,
        ),
        read.timestamp == sent.timestamp,
{
    let m = sent.services@;
    let keys = sent.services.keys();
    assert forall|i: int| 0 <= i < keys.len() implies m.dom().contains(#[trigger] keys[i]) by {
        assert(keys.to_set().contains(keys[i]));
    }
    lemma_collected_keys(m, keys);
    let c = DiscoveryPacket::collected(sent_services(m, keys));
    assert forall|k: Seq<char>| c.dom().contains(k) <==> m.dom().contains(k) by {
        assert(keys.to_set().contains(k) <==> keys.contains(k));
    }
    assert(c =~= m.map_values(|s: LocalService| s@));
}

/// An agent that is heard of again in time is not forgotten.
pub proof fn fresh_peer_stays(lan: LanDiscovery, now: Timestamp, id: Seq<char>)
    requires
        lan@.peers.dom().contains(id),
        now.instant() - lan@.peers[id].last_seen.instant() <= PEER_TIMEOUT_SECS * 1_000_000_000,
    ensures
        lan.after_cleanup(now).dom().contains(id),
        lan.after_cleanup(now)[id] == lan@.peers[id],
{
}

} // verus!
