//! What is known of services and of other agents: where a service is found, for
//! how long that is remembered, and which agent of the local network counts.

use vstd::prelude::*;

use crate::services::lan_discovery;
use crate::services::lan_discovery::{
    DiscoveredPeer, DiscoveryPacket, LanDiscovery, LanDiscoveryStats, LocalService,
};
use crate::services::mesh;
use crate::services::mesh::{CachedMeshEndpoint, MeshService};
use crate::services::network;
use crate::services::network::AddressTool;
use crate::services::service_router;
use crate::services::service_router::{EndpointSource, RouterView, ServiceEndpoint};
use crate::text::chars;
use crate::text::edit;
use crate::text::number;
use crate::text::search;
use crate::text::split;
use crate::time::Timestamp;

verus! {

/// A list of services is read item by item: what stands before the first "=" is
/// the name, what stands behind it the address; an item without one is passed
/// over, and of two items of one name the later counts.
pub proof fn service_list_is_read_in_order(
    items: Seq<Seq<char>>,
    item: Seq<char>,
    name: Seq<char>,
    url: Seq<char>,
)
    requires
        !name.contains('='),
    ensures
        service_router::entries_of(Seq::empty()) == Map::<Seq<char>, Seq<char>>::empty(),
        item == name + seq!['='] + url ==> service_router::entries_of(items.push(item))
            == service_router::entries_of(items).insert(name, url),
        !item.contains('=') ==> service_router::entries_of(items.push(item))
            == service_router::entries_of(items),
{
    assert(items.push(item).drop_last() =~= items);
    if item == name + seq!['='] + url {
        assert(item =~= name.push('=') + url);
        crate::text::laws::first_separator_cuts(name, url, '=');
    }
    if !item.contains('=') {
        crate::text::laws::first_separator_cuts(item, url, '=');
    }
}

/// A service is taken from the first source that knows it: this host, the local
/// network, the mesh, the configuration, the last resort. The endpoint has the
/// address that the source gives, and where no source knows the service it has
/// none and is not healthy.
pub proof fn service_is_found_at_its_source(
    router: RouterView,
    id: Seq<char>,
    lan: Option<lan_discovery::LanView>,
    mesh_url: Option<Seq<char>>,
    e: service_router::EndpointView,
)
    requires
        router.resolves_to(id, lan, mesh_url, e),
    ensures
        ({
            let local = router.local.dom().contains(id);
            let near = lan is Some && lan->0.config.enabled && exists|p: Seq<char>| #[trigger]
                lan->0.peers.dom().contains(p) && lan->0.peers[p].healthy
                    && lan->0.peers[p].services@.dom().contains(id);
            let configured = router.configured.dom().contains(id);
            let last = router.fallback.dom().contains(id);
            &&& local ==> e.url == router.local[id] && e.source == EndpointSource::Local
                && e.healthy && e.latency_ns == Some(0u64)
            &&& !local && near ==> e.source == EndpointSource::LanPeer && e.healthy
            &&& !local && !near && mesh_url is Some ==> e.url == mesh_url->0 && e.source
                == EndpointSource::Mesh && e.healthy && e.latency_ns is None
            &&& !local && !near && mesh_url is None && configured ==> e.url
                == router.configured[id] && e.source == EndpointSource::Config && e.healthy
            &&& !local && !near && mesh_url is None && !configured && last ==> e.url
                == router.fallback[id] && e.source == EndpointSource::Fallback && e.healthy
            &&& !local && !near && mesh_url is None && !configured && !last ==> e.url.len() == 0
                && !e.healthy && e.source == EndpointSource::Fallback
        }),
{
    if let Some(l) = lan {
        if lan_discovery::has_provider(l.peers, id) {
            let p = choose|p: Seq<char>| #[trigger]
                l.peers.dom().contains(p) && lan_discovery::provides(l.peers[p], id);
            assert(l.peers.dom().contains(p) && l.peers[p].healthy
                && l.peers[p].services@.dom().contains(id));
        }
    }
}

/// An endpoint of the local network is that of a healthy agent that offers the
/// service, and no healthy agent that offers it is known to answer faster.
pub proof fn fastest_agent_counts(
    e: service_router::EndpointView,
    lan: lan_discovery::LanView,
    id: Seq<char>,
    other: Seq<char>,
)
    requires
        service_router::is_lan_endpoint(e, lan, id),
    ensures
        exists|p: Seq<char>|
            {
                &&& #[trigger] lan.peers.dom().contains(p)
                &&& lan.peers[p].healthy
                &&& lan.peers[p].services@.dom().contains(id)
                &&& e.url == lan.peers[p].services@[id].protocol@ + "://"@ + lan.peers[p].lan_ip@
                    + ":"@ + number::decimal_spec(lan.peers[p].services@[id].port as nat)
                &&& e.latency_ns == lan.peers[p].latency_ns
            },
        lan.peers.dom().contains(other) && lan.peers[other].healthy
            && lan.peers[other].services@.dom().contains(id) && lan.peers[other].latency_ns is Some
            ==> e.latency_ns is Some && e.latency_ns->0 <= lan.peers[other].latency_ns->0,
        e.source == EndpointSource::LanPeer,
        e.healthy,
{
    let p = choose|p: Seq<char>| #[trigger]
        lan_discovery::is_best_provider(lan.peers, id, p) && e == (service_router::EndpointView {
            url: lan_discovery::service_url(lan.peers[p].lan_ip@, lan.peers[p].services@[id]),
            source: EndpointSource::LanPeer,
            latency_ns: lan.peers[p].latency_ns,
            healthy: true,
            peer: None,
        });
    assert(lan.peers.dom().contains(p));
    if lan.peers.dom().contains(other) && lan_discovery::provides(lan.peers[other], id) {
        assert(lan_discovery::slowness(lan.peers[p].latency_ns) <= lan_discovery::slowness(
            lan.peers[other].latency_ns,
        ));
    }
}

/// An endpoint is remembered for 30 seconds, and is not looked for meanwhile;
/// after that it is looked for again, and remembered from then on.
pub proof fn endpoint_is_remembered_for_a_while(
    before: RouterView,
    after: RouterView,
    id: Seq<char>,
    lan: Option<lan_discovery::LanView>,
    mesh_url: Option<Seq<char>>,
    clock: u64,
    r: ServiceEndpoint,
    other: Seq<char>,
)
    requires
        service_router::got(before, after, id, lan, mesh_url, clock, r),
        other != id,
    ensures
        ({
            let fresh = before.cache.dom().contains(id) && clock < before.cache[id].cached_at_ns
                + 30_000_000_000;
            &&& fresh ==> r == before.cache[id].endpoint && after == before
            &&& !fresh ==> before.resolves_to(id, lan, mesh_url, r@) && after.cache.dom().contains(
                id,
            ) && after.cache[id].endpoint == r && after.cache[id].cached_at_ns == clock
        }),
        after.local == before.local && after.configured == before.configured && after.fallback
            == before.fallback,
        after.cache.dom().contains(other) <==> before.cache.dom().contains(other),
        before.cache.dom().contains(other) ==> after.cache[other] == before.cache[other],
{
}

/// The mesh remembers an address for a minute.
pub proof fn mesh_remembers_for_a_minute(
    cache: Map<Seq<char>, CachedMeshEndpoint>,
    id: Seq<char>,
    clock: u64,
)
    ensures
        ({
            let fresh = cache.dom().contains(id) && clock < cache[id].cached_at_ns + 60_000_000_000;
            &&& fresh ==> mesh::remembered(cache, id, clock) == Some(cache[id].endpoint)
            &&& !fresh ==> mesh::remembered(cache, id, clock) is None
        }),
{
}

/// A service of the mesh is named before the first colon, and its address is
/// all that follows it.
pub proof fn mesh_service_is_read(item: Seq<char>)
    ensures
        mesh::mesh_service_of(item) is Some <==> item.contains(':'),
        mesh::mesh_service_of(item) matches Some(s) ==> item == s.0 + seq![':'] + s.1
            && !s.0.contains(':'),
{
    let parts = split::split_spec(item, ':');
    crate::text::laws::join_undoes_split(item, ':', 0);
    reveal_strlit(":");
    assert(":"@ =~= seq![':']);
    crate::text::laws::pieces_stand_in_order(Seq::empty(), parts[0], seq![':']);
    if parts.len() >= 2 {
        let rest = parts.subrange(1, parts.len() as int);
        assert(parts =~= seq![parts[0]] + rest);
        crate::text::laws::first_piece_stands_first(parts[0], rest, seq![':']);
        let s = mesh::mesh_service_of(item)->0;
        assert(item[s.0.len() as int] == ':');
    } else {
        assert(parts =~= seq![parts[0]]);
    }
}

/// What the agent is capable of names each service once, in the order in which
/// they come first.
pub proof fn services_are_named_once(services: Seq<MeshService>, name: Seq<char>, url: Seq<char>)
    ensures
        mesh::distinct_names(Seq::empty()).len() == 0,
        (exists|i: int| 0 <= i < services.len() && (#[trigger] services[i]).0 == name)
            ==> mesh::distinct_names(services.push((name, url))) == mesh::distinct_names(services),
        !(exists|i: int| 0 <= i < services.len() && (#[trigger] services[i]).0 == name)
            ==> mesh::distinct_names(services.push((name, url))) == mesh::distinct_names(
            services,
        ).push(name),
{
    assert(services.push((name, url)).drop_last() =~= services);
    lemma_distinct_names(services, name);
}

proof fn lemma_distinct_names(services: Seq<MeshService>, name: Seq<char>)
    ensures
        mesh::distinct_names(services).contains(name) <==> exists|i: int|
            0 <= i < services.len() && (#[trigger] services[i]).0 == name,
    decreases services.len(),
{
    if services.len() > 0 {
        let rest = services.drop_last();
        lemma_distinct_names(rest, name);
        let less = mesh::distinct_names(rest);
        let all = mesh::distinct_names(services);
        if less.contains(name) {
            let k = choose|k: int| 0 <= k < less.len() && less[k] == name;
            assert(all[k] == name);
            let i = choose|i: int| 0 <= i < rest.len() && (#[trigger] rest[i]).0 == name;
            assert(services[i].0 == name);
        }
        if services.last().0 == name {
            assert(services[services.len() - 1].0 == name);
            if !less.contains(name) {
                assert(all[less.len() as int] == name);
            }
        }
        if all.contains(name) && !less.contains(name) {
            let k = choose|k: int| 0 <= k < all.len() && all[k] == name;
            if k < less.len() {
                assert(less[k] == name);
            }
        }
        if exists|i: int| 0 <= i < services.len() && (#[trigger] services[i]).0 == name {
            let i = choose|i: int| 0 <= i < services.len() && (#[trigger] services[i]).0 == name;
            if i < rest.len() {
                assert(rest[i].0 == name);
            }
        }
    }
}

/// The registry is asked for a service under its name, for this agent, and for
/// its zone where one is known.
pub proof fn registry_is_asked_for_the_service(m: mesh::MeshView, id: Seq<char>)
    ensures
        m.zone is None ==> m.resolve_url_spec(id) == m.config.registry_url@ + "/mesh/resolve/"@ + id
            + "?agent_id="@ + m.config.agent_id@,
        m.zone is Some ==> m.resolve_url_spec(id) == m.config.registry_url@ + "/mesh/resolve/"@ + id
            + "?agent_id="@ + m.config.agent_id@ + ("&zone_id="@ + m.zone->0),
{
    if m.zone is None {
        assert(m.resolve_url_spec(id) =~= m.config.registry_url@ + "/mesh/resolve/"@ + id
            + "?agent_id="@ + m.config.agent_id@);
    }
}

/// A service of the local network is written as its name, its port, its protocol
/// and the path of its health check. A port that is no number is 0, the protocol
/// is "http" and there is no path where they are left out, and an item without a
/// port is none.
pub proof fn local_service_is_read(item: Seq<char>)
    ensures
        ({
            let p = split::split_spec(item, ':');
            let s = lan_discovery::service_of(item);
            &&& s is Some <==> p.len() >= 2
            &&& p.len() >= 2 ==> (s->0).0 == p[0]
            &&& p.len() >= 2 && number::parse_spec(p[1], 65535) is Some ==> (s->0).1
                == number::parse_spec(p[1], 65535)->0 as u16
            &&& p.len() >= 2 && number::parse_spec(p[1], 65535) is None ==> (s->0).1 == 0
            &&& p.len() == 2 ==> (s->0).2 == "http"@
            &&& p.len() > 2 ==> (s->0).2 == p[2]
            &&& (p.len() == 2 || p.len() == 3) ==> (s->0).3 is None
            &&& p.len() > 3 ==> (s->0).3 == Some(p[3])
        }),
{
}

/// What stands in a packet is what is read from it.
pub proof fn packet_is_read_as_it_is(
    p: DiscoveryPacket,
    parts: lan_discovery::PacketParts,
    name: Seq<char>,
)
    requires
        p.is_read_from(parts),
    ensures
        p.magic@ == parts.0,
        p.version == parts.1,
        p.agent_id@ == parts.2,
        p.lan_ip@ == parts.3,
        p.api_port == parts.4,
        chars::views(p.capabilities@) == parts.5,
        p.timestamp == parts.7,
        p.services@.dom().contains(name) <==> exists|i: int|
            0 <= i < parts.6.len() && (#[trigger] parts.6[i]).0 == name,
{
    lemma_collected(parts.6, name);
    assert(p.services@.map_values(|s: LocalService| s@).dom() =~= p.services@.dom());
}

proof fn lemma_collected(
    services: Seq<(Seq<char>, lan_discovery::ServiceParts)>,
    name: Seq<char>,
)
    ensures
        DiscoveryPacket::collected(services).dom().contains(name) <==> exists|i: int|
            0 <= i < services.len() && (#[trigger] services[i]).0 == name,
    decreases services.len(),
{
    if services.len() > 0 {
        let rest = services.drop_last();
        lemma_collected(rest, name);
        if exists|i: int| 0 <= i < rest.len() && (#[trigger] rest[i]).0 == name {
            let i = choose|i: int| 0 <= i < rest.len() && (#[trigger] rest[i]).0 == name;
            assert(services[i].0 == name);
        }
        if services.last().0 == name {
            assert(services[services.len() - 1].0 == name);
        }
        if exists|i: int| 0 <= i < services.len() && (#[trigger] services[i]).0 == name {
            let i = choose|i: int| 0 <= i < services.len() && (#[trigger] services[i]).0 == name;
            if i < rest.len() {
                assert(rest[i].0 == name);
            }
        }
    }
}

/// Each service of this agent is offered under its name.
pub proof fn services_are_offered_by_name(services: Seq<LocalService>, s: LocalService)
    ensures
        lan_discovery::offered(Seq::empty()) == Map::<Seq<char>, LocalService>::empty(),
        lan_discovery::offered(services.push(s)) == lan_discovery::offered(services).insert(
            s.service_id@,
            s,
        ),
{
    assert(services.push(s).drop_last() =~= services);
}

/// A packet begins with the bytes of "XJPA".
pub proof fn packet_begins_with_its_mark(bytes: Seq<u8>)
    ensures
        lan_discovery::begins_with_magic(bytes) <==> bytes.len() >= 4 && bytes[0] == 88 && bytes[1]
            == 74 && bytes[2] == 80 && bytes[3] == 65,
{
    let magic = lan_discovery::BROADCAST_MAGIC@;
    assert(magic.len() == 4);
    if bytes.len() >= 4 {
        let t = bytes.take(4);
        assert(t[0] == bytes[0] && t[1] == bytes[1] && t[2] == bytes[2] && t[3] == bytes[3]);
        if bytes[0] == 88 && bytes[1] == 74 && bytes[2] == 80 && bytes[3] == 65 {
            assert(t =~= magic);
        }
    }
}

/// An agent that is heard of has been seen now, offers what its packet says and
/// is as healthy as it was found. A known one keeps its address and the time
/// when it was discovered.
pub proof fn agent_is_heard_of(
    peer: DiscoveredPeer,
    old_peer: Option<DiscoveredPeer>,
    packet: DiscoveryPacket,
    healthy: bool,
    latency: Option<u64>,
    now: Timestamp,
)
    requires
        lan_discovery::heard_of(peer, old_peer, packet, healthy, latency, now),
    ensures
        peer.last_seen == now,
        peer.healthy == healthy,
        peer.latency_ns == latency,
        peer.services == packet.services,
        peer.capabilities == packet.capabilities,
        old_peer is None ==> peer.agent_id@ == packet.agent_id@ && peer.lan_ip == packet.lan_ip
            && peer.api_port == packet.api_port && peer.discovered_at == now,
        old_peer is Some ==> peer.agent_id == old_peer->0.agent_id && peer.lan_ip
            == old_peer->0.lan_ip && peer.api_port == old_peer->0.api_port && peer.discovered_at
            == old_peer->0.discovered_at,
{
}

/// An agent is forgotten exactly when it has not been seen for more than 120
/// seconds.
pub proof fn silent_agent_is_forgotten(lan: LanDiscovery, now: Timestamp, id: Seq<char>)
    ensures
        lan.after_cleanup(now).dom().contains(id) <==> lan@.peers.dom().contains(id)
            && now.instant() - lan@.peers[id].last_seen.instant() <= 120_000_000_000,
        lan.after_cleanup(now).dom().contains(id) ==> lan.after_cleanup(now)[id] == lan@.peers[id],
{
}

/// The healthy agents and the services are counted agent by agent.
pub proof fn agents_are_counted(
    keys: Seq<Seq<char>>,
    peers: Map<Seq<char>, DiscoveredPeer>,
    k: Seq<char>,
)
    ensures
        lan_discovery::healthy_among(Seq::empty(), peers) == 0,
        lan_discovery::services_among(Seq::empty(), peers) == 0,
        peers[k].healthy ==> lan_discovery::healthy_among(keys.push(k), peers)
            == lan_discovery::healthy_among(keys, peers) + 1 && lan_discovery::healthy_list(
            keys.push(k),
            peers,
        ) == lan_discovery::healthy_list(keys, peers).push(peers[k]),
        !peers[k].healthy ==> lan_discovery::healthy_among(keys.push(k), peers)
            == lan_discovery::healthy_among(keys, peers) && lan_discovery::healthy_list(
            keys.push(k),
            peers,
        ) == lan_discovery::healthy_list(keys, peers),
        lan_discovery::services_among(keys.push(k), peers) == lan_discovery::services_among(
            keys,
            peers,
        ) + peers[k].services@.dom().len(),
{
    assert(keys.push(k).drop_last() =~= keys);
    let f = |n: Seq<char>| lan_discovery::if_healthy(peers[n]);
    assert(keys.push(k).map_values(f).drop_last() =~= keys.map_values(f));
}

/// The statistics of the discovery are those of its agents.
pub proof fn statistics_are_those_of_the_agents(lan: LanDiscovery, r: LanDiscoveryStats)
    requires
        lan.has_stats(r),
    ensures
        r.enabled == lan@.config.enabled,
        r.agent_id == lan@.config.agent_id,
        chars::opt_view(r.local_ip) == lan@.local_ip,
        r.broadcast_port == lan@.config.broadcast_port,
        r.total_peers == lan@.peers.dom().len(),
        r.healthy_peers == lan_discovery::healthy_among(lan.peer_order(), lan@.peers),
        r.local_services == lan@.config.local_services@.len(),
{
}

/// An address is private exactly where its four numbers begin with 10, with 172
/// and 16 to 31, or with 192 and 168.
pub proof fn private_addresses(
    ip: Seq<char>,
    pieces: Seq<Seq<char>>,
    a: int,
    b: int,
    c: int,
    d: int,
)
    requires
        pieces == split::split_spec(ip, '.'),
        pieces.len() == 4,
        number::parse_spec(pieces[0], 255) == Some(a),
        number::parse_spec(pieces[1], 255) == Some(b),
        number::parse_spec(pieces[2], 255) == Some(c),
        number::parse_spec(pieces[3], 255) == Some(d),
    ensures
        network::private_ip(ip) <==> a == 10 || (a == 172 && 16 <= b <= 31) || (a == 192 && b
            == 168),
{
    let o = pieces.map_values(|s: Seq<char>| network::octet(s));
    reveal_with_fuel(crate::collections::keep_some, 5);
    assert(o.drop_last().drop_last().drop_last().drop_last().len() == 0);
    assert(network::octets(ip) =~= seq![a, b, c, d]);
}

/// The address of this host is the first private one that its tool shows.
pub proof fn first_private_address_counts(
    tool: AddressTool,
    lines: Seq<Seq<char>>,
    i: int,
    ip: Seq<char>,
)
    requires
        0 <= i <= lines.len(),
    ensures
        network::first_address(tool, lines, i) is None <==> forall|k: int|
            i <= k < lines.len() ==> network::line_address(tool, #[trigger] lines[k]) is None,
        network::first_address(tool, lines, i) == Some(ip) ==> exists|k: int|
            {
                &&& i <= k < lines.len()
                &&& network::line_address(tool, #[trigger] lines[k]) == Some(ip)
                &&& forall|j: int|
                    i <= j < k ==> network::line_address(tool, #[trigger] lines[j]) is None
            },
    decreases lines.len() - i,
{
    if i < lines.len() {
        first_private_address_counts(tool, lines, i + 1, ip);
        if network::line_address(tool, lines[i]) is Some {
            assert(network::line_address(tool, lines[i]) is Some);
        } else if network::first_address(tool, lines, i) == Some(ip) {
            let k = choose|k: int|
                {
                    &&& i + 1 <= k < lines.len()
                    &&& network::line_address(tool, #[trigger] lines[k]) == Some(ip)
                    &&& forall|j: int|
                        i + 1 <= j < k ==> network::line_address(tool, #[trigger] lines[j]) is None
                };
            assert(forall|j: int|
                i <= j < k ==> network::line_address(tool, #[trigger] lines[j]) is None);
        }
    }
}

/// A line shows an address where it speaks of one: for `ipconfig` what stands
/// behind the colon of a line on IPv4, for `ifconfig` the second word of a line
/// on inet that is not of the loop. Only a private address is taken.
pub proof fn lines_show_addresses(line: Seq<char>, stdout: Seq<char>)
    ensures
        ({
            let p = split::split_spec(line, ':');
            let shows = search::has_substring(line, "IPv4"@) && p.len() > 1
                && network::private_ip(split::trim_spec(p[1]));
            &&& shows ==> network::line_address(AddressTool::Ipconfig, line) == Some(
                split::trim_spec(p[1]),
            )
            &&& !shows ==> network::line_address(AddressTool::Ipconfig, line) is None
        }),
        ({
            let w = edit::words_spec(line);
            let shows = search::has_substring(line, "inet "@) && !search::has_substring(
                line,
                "127.0.0.1"@,
            ) && w.len() > 1 && network::private_ip(w[1]);
            &&& shows ==> network::line_address(AddressTool::Ifconfig, line) == Some(w[1])
            &&& !shows ==> network::line_address(AddressTool::Ifconfig, line) is None
        }),
        ({
            let w = edit::words_spec(stdout);
            let shows = w.len() > 0 && network::private_ip(w[0]);
            &&& shows ==> network::local_ip_spec(AddressTool::Hostname, stdout) == Some(w[0])
            &&& !shows ==> network::local_ip_spec(AddressTool::Hostname, stdout) is None
        }),
{
}

} // verus!
