//! Where a service is reached: of all that is known of it, the nearest
//! endpoint is taken.

use vstd::prelude::*;

use crate::collections::StrMap;
use crate::config::environment::Environment;
use crate::services::lan_discovery;
use crate::services::lan_discovery::{DiscoveredPeer, LanDiscovery};
use crate::services::mesh;
use crate::services::mesh::{asks_mesh, still_remembered, MeshClient};
use crate::text::chars;
use crate::text::split;
use crate::text::split::{split, split_once};

verus! {

/// Nanoseconds for which an endpoint is remembered.
pub const CACHE_NS: u64 = 30_000_000_000;

/// Where an endpoint is known from.
#[derive(Clone, Copy, Debug, PartialEq, Eq, Structural)]
pub enum EndpointSource {
    /// This host offers the service.
    Local,
    /// An agent in the local network offers it.
    LanPeer,
    /// The mesh knows it.
    Mesh,
    /// The configuration names it.
    Config,
    /// It is taken where nothing else is known.
    Fallback,
}

impl EndpointSource {
    /// The rank of the source: the smaller, the better.
    pub open spec fn rank(self) -> i32 {
        match self {
            EndpointSource::Local => 0,
            EndpointSource::LanPeer => 10,
            EndpointSource::Mesh => 20,
            EndpointSource::Config => 30,
            EndpointSource::Fallback => 100,
        }
    }

    /// The rank of the source: the smaller, the better.
    pub fn priority(&self) -> (r: i32)
        ensures
            r == self.rank(),
    {
        match self {
            EndpointSource::Local => 0,
            EndpointSource::LanPeer => 10,
            EndpointSource::Mesh => 20,
            EndpointSource::Config => 30,
            EndpointSource::Fallback => 100,
        }
    }

    /// The name of the source.
    pub open spec fn name(self) -> Seq<char> {
        match self {
            EndpointSource::Local => "Local"@,
            EndpointSource::LanPeer => "LanPeer"@,
            EndpointSource::Mesh => "Mesh"@,
            EndpointSource::Config => "Config"@,
            EndpointSource::Fallback => "Fallback"@,
        }
    }

    /// The name of the source.
    pub fn as_str(&self) -> (r: &'static str)
        ensures
            r@ == self.name(),
    {
        match self {
            EndpointSource::Local => "Local",
            EndpointSource::LanPeer => "LanPeer",
            EndpointSource::Mesh => "Mesh",
            EndpointSource::Config => "Config",
            EndpointSource::Fallback => "Fallback",
        }
    }
}

/// Where a service is reached.
#[derive(Debug)]
pub struct ServiceEndpoint {
    /// The address; empty where none is known.
    pub url: String,
    pub source: EndpointSource,
    /// How long an answer takes, in nanoseconds.
    pub latency_ns: Option<u64>,
    pub healthy: bool,
    /// The agent that offers the service, where it is one of the local
    /// network.
    pub peer_agent_id: Option<String>,
}

/// The contents of a `ServiceEndpoint`.
pub ghost struct EndpointView {
    pub url: Seq<char>,
    pub source: EndpointSource,
    pub latency_ns: Option<u64>,
    pub healthy: bool,
    pub peer: Option<Seq<char>>,
}

impl View for ServiceEndpoint {
    type V = EndpointView;

    open spec fn view(&self) -> EndpointView {
        EndpointView {
            url: self.url@,
            source: self.source,
            latency_ns: self.latency_ns,
            healthy: self.healthy,
            peer: chars::opt_view(self.peer_agent_id),
        }
    }
}

impl Clone for ServiceEndpoint {
    fn clone(&self) -> (r: ServiceEndpoint)
        ensures
            r == *self,
    {
        ServiceEndpoint {
            url: self.url.clone(),
            source: self.source,
            latency_ns: self.latency_ns,
            healthy: self.healthy,
            peer_agent_id: self.peer_agent_id.clone(),
        }
    }
}

/// An endpoint that answers, from a source that tells no latency.
pub open spec fn plain_endpoint(url: Seq<char>, source: EndpointSource) -> EndpointView {
    EndpointView { url, source, latency_ns: None, healthy: true, peer: None }
}

/// An endpoint on this host.
pub open spec fn local_endpoint(url: Seq<char>) -> EndpointView {
    EndpointView {
        url,
        source: EndpointSource::Local,
        latency_ns: Some(0),
        healthy: true,
        peer: None,
    }
}

/// The endpoint of a service that is not known.
pub open spec fn no_endpoint() -> EndpointView {
    EndpointView {
        url: Seq::empty(),
        source: EndpointSource::Fallback,
        latency_ns: None,
        healthy: false,
        peer: None,
    }
}

fn endpoint(url: String, source: EndpointSource) -> (r: ServiceEndpoint)
    ensures
        r@ == plain_endpoint(url@, source),
{
    ServiceEndpoint { url, source, latency_ns: None, healthy: true, peer_agent_id: None }
}

fn endpoint_here(url: String) -> (r: ServiceEndpoint)
    ensures
        r@ == local_endpoint(url@),
{
    ServiceEndpoint {
        url,
        source: EndpointSource::Local,
        latency_ns: Some(0),
        healthy: true,
        peer_agent_id: None,
    }
}

/// The services that are known from the configuration.
pub struct ServiceRouterConfig {
    /// What this host offers.
    pub local_services: StrMap<String>,
    /// What the configuration names.
    pub configured_endpoints: StrMap<String>,
    /// What is taken where nothing else is known.
    pub fallback_endpoints: StrMap<String>,
}

/// The entry that an item "service_id=url" writes. The address may hold
/// equals signs.
pub open spec fn entry_of(item: Seq<char>) -> Option<(Seq<char>, Seq<char>)> {
    split::split_once_spec(item, '=')
}

/// The entries of the first items, by the names of the services; the later one
/// of two with the same name.
pub open spec fn entries_of(items: Seq<Seq<char>>) -> Map<Seq<char>, Seq<char>>
    decreases items.len(),
{
    if items.len() == 0 {
        Map::empty()
    } else {
        match entry_of(items.last()) {
            Some((k, v)) => entries_of(items.drop_last()).insert(k, v),
            None => entries_of(items.drop_last()),
        }
    }
}

/// The services that a text "service_id=url,service_id=url" writes. Items of
/// another form are left out.
pub open spec fn service_map_of(text: Seq<char>) -> Map<Seq<char>, Seq<char>> {
    entries_of(split::split_spec(text, ','))
}

/// The contents of a map of texts.
pub open spec fn text_map(m: Map<Seq<char>, String>) -> Map<Seq<char>, Seq<char>> {
    m.map_values(|s: String| s@)
}

/// Reads the services that a text writes.
pub fn parse_service_map(s: &str) -> (r: StrMap<String>)
    ensures
        text_map(r@) == service_map_of(s@),
{
    let items = split(s, ',');
    let ghost all = split::split_spec(s@, ',');
    let mut r: StrMap<String> = StrMap::new();
    let mut i: usize = 0;
    assert(text_map(r@) =~= entries_of(all.take(0)));
    while i < items.len()
        invariant
            i <= items@.len(),
            all == split::split_spec(s@, ','),
            chars::views(items@) == all,
            text_map(r@) == entries_of(all.take(i as int)),
        decreases items@.len() - i,
    {
        proof {
            assert(items@[i as int]@ == all[i as int]);
            assert(all.take(i + 1).drop_last() =~= all.take(i as int));
        }
        if let Some((k, v)) = split_once(items[i].as_str(), '=') {
            let ghost before = r@;
            r.insert(k, v);
            assert(text_map(r@) =~= text_map(before).insert(k@, v@));
        }
        i = i + 1;
    }
    assert(all.take(all.len() as int) =~= all);
    r
}

impl ServiceRouterConfig {
    /// This is the configuration that the environment gives.
    pub open spec fn is_from(self, env: &Environment) -> bool {
        &&& text_map(self.local_services@) == match env.value("ROUTER_LOCAL_SERVICES"@) {
            Some(s) => service_map_of(s),
            None => Map::empty(),
        }
        &&& text_map(self.configured_endpoints@) == match env.value("ROUTER_ENDPOINTS"@) {
            Some(s) => service_map_of(s),
            None => Map::empty(),
        }
        &&& text_map(self.fallback_endpoints@) == Map::<Seq<char>, Seq<char>>::empty().insert(
            "deploy-center"@,
            "https://auth.xiaojinpro.com"@,
        )
    }

    /// Reads the configuration.
    pub fn from_env(env: &Environment) -> (r: ServiceRouterConfig)
        ensures
            r.is_from(env),
    {
        let local_services = match env.var("ROUTER_LOCAL_SERVICES") {
            Some(s) => parse_service_map(s.as_str()),
            None => {
                let none: StrMap<String> = StrMap::new();
                assert(text_map(none@) =~= Map::empty());
                none
            },
        };
        let configured_endpoints = match env.var("ROUTER_ENDPOINTS") {
            Some(s) => parse_service_map(s.as_str()),
            None => {
                let none: StrMap<String> = StrMap::new();
                assert(text_map(none@) =~= Map::empty());
                none
            },
        };
        let mut fallback_endpoints: StrMap<String> = StrMap::new();
        let url = "https://auth.xiaojinpro.com".to_owned();
        fallback_endpoints.insert("deploy-center".to_owned(), url);
        assert(text_map(fallback_endpoints@) =~= Map::<Seq<char>, Seq<char>>::empty().insert(
            "deploy-center"@,
            "https://auth.xiaojinpro.com"@,
        ));
        ServiceRouterConfig { local_services, configured_endpoints, fallback_endpoints }
    }
}

/// An endpoint that is remembered.
#[derive(Debug)]
pub struct CachedEndpoint {
    pub endpoint: ServiceEndpoint,
    /// When it was found, in nanoseconds of a clock that never goes back.
    pub cached_at_ns: u64,
}

/// Finds endpoints.
pub struct ServiceRouter {
    config: ServiceRouterConfig,
    cache: StrMap<CachedEndpoint>,
}

/// The contents of a `ServiceRouter`.
pub ghost struct RouterView {
    pub local: Map<Seq<char>, Seq<char>>,
    pub configured: Map<Seq<char>, Seq<char>>,
    pub fallback: Map<Seq<char>, Seq<char>>,
    pub cache: Map<Seq<char>, CachedEndpoint>,
}

impl View for ServiceRouter {
    type V = RouterView;

    closed spec fn view(&self) -> RouterView {
        RouterView {
            local: text_map(self.config.local_services@),
            configured: text_map(self.config.configured_endpoints@),
            fallback: text_map(self.config.fallback_endpoints@),
            cache: self.cache@,
        }
    }
}

/// The discovery knows an agent in the local network that offers the service.
pub open spec fn lan_offers(lan: Option<lan_discovery::LanView>, service_id: Seq<char>) -> bool {
    lan matches Some(l) && l.config.enabled && lan_discovery::has_provider(l.peers, service_id)
}

/// The endpoint is that of an agent in the local network which offers the
/// service and answers no slower than any other that does.
pub open spec fn is_lan_endpoint(
    e: EndpointView,
    lan: lan_discovery::LanView,
    service_id: Seq<char>,
) -> bool {
    exists|id: Seq<char>| #[trigger]
        lan_discovery::is_best_provider(lan.peers, service_id, id) && e == (EndpointView {
            url: lan_discovery::service_url(
                lan.peers[id].lan_ip@,
                lan.peers[id].services@[service_id],
            ),
            source: EndpointSource::LanPeer,
            latency_ns: lan.peers[id].latency_ns,
            healthy: true,
            peer: None,
        })
}

impl RouterView {
    /// The best endpoint of a service, from the discovery and from what the
    /// mesh said of it.
    pub open spec fn resolves_to(
        self,
        service_id: Seq<char>,
        lan: Option<lan_discovery::LanView>,
        mesh_url: Option<Seq<char>>,
        e: EndpointView,
    ) -> bool {
        if self.local.dom().contains(service_id) {
            e == local_endpoint(self.local[service_id])
        } else if lan_offers(lan, service_id) {
            is_lan_endpoint(e, lan->0, service_id)
        } else if mesh_url is Some {
            e == plain_endpoint(mesh_url->0, EndpointSource::Mesh)
        } else if self.configured.dom().contains(service_id) {
            e == plain_endpoint(self.configured[service_id], EndpointSource::Config)
        } else if self.fallback.dom().contains(service_id) {
            e == plain_endpoint(self.fallback[service_id], EndpointSource::Fallback)
        } else {
            e == no_endpoint()
        }
    }

    /// The source knows an endpoint of the service.
    pub open spec fn knows(
        self,
        source: EndpointSource,
        service_id: Seq<char>,
        lan: Option<lan_discovery::LanView>,
        mesh_url: Option<Seq<char>>,
    ) -> bool {
        match source {
            EndpointSource::Local => self.local.dom().contains(service_id),
            EndpointSource::LanPeer => lan_offers(lan, service_id),
            EndpointSource::Mesh => mesh_url is Some,
            EndpointSource::Config => self.configured.dom().contains(service_id),
            EndpointSource::Fallback => self.fallback.dom().contains(service_id),
        }
    }

    /// The endpoint that is remembered, where it still is.
    pub open spec fn remembered(self, service_id: Seq<char>, clock_ns: u64) -> Option<
        ServiceEndpoint,
    > {
        if self.cache.dom().contains(service_id) && mesh::is_remembered(
            self.cache[service_id].cached_at_ns,
            clock_ns,
            CACHE_NS,
        ) {
            Some(self.cache[service_id].endpoint)
        } else {
            None
        }
    }
}

/// The contents of a discovery, where there is one.
pub open spec fn lan_view(lan: Option<&LanDiscovery>) -> Option<lan_discovery::LanView> {
    match lan {
        Some(l) => Some(l@),
        None => None,
    }
}

/// The endpoints that a map names, in the order of its keys.
pub open spec fn map_endpoints(
    keys: Seq<Seq<char>>,
    m: Map<Seq<char>, Seq<char>>,
    source: EndpointSource,
) -> Seq<(Seq<char>, EndpointView)> {
    keys.map_values(
        |k: Seq<char>|
            (
                k,
                if source is Local {
                    local_endpoint(m[k])
                } else {
                    plain_endpoint(m[k], source)
                },
            ),
    )
}

/// The endpoints that an agent in the local network offers.
pub open spec fn peer_endpoints(peer: DiscoveredPeer) -> Seq<(Seq<char>, EndpointView)> {
    peer.services.keys().map_values(
        |k: Seq<char>|
            (
                k,
                EndpointView {
                    url: lan_discovery::service_url(peer.lan_ip@, peer.services@[k]),
                    source: EndpointSource::LanPeer,
                    latency_ns: peer.latency_ns,
                    healthy: peer.healthy,
                    peer: Some(peer.agent_id@),
                },
            ),
    )
}

/// For each of the agents, the services in order are all that it offers.
pub open spec fn all_services_listed(peers: Seq<DiscoveredPeer>) -> bool {
    forall|i: int|
        0 <= i < peers.len() ==> (#[trigger] peers[i]).services.keys().no_duplicates()
            && peers[i].services.keys().to_set() == peers[i].services@.dom()
}

/// The endpoints that some agents offer, in order.
pub open spec fn peers_endpoints(peers: Seq<DiscoveredPeer>) -> Seq<(Seq<char>, EndpointView)>
    decreases peers.len(),
{
    if peers.len() == 0 {
        Seq::empty()
    } else {
        peers_endpoints(peers.drop_last()) + peer_endpoints(peers.last())
    }
}

/// The contents of a list of endpoints.
pub open spec fn endpoint_list(v: Seq<(String, ServiceEndpoint)>) -> Seq<
    (Seq<char>, EndpointView),
> {
    v.map_values(|e: (String, ServiceEndpoint)| (e.0@, e.1@))
}

/// The endpoint of a service was asked for: it is the one that is remembered,
/// or else the best one, which is then remembered.
pub open spec fn got(
    before: RouterView,
    after: RouterView,
    service_id: Seq<char>,
    lan: Option<lan_discovery::LanView>,
    mesh_url: Option<Seq<char>>,
    clock_ns: u64,
    r: ServiceEndpoint,
) -> bool {
    match before.remembered(service_id, clock_ns) {
        Some(e) => r == e && after == before,
        None => {
            &&& before.resolves_to(service_id, lan, mesh_url, r@)
            &&& after == (RouterView {
                cache: before.cache.insert(
                    service_id,
                    CachedEndpoint { endpoint: r, cached_at_ns: clock_ns },
                ),
                ..before
            })
        },
    }
}

impl ServiceRouter {
    /// The names of the services that this host offers, in order.
    pub closed spec fn local_order(&self) -> Seq<Seq<char>> {
        self.config.local_services.keys()
    }

    /// The names of the services that the configuration names, in order.
    pub closed spec fn configured_order(&self) -> Seq<Seq<char>> {
        self.config.configured_endpoints.keys()
    }

    /// The names of the services with an endpoint of last resort, in order.
    pub closed spec fn fallback_order(&self) -> Seq<Seq<char>> {
        self.config.fallback_endpoints.keys()
    }

    /// A router that remembers nothing.
    pub fn new(config: ServiceRouterConfig) -> (r: ServiceRouter)
        ensures
            r@ == (RouterView {
                local: text_map(config.local_services@),
                configured: text_map(config.configured_endpoints@),
                fallback: text_map(config.fallback_endpoints@),
                cache: Map::empty(),
            }),
    {
        ServiceRouter { config, cache: StrMap::new() }
    }

    /// Whether the mesh has to be asked for a service: neither this host nor
    /// an agent in the local network offers it.
    pub fn needs_mesh(&self, service_id: &str, lan: Option<&LanDiscovery>) -> (r: bool)
        ensures
            r == (!self@.local.dom().contains(service_id@) && !lan_offers(
                lan_view(lan),
                service_id@,
            )),
    {
        if self.config.local_services.contains_key(service_id) {
            return false;
        }
        match lan {
            Some(l) => !(l.is_enabled() && l.get_service_provider(service_id).is_some()),
            None => true,
        }
    }

    fn lan_endpoint(service_id: &str, lan: &LanDiscovery) -> (r: Option<ServiceEndpoint>)
        ensures
            r is Some <==> lan_offers(Some(lan@), service_id@),
            r matches Some(e) ==> is_lan_endpoint(e@, lan@, service_id@),
    {
        if !lan.is_enabled() {
            return None;
        }
        match lan.get_service_provider(service_id) {
            Some(peer) => {
                let ghost id = choose|id: Seq<char>| #[trigger]
                    lan_discovery::is_best_provider(lan@.peers, service_id@, id) && *peer
                        == lan@.peers[id];
                match peer.get_service_url(service_id) {
                    Some(url) => {
                        let e = ServiceEndpoint {
                            url,
                            source: EndpointSource::LanPeer,
                            latency_ns: peer.latency_ns,
                            healthy: peer.healthy,
                            peer_agent_id: None,
                        };
                        assert(lan_discovery::is_best_provider(lan@.peers, service_id@, id));
                        Some(e)
                    },
                    None => None,
                }
            },
            None => None,
        }
    }

    /// Finds the best endpoint of a service: on this host, in the local
    /// network, through the mesh, from the configuration, and as a last
    /// resort. What the mesh said is told by `mesh_url`.
    pub fn resolve_endpoint(
        &self,
        service_id: &str,
        lan: Option<&LanDiscovery>,
        mesh_url: Option<String>,
    ) -> (r: ServiceEndpoint)
        ensures
            self@.resolves_to(service_id@, lan_view(lan), chars::opt_view(mesh_url), r@),
    {
        if let Some(url) = self.config.local_services.get(service_id) {
            return endpoint_here(url.clone());
        }
        if let Some(l) = lan {
            if let Some(e) = ServiceRouter::lan_endpoint(service_id, l) {
                return e;
            }
        }
        if let Some(url) = mesh_url {
            return endpoint(url, EndpointSource::Mesh);
        }
        if let Some(url) = self.config.configured_endpoints.get(service_id) {
            return endpoint(url.clone(), EndpointSource::Config);
        }
        if let Some(url) = self.config.fallback_endpoints.get(service_id) {
            return endpoint(url.clone(), EndpointSource::Fallback);
        }
        let url = String::new();
        assert(url@ =~= Seq::<char>::empty());
        ServiceEndpoint {
            url,
            source: EndpointSource::Fallback,
            latency_ns: None,
            healthy: false,
            peer_agent_id: None,
        }
    }

    /// The endpoint of a service that is remembered.
    pub fn cached(&self, service_id: &str, clock_ns: u64) -> (r: Option<ServiceEndpoint>)
        ensures
            r == self@.remembered(service_id@, clock_ns),
    {
        match self.cache.get(service_id) {
            Some(c) => if still_remembered(c.cached_at_ns, clock_ns, CACHE_NS) {
                Some(c.endpoint.clone())
            } else {
                None
            },
            None => None,
        }
    }

    /// Whether the mesh has to be asked before the endpoint of a service is
    /// taken: it can be asked, none is remembered, and none is nearer.
    pub fn must_ask_mesh(
        &self,
        service_id: &str,
        lan: Option<&LanDiscovery>,
        mesh: Option<&MeshClient>,
        clock_ns: u64,
    ) -> (r: bool)
        ensures
            r == (self@.remembered(service_id@, clock_ns) is None
                && !self@.local.dom().contains(service_id@) && !lan_offers(
                lan_view(lan),
                service_id@,
            ) && mesh::can_be_asked(mesh)),
    {
        self.cached(service_id, clock_ns).is_none() && self.needs_mesh(service_id, lan)
            && asks_mesh(mesh)
    }

    /// The endpoint of a service: the one that is remembered, or the best one,
    /// which is then remembered.
    pub fn get_endpoint(
        &mut self,
        service_id: &str,
        lan: Option<&LanDiscovery>,
        mesh_url: Option<String>,
        clock_ns: u64,
    ) -> (r: ServiceEndpoint)
        ensures
            got(
                old(self)@,
                final(self)@,
                service_id@,
                lan_view(lan),
                chars::opt_view(mesh_url),
                clock_ns,
                r,
            ),
    {
        if let Some(e) = self.cached(service_id, clock_ns) {
            return e;
        }
        let e = self.resolve_endpoint(service_id, lan, mesh_url);
        self.cache.insert(
            service_id.to_owned(),
            CachedEndpoint { endpoint: e.clone(), cached_at_ns: clock_ns },
        );
        e
    }

    /// The endpoint of the object storage.
    pub fn get_rustfs_endpoint(
        &mut self,
        lan: Option<&LanDiscovery>,
        mesh_url: Option<String>,
        clock_ns: u64,
    ) -> (r: ServiceEndpoint)
        ensures
            got(
                old(self)@,
                final(self)@,
                "rustfs"@,
                lan_view(lan),
                chars::opt_view(mesh_url),
                clock_ns,
                r,
            ),
    {
        self.get_endpoint("rustfs", lan, mesh_url, clock_ns)
    }

    /// The endpoint of the alignment service.
    pub fn get_nfa_endpoint(
        &mut self,
        lan: Option<&LanDiscovery>,
        mesh_url: Option<String>,
        clock_ns: u64,
    ) -> (r: ServiceEndpoint)
        ensures
            got(
                old(self)@,
                final(self)@,
                "nfa"@,
                lan_view(lan),
                chars::opt_view(mesh_url),
                clock_ns,
                r,
            ),
    {
        self.get_endpoint("nfa", lan, mesh_url, clock_ns)
    }

    /// The address of a service.
    pub fn get_url(
        &mut self,
        service_id: &str,
        lan: Option<&LanDiscovery>,
        mesh_url: Option<String>,
        clock_ns: u64,
    ) -> (r: String)
        ensures
            exists|e: ServiceEndpoint|
                r == e.url && #[trigger] got(
                    old(self)@,
                    final(self)@,
                    service_id@,
                    lan_view(lan),
                    chars::opt_view(mesh_url),
                    clock_ns,
                    e,
                ),
    {
        let e = self.get_endpoint(service_id, lan, mesh_url, clock_ns);
        let url = e.url.clone();
        assert(got(
            old(self)@,
            self@,
            service_id@,
            lan_view(lan),
            chars::opt_view(mesh_url),
            clock_ns,
            e,
        ));
        url
    }

    /// The address of an endpoint, or another one where there is none.
    pub fn get_url_or(endpoint: &ServiceEndpoint, fallback: &str) -> (r: String)
        ensures
            r@ == if endpoint.url@.len() == 0 {
                fallback@
            } else {
                endpoint.url@
            },
    {
        if endpoint.url.as_str().unicode_len() == 0 {
            fallback.to_owned()
        } else {
            endpoint.url.clone()
        }
    }

    /// Forgets all endpoints.
    pub fn clear_cache(&mut self)
        ensures
            final(self)@ == (RouterView { cache: Map::empty(), ..old(self)@ }),
    {
        self.cache = StrMap::new();
    }

    fn push_map(
        r: &mut Vec<(String, ServiceEndpoint)>,
        m: &StrMap<String>,
        source: EndpointSource,
    )
        ensures
            endpoint_list(final(r)@) == endpoint_list(old(r)@) + map_endpoints(
                m.keys(),
                text_map(m@),
                source,
            ),
            m.keys().no_duplicates(),
            m.keys().to_set() == text_map(m@).dom(),
    {
        let n = m.len();
        assert(text_map(m@).dom() =~= m@.dom());
        let ghost start = endpoint_list(r@);
        let ghost all = map_endpoints(m.keys(), text_map(m@), source);
        let mut i: usize = 0;
        assert(start + all.take(0) =~= start);
        while i < n
            invariant
                n == m.keys().len(),
                i <= n,
                all == map_endpoints(m.keys(), text_map(m@), source),
                endpoint_list(r@) == start + all.take(i as int),
            decreases n - i,
        {
            let key = m.key_at(i).clone();
            let url = m.value_at(i).clone();
            let e = match source {
                EndpointSource::Local => endpoint_here(url),
                _ => endpoint(url, source),
            };
            let ghost before = r@;
            r.push((key, e));
            proof {
                assert(all[i as int] == (key@, e@));
                assert(endpoint_list(r@) =~= endpoint_list(before).push((key@, e@)));
                assert((start + all.take(i as int)).push(all[i as int]) =~= start + all.take(
                    i + 1,
                ));
            }
            i = i + 1;
        }
        assert(all.take(n as int) =~= all);
    }

    fn push_peer(r: &mut Vec<(String, ServiceEndpoint)>, peer: &DiscoveredPeer)
        ensures
            endpoint_list(final(r)@) == endpoint_list(old(r)@) + peer_endpoints(*peer),
            peer.services.keys().no_duplicates(),
            peer.services.keys().to_set() == peer.services@.dom(),
    {
        let n = peer.services.len();
        let ghost start = endpoint_list(r@);
        let ghost all = peer_endpoints(*peer);
        let mut i: usize = 0;
        assert(start + all.take(0) =~= start);
        while i < n
            invariant
                n == peer.services.keys().len(),
                i <= n,
                all == peer_endpoints(*peer),
                endpoint_list(r@) == start + all.take(i as int),
            decreases n - i,
        {
            let key = peer.services.key_at(i).clone();
            let e = ServiceEndpoint {
                url: lan_discovery::build_service_url(
                    peer.lan_ip.as_str(),
                    peer.services.value_at(i),
                ),
                source: EndpointSource::LanPeer,
                latency_ns: peer.latency_ns,
                healthy: peer.healthy,
                peer_agent_id: Some(peer.agent_id.clone()),
            };
            let ghost before = r@;
            r.push((key, e));
            proof {
                assert(all[i as int] == (key@, e@));
                assert(endpoint_list(r@) =~= endpoint_list(before).push((key@, e@)));
                assert((start + all.take(i as int)).push(all[i as int]) =~= start + all.take(
                    i + 1,
                ));
            }
            i = i + 1;
        }
        assert(all.take(n as int) =~= all);
    }

    /// All endpoints that are known without asking anybody: those of this
    /// host, of the agents in the local network that answer, of the
    /// configuration, and those of last resort.
    pub fn get_all_endpoints(&self, lan: Option<&LanDiscovery>) -> (r: Vec<
        (String, ServiceEndpoint),
    >)
        ensures
            endpoint_list(r@) == map_endpoints(
                self.local_order(),
                self@.local,
                EndpointSource::Local,
            ) + (match lan {
                Some(l) => if l@.config.enabled {
                    peers_endpoints(
                        lan_discovery::healthy_list(l.peer_order(), l@.peers),
                    )
                } else {
                    Seq::empty()
                },
                None => Seq::empty(),
            }) + map_endpoints(self.configured_order(), self@.configured, EndpointSource::Config)
                + map_endpoints(self.fallback_order(), self@.fallback, EndpointSource::Fallback),
            self.local_order().no_duplicates(),
            self.local_order().to_set() == self@.local.dom(),
            self.configured_order().no_duplicates(),
            self.configured_order().to_set() == self@.configured.dom(),
            self.fallback_order().no_duplicates(),
            self.fallback_order().to_set() == self@.fallback.dom(),
            lan matches Some(l) ==> l@.config.enabled ==> {
                &&& l.peer_order().no_duplicates()
                &&& l.peer_order().to_set() == l@.peers.dom()
                &&& all_services_listed(lan_discovery::healthy_list(l.peer_order(), l@.peers))
            },
    {
        let mut r: Vec<(String, ServiceEndpoint)> = Vec::new();
        let ghost start = endpoint_list(r@);
        ServiceRouter::push_map(&mut r, &self.config.local_services, EndpointSource::Local);
        let ghost first = map_endpoints(self.local_order(), self@.local, EndpointSource::Local);
        assert(start + first =~= first);
        let ghost second = match lan {
            Some(l) => if l@.config.enabled {
                peers_endpoints(lan_discovery::healthy_list(l.peer_order(), l@.peers))
            } else {
                Seq::empty()
            },
            None => Seq::empty(),
        };
        match lan {
            Some(l) => {
                if l.is_enabled() {
                    let peers = l.get_healthy_peers();
                    let ghost all = lan_discovery::peer_refs(peers@);
                    let mut i: usize = 0;
                    assert(first + peers_endpoints(all.take(0)) =~= first);
                    while i < peers.len()
                        invariant
                            i <= peers@.len(),
                            all == lan_discovery::peer_refs(peers@),
                            endpoint_list(r@) == first + peers_endpoints(all.take(i as int)),
                            all_services_listed(all.take(i as int)),
                        decreases peers@.len() - i,
                    {
                        ServiceRouter::push_peer(&mut r, peers[i]);
                        proof {
                            let more = all.take(i + 1);
                            assert(more.drop_last() =~= all.take(i as int));
                            assert(more.last() == *peers@[i as int]);
                            assert forall|j: int| 0 <= j < more.len() implies (
                            #[trigger] more[j]).services.keys().no_duplicates()
                                && more[j].services.keys().to_set() == more[j].services@.dom() by {
                                if j < i {
                                    assert(more[j] == all.take(i as int)[j]);
                                }
                            }
                            assert(first + peers_endpoints(all.take(i as int)) + peer_endpoints(
                                *peers@[i as int],
                            ) =~= first + peers_endpoints(more));
                        }
                        i = i + 1;
                    }
                    assert(all.take(all.len() as int) =~= all);
                } else {
                    assert(first + Seq::<(Seq<char>, EndpointView)>::empty() =~= first);
                }
            },
            None => {
                assert(first + Seq::<(Seq<char>, EndpointView)>::empty() =~= first);
            },
        }
        assert(endpoint_list(r@) == first + second);
        ServiceRouter::push_map(&mut r, &self.config.configured_endpoints, EndpointSource::Config);
        ServiceRouter::push_map(&mut r, &self.config.fallback_endpoints, EndpointSource::Fallback);
        r
    }
}

/// The endpoint that is found comes from the best source that knows the
/// service: no source of a better rank knows it. Only where no source does, the
/// endpoint has no address and does not answer.
pub proof fn best_source_is_taken(
    router: RouterView,
    service_id: Seq<char>,
    lan: Option<lan_discovery::LanView>,
    mesh_url: Option<Seq<char>>,
    e: EndpointView,
    source: EndpointSource,
)
    requires
        router.resolves_to(service_id, lan, mesh_url, e),
    ensures
        router.knows(source, service_id, lan, mesh_url) ==> e.source.rank() <= source.rank()
            && router.knows(e.source, service_id, lan, mesh_url) && e.healthy,
        !e.healthy ==> e == no_endpoint() && !router.knows(source, service_id, lan, mesh_url),
{
}

/// The sources are ranked: this host, the local network, the mesh, the
/// configuration, and the last resort.
pub proof fn sources_are_ranked(a: EndpointSource, b: EndpointSource)
    ensures
        a.rank() == b.rank() <==> a == b,
        EndpointSource::Local.rank() < EndpointSource::LanPeer.rank()
            < EndpointSource::Mesh.rank() < EndpointSource::Config.rank()
            < EndpointSource::Fallback.rank(),
{
}

} // verus!
