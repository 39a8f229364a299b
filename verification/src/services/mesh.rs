//! The service mesh: the agent registers itself at the deploy center and asks
//! it where services are reached.

use vstd::prelude::*;

use crate::collections;
use crate::collections::StrMap;
use crate::config::env::DEFAULT_PORT;
use crate::config::environment::Environment;
use crate::services::network;
use crate::services::network::AddressTool;
use crate::text::chars;
use crate::text::chars::{clone_strings, concat2, concat3, concat4, concat5, str_eq};
use crate::text::number;
use crate::text::number::parse_i32;
use crate::text::split;
use crate::text::split::{join_from, split};

verus! {

/// Nanoseconds for which an answer of the deploy center is remembered.
pub const CACHE_NS: u64 = 60_000_000_000;

/// Seconds that a request may take.
pub const REQUEST_TIMEOUT_SECS: u64 = 10;

/// Seconds between two heartbeats, where the environment does not say.
pub const DEFAULT_HEARTBEAT_SECS: u64 = 60;

/// Who tells the public address of this host.
pub const PUBLIC_IP_URL: &'static str = "https://api.ipify.org";

/// A service that this agent offers to the mesh.
#[derive(Debug)]
pub struct LocalServiceConfig {
    pub service_id: String,
    pub local_url: String,
    pub health_check_url: Option<String>,
}

/// The contents of a `LocalServiceConfig`: its name and where it is reached.
pub type MeshService = (Seq<char>, Seq<char>);

/// The contents of a list of services, none of which has a health check.
pub open spec fn mesh_services(v: Seq<LocalServiceConfig>) -> Seq<MeshService> {
    v.map_values(|s: LocalServiceConfig| (s.service_id@, s.local_url@))
}

/// No service has a health check of its own.
pub open spec fn without_checks(v: Seq<LocalServiceConfig>) -> bool {
    forall|i: int| 0 <= i < v.len() ==> (#[trigger] v[i]).health_check_url is None
}

/// The configuration of the mesh client.
#[derive(Debug)]
pub struct MeshConfig {
    pub registry_url: String,
    pub api_key: String,
    pub agent_id: String,
    pub agent_name: Option<String>,
    pub local_services: Vec<LocalServiceConfig>,
    pub heartbeat_secs: u64,
    pub enabled: bool,
}

/// The service that an item "service_id:local_url" of the configuration
/// writes. The address may hold colons.
pub open spec fn mesh_service_of(item: Seq<char>) -> Option<MeshService> {
    let parts = split::split_spec(item, ':');
    if parts.len() >= 2 {
        Some((parts[0], split::join_spec(parts.subrange(1, parts.len() as int), ":"@)))
    } else {
        None
    }
}

/// The services that a text writes.
pub open spec fn mesh_services_of(text: Seq<char>) -> Seq<MeshService> {
    collections::keep_some(
        split::split_spec(text, ',').map_values(|item: Seq<char>| mesh_service_of(item)),
    )
}

fn parse_mesh_service(item: &str) -> (r: Option<LocalServiceConfig>)
    ensures
        r is Some <==> mesh_service_of(item@) is Some,
        r matches Some(s) ==> mesh_service_of(item@) == Some((s.service_id@, s.local_url@))
            && s.health_check_url is None,
{
    let parts = split(item, ':');
    if parts.len() < 2 {
        return None;
    }
    assert(chars::views(parts@)[0] == parts@[0]@);
    Some(
        LocalServiceConfig {
            service_id: parts[0].clone(),
            local_url: join_from(&parts, 1, ":"),
            health_check_url: None,
        },
    )
}

/// Reads the services that a text writes.
pub fn parse_mesh_services(text: &str) -> (r: Vec<LocalServiceConfig>)
    ensures
        mesh_services(r@) == mesh_services_of(text@),
        without_checks(r@),
{
    let items = split(text, ',');
    let ghost all = split::split_spec(text@, ',').map_values(
        |item: Seq<char>| mesh_service_of(item),
    );
    let mut r: Vec<LocalServiceConfig> = Vec::new();
    let mut i: usize = 0;
    assert(mesh_services(r@) =~= collections::keep_some(all.take(0)));
    while i < items.len()
        invariant
            i <= items@.len(),
            chars::views(items@) == split::split_spec(text@, ','),
            all == split::split_spec(text@, ',').map_values(
                |item: Seq<char>| mesh_service_of(item),
            ),
            mesh_services(r@) == collections::keep_some(all.take(i as int)),
            without_checks(r@),
        decreases items@.len() - i,
    {
        proof {
            collections::lemma_keep_some_step(all, i as int);
            assert(items@[i as int]@ == chars::views(items@)[i as int]);
        }
        let ghost before = r@;
        if let Some(s) = parse_mesh_service(items[i].as_str()) {
            r.push(s);
            assert(mesh_services(r@) =~= mesh_services(before).push(
                (s.service_id@, s.local_url@),
            ));
        }
        i = i + 1;
    }
    assert(all.take(all.len() as int) =~= all);
    r
}

impl MeshConfig {
    /// Where the deploy center is reached.
    pub open spec fn registry(env: &Environment) -> Option<Seq<char>> {
        match env.value("MESH_REGISTRY_URL"@) {
            Some(url) => Some(url),
            None => env.either("DEPLOY_CENTER_URL"@, "DEPLOY_CENTER_CALLBACK_URL"@),
        }
    }

    /// This is the configuration that the environment gives, where the mesh is
    /// enabled.
    pub open spec fn is_from(self, env: &Environment) -> bool {
        &&& self.enabled
        &&& Some(self.registry_url@) == MeshConfig::registry(env)
        &&& self.api_key@ == match env.either("MESH_API_KEY"@, "DEPLOY_AGENT_API_KEY"@) {
            Some(s) => s,
            None => ""@,
        }
        &&& self.agent_id@ == match env.either("MESH_AGENT_ID"@, "TUNNEL_CLIENT_ID"@) {
            Some(s) => s,
            None => env.host(),
        }
        &&& chars::opt_view(self.agent_name) == env.value("MESH_AGENT_NAME"@)
        &&& mesh_services(self.local_services@) == match env.value("MESH_LOCAL_SERVICES"@) {
            Some(s) => mesh_services_of(s),
            None => Seq::empty(),
        }
        &&& without_checks(self.local_services@)
        &&& self.heartbeat_secs == env.number_or(
            "MESH_HEARTBEAT_INTERVAL_SECS"@,
            u64::MAX as int,
            DEFAULT_HEARTBEAT_SECS as int,
        )
    }

    /// Reads the configuration; none where the mesh is not enabled or the
    /// deploy center is not known.
    pub fn from_env(env: &Environment) -> (r: Option<MeshConfig>)
        ensures
            r is Some <==> env.exact_switch("MESH_ENABLED"@) && MeshConfig::registry(env) is Some,
            r matches Some(c) ==> c.is_from(env),
    {
        if !env.get_exact_switch("MESH_ENABLED") {
            return None;
        }
        let registry_url = match env.var("MESH_REGISTRY_URL") {
            Some(s) => s,
            None => match env.load_with_fallback(
                "DEPLOY_CENTER_URL",
                "DEPLOY_CENTER_CALLBACK_URL",
            ) {
                Some(s) => s,
                None => {
                    return None;
                },
            },
        };
        let api_key = match env.load_with_fallback("MESH_API_KEY", "DEPLOY_AGENT_API_KEY") {
            Some(s) => s,
            None => "".to_owned(),
        };
        let agent_id = match env.load_with_fallback("MESH_AGENT_ID", "TUNNEL_CLIENT_ID") {
            Some(s) => s,
            None => env.host_name(),
        };
        let local_services = match env.var("MESH_LOCAL_SERVICES") {
            Some(s) => parse_mesh_services(s.as_str()),
            None => {
                let none: Vec<LocalServiceConfig> = Vec::new();
                assert(mesh_services(none@) =~= Seq::empty());
                none
            },
        };
        Some(
            MeshConfig {
                registry_url,
                api_key,
                agent_id,
                agent_name: env.var("MESH_AGENT_NAME"),
                local_services,
                heartbeat_secs: env.get_u64(
                    "MESH_HEARTBEAT_INTERVAL_SECS",
                    DEFAULT_HEARTBEAT_SECS,
                ),
                enabled: true,
            },
        )
    }
}

/// The best endpoint of a service, as the deploy center gives it.
#[derive(Debug)]
pub struct MeshEndpoint {
    pub url: String,
    pub zone_name: String,
    pub resolution_reason: String,
}

impl Clone for MeshEndpoint {
    fn clone(&self) -> (r: MeshEndpoint)
        ensures
            r == *self,
    {
        MeshEndpoint {
            url: self.url.clone(),
            zone_name: self.zone_name.clone(),
            resolution_reason: self.resolution_reason.clone(),
        }
    }
}

/// An endpoint that is remembered.
#[derive(Debug)]
pub struct CachedMeshEndpoint {
    pub endpoint: MeshEndpoint,
    /// When it was learnt, in nanoseconds of a clock that never goes back.
    pub cached_at_ns: u64,
}

/// How the agent registers itself.
#[derive(Debug)]
pub struct AgentRegistration {
    pub agent_id: String,
    pub agent_name: Option<String>,
    pub lan_ip: Option<String>,
    pub wan_ip: Option<String>,
    pub api_port: Option<i32>,
    pub capabilities: Vec<String>,
    pub local_services: Vec<LocalServiceConfig>,
}

/// What is known of the network around this host.
#[derive(Debug)]
pub struct NetworkInfo {
    pub lan_ip: Option<String>,
    pub wan_ip: Option<String>,
    pub capabilities: Vec<String>,
}

/// The mesh client.
pub struct MeshClient {
    config: MeshConfig,
    cache: StrMap<CachedMeshEndpoint>,
    detected_zone: Option<String>,
}

/// The contents of a `MeshClient`.
pub ghost struct MeshView {
    pub config: MeshConfig,
    pub cache: Map<Seq<char>, CachedMeshEndpoint>,
    pub zone: Option<Seq<char>>,
}

impl MeshView {
    /// Where the deploy center is asked for a service.
    pub open spec fn resolve_url_spec(self, service_id: Seq<char>) -> Seq<char> {
        self.config.registry_url@ + "/mesh/resolve/"@ + service_id + "?agent_id="@
            + self.config.agent_id@ + match self.zone {
            Some(z) => "&zone_id="@ + z,
            None => Seq::empty(),
        }
    }
}

/// There is a mesh that can be asked for services.
pub open spec fn can_be_asked(mesh: Option<&MeshClient>) -> bool {
    match mesh {
        Some(m) => m@.config.enabled,
        None => false,
    }
}

/// Whether there is a mesh that can be asked for services.
pub fn asks_mesh(mesh: Option<&MeshClient>) -> (r: bool)
    ensures
        r == can_be_asked(mesh),
{
    match mesh {
        Some(m) => m.is_enabled(),
        None => false,
    }
}

/// How the search for a service goes on.
#[derive(Debug)]
pub enum ResolveStep {
    /// The address is known.
    Known { url: String },
    /// Ask the deploy center.
    Ask { url: String, api_key: String, agent_id: String },
}

impl View for MeshClient {
    type V = MeshView;

    closed spec fn view(&self) -> MeshView {
        MeshView {
            config: self.config,
            cache: self.cache@,
            zone: chars::opt_view(self.detected_zone),
        }
    }
}

/// The names of the services, each once, in the order in which they first
/// stand.
pub open spec fn distinct_names(services: Seq<MeshService>) -> Seq<Seq<char>>
    decreases services.len(),
{
    if services.len() == 0 {
        Seq::empty()
    } else {
        let less = distinct_names(services.drop_last());
        if less.contains(services.last().0) {
            less
        } else {
            less.push(services.last().0)
        }
    }
}

/// What `cached_at` learnt is still remembered at `clock_ns`.
pub open spec fn is_remembered(cached_at_ns: u64, clock_ns: u64, keep_ns: u64) -> bool {
    clock_ns < cached_at_ns + keep_ns
}

/// Whether what was learnt at one point of the clock is still remembered at
/// another.
pub fn still_remembered(cached_at_ns: u64, clock_ns: u64, keep_ns: u64) -> (r: bool)
    ensures
        r == is_remembered(cached_at_ns, clock_ns, keep_ns),
{
    if clock_ns < cached_at_ns {
        true
    } else {
        clock_ns - cached_at_ns < keep_ns
    }
}

/// An answer of the deploy center: whether it says that all went well, its
/// status, and its body.
#[derive(Debug)]
pub struct MeshReply {
    pub success: bool,
    pub status_text: String,
    pub body: String,
}

/// The endpoint that is remembered, where it still is.
pub open spec fn remembered(
    cache: Map<Seq<char>, CachedMeshEndpoint>,
    service_id: Seq<char>,
    clock_ns: u64,
) -> Option<MeshEndpoint> {
    if cache.dom().contains(service_id) && is_remembered(
        cache[service_id].cached_at_ns,
        clock_ns,
        CACHE_NS,
    ) {
        Some(cache[service_id].endpoint)
    } else {
        None
    }
}

impl MeshClient {
    /// A client that knows nothing yet.
    pub fn new(config: MeshConfig) -> (r: MeshClient)
        ensures
            r@ == (MeshView { config, cache: Map::empty(), zone: None }),
    {
        MeshClient { config, cache: StrMap::new(), detected_zone: None }
    }

    /// What this agent can do: the services that it offers, and docker where
    /// the host has it.
    pub fn detect_capabilities(&self, docker: bool) -> (r: Vec<String>)
        ensures
            chars::views(r@) == distinct_names(mesh_services(self@.config.local_services@))
                + if docker {
                seq!["docker"@]
            } else {
                seq![]
            },
    {
        let ghost all = mesh_services(self.config.local_services@);
        let mut caps: Vec<String> = Vec::new();
        let mut i: usize = 0;
        assert(chars::views(caps@) =~= distinct_names(all.take(0)));
        while i < self.config.local_services.len()
            invariant
                i <= self.config.local_services@.len(),
                all == mesh_services(self.config.local_services@),
                chars::views(caps@) == distinct_names(all.take(i as int)),
            decreases self.config.local_services@.len() - i,
        {
            proof {
                assert(all.take(i + 1).drop_last() =~= all.take(i as int));
                assert(all.take(i + 1).last().0 == self.config.local_services@[i as int].service_id@);
            }
            let name = self.config.local_services[i].service_id.clone();
            if !has_name(&caps, name.as_str()) {
                let ghost before = caps@;
                caps.push(name);
                assert(chars::views(caps@) =~= chars::views(before).push(name@));
            }
            i = i + 1;
        }
        assert(all.take(all.len() as int) =~= all);
        let ghost named = caps@;
        if docker {
            caps.push("docker".to_owned());
        }
        assert(chars::views(caps@) =~= chars::views(named) + if docker {
            seq!["docker"@]
        } else {
            seq![]
        });
        caps
    }

    /// How the agent registers itself. The port is the one that the
    /// environment names.
    pub fn registration(&self, network: &NetworkInfo, env: &Environment) -> (r: AgentRegistration)
        ensures
            r.agent_id == self@.config.agent_id,
            r.agent_name == self@.config.agent_name,
            r.lan_ip == network.lan_ip,
            r.wan_ip == network.wan_ip,
            r.api_port == Some(
                match env.value("PORT"@) {
                    Some(s) => match number::parse_i32_spec(s) {
                        Some(n) => n as i32,
                        None => DEFAULT_PORT as i32,
                    },
                    None => DEFAULT_PORT as i32,
                },
            ),
            r.capabilities@ == network.capabilities@,
            r.local_services@ == self@.config.local_services@,
    {
        let port = match env.var("PORT") {
            Some(s) => match parse_i32(s.as_str()) {
                Some(n) => n,
                None => DEFAULT_PORT as i32,
            },
            None => DEFAULT_PORT as i32,
        };
        let mut local_services: Vec<LocalServiceConfig> = Vec::new();
        let mut i: usize = 0;
        while i < self.config.local_services.len()
            invariant
                i <= self.config.local_services@.len(),
                local_services@ == self.config.local_services@.take(i as int),
            decreases self.config.local_services@.len() - i,
        {
            let s = &self.config.local_services[i];
            local_services.push(
                LocalServiceConfig {
                    service_id: s.service_id.clone(),
                    local_url: s.local_url.clone(),
                    health_check_url: s.health_check_url.clone(),
                },
            );
            i = i + 1;
            assert(local_services@ =~= self.config.local_services@.take(i as int));
        }
        assert(self.config.local_services@.take(self.config.local_services@.len() as int)
            =~= self.config.local_services@);
        AgentRegistration {
            agent_id: self.config.agent_id.clone(),
            agent_name: self.config.agent_name.clone(),
            lan_ip: network.lan_ip.clone(),
            wan_ip: network.wan_ip.clone(),
            api_port: Some(port),
            capabilities: clone_strings(&network.capabilities),
            local_services,
        }
    }

    /// Where the agent registers itself.
    pub fn register_url(&self) -> (r: String)
        ensures
            r@ == self@.config.registry_url@ + "/mesh/agents/register"@,
    {
        concat2(self.config.registry_url.as_str(), "/mesh/agents/register")
    }

    /// Where heartbeats go.
    pub fn heartbeat_url(&self) -> (r: String)
        ensures
            r@ == self@.config.registry_url@ + "/mesh/agents/heartbeat"@,
    {
        concat2(self.config.registry_url.as_str(), "/mesh/agents/heartbeat")
    }

    /// Takes the answer to the registration, which names the zone of this
    /// host.
    pub fn on_registered(&mut self, reply: &MeshReply, zone: Option<String>) -> (r: Result<
        (),
        String,
    >)
        ensures
            r is Ok <==> reply.success,
            r matches Err(e) ==> e@ == "Registration failed: "@ + reply.status_text@ + " - "@
                + reply.body@,
            final(self)@ == if reply.success {
                MeshView { zone: chars::opt_view(zone), ..old(self)@ }
            } else {
                old(self)@
            },
    {
        if !reply.success {
            return Err(
                concat4(
                    "Registration failed: ",
                    reply.status_text.as_str(),
                    " - ",
                    reply.body.as_str(),
                ),
            );
        }
        self.detected_zone = zone;
        Ok(())
    }

    /// The outcome of a heartbeat.
    pub fn heartbeat_result(reply: &MeshReply) -> (r: Result<(), String>)
        ensures
            r is Ok <==> reply.success,
            r matches Err(e) ==> e@ == "Heartbeat failed: "@ + reply.status_text@ + " - "@
                + reply.body@,
    {
        if reply.success {
            Ok(())
        } else {
            Err(
                concat4(
                    "Heartbeat failed: ",
                    reply.status_text.as_str(),
                    " - ",
                    reply.body.as_str(),
                ),
            )
        }
    }

    /// The endpoint of a service that is remembered.
    pub fn cached(&self, service_id: &str, clock_ns: u64) -> (r: Option<MeshEndpoint>)
        ensures
            r == remembered(self@.cache, service_id@, clock_ns),
    {
        match self.cache.get(service_id) {
            Some(c) => if still_remembered(c.cached_at_ns, clock_ns, CACHE_NS) {
                Some(c.endpoint.clone())
            } else {
                None
            },
            None => None,
        }
    }

    /// Begins to look for a service: there is nothing to ask where the address
    /// is remembered.
    pub fn begin_resolve(&self, service_id: &str, clock_ns: u64) -> (r: ResolveStep)
        ensures
            if remembered(self@.cache, service_id@, clock_ns) is Some {
                r matches ResolveStep::Known { url } && url == remembered(
                    self@.cache,
                    service_id@,
                    clock_ns,
                )->0.url
            } else {
                &&& r matches ResolveStep::Ask { url, api_key, agent_id }
                &&& url@ == self@.resolve_url_spec(service_id@)
                &&& api_key == self@.config.api_key
                &&& agent_id == self@.config.agent_id
            },
    {
        match self.cached(service_id, clock_ns) {
            Some(known) => ResolveStep::Known { url: known.url },
            None => ResolveStep::Ask {
                url: self.resolve_url(service_id),
                api_key: self.config.api_key.clone(),
                agent_id: self.config.agent_id.clone(),
            },
        }
    }

    /// Where the deploy center is asked for a service.
    pub fn resolve_url(&self, service_id: &str) -> (r: String)
        ensures
            r@ == self@.resolve_url_spec(service_id@),
    {
        let base = concat5(
            self.config.registry_url.as_str(),
            "/mesh/resolve/",
            service_id,
            "?agent_id=",
            self.config.agent_id.as_str(),
        );
        match &self.detected_zone {
            Some(z) => {
                let r = concat3(base.as_str(), "&zone_id=", z.as_str());
                assert(r@ =~= base@ + ("&zone_id="@ + z@));
                r
            },
            None => {
                assert(base@ =~= base@ + Seq::<char>::empty());
                base
            },
        }
    }

    /// Takes the answer about a service, and remembers the endpoint that it
    /// gives.
    pub fn on_resolved(
        &mut self,
        service_id: &str,
        reply: &MeshReply,
        endpoint: MeshEndpoint,
        clock_ns: u64,
    ) -> (r: Result<String, String>)
        ensures
            r is Ok <==> reply.success,
            r matches Ok(u) ==> u == endpoint.url,
            r matches Err(e) ==> e@ == "Resolve failed for "@ + service_id@ + ": "@ + (
            reply.status_text@ + " - "@ + reply.body@),
            final(self)@ == if reply.success {
                MeshView {
                    cache: old(self)@.cache.insert(
                        service_id@,
                        CachedMeshEndpoint { endpoint, cached_at_ns: clock_ns },
                    ),
                    ..old(self)@
                }
            } else {
                old(self)@
            },
    {
        if !reply.success {
            let tail = concat3(reply.status_text.as_str(), " - ", reply.body.as_str());
            return Err(concat4("Resolve failed for ", service_id, ": ", tail.as_str()));
        }
        let url = endpoint.url.clone();
        self.cache.insert(
            service_id.to_owned(),
            CachedMeshEndpoint { endpoint, cached_at_ns: clock_ns },
        );
        Ok(url)
    }

    /// The address of a service, or another one where it is not known.
    pub fn get_service_url_or(resolved: Result<String, String>, fallback: &str) -> (r: String)
        ensures
            r@ == match resolved {
                Ok(u) => u@,
                Err(_) => fallback@,
            },
    {
        match resolved {
            Ok(u) => u,
            Err(_) => fallback.to_owned(),
        }
    }

    /// Forgets all endpoints.
    pub fn clear_cache(&mut self)
        ensures
            final(self)@ == (MeshView { cache: Map::empty(), ..old(self)@ }),
    {
        self.cache = StrMap::new();
    }

    /// Whether the mesh is enabled.
    pub fn is_enabled(&self) -> (r: bool)
        ensures
            r == self@.config.enabled,
    {
        self.config.enabled
    }

    /// The configuration.
    pub fn config(&self) -> (r: &MeshConfig)
        ensures
            *r == self@.config,
    {
        &self.config
    }

    /// The name of this agent.
    pub fn agent_id(&self) -> (r: &str)
        ensures
            r@ == self@.config.agent_id@,
    {
        self.config.agent_id.as_str()
    }

    /// The zone of this host, once it is known.
    pub fn detected_zone(&self) -> (r: Option<String>)
        ensures
            chars::opt_view(r) == self@.zone,
    {
        self.detected_zone.clone()
    }
}

fn has_name(names: &Vec<String>, name: &str) -> (r: bool)
    ensures
        r == chars::views(names@).contains(name@),
{
    let mut i: usize = 0;
    while i < names.len()
        invariant
            i <= names@.len(),
            forall|j: int| 0 <= j < i ==> chars::views(names@)[j] != name@,
        decreases names@.len() - i,
    {
        if str_eq(names[i].as_str(), name) {
            assert(chars::views(names@)[i as int] == name@);
            return true;
        }
        i = i + 1;
    }
    false
}

/// The address of this host in the local network, from what a tool of the
/// system printed.
pub fn get_local_ip(tool: AddressTool, stdout: &str) -> (r: Option<String>)
    ensures
        chars::opt_view(r) == network::local_ip_spec(tool, stdout@),
{
    network::local_ip(tool, stdout)
}

/// Whether an address belongs to a private network.
pub fn is_private_ip(ip: &str) -> (r: bool)
    ensures
        r == network::private_ip(ip@),
{
    network::is_private_ip(ip)
}

/// An endpoint that has just been learnt is remembered until the time for
/// which it is kept is over, and not longer.
pub proof fn endpoint_is_remembered(
    cache: Map<Seq<char>, CachedMeshEndpoint>,
    service_id: Seq<char>,
    endpoint: MeshEndpoint,
    learnt_ns: u64,
    clock_ns: u64,
)
    requires
        learnt_ns <= clock_ns,
    ensures
        remembered(
            cache.insert(
                service_id,
                CachedMeshEndpoint { endpoint, cached_at_ns: learnt_ns },
            ),
            service_id,
            clock_ns,
        ) == if clock_ns - learnt_ns < CACHE_NS {
            Some(endpoint)
        } else {
            None
        },
{
}

proof fn lemma_distinct(services: Seq<MeshService>)
    ensures
        distinct_names(services).no_duplicates(),
    decreases services.len(),
{
    if services.len() > 0 {
        lemma_distinct(services.drop_last());
        let less = distinct_names(services.drop_last());
        if !less.contains(services.last().0) {
            let more = less.push(services.last().0);
            assert forall|i: int, j: int|
                0 <= i < more.len() && 0 <= j < more.len() && i != j implies more[i]
                != more[j] by {
                if i == less.len() {
                    assert(less.contains(less[j]));
                }
                if j == less.len() {
                    assert(less.contains(less[i]));
                }
            }
        }
    }
}

/// No service is named twice among the capabilities.
pub proof fn capabilities_are_distinct(services: Seq<MeshService>)
    ensures
        distinct_names(services).no_duplicates(),
{
    lemma_distinct(services);
}

} // verus!
