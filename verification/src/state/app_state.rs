//! The state of the agent, and the deployments that run or wait.

use vstd::prelude::*;

use crate::api::deploy::TriggerRequest;
use crate::collections;
use crate::collections::StrMap;
use crate::config::autoupdate::{AutoUpdateConfig, AutoUpdateState};
use crate::config::env::{EnvConfig, MAX_ACTIVE_TASKS, MAX_TASK_HISTORY};
use crate::config::environment::Environment;
use crate::config::project;
use crate::config::project::{load_projects_from_env, ProjectConfig};
use crate::domain::deploy::DeployTask;
use crate::domain::tunnel;
use crate::domain::tunnel::{clone_mappings, PortMapping, TunnelMode};
use crate::infra::deploy_center::DeployCenterClient;
use crate::middleware::auth::{verify_api_key, Headers};
use crate::services::frp;
use crate::services::frp::FrpcManager;
use crate::services::lan_discovery;
use crate::services::lan_discovery::{LanDiscovery, LanDiscoveryConfig};
use crate::services::mesh;
use crate::services::mesh::{MeshClient, MeshConfig};
use crate::services::nfa;
use crate::services::nfa::NfaSupervisor;
use crate::services::service_router;
use crate::services::service_router::{ServiceRouter, ServiceRouterConfig};
use crate::services::ssh::server::SshServer;
use crate::state::log_hub;
use crate::state::log_hub::LogHub;
use crate::state::port_listener_manager;
use crate::state::port_listener_manager::PortListenerManager;
use crate::state::task_store::{TaskStore, RETENTION_HOURS};
use crate::state::tunnel_state;
use crate::state::tunnel_state::{TunnelClientState, TunnelServerState};
use crate::text::chars;
use crate::text::chars::str_eq;
use crate::time;
use crate::time::Timestamp;

verus! {

/// A deployment that runs.
#[derive(Debug)]
pub struct RunningDeploy {
    pub task_id: String,
    /// The commit that it deploys, where that is known.
    pub commit_hash: Option<String>,
    /// Whether it has been told to stop.
    pub cancelled: bool,
}

/// A deployment that waits for another one of its project.
#[derive(Debug)]
pub struct QueuedDeploy {
    pub task_id: String,
    pub project_config: ProjectConfig,
    pub request: TriggerRequest,
    pub queued_at: Timestamp,
}

/// The state of the agent.
pub struct AppState {
    pub api_key: String,
    pub config: EnvConfig,
    pub projects: StrMap<ProjectConfig>,
    pub started_at: Timestamp,
    pub task_store: TaskStore,
    pub log_hub: LogHub,
    /// The deployment of each project that runs.
    pub running_deploys: StrMap<RunningDeploy>,
    /// The deployments of each project that wait, the longest-waiting first.
    pub deploy_queue: StrMap<Vec<QueuedDeploy>>,
    pub deploy_center: DeployCenterClient,
    pub tunnel_mode: TunnelMode,
    pub tunnel_client_id: String,
    pub tunnel_auth_token: String,
    pub tunnel_server_state: TunnelServerState,
    pub tunnel_client_state: TunnelClientState,
    pub port_listener_manager: PortListenerManager,
    pub tunnel_port_mappings: Vec<PortMapping>,
    pub tunnel_server_url: String,
    pub nfa: Option<NfaSupervisor>,
    pub frp: Option<FrpcManager>,
    /// Set once the server has started.
    pub ssh_server: Option<SshServer>,
    pub auto_update_config: Option<AutoUpdateConfig>,
    pub auto_update_state: AutoUpdateState,
    pub mesh_client: Option<MeshClient>,
    pub lan_discovery: Option<LanDiscovery>,
    pub service_router: Option<ServiceRouter>,
}

/// How many deployments of these projects wait.
pub open spec fn queued_of(
    projects: Seq<Seq<char>>,
    queues: Map<Seq<char>, Vec<QueuedDeploy>>,
) -> nat
    decreases projects.len(),
{
    if projects.len() == 0 {
        0
    } else {
        queued_of(projects.drop_last(), queues) + queues[projects.last()]@.len()
    }
}

/// A waiting deployment is given up: it has waited longer than the limit, in
/// whole seconds.
pub open spec fn is_expired(deploy: QueuedDeploy, now: Timestamp, timeout_secs: u64) -> bool {
    time::quotient(now.instant() - deploy.queued_at.instant(), 1_000_000_000)
        > timeout_secs as i64
}

/// The test that waiting deployments are given up by.
pub open spec fn expired(now: Timestamp, timeout_secs: u64) -> spec_fn(QueuedDeploy) -> bool {
    |d: QueuedDeploy| is_expired(d, now, timeout_secs)
}

/// The test that waiting deployments are kept by.
pub open spec fn unexpired(now: Timestamp, timeout_secs: u64) -> spec_fn(QueuedDeploy) -> bool {
    |d: QueuedDeploy| !is_expired(d, now, timeout_secs)
}

/// The project and the task of each of these deployments.
pub open spec fn named_tasks(project: Seq<char>, deploys: Seq<QueuedDeploy>) -> Seq<
    (Seq<char>, Seq<char>),
> {
    deploys.map_values(|d: QueuedDeploy| (project, d.task_id@))
}

/// The project and the task of the deployments of these projects that are
/// given up, one project after the other.
pub open spec fn expired_tasks(
    projects: Seq<Seq<char>>,
    queues: Map<Seq<char>, Vec<QueuedDeploy>>,
    now: Timestamp,
    timeout_secs: u64,
) -> Seq<(Seq<char>, Seq<char>)>
    decreases projects.len(),
{
    if projects.len() == 0 {
        Seq::empty()
    } else {
        expired_tasks(projects.drop_last(), queues, now, timeout_secs) + named_tasks(
            projects.last(),
            queues[projects.last()]@.filter(expired(now, timeout_secs)),
        )
    }
}

/// The first position, counted from one, of a task among waiting deployments;
/// zero where it is not among them.
pub open spec fn position_of(deploys: Seq<QueuedDeploy>, task_id: Seq<char>) -> nat
    decreases deploys.len(),
{
    if deploys.len() == 0 {
        0
    } else {
        let before = position_of(deploys.drop_last(), task_id);
        if before > 0 {
            before
        } else if deploys.last().task_id@ == task_id {
            deploys.len()
        } else {
            0
        }
    }
}

/// The deployments that wait for a project's turn, the longest-waiting first.
pub open spec fn queue_in(queues: Map<Seq<char>, Vec<QueuedDeploy>>, project: Seq<char>) -> Seq<
    QueuedDeploy,
> {
    if queues.dom().contains(project) {
        queues[project]@
    } else {
        Seq::empty()
    }
}

/// Splits the waiting deployments of one project into those that are given
/// up, whose project and task are added to `gone`, and the others.
fn split_expired(
    deploys: Vec<QueuedDeploy>,
    project: &String,
    now: Timestamp,
    timeout_secs: u64,
    gone: &mut Vec<(String, String)>,
) -> (r: Vec<QueuedDeploy>)
    ensures
        r@ == deploys@.filter(unexpired(now, timeout_secs)),
        chars::pairs(final(gone)@) == chars::pairs(old(gone)@) + named_tasks(
            project@,
            deploys@.filter(expired(now, timeout_secs)),
        ),
{
    let ghost all = deploys@;
    let ghost before = chars::pairs(gone@);
    let ghost dead = expired(now, timeout_secs);
    let ghost alive = unexpired(now, timeout_secs);
    let limit = timeout_secs as i64;
    let mut rest = deploys;
    let mut r: Vec<QueuedDeploy> = Vec::new();
    let mut done: usize = 0;
    let total = rest.len();
    proof {
        reveal(Seq::filter);
        assert(r@ =~= all.take(0).filter(alive));
        assert(all.subrange(0, all.len() as int) =~= all);
        assert(before + named_tasks(project@, all.take(0).filter(dead)) =~= before);
    }
    while done < total
        invariant
            total == all.len(),
            done <= total,
            limit == timeout_secs as i64,
            rest@ == all.subrange(done as int, all.len() as int),
            dead == expired(now, timeout_secs),
            alive == unexpired(now, timeout_secs),
            r@ == all.take(done as int).filter(alive),
            chars::pairs(gone@) == before + named_tasks(
                project@,
                all.take(done as int).filter(dead),
            ),
        decreases total - done,
    {
        proof {
            collections::lemma_filter_step(all, dead, done as int);
            collections::lemma_filter_step(all, alive, done as int);
        }
        let ghost so_far = gone@;
        let ghost fewer = all.take(done as int).filter(dead);
        let deploy = rest.remove(0);
        assert(deploy == all[done as int]);
        assert(rest@ =~= all.subrange(done + 1, all.len() as int));
        if now.seconds_since(&deploy.queued_at) > limit {
            gone.push((project.clone(), deploy.task_id.clone()));
            assert(dead(deploy));
            assert(chars::pairs(gone@) =~= chars::pairs(so_far).push((project@, deploy.task_id@)));
            assert(named_tasks(project@, fewer.push(deploy)) =~= named_tasks(project@, fewer).push(
                (project@, deploy.task_id@),
            ));
            assert(chars::pairs(gone@) =~= before + named_tasks(project@, fewer.push(deploy)));
        } else {
            assert(alive(deploy));
            r.push(deploy);
        }
        done = done + 1;
    }
    assert(all.take(all.len() as int) =~= all);
    r
}

impl AppState {
    /// The deployments of a project that wait, the longest-waiting first.
    pub open spec fn queue(&self, project: Seq<char>) -> Seq<QueuedDeploy> {
        queue_in(self.deploy_queue@, project)
    }

    /// The two states differ in nothing but the running deployments.
    pub open spec fn same_but_running(self, other: AppState) -> bool {
        self == (AppState { running_deploys: self.running_deploys, ..other })
    }

    /// The two states differ in nothing but the waiting deployments.
    pub open spec fn same_but_queue(self, other: AppState) -> bool {
        self == (AppState { deploy_queue: self.deploy_queue, ..other })
    }

    /// This is the state of an agent that starts at `now` with the
    /// configuration that the environment gives, on a host with this address
    /// in the local network, and with this file for the configuration of the
    /// frp client.
    pub open spec fn is_started(
        self,
        env: &Environment,
        frpc_file: Seq<char>,
        local_ip: Option<Seq<char>>,
        now: Timestamp,
    ) -> bool {
        &&& self.config.is_from(env)
        &&& self.api_key == self.config.api_key
        &&& project::project_views(self.projects@) == project::projects_from(
            env,
            project::legacy_projects(env),
            env.vars@.len() as int,
        )
        &&& self.started_at == now
        &&& self.is_idle()
        &&& self.deploy_center.url() == chars::opt_view(self.config.callback_url)
        &&& self.tunnel_mode == self.config.tunnel.mode
        &&& self.tunnel_client_id == self.config.tunnel.client_id
        &&& self.tunnel_auth_token == self.config.tunnel.auth_token
        &&& self.tunnel_port_mappings@ == self.config.tunnel.port_mappings@
        &&& self.tunnel_server_url == self.config.tunnel.server_url
        &&& self.nfa is Some <==> self.config.nfa.enabled
        &&& self.nfa matches Some(n) ==> n@ == (nfa::NfaView {
            config: self.config.nfa,
            desired: self.config.nfa.auto_start,
            child: false,
            started_at: None,
            restart_count: 0,
            last_error: None,
            log: Seq::empty(),
        })
        &&& self.frp is Some <==> self.config.frp.enabled
        &&& self.frp matches Some(f) ==> f@ == (frp::FrpcView {
            config: self.config.frp,
            mappings: tunnel::mapping_views(self.config.tunnel.port_mappings@),
            desired: true,
            child: false,
            started_at: None,
            restart_count: 0,
            last_error: None,
            config_path: frpc_file,
            log: Seq::empty(),
        })
        &&& self.auto_update_config == self.config.auto_update
        &&& self.mesh_client is Some <==> env.exact_switch("MESH_ENABLED"@)
            && MeshConfig::registry(env) is Some
        &&& self.mesh_client matches Some(m) ==> m@.config.is_from(env) && m@ == (mesh::MeshView {
            config: m@.config,
            cache: Map::empty(),
            zone: None,
        })
        &&& self.lan_discovery is Some <==> env.exact_switch("LAN_DISCOVERY_ENABLED"@)
        &&& self.lan_discovery matches Some(l) ==> l@.config.is_from(env) && l@ == (
        lan_discovery::LanView { config: l@.config, local_ip, peers: Map::empty() })
        &&& self.service_router is Some
        &&& exists|c: ServiceRouterConfig| #[trigger]
            c.is_from(env) && self.service_router->0@ == (service_router::RouterView {
                local: service_router::text_map(c.local_services@),
                configured: service_router::text_map(c.configured_endpoints@),
                fallback: service_router::text_map(c.fallback_endpoints@),
                cache: Map::empty(),
            })
    }

    /// Nothing has happened yet: no task, no deployment, no tunnel, no update.
    pub open spec fn is_idle(self) -> bool {
        &&& self.task_store.wf()
        &&& self.task_store.active() == Map::<Seq<char>, DeployTask>::empty()
        &&& self.task_store.past() == Seq::<DeployTask>::empty()
        &&& self.task_store.active_limit() == MAX_ACTIVE_TASKS
        &&& self.task_store.history_limit() == MAX_TASK_HISTORY
        &&& self.task_store.retention() == RETENTION_HOURS
        &&& self.log_hub@ == Map::<Seq<char>, log_hub::LogChannel>::empty()
        &&& self.running_deploys@ == Map::<Seq<char>, RunningDeploy>::empty()
        &&& self.deploy_queue@ == Map::<Seq<char>, Vec<QueuedDeploy>>::empty()
        &&& self.tunnel_server_state@ == tunnel_state::ServerView::empty()
        &&& self.tunnel_client_state == (TunnelClientState {
            connected: false,
            connected_at: None,
            last_error: None,
            reconnect_count: 0,
        })
        &&& self.port_listener_manager@ == port_listener_manager::Listeners::empty()
        &&& self.ssh_server is None
        &&& self.auto_update_state == AutoUpdateState::initial()
    }

    /// The state of an agent that starts at `now`.
    pub fn new_at(
        env: &Environment,
        frpc_file: String,
        local_ip: Option<String>,
        now: Timestamp,
    ) -> (r: AppState)
        ensures
            r.is_started(env, frpc_file@, chars::opt_view(local_ip), now),
    {
        let config = EnvConfig::from_env(env);
        let projects = load_projects_from_env(env);
        let nfa = if config.nfa.enabled {
            Some(NfaSupervisor::new(config.nfa.clone()))
        } else {
            None
        };
        let frp = if config.frp.enabled {
            let mappings = clone_mappings(&config.tunnel.port_mappings);
            Some(FrpcManager::new(config.frp.clone(), mappings, frpc_file))
        } else {
            None
        };
        let mesh_client = match MeshConfig::from_env(env) {
            Some(c) => Some(MeshClient::new(c)),
            None => None,
        };
        let lan_discovery = match LanDiscoveryConfig::from_env(env) {
            Some(c) => Some(LanDiscovery::new(c, local_ip)),
            None => None,
        };
        let router_config = ServiceRouterConfig::from_env(env);
        let ghost rc = router_config;
        assert(rc.is_from(env));
        let service_router = Some(ServiceRouter::new(router_config));
        let auto_update_config = match &config.auto_update {
            Some(c) => Some(c.clone()),
            None => None,
        };
        AppState {
            api_key: config.api_key.clone(),
            projects,
            started_at: now,
            task_store: TaskStore::new(),
            log_hub: LogHub::new(),
            running_deploys: StrMap::new(),
            deploy_queue: StrMap::new(),
            deploy_center: DeployCenterClient::new(config.callback_url.clone()),
            tunnel_mode: config.tunnel.mode,
            tunnel_client_id: config.tunnel.client_id.clone(),
            tunnel_auth_token: config.tunnel.auth_token.clone(),
            tunnel_server_state: TunnelServerState::new(),
            tunnel_client_state: TunnelClientState::new(),
            port_listener_manager: PortListenerManager::new(),
            tunnel_port_mappings: clone_mappings(&config.tunnel.port_mappings),
            tunnel_server_url: config.tunnel.server_url.clone(),
            nfa,
            frp,
            ssh_server: None,
            auto_update_config,
            auto_update_state: AutoUpdateState::new(),
            mesh_client,
            lan_discovery,
            service_router,
            config,
        }
    }

    /// The state of an agent that starts now.
    pub fn new(env: &Environment, frpc_file: String, local_ip: Option<String>) -> (r: AppState)
        ensures
            r.is_started(env, frpc_file@, chars::opt_view(local_ip), r.started_at),
    {
        AppState::new_at(env, frpc_file, local_ip, Timestamp::now())
    }

    /// Whether a request carries the API key.
    pub fn verify_api_key(&self, headers: &Headers) -> (r: bool)
        ensures
            r == (headers.text_of("x-api-key"@) == Some(self.api_key@)),
    {
        verify_api_key(headers, self.api_key.as_str()).is_ok()
    }

    /// The configuration of a project.
    pub fn get_project(&self, name: &str) -> (r: Option<&ProjectConfig>)
        ensures
            r is Some <==> self.projects@.dom().contains(name@),
            r matches Some(p) ==> *p == self.projects@[name@],
    {
        self.projects.get(name)
    }

    /// Whether a deployment of a project runs.
    pub fn has_running_deploy(&self, project: &str) -> (r: bool)
        ensures
            r == self.running_deploys@.dom().contains(project@),
    {
        self.running_deploys.contains_key(project)
    }

    /// Notes that a deployment of a project runs, in place of another one. Its
    /// commit is not known.
    pub fn register_running_deploy(&mut self, project: &str, task_id: &str)
        ensures
            final(self).same_but_running(*old(self)),
            final(self).running_deploys@ == old(self).running_deploys@.insert(
                project@,
                final(self).running_deploys@[project@],
            ),
            final(self).running_deploys@[project@].task_id@ == task_id@,
            final(self).running_deploys@[project@].commit_hash is None,
            !final(self).running_deploys@[project@].cancelled,
    {
        self.register_running_commit(project, task_id, None);
    }

    /// Notes that a deployment of a project runs, in place of another one, and
    /// which commit it deploys.
    pub fn register_running_commit(
        &mut self,
        project: &str,
        task_id: &str,
        commit_hash: Option<String>,
    )
        ensures
            final(self).same_but_running(*old(self)),
            final(self).running_deploys@ == old(self).running_deploys@.insert(
                project@,
                final(self).running_deploys@[project@],
            ),
            final(self).running_deploys@[project@].task_id@ == task_id@,
            final(self).running_deploys@[project@].commit_hash == commit_hash,
            !final(self).running_deploys@[project@].cancelled,
    {
        self.running_deploys.insert(
            project.to_owned(),
            RunningDeploy { task_id: task_id.to_owned(), commit_hash, cancelled: false },
        );
    }

    /// Notes that no deployment of a project runs.
    pub fn unregister_running_deploy(&mut self, project: &str)
        ensures
            final(self).same_but_running(*old(self)),
            final(self).running_deploys@ == old(self).running_deploys@.remove(project@),
    {
        self.running_deploys.remove(project);
    }

    /// The task of the deployment of a project that runs.
    pub fn get_running_deploy_task_id(&self, project: &str) -> (r: Option<String>)
        ensures
            r == if self.running_deploys@.dom().contains(project@) {
                Some(self.running_deploys@[project@].task_id)
            } else {
                None
            },
    {
        match self.running_deploys.get(project) {
            Some(d) => Some(d.task_id.clone()),
            None => None,
        }
    }

    /// Tells the deployment of a project to stop, and whether there is one.
    pub fn cancel_deploy(&mut self, project: &str) -> (r: bool)
        ensures
            final(self).same_but_running(*old(self)),
            r == old(self).running_deploys@.dom().contains(project@),
            r ==> final(self).running_deploys@ == old(self).running_deploys@.insert(
                project@,
                RunningDeploy { cancelled: true, ..old(self).running_deploys@[project@] },
            ),
            !r ==> final(self).running_deploys@ == old(self).running_deploys@,
    {
        match self.running_deploys.remove(project) {
            Some(d) => {
                self.running_deploys.insert(
                    project.to_owned(),
                    RunningDeploy {
                        task_id: d.task_id,
                        commit_hash: d.commit_hash,
                        cancelled: true,
                    },
                );
                assert(self.running_deploys@ =~= old(self).running_deploys@.insert(
                    project@,
                    RunningDeploy { cancelled: true, ..old(self).running_deploys@[project@] },
                ));
                true
            },
            None => {
                assert(self.running_deploys@ =~= old(self).running_deploys@);
                false
            },
        }
    }

    /// Whether the deployment of a project has been told to stop.
    pub fn is_cancelled(&self, project: &str) -> (r: bool)
        ensures
            r == (self.running_deploys@.dom().contains(project@)
                && self.running_deploys@[project@].cancelled),
    {
        match self.running_deploys.get(project) {
            Some(d) => d.cancelled,
            None => false,
        }
    }

    /// Where the deploy center is reached.
    pub fn callback_url(&self) -> (r: Option<&str>)
        ensures
            r is Some <==> self.config.callback_url is Some,
            r matches Some(s) ==> s@ == self.config.callback_url->0@,
    {
        match &self.config.callback_url {
            Some(s) => Some(s.as_str()),
            None => None,
        }
    }

    /// Puts a deployment at the end of the queue of its project, and tells its
    /// position, counted from one.
    pub fn enqueue_deploy(&mut self, project: &str, deploy: QueuedDeploy) -> (r: usize)
        ensures
            final(self).same_but_queue(*old(self)),
            final(self).queue(project@) == old(self).queue(project@).push(deploy),
            forall|p: Seq<char>| p != project@ ==> #[trigger] final(self).queue(p) == old(self).queue(p),
            r == final(self).queue(project@).len(),
    {
        let mut queue = match self.deploy_queue.remove(project) {
            Some(q) => q,
            None => Vec::new(),
        };
        queue.push(deploy);
        let r = queue.len();
        self.deploy_queue.insert(project.to_owned(), queue);
        r
    }

    /// Takes the deployment that has waited longest out of the queue of its
    /// project.
    pub fn dequeue_deploy(&mut self, project: &str) -> (r: Option<QueuedDeploy>)
        ensures
            final(self).same_but_queue(*old(self)),
            forall|p: Seq<char>| p != project@ ==> #[trigger] final(self).queue(p) == old(self).queue(p),
            r is Some <==> old(self).queue(project@).len() > 0,
            r matches Some(d) ==> old(self).queue(project@) == seq![d] + final(self).queue(project@),
            r is None ==> final(self).queue(project@).len() == 0,
    {
        match self.deploy_queue.remove(project) {
            Some(q) => {
                let mut queue = q;
                let ghost before = queue@;
                let r = if queue.len() > 0 {
                    let d = queue.remove(0);
                    assert(before =~= seq![d] + queue@);
                    Some(d)
                } else {
                    None
                };
                self.deploy_queue.insert(project.to_owned(), queue);
                r
            },
            None => None,
        }
    }

    /// How many deployments of a project wait.
    pub fn get_queue_length(&self, project: &str) -> (r: usize)
        ensures
            r == self.queue(project@).len(),
    {
        match self.deploy_queue.get(project) {
            Some(q) => q.len(),
            None => 0,
        }
    }

    /// How many deployments wait, of all projects together.
    pub fn total_queued(&self) -> (r: u128)
        ensures
            r == queued_of(self.deploy_queue.keys(), self.deploy_queue@),
            self.deploy_queue.keys().no_duplicates(),
            self.deploy_queue.keys().to_set() == self.deploy_queue@.dom(),
    {
        let n = self.deploy_queue.len();
        let ghost keys = self.deploy_queue.keys();
        let mut r: u128 = 0;
        let mut i: usize = 0;
        while i < n
            invariant
                n == keys.len(),
                keys == self.deploy_queue.keys(),
                i <= n,
                r <= i * 0xffff_ffff_ffff_ffff,
                r == queued_of(keys.take(i as int), self.deploy_queue@),
            decreases n - i,
        {
            assert(keys.take(i + 1).drop_last() =~= keys.take(i as int));
            r = r + self.deploy_queue.value_at(i).len() as u128;
            i = i + 1;
        }
        assert(keys.take(n as int) =~= keys);
        r
    }

    /// The position of a task in the queue of its project, counted from one;
    /// zero where it does not wait.
    pub fn get_queue_position(&self, project: &str, task_id: &str) -> (r: usize)
        ensures
            r == position_of(self.queue(project@), task_id@),
    {
        let queue = match self.deploy_queue.get(project) {
            Some(q) => q,
            None => {
                return 0;
            },
        };
        let n = queue.len();
        let mut i: usize = 0;
        while i < n
            invariant
                n == queue@.len(),
                i <= n,
                queue@ == self.queue(project@),
                position_of(queue@.take(i as int), task_id@) == 0,
            decreases n - i,
        {
            assert(queue@.take(i + 1).drop_last() =~= queue@.take(i as int));
            if str_eq(queue[i].task_id.as_str(), task_id) {
                proof {
                    lemma_position_stays(queue@, task_id@, i + 1);
                }
                return i + 1;
            }
            i = i + 1;
        }
        assert(queue@.take(n as int) =~= queue@);
        0
    }

    /// Gives up, at `now`, the deployments that have waited longer than the
    /// limit, and tells their projects and tasks. The others keep their order.
    pub fn cleanup_expired_queue_items_at(&mut self, timeout_secs: u64, now: Timestamp) -> (r: Vec<
        (String, String),
    >)
        ensures
            final(self).same_but_queue(*old(self)),
            forall|p: Seq<char>| #[trigger]
                final(self).queue(p) == old(self).queue(p).filter(unexpired(now, timeout_secs)),
            chars::pairs(r@) == expired_tasks(
                old(self).deploy_queue.keys(),
                old(self).deploy_queue@,
                now,
                timeout_secs,
            ),
            old(self).deploy_queue.keys().no_duplicates(),
            old(self).deploy_queue.keys().to_set() == old(self).deploy_queue@.dom(),
    {
        let n = self.deploy_queue.len();
        let ghost keys = self.deploy_queue.keys();
        let ghost queues = self.deploy_queue@;
        let ghost alive = unexpired(now, timeout_secs);
        let names = self.deploy_queue.names();
        let mut i: usize = 0;
        assert forall|j: int| 0 <= j < n implies (#[trigger] names@[j])@ == keys[j] by {
            assert(chars::views(names@)[j] == names@[j]@);
        }
        let mut gone: Vec<(String, String)> = Vec::new();
        assert(chars::pairs(gone@) =~= expired_tasks(keys.take(0), queues, now, timeout_secs));
        while i < n
            invariant
                n == keys.len(),
                n == names@.len(),
                i <= n,
                self.same_but_queue(*old(self)),
                alive == unexpired(now, timeout_secs),
                keys.no_duplicates(),
                keys.to_set() == queues.dom(),
                forall|j: int| 0 <= j < n ==> (#[trigger] names@[j])@ == keys[j],
                self.deploy_queue@.dom() == queues.dom(),
                forall|j: int|
                    0 <= j < n ==> #[trigger] self.deploy_queue@[keys[j]]@ == if j < i {
                        queues[keys[j]]@.filter(alive)
                    } else {
                        queues[keys[j]]@
                    },
                chars::pairs(gone@) == expired_tasks(
                    keys.take(i as int),
                    queues,
                    now,
                    timeout_secs,
                ),
            decreases n - i,
        {
            let ghost before = self.deploy_queue@;
            let name = names[i].clone();
            assert(names@[i as int]@ == keys[i as int]);
            assert(keys.contains(keys[i as int]));
            assert(self.deploy_queue@[keys[i as int]]@ == queues[keys[i as int]]@);
            if let Some(queue) = self.deploy_queue.take_out(&name) {
                let kept = split_expired(queue, &name, now, timeout_secs, &mut gone);
                self.deploy_queue.insert(name, kept);
            }
            proof {
                assert(keys.take(i + 1).drop_last() =~= keys.take(i as int));
                assert(self.deploy_queue@.dom() =~= queues.dom());
                assert forall|j: int| 0 <= j < n implies #[trigger] self.deploy_queue@[keys[j]]@
                    == if j < i + 1 {
                    queues[keys[j]]@.filter(alive)
                } else {
                    queues[keys[j]]@
                } by {
                    assert(before[keys[j]]@ == if j < i {
                        queues[keys[j]]@.filter(alive)
                    } else {
                        queues[keys[j]]@
                    });
                }
            }
            i = i + 1;
        }
        proof {
            assert(keys.take(n as int) =~= keys);
            assert forall|p: Seq<char>| #[trigger] self.queue(p) == old(self).queue(p).filter(
                alive,
            ) by {
                if queues.dom().contains(p) {
                    assert(keys.to_set().contains(p));
                    let j = keys.index_of(p);
                    assert(self.deploy_queue@[keys[j]]@ == queues[keys[j]]@.filter(alive));
                } else {
                    reveal(Seq::filter);
                    assert(old(self).queue(p).filter(alive) =~= Seq::empty());
                }
            }
        }
        gone
    }

    /// What giving up the deployments that wait too long at `now` leaves of
    /// the queues and tells of them.
    pub open spec fn gave_up(
        before: AppState,
        after: AppState,
        told: Seq<(Seq<char>, Seq<char>)>,
        timeout_secs: u64,
        now: Timestamp,
    ) -> bool {
        &&& forall|p: Seq<char>| #[trigger]
            after.queue(p) == before.queue(p).filter(unexpired(now, timeout_secs))
        &&& told == expired_tasks(
            before.deploy_queue.keys(),
            before.deploy_queue@,
            now,
            timeout_secs,
        )
    }

    /// Gives up the deployments that have waited longer than the limit, and
    /// tells their projects and tasks. The others keep their order.
    pub fn cleanup_expired_queue_items(&mut self, timeout_secs: u64) -> (r: Vec<(String, String)>)
        ensures
            final(self).same_but_queue(*old(self)),
            exists|now: Timestamp| #[trigger]
                AppState::gave_up(*old(self), *final(self), chars::pairs(r@), timeout_secs, now),
    {
        let now = Timestamp::now();
        let r = self.cleanup_expired_queue_items_at(timeout_secs, now);
        assert(AppState::gave_up(*old(self), *self, chars::pairs(r@), timeout_secs, now));
        r
    }
}

proof fn lemma_position_stays(deploys: Seq<QueuedDeploy>, task_id: Seq<char>, i: int)
    requires
        0 <= i <= deploys.len(),
        position_of(deploys.take(i), task_id) > 0,
    ensures
        position_of(deploys, task_id) == position_of(deploys.take(i), task_id),
    decreases deploys.len() - i,
{
    if i < deploys.len() {
        assert(deploys.take(i + 1).drop_last() =~= deploys.take(i));
        lemma_position_stays(deploys, task_id, i + 1);
    } else {
        assert(deploys.take(i) =~= deploys);
    }
}

proof fn lemma_position_bound(deploys: Seq<QueuedDeploy>, task_id: Seq<char>)
    ensures
        position_of(deploys, task_id) <= deploys.len(),
        position_of(deploys, task_id) > 0 ==> deploys[position_of(deploys, task_id) - 1].task_id@
            == task_id,
    decreases deploys.len(),
{
    if deploys.len() > 0 {
        lemma_position_bound(deploys.drop_last(), task_id);
    }
}

/// A deployment that is put into a queue has the position behind all that
/// wait, and comes out after exactly those.
pub proof fn queue_keeps_order(queue: Seq<QueuedDeploy>, deploy: QueuedDeploy)
    requires
        position_of(queue, deploy.task_id@) == 0,
    ensures
        position_of(queue.push(deploy), deploy.task_id@) == queue.len() + 1,
        queue.push(deploy).skip(queue.len() as int) == seq![deploy],
        queue.push(deploy).take(queue.len() as int) == queue,
{
    assert(queue.push(deploy).drop_last() =~= queue);
    assert(queue.push(deploy).skip(queue.len() as int) =~= seq![deploy]);
    assert(queue.push(deploy).take(queue.len() as int) =~= queue);
}

/// Whenever the longest-waiting deployment leaves a queue, every other one
/// moves up by one position.
pub proof fn queue_moves_up(first: QueuedDeploy, rest: Seq<QueuedDeploy>, task_id: Seq<char>)
    requires
        first.task_id@ != task_id,
    ensures
        position_of(rest, task_id) > 0 ==> position_of(seq![first] + rest, task_id) == position_of(
            rest,
            task_id,
        ) + 1,
        position_of(rest, task_id) == 0 ==> position_of(seq![first] + rest, task_id) == 0,
    decreases rest.len(),
{
    let all = seq![first] + rest;
    if rest.len() == 0 {
        assert(all.drop_last() =~= Seq::<QueuedDeploy>::empty());
        assert(position_of(all.drop_last(), task_id) == 0);
    } else {
        assert(all.drop_last() =~= seq![first] + rest.drop_last());
        queue_moves_up(first, rest.drop_last(), task_id);
        lemma_position_bound(rest.drop_last(), task_id);
    }
}

/// Giving up what waits too long loses nothing: a waiting deployment is kept
/// or it is told of, and what is told of waited too long.
pub proof fn expiry_splits_queues(
    projects: Seq<Seq<char>>,
    queues: Map<Seq<char>, Vec<QueuedDeploy>>,
    now: Timestamp,
    timeout_secs: u64,
    project: Seq<char>,
    deploy: QueuedDeploy,
)
    requires
        projects.contains(project),
        queues[project]@.contains(deploy),
    ensures
        is_expired(deploy, now, timeout_secs) ==> expired_tasks(
            projects,
            queues,
            now,
            timeout_secs,
        ).contains((project, deploy.task_id@)),
        !is_expired(deploy, now, timeout_secs) ==> queues[project]@.filter(
            unexpired(now, timeout_secs),
        ).contains(deploy),
        !queues[project]@.filter(unexpired(now, timeout_secs)).contains(deploy) <==> is_expired(
            deploy,
            now,
            timeout_secs,
        ),
    decreases projects.len(),
{
    let dead = expired(now, timeout_secs);
    let alive = unexpired(now, timeout_secs);
    let q = queues[project]@;
    let i = q.index_of(deploy);
    if alive(deploy) {
        q.filter_lemma(alive);
        assert(q.filter(alive).contains(q[i]));
    } else {
        q.filter_lemma(alive);
        q.filter_lemma(dead);
        if q.filter(alive).contains(deploy) {
            let k = q.filter(alive).index_of(deploy);
            assert(alive(q.filter(alive)[k]));
        }
        let told = expired_tasks(projects, queues, now, timeout_secs);
        let early = expired_tasks(projects.drop_last(), queues, now, timeout_secs);
        let last = named_tasks(projects.last(), queues[projects.last()]@.filter(dead));
        assert(told == early + last);
        if projects.last() == project {
            assert(q.filter(dead).contains(q[i]));
            let k = q.filter(dead).index_of(deploy);
            assert(last[k] == (project, deploy.task_id@));
            assert(told[early.len() + k] == (project, deploy.task_id@));
        } else {
            let k = projects.index_of(project);
            assert(projects.drop_last()[k] == project);
            expiry_splits_queues(projects.drop_last(), queues, now, timeout_secs, project, deploy);
            let j = early.index_of((project, deploy.task_id@));
            assert(told[j] == (project, deploy.task_id@));
        }
    }
}

/// A deployment called `task_id` waits in the queue of the project, and has
/// waited longer than the limit.
pub open spec fn waited_too_long(
    queues: Map<Seq<char>, Vec<QueuedDeploy>>,
    project: Seq<char>,
    task_id: Seq<char>,
    now: Timestamp,
    timeout_secs: u64,
) -> bool {
    exists|k: int|
        {
            &&& 0 <= k < queues[project]@.len()
            &&& (#[trigger] queues[project]@[k]).task_id@ == task_id
            &&& is_expired(queues[project]@[k], now, timeout_secs)
        }
}

/// Whatever is told of as given up belongs to a deployment that waited too
/// long.
pub proof fn only_expired_are_told(
    projects: Seq<Seq<char>>,
    queues: Map<Seq<char>, Vec<QueuedDeploy>>,
    now: Timestamp,
    timeout_secs: u64,
    i: int,
)
    requires
        0 <= i < expired_tasks(projects, queues, now, timeout_secs).len(),
    ensures
        waited_too_long(
            queues,
            expired_tasks(projects, queues, now, timeout_secs)[i].0,
            expired_tasks(projects, queues, now, timeout_secs)[i].1,
            now,
            timeout_secs,
        ),
    decreases projects.len(),
{
    let dead = expired(now, timeout_secs);
    let told = expired_tasks(projects, queues, now, timeout_secs);
    let early = expired_tasks(projects.drop_last(), queues, now, timeout_secs);
    let q = queues[projects.last()]@;
    assert(told == early + named_tasks(projects.last(), q.filter(dead)));
    if i < early.len() {
        only_expired_are_told(projects.drop_last(), queues, now, timeout_secs, i);
    } else {
        let d = q.filter(dead)[i - early.len()];
        q.filter_lemma(dead);
        assert(dead(d));
        assert(q.filter(dead).contains(d));
        q.lemma_filter_contains_rev(dead, d);
        let k = q.index_of(d);
        assert(told[i] == (projects.last(), d.task_id@));
        assert(q[k] == d && is_expired(d, now, timeout_secs));
    }
}

} // verus!
