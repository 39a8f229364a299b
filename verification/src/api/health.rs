//! Health reports, and the restart of the agent.

use vstd::prelude::*;

use crate::config::autoupdate::AutoUpdateStatus;
use crate::domain::ssh::SshHealthInfo;
use crate::domain::tunnel::{clone_mappings, PortMapping, TunnelMode};
use crate::services::frp;
use crate::services::frp::ChildPoll;
use crate::services::nfa;
use crate::services::nfa::NfaStatus;
use crate::state::app_state::AppState;
use crate::state::tunnel_state::{ClientState, TunnelServerState};
use crate::text::chars;
use crate::text::chars::{concat2, strings};
use crate::time;
use crate::time::Timestamp;

verus! {

/// A tunnel client, for the health report.
#[derive(Debug)]
pub struct ConnectedClient {
    pub client_id: String,
    pub client_addr: String,
    pub connected_at: String,
    pub port_mappings: Vec<PortMapping>,
}

/// The tunnel, for the health report.
#[derive(Debug)]
pub struct TunnelStatusSummary {
    pub mode: String,
    pub server_url: Option<String>,
    pub client_count: Option<usize>,
    pub clients: Vec<ConnectedClient>,
    pub client_connected: Option<bool>,
    pub port_mappings: Vec<PortMapping>,
}

/// The health report.
#[derive(Debug)]
pub struct HealthResponse {
    pub status: String,
    pub service: String,
    pub version: String,
    pub timestamp: String,
    pub projects: Vec<String>,
    pub active_deploys: usize,
    pub active_projects: Vec<String>,
    pub auto_update_enabled: bool,
    pub auto_update: AutoUpdateStatus,
    pub nfa: Option<NfaStatus>,
    pub tunnel: Option<TunnelStatusSummary>,
    pub ssh: Option<SshHealthInfo>,
}

/// The answer to a request to restart.
#[derive(Debug)]
pub struct RestartResponse {
    pub success: bool,
    pub message: String,
}

/// The text of a point in time that may be absent.
pub open spec fn opt_time_text(t: Option<Timestamp>) -> Option<Seq<char>> {
    match t {
        Some(t) => Some(time::rfc3339_text(t.seconds(), t.subsec())),
        None => None,
    }
}

fn time_text(t: &Option<Timestamp>) -> (r: Option<String>)
    ensures
        chars::opt_view(r) == opt_time_text(*t),
{
    match t {
        Some(t) => Some(t.to_rfc3339()),
        None => None,
    }
}

/// The report on updates. Where they are not configured, they count as
/// enabled if the agent is one of its own projects.
pub open spec fn updates_shown(shown: AutoUpdateStatus, state: AppState, version: Seq<char>) -> bool {
    let known = state.auto_update_state;
    &&& shown.current_version@ == version
    &&& if state.auto_update_config is Some {
        &&& shown.enabled
        &&& shown.latest_version == known.latest_version
        &&& shown.update_available == known.update_available
        &&& chars::opt_view(shown.last_check) == opt_time_text(known.last_check)
        &&& shown.last_check_result == known.last_check_result
        &&& chars::opt_view(shown.next_check) == opt_time_text(known.next_check)
        &&& shown.update_progress@ == known.update_progress.label()
    } else {
        &&& shown.enabled == state.projects@.dom().contains("xjp-deploy-agent"@)
        &&& shown.latest_version is None
        &&& !shown.update_available
        &&& shown.last_check is None
        &&& shown.last_check_result is None
        &&& shown.next_check is None
        &&& shown.update_progress@ == "none"@
    }
}

fn update_status(state: &AppState, version: &str) -> (r: AutoUpdateStatus)
    ensures
        updates_shown(r, *state, version@),
{
    if state.auto_update_config.is_some() {
        let known = &state.auto_update_state;
        AutoUpdateStatus {
            enabled: true,
            current_version: version.to_owned(),
            latest_version: known.latest_version.clone(),
            update_available: known.update_available,
            last_check: time_text(&known.last_check),
            last_check_result: known.last_check_result.clone(),
            next_check: time_text(&known.next_check),
            update_progress: known.update_progress.as_str().to_owned(),
        }
    } else {
        let mut r = AutoUpdateStatus::disabled(version.to_owned());
        r.enabled = state.projects.contains_key("xjp-deploy-agent");
        r
    }
}

/// The report on the alignment service, after a look at its process.
pub open spec fn nfa_shown(
    shown: NfaStatus,
    before: nfa::NfaView,
    poll: frp::PollView,
    healthy: bool,
) -> bool {
    let (view, running, pid) = before.observed(poll);
    &&& shown.enabled == view.config.enabled
    &&& shown.desired_running == view.desired
    &&& shown.running == running
    &&& shown.healthy == healthy
    &&& shown.pid == pid
    &&& shown.port == view.config.port
    &&& shown.python_path@ == view.config.python_path@
    &&& shown.script_path@ == view.config.script_path@
    &&& shown.started_at == view.started_at
    &&& shown.restart_count == view.restart_count
    &&& chars::opt_view(shown.last_error) == view.last_error
}

/// The report on a tunnel client.
pub open spec fn client_shown(shown: ConnectedClient, client: ClientState) -> bool {
    &&& shown.client_id == client.client_id
    &&& shown.client_addr == client.client_addr
    &&& shown.connected_at@ == time::rfc3339_text(
        client.connected_at.seconds(),
        client.connected_at.subsec(),
    )
    &&& shown.port_mappings@ == client.mappings@
}

/// The report on the clients of a tunnel server.
pub open spec fn clients_shown(shown: Seq<ConnectedClient>, server: TunnelServerState) -> bool {
    &&& shown.len() == server.client_order().len()
    &&& server.client_order().no_duplicates()
    &&& server.client_order().to_set() == server@.clients.dom()
    &&& forall|i: int|
        0 <= i < shown.len() ==> client_shown(
            #[trigger] shown[i],
            server@.clients[server.client_order()[i]],
        )
}

fn connected_clients(server: &TunnelServerState) -> (r: Vec<ConnectedClient>)
    ensures
        clients_shown(r@, *server),
        r@.len() == server@.clients.dom().len(),
{
    let connected = server.connected_clients();
    let n = connected.len();
    let ghost order = server.client_order();
    let mut r: Vec<ConnectedClient> = Vec::new();
    let mut i: usize = 0;
    while i < n
        invariant
            n == connected@.len(),
            n == order.len(),
            i <= n,
            order == server.client_order(),
            r@.len() == i,
            forall|j: int|
                0 <= j < n ==> *(#[trigger] connected@[j]) == server@.clients[order[j]],
            forall|j: int|
                0 <= j < i ==> client_shown(#[trigger] r@[j], server@.clients[order[j]]),
        decreases n - i,
    {
        let client = connected[i];
        assert(*client == server@.clients[order[i as int]]);
        r.push(
            ConnectedClient {
                client_id: client.client_id.clone(),
                client_addr: client.client_addr.clone(),
                connected_at: client.connected_at.to_rfc3339(),
                port_mappings: clone_mappings(&client.mappings),
            },
        );
        i = i + 1;
    }
    proof {
        order.unique_seq_to_set();
    }
    r
}

/// The report on the tunnel.
pub open spec fn tunnel_shown(shown: Option<TunnelStatusSummary>, state: AppState) -> bool {
    match state.tunnel_mode {
        TunnelMode::Server => {
            &&& shown matches Some(t)
            &&& t.mode@ == "server"@
            &&& t.server_url is None
            &&& clients_shown(t.clients@, state.tunnel_server_state)
            &&& t.client_count == Some(t.clients@.len() as usize)
            &&& t.client_connected == Some(t.clients@.len() > 0)
            &&& t.port_mappings@.len() == 0
        },
        TunnelMode::Client => {
            &&& shown matches Some(t)
            &&& t.mode@ == "client"@
            &&& t.server_url == Some(state.tunnel_server_url)
            &&& t.client_count is None
            &&& t.clients@.len() == 0
            &&& t.client_connected == Some(state.tunnel_client_state.connected)
            &&& t.port_mappings@ == state.tunnel_port_mappings@
        },
        TunnelMode::Disabled => shown is None,
    }
}

fn tunnel_summary(state: &AppState) -> (r: Option<TunnelStatusSummary>)
    ensures
        tunnel_shown(r, *state),
{
    match state.tunnel_mode {
        TunnelMode::Server => {
            let clients = connected_clients(&state.tunnel_server_state);
            let count = clients.len();
            Some(
                TunnelStatusSummary {
                    mode: "server".to_owned(),
                    server_url: None,
                    client_count: Some(count),
                    clients,
                    client_connected: Some(count > 0),
                    port_mappings: Vec::new(),
                },
            )
        },
        TunnelMode::Client => Some(
            TunnelStatusSummary {
                mode: "client".to_owned(),
                server_url: Some(state.tunnel_server_url.clone()),
                client_count: None,
                clients: Vec::new(),
                client_connected: Some(state.tunnel_client_state.connected),
                port_mappings: clone_mappings(&state.tunnel_port_mappings),
            },
        ),
        TunnelMode::Disabled => None,
    }
}

/// The health report at `now`, of the agent in this version. `poll` and
/// `healthy` are what a look at the alignment service found; they count where
/// the agent keeps one.
pub fn health_check(
    state: &mut AppState,
    version: &str,
    now: Timestamp,
    poll: ChildPoll,
    healthy: bool,
) -> (r: HealthResponse)
    ensures
        r.status@ == "ok"@,
        r.service@ == "xjp-deploy-agent"@,
        r.version@ == version@,
        r.timestamp@ == time::rfc3339_text(now.seconds(), now.subsec()),
        chars::views(r.projects@) == old(state).projects.keys(),
        old(state).projects.keys().no_duplicates(),
        old(state).projects.keys().to_set() == old(state).projects@.dom(),
        r.active_deploys == old(state).running_deploys@.dom().len(),
        chars::views(r.active_projects@) == old(state).running_deploys.keys(),
        old(state).running_deploys.keys().no_duplicates(),
        old(state).running_deploys.keys().to_set() == old(state).running_deploys@.dom(),
        updates_shown(r.auto_update, *old(state), version@),
        r.auto_update_enabled == r.auto_update.enabled,
        match old(state).nfa {
            Some(n) => {
                &&& r.nfa matches Some(shown)
                &&& nfa_shown(shown, n@, poll@, healthy)
                &&& final(state).nfa matches Some(after)
                &&& after@ == n@.observed(poll@).0
            },
            None => r.nfa is None && final(state).nfa is None,
        },
        *final(state) == (AppState { nfa: final(state).nfa, ..*old(state) }),
        tunnel_shown(r.tunnel, *old(state)),
        match old(state).ssh_server {
            Some(s) => {
                &&& r.ssh matches Some(shown)
                &&& shown.enabled == s@.config.enabled
                &&& shown.port == s@.config.port
                &&& shown.active_sessions == s@.sessions.dom().len()
            },
            None => r.ssh is None,
        },
{
    let auto_update = update_status(state, version);
    let tunnel = tunnel_summary(state);
    let ssh = match &state.ssh_server {
        Some(s) => Some(s.health_info()),
        None => None,
    };
    let projects = state.projects.names();
    let active_projects = state.running_deploys.names();
    let active_deploys = state.running_deploys.len();
    let nfa = match &mut state.nfa {
        Some(n) => Some(n.status(poll, healthy)),
        None => None,
    };
    HealthResponse {
        status: "ok".to_owned(),
        service: "xjp-deploy-agent".to_owned(),
        version: version.to_owned(),
        timestamp: now.to_rfc3339(),
        projects,
        active_deploys,
        active_projects,
        auto_update_enabled: auto_update.enabled,
        auto_update,
        nfa,
        tunnel,
        ssh,
    }
}

/// The names of the projects.
pub fn list_projects(state: &AppState) -> (r: Vec<String>)
    ensures
        chars::views(r@) == state.projects.keys(),
        state.projects.keys().no_duplicates(),
        state.projects.keys().to_set() == state.projects@.dom(),
{
    state.projects.names()
}

/// The arguments of the command, run by sudo, that restarts the agent after
/// two seconds.
pub fn restart_args() -> (r: Vec<String>)
    ensures
        chars::views(r@) == seq![
            "/usr/bin/systemd-run"@,
            "--no-block"@,
            "--on-active=2s"@,
            "/bin/systemctl"@,
            "restart"@,
            "xjp-deploy-agent"@,
        ],
{
    let r = strings(
        &[
            "/usr/bin/systemd-run",
            "--no-block",
            "--on-active=2s",
            "/bin/systemctl",
            "restart",
            "xjp-deploy-agent",
        ],
    );
    assert(chars::views(r@) =~= seq![
        "/usr/bin/systemd-run"@,
        "--no-block"@,
        "--on-active=2s"@,
        "/bin/systemctl"@,
        "restart"@,
        "xjp-deploy-agent"@,
    ]);
    r
}

/// The answer to a request to restart: the command that schedules the restart
/// succeeded, or it failed and wrote something to its error output, or it did
/// not run.
pub fn restart_service(outcome: Result<(bool, String), String>) -> (r: RestartResponse)
    ensures
        match outcome {
            Ok((success, stderr)) => {
                &&& r.success == success
                &&& r.message@ == if success {
                    "Service restart scheduled in 2 seconds"@
                } else {
                    "Failed to schedule restart: "@ + stderr@
                }
            },
            Err(e) => !r.success && r.message@ == "Failed to run restart command: "@ + e@,
        },
{
    match outcome {
        Ok((success, stderr)) => if success {
            RestartResponse {
                success: true,
                message: "Service restart scheduled in 2 seconds".to_owned(),
            }
        } else {
            RestartResponse {
                success: false,
                message: concat2("Failed to schedule restart: ", stderr.as_str()),
            }
        },
        Err(e) => RestartResponse {
            success: false,
            message: concat2("Failed to run restart command: ", e.as_str()),
        },
    }
}

} // verus!
