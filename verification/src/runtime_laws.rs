//! What the agent makes of its arguments, what it runs in the background, what
//! it gives up, and what it shows of itself.

use vstd::prelude::*;

use crate::api::health;
use crate::api::lan;
use crate::config::autoupdate::AutoUpdateStatus;
use crate::domain::deploy::{DeployStatus, DeployTask};
use crate::domain::tunnel::TunnelMode;
use crate::runtime;
use crate::runtime::{BackgroundTask, RuntimeConfig};
use crate::services::frp;
use crate::services::nfa;
use crate::services::service_router;
use crate::services::windows_service;
use crate::services::windows_service::ServiceCommand;
use crate::state::app_state::AppState;
use crate::state::tunnel_state::ClientState;
use crate::text::number;
use crate::time;
use crate::time::Timestamp;

verus! {

proof fn lemma_words_differ()
    ensures
        "--port"@ != "--takeover"@,
        "--port"@ != "--canary"@,
        "--port"@ != "--help"@,
        "--port"@ != "-h"@,
        "--port"@ != "service"@,
        "--takeover"@ != "--canary"@,
        "--takeover"@ != "--help"@,
        "--takeover"@ != "-h"@,
        "--takeover"@ != "service"@,
        "--canary"@ != "--help"@,
        "--canary"@ != "-h"@,
        "--canary"@ != "service"@,
        "service"@ != "--help"@,
        "service"@ != "-h"@,
{
    reveal_strlit("--port");
    reveal_strlit("--takeover");
    reveal_strlit("--canary");
    reveal_strlit("--help");
    reveal_strlit("-h");
    reveal_strlit("service");
    assert("--port"@.len() == 6 && "--takeover"@.len() == 10 && "--canary"@.len() == 8
        && "-h"@.len() == 2 && "service"@.len() == 7);
    assert("--port"@[2] == 'p' && "--help"@[2] == 'h');
}

/// The arguments are read from left to right. "--port" and "--takeover" take the
/// argument behind them, "--canary" stands alone, "--help" ends the run,
/// "service" ends the reading, and everything else is passed over.
pub proof fn arguments_are_read_in_order(args: Seq<String>, i: int, config: RuntimeConfig)
    requires
        0 <= i <= args.len(),
    ensures
        ({
            let r = runtime::parsed_from(args, i, config);
            let word = args[i]@;
            let more = i + 1 < args.len();
            let port = number::parse_spec(args[i + 1]@, 65535);
            &&& i == args.len() ==> r == Some(config)
            &&& i < args.len() && word == "--port"@ && more ==> r == runtime::parsed_from(
                args,
                i + 2,
                RuntimeConfig {
                    port_override: if port is Some {
                        Some(port->0 as u16)
                    } else {
                        None
                    },
                    ..config
                },
            )
            &&& i < args.len() && word == "--takeover"@ && more ==> r == runtime::parsed_from(
                args,
                i + 2,
                RuntimeConfig { takeover_session_id: Some(args[i + 1]), ..config },
            )
            &&& i < args.len() && word == "--canary"@ ==> r == runtime::parsed_from(
                args,
                i + 1,
                RuntimeConfig { canary_mode: true, ..config },
            )
            &&& i < args.len() && (word == "--help"@ || word == "-h"@) ==> r is None
            &&& i < args.len() && word == "service"@ ==> r == Some(config)
            &&& i < args.len() && word != "--canary"@ && word != "--help"@ && word != "-h"@ && word
                != "service"@ && !(more && (word == "--port"@ || word == "--takeover"@)) ==> r
                == runtime::parsed_from(args, i + 1, config)
        }),
{
    lemma_words_differ();
}

/// Without arguments the agent listens where it is configured to, updates itself
/// and takes nothing over.
pub proof fn plain_run_changes_nothing(state: AppState, runtime: RuntimeConfig)
    ensures
        RuntimeConfig::plain().port_override is None,
        !RuntimeConfig::plain().canary_mode,
        RuntimeConfig::plain().takeover_session_id is None,
        ({
            let s = runtime::with_runtime(state, runtime);
            &&& runtime.port_override is Some ==> s.config.port == runtime.port_override->0
            &&& runtime.port_override is None ==> s.config.port == state.config.port
            &&& runtime.canary_mode ==> s.auto_update_config is None
            &&& !runtime.canary_mode ==> s.auto_update_config == state.auto_update_config
            &&& s.config.ssh == state.config.ssh && s.tunnel_mode == state.tunnel_mode && s.projects
                == state.projects && s.nfa == state.nfa && s.frp == state.frp && s.mesh_client
                == state.mesh_client
        }),
{
}

/// What runs in the background is what is configured: the alignment service, the
/// SSH server, the frp client, the tunnel client with the session that it takes
/// over, the mesh and the updates; the log reporter and the cleanup always run.
pub proof fn background_is_as_configured(state: AppState, takeover: Option<String>)
    ensures
        ({
            let b = runtime::background_tasks_spec(state, takeover);
            &&& b.len() == 8
            &&& b[0] == (if state.nfa is Some {
                Some(BackgroundTask::Nfa)
            } else {
                None
            })
            &&& b[1] == (if state.config.ssh.enabled {
                Some(BackgroundTask::Ssh)
            } else {
                None
            })
            &&& b[2] == (if state.frp is Some {
                Some(BackgroundTask::Frp)
            } else {
                None
            })
            &&& b[3] == (if state.tunnel_mode == TunnelMode::Client {
                Some(BackgroundTask::Tunnel { takeover })
            } else {
                None
            })
            &&& b[4] == (if state.mesh_client is Some {
                Some(BackgroundTask::Mesh)
            } else {
                None
            })
            &&& b[5] == (if state.auto_update_config is Some {
                Some(BackgroundTask::AutoUpdate)
            } else {
                None
            })
            &&& b[6] == Some(BackgroundTask::LogReporter)
            &&& b[7] == Some(BackgroundTask::Cleanup)
        }),
{
}

/// The tasks that are given up fail one by one, with -1; a task that is not
/// active is passed over, and no other task changes.
pub proof fn tasks_are_given_up_one_by_one(
    active: Map<Seq<char>, DeployTask>,
    told: Seq<(Seq<char>, Seq<char>)>,
    project: Seq<char>,
    id: Seq<char>,
    now: Timestamp,
    other: Seq<char>,
)
    requires
        other != id,
    ensures
        runtime::failed_tasks(active, Seq::empty(), now) == active,
        ({
            let before = runtime::failed_tasks(active, told, now);
            let after = runtime::failed_tasks(active, told.push((project, id)), now);
            &&& !before.dom().contains(id) ==> after == before
            &&& before.dom().contains(id) ==> after.dom().contains(id) && after[id].status
                == DeployStatus::Failed && after[id].exit_code == Some(-1i32)
                && after[id].finished_at == Some(now) && after[id].project == before[id].project
                && after[id].id == before[id].id && after[id].stages == before[id].stages
            &&& after.dom().contains(other) <==> before.dom().contains(other)
            &&& before.dom().contains(other) ==> after[other] == before[other]
        }),
{
    assert(told.push((project, id)).drop_last() =~= told);
}

/// A cleanup gives up what has waited for more than ten minutes, and every
/// sixtieth one forgets tasks and logs that are too old. Nothing else of the
/// state changes.
pub proof fn cleanup_is_complete_at_times(
    before: AppState,
    after: AppState,
    told: Seq<(Seq<char>, Seq<char>)>,
    count: u32,
    now: Timestamp,
    project: Seq<char>,
)
    requires
        runtime::cleaned_up(before, after, told, count, now),
    ensures
        after.running_deploys == before.running_deploys,
        after.projects == before.projects,
        after.queue(project) == before.queue(project).filter(
            crate::state::app_state::unexpired(now, 600),
        ),
        count % 60 != 0 ==> after.task_store.past() == before.task_store.past() && after.log_hub
            == before.log_hub && after.task_store.active() == runtime::failed_tasks(
            before.task_store.active(),
            told,
            now,
        ),
        count % 60 == 0 ==> after.log_hub@ == before.log_hub.after_expiry(now, 24),
        count % 60 == 0 ==> forall|id: Seq<char>| #[trigger]
            after.task_store.active().dom().contains(id) <==> {
                let failed = runtime::failed_tasks(before.task_store.active(), told, now);
                &&& failed.dom().contains(id)
                &&& !(failed[id].status != DeployStatus::Running && failed[id].finished_at is Some
                    && now.instant() - failed[id].finished_at->0.instant()
                    >= before.task_store.retention() * 3_600_000_000_000)
            },
{
}

/// The command of the service is the one that its name says.
pub proof fn service_command_goes_by_its_name(c: ServiceCommand, name: Seq<char>)
    requires
        windows_service::is_command(c, name),
    ensures
        c is Install ==> name == "install"@,
        c is Uninstall ==> name == "uninstall"@,
        c is Start ==> name == "start"@,
        c is Stop ==> name == "stop"@,
        c is Status ==> name == "status"@,
        c is Run ==> name == "run"@,
        !(c is Usage),
        c matches ServiceCommand::Unknown(s) ==> s@ == name && name != "install"@ && name
            != "uninstall"@ && name != "start"@ && name != "stop"@ && name != "status"@ && name
            != "run"@,
{
}

/// The agent runs as a service exactly where its first two arguments say so.
pub proof fn service_run_is_asked_for(args: Seq<String>)
    ensures
        windows_service::starts_service(args) <==> args.len() >= 3 && args[1]@ == "service"@
            && args[2]@ == "run"@,
{
}

/// What is shown of updates is what is known of them; without a configuration
/// nothing is, and they are on exactly where the agent itself is a project.
pub proof fn updates_are_shown(shown: AutoUpdateStatus, state: AppState, version: Seq<char>)
    requires
        health::updates_shown(shown, state, version),
    ensures
        shown.current_version@ == version,
        state.auto_update_config is Some ==> shown.enabled && shown.latest_version
            == state.auto_update_state.latest_version && shown.update_available
            == state.auto_update_state.update_available && shown.last_check_result
            == state.auto_update_state.last_check_result && (shown.last_check is Some
            <==> state.auto_update_state.last_check is Some) && (shown.next_check is Some
            <==> state.auto_update_state.next_check is Some),
        state.auto_update_config is None ==> (shown.enabled <==> state.projects@.dom().contains(
            "xjp-deploy-agent"@,
        )) && !shown.update_available && shown.latest_version is None && shown.last_check is None
            && shown.next_check is None,
{
}

/// What is shown of the alignment service is what was seen of it.
pub proof fn alignment_service_is_shown(
    shown: nfa::NfaStatus,
    before: nfa::NfaView,
    poll: frp::PollView,
    healthy: bool,
)
    requires
        health::nfa_shown(shown, before, poll, healthy),
    ensures
        shown.enabled == before.config.enabled,
        shown.desired_running == before.desired,
        shown.running == (before.child && !(poll is Exited)),
        shown.healthy == healthy,
        shown.port == before.config.port,
        shown.started_at == before.started_at,
        shown.restart_count == before.restart_count,
        before.child ==> (poll matches frp::PollView::Running(pid) ==> shown.pid == pid),
{
}

/// What is shown of the tunnel goes by its side: a server shows its clients, a
/// client its server and its mappings, and no tunnel shows nothing.
pub proof fn tunnel_is_shown(shown: Option<health::TunnelStatusSummary>, state: AppState)
    requires
        health::tunnel_shown(shown, state),
    ensures
        shown is None <==> state.tunnel_mode == TunnelMode::Disabled,
        state.tunnel_mode == TunnelMode::Server ==> shown->0.mode@ == "server"@
            && shown->0.clients@.len() == state.tunnel_server_state.client_order().len()
            && shown->0.client_connected == Some(shown->0.clients@.len() > 0)
            && shown->0.server_url is None,
        state.tunnel_mode == TunnelMode::Client ==> shown->0.mode@ == "client"@
            && shown->0.server_url == Some(state.tunnel_server_url) && shown->0.client_connected
            == Some(state.tunnel_client_state.connected) && shown->0.port_mappings@
            == state.tunnel_port_mappings@ && shown->0.clients@.len() == 0,
{
}

/// A client is shown with its name, its address, its time and its mappings.
pub proof fn client_is_shown(shown: health::ConnectedClient, client: ClientState)
    requires
        health::client_shown(shown, client),
    ensures
        shown.client_id == client.client_id,
        shown.client_addr == client.client_addr,
        shown.connected_at@ == time::rfc3339_text(
            client.connected_at.seconds(),
            client.connected_at.subsec(),
        ),
        shown.port_mappings@ == client.mappings@,
{
}

/// A service is shown with its address and the name of its source.
pub proof fn service_is_shown(
    info: lan::ServiceInfo,
    service: (Seq<char>, service_router::EndpointView),
)
    requires
        lan::shows(info, service),
    ensures
        info.service_id@ == service.0,
        info.url@ == service.1.url,
        info.latency_ns == service.1.latency_ns,
        info.healthy == service.1.healthy,
        info.source@ == (match service.1.source {
            service_router::EndpointSource::Local => "Local"@,
            service_router::EndpointSource::LanPeer => "LanPeer"@,
            service_router::EndpointSource::Mesh => "Mesh"@,
            service_router::EndpointSource::Config => "Config"@,
            service_router::EndpointSource::Fallback => "Fallback"@,
        }),
{
}

} // verus!
