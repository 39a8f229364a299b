//! Updates, the local network, the mesh, restarts and the other services.

use xjp_deploy_agent::collections::StrMap;
use xjp_deploy_agent::config::autoupdate::{
    AutoUpdateConfig, AutoUpdateState, UpdateMetadata, UpdateProgress,
};
use xjp_deploy_agent::config::environment::Environment;
use xjp_deploy_agent::domain::ssh::{SshAuthMode, SshConfig};
use xjp_deploy_agent::domain::tunnel::TunnelMode;
use xjp_deploy_agent::infra::deploy_center::DeployCenterClient;
use xjp_deploy_agent::services::autoupdate::{
    begin_apply, check_digest, end_apply, hex, is_newer_version, on_check_error, on_metadata,
    pending_update, resolve_binary_url, restart_kind, schedule_error, schedule_next,
    takeover_args, takeover_first_look, takeover_last_look, takeover_spawn_error, temp_file_name,
    verify_checksum, ProcessLook, RestartKind, UpdateAction, UpdateDecision, UpdateEvent,
    UpdateRun,
};
use xjp_deploy_agent::services::lan_discovery;
use xjp_deploy_agent::services::lan_discovery::{
    parse_services, DiscoveryPacket, LanDiscovery, LanDiscoveryConfig, LocalService,
    BROADCAST_MAGIC, PEER_TIMEOUT_SECS,
};
use xjp_deploy_agent::services::log_reporter::{
    build_report, get_agent_id, get_agent_url, journal_args, journal_lines,
    parse_journalctl_timestamp, report_url, LogReporterState, MAX_LINES_PER_BATCH,
};
use xjp_deploy_agent::services::log_ring::{LogRing, MAX_LINES};
use xjp_deploy_agent::services::mesh;
use xjp_deploy_agent::services::mesh::{
    asks_mesh, parse_mesh_services, MeshClient, MeshConfig, MeshEndpoint, MeshReply, NetworkInfo,
    ResolveStep,
};
use xjp_deploy_agent::services::network::AddressTool;
use xjp_deploy_agent::services::queue_persistence::{
    queue_dir, PersistedQueue, PersistedTask, QueuePersistence,
};
use xjp_deploy_agent::services::restart::{
    Platform, RestartAction, RestartError, RestartEvent, RestartManager, RestartMode,
};
use xjp_deploy_agent::services::service_router::{
    parse_service_map, EndpointSource, ServiceRouter, ServiceRouterConfig,
};
use xjp_deploy_agent::services::ssh::server::{
    exec_failure, exit_status, host_key_plan, AuthReply, HostKeyPlan, ShellKind, SshServer,
};
use xjp_deploy_agent::time::Timestamp;

fn at(secs: i64) -> Timestamp {
    Timestamp::new(secs, 0).unwrap()
}

fn environment(vars: &[(&str, &str)]) -> Environment {
    Environment {
        vars: vars.iter().map(|(k, v)| (k.to_string(), v.to_string())).collect(),
        hostname: Some("node-1".to_string()),
    }
}

// Updates.

fn update(version: &str, sha256: Option<&str>) -> UpdateMetadata {
    UpdateMetadata {
        version: version.to_string(),
        released_at: "2025-01-01".to_string(),
        changelog: None,
        sha256: sha256.map(|s| s.to_string()),
    }
}

const ABC_DIGEST: &str = "ba7816bf8f01cfea414140de5dae2223b00361a396177a9cb410ff61f20015ad";

#[test]
fn test_is_newer_version() {
    assert!(is_newer_version("1.0.1", "1.0.0"));
    assert!(is_newer_version("1.1.0", "1.0.0"));
    assert!(is_newer_version("2.0.0", "1.9.9"));
    assert!(!is_newer_version("1.0.0", "1.0.0"));
    assert!(!is_newer_version("0.9.9", "1.0.0"));
}

#[test]
fn versions_are_ordered_by_their_numbers() {
    assert!(is_newer_version("1.10.0", "1.9.0"));
    assert!(is_newer_version("1.0.0.1", "1.0.0"));
    assert!(!is_newer_version("1.0", "1.0.0"));
    assert!(!is_newer_version("1.0.0-rc", "1.0.0"));
    assert!(is_newer_version("1.x.1", "1.0"));
    assert!(!is_newer_version("", ""));
}

#[test]
fn checksum_of_a_binary() {
    assert_eq!(hex(&vec![0, 15, 255, 160]), "000fffa0");
    assert!(verify_checksum(&b"abc".to_vec(), ABC_DIGEST).is_ok());
    assert!(verify_checksum(&b"abc".to_vec(), &ABC_DIGEST.to_uppercase()).is_ok());
    assert_eq!(
        verify_checksum(&b"abc".to_vec(), "00"),
        Err(format!("Checksum mismatch: expected 00, got {ABC_DIGEST}"))
    );
    assert!(verify_checksum(
        &Vec::new(),
        "e3b0c44298fc1c149afbf4c8996fb92427ae41e4649b934ca495991b7852b855"
    )
    .is_ok());
    assert!(check_digest(&vec![171], "AB").is_ok());
    assert!(check_digest(&vec![171], "AC").is_err());
}

#[test]
fn update_decisions() {
    let mut state = AutoUpdateState::new();
    assert!(matches!(
        on_metadata(&mut state, &update("1.0.0", None), "1.0.0", 0),
        UpdateDecision::UpToDate
    ));
    assert_eq!(state.last_check_result.as_deref(), Some("Already up to date"));
    assert!(!state.update_available);

    assert!(matches!(
        on_metadata(&mut state, &update("1.2.0", None), "1.0.0", 2),
        UpdateDecision::Defer
    ));
    assert_eq!(
        state.last_check_result.as_deref(),
        Some("Update to 1.2.0 deferred - waiting for 2 running task(s)")
    );
    assert!(matches!(state.update_progress, UpdateProgress::Deferred));
    assert!(state.update_available);

    assert!(pending_update(true, &state, 1, 0).is_none());
    assert!(pending_update(true, &state, 0, 1).is_none());
    assert!(pending_update(false, &state, 0, 0).is_none());
    assert_eq!(pending_update(true, &state, 0, 0).unwrap().version, "1.2.0");

    assert!(matches!(
        on_metadata(&mut state, &update("1.2.0", None), "1.0.0", 0),
        UpdateDecision::Apply
    ));
    begin_apply(&mut state);
    assert!(state.is_update_in_progress());
    end_apply(&mut state, "1.2.0", &Err("no space".to_string()));
    assert_eq!(state.last_check_result.as_deref(), Some("Update failed: no space"));
    assert!(!state.is_update_in_progress());
    assert!(!state.has_pending_update());
    begin_apply(&mut state);
    end_apply(&mut state, "1.2.0", &Ok(()));
    assert_eq!(state.last_check_result.as_deref(), Some("Successfully updated to 1.2.0"));
    assert!(state.is_update_in_progress());
    on_check_error(&mut state, "timeout");
    assert_eq!(state.last_check_result.as_deref(), Some("Error: timeout"));
    schedule_next(&mut state, at(100), 60);
    assert_eq!(state.next_check.unwrap().timestamp(), 160);
}

#[test]
fn update_is_tried_before_it_is_put_in_place() {
    let mut state = AutoUpdateState::new();
    let meta = update("1.2.0", Some(ABC_DIGEST));
    let (mut run, first) = UpdateRun::begin(&meta, "http://s/bin".to_string(), &mut state);
    assert!(matches!(first, UpdateAction::Download { url } if url == "http://s/bin"));
    assert!(matches!(state.update_progress, UpdateProgress::Downloading));
    let acts = run.on_event(UpdateEvent::Done, &mut state);
    assert!(matches!(acts.as_slice(), [UpdateAction::ReadBinary]));
    let acts = run.on_event(UpdateEvent::Contents(b"abc".to_vec()), &mut state);
    assert!(matches!(acts.as_slice(), [UpdateAction::StartCanary { args }]
        if args.join(" ") == "--port 19999 --canary"));
    assert!(matches!(state.update_progress, UpdateProgress::HealthCheck));
    let acts = run.on_event(UpdateEvent::Done, &mut state);
    assert!(matches!(acts.as_slice(), [UpdateAction::WaitCanary { secs: 5 }]));
    let acts = run.on_event(UpdateEvent::CanaryRuns, &mut state);
    assert!(matches!(acts.as_slice(), [UpdateAction::AskCanary { url, timeout_secs: 10 }]
        if url == "http://127.0.0.1:19999/health"));
    let acts = run.on_event(UpdateEvent::CanaryHealth(true), &mut state);
    assert!(matches!(acts.as_slice(), [UpdateAction::KillCanary, UpdateAction::Backup]));
    let acts = run.on_event(UpdateEvent::Done, &mut state);
    assert!(matches!(acts.as_slice(), [UpdateAction::Replace]));
    let acts = run.on_event(UpdateEvent::Done, &mut state);
    assert!(matches!(acts.as_slice(), [UpdateAction::SetPermissions]));
    let acts = run.on_event(UpdateEvent::Done, &mut state);
    assert!(matches!(acts.as_slice(), [UpdateAction::RemoveBackup, UpdateAction::Restart]));
    assert!(matches!(state.update_progress, UpdateProgress::Restarting));
    assert!(run.on_event(UpdateEvent::Done, &mut state).is_empty());
}

#[test]
fn failed_update_keeps_the_running_binary() {
    let mut state = AutoUpdateState::new();
    let meta = update("1.2.0", None);
    let (mut run, _) = UpdateRun::begin(&meta, "http://s/bin".to_string(), &mut state);
    run.on_event(UpdateEvent::Done, &mut state);
    run.on_event(UpdateEvent::Done, &mut state);
    run.on_event(UpdateEvent::CanaryRuns, &mut state);
    let acts = run.on_event(UpdateEvent::CanaryHealth(false), &mut state);
    assert!(matches!(
        acts.as_slice(),
        [UpdateAction::KillCanary, UpdateAction::RemoveTemp, UpdateAction::Fail { error }]
        if error == "Canary health check failed - keeping current version"
    ));
    assert!(matches!(state.update_progress, UpdateProgress::Idle));

    let meta = update("1.2.0", Some("00"));
    let (mut run, _) = UpdateRun::begin(&meta, "http://s/bin".to_string(), &mut state);
    run.on_event(UpdateEvent::Done, &mut state);
    let acts = run.on_event(UpdateEvent::Contents(b"abc".to_vec()), &mut state);
    assert!(matches!(acts.as_slice(), [UpdateAction::Fail { error }]
        if error.starts_with("Checksum mismatch: expected 00, got ba7816bf")));

    let meta = update("1.2.0", None);
    let (mut run, _) = UpdateRun::begin(&meta, "http://s/bin".to_string(), &mut state);
    run.on_event(UpdateEvent::Done, &mut state);
    run.on_event(UpdateEvent::Done, &mut state);
    run.on_event(UpdateEvent::CanaryRuns, &mut state);
    run.on_event(UpdateEvent::CanaryHealth(true), &mut state);
    run.on_event(UpdateEvent::Done, &mut state);
    let acts = run.on_event(UpdateEvent::Failed("busy".to_string()), &mut state);
    assert!(matches!(acts.as_slice(), [UpdateAction::Restore, UpdateAction::Fail { error }]
        if error == "Failed to replace binary: busy"));
}

#[test]
fn update_comes_from_the_mesh_or_from_the_configuration() {
    let config = AutoUpdateConfig {
        enabled: true,
        endpoint: "https://oss".to_string(),
        metadata_path: "latest.json".to_string(),
        binary_path_template: "agent/{version}/bin".to_string(),
        check_interval_secs: 60,
    };
    assert_eq!(resolve_binary_url(&config, None, "1.2.0"), "https://oss/agent/1.2.0/bin");
    assert_eq!(
        resolve_binary_url(&config, Some("http://lan:9000//".to_string()), "1.2.0"),
        "http://lan:9000/agent/1.2.0/bin"
    );
    assert_eq!(temp_file_name("1.2.0"), "xjp-deploy-agent-1.2.0");
}

#[test]
fn tunnel_client_hands_its_session_over() {
    let bin = || "/opt/agent".to_string();
    assert!(matches!(
        restart_kind(TunnelMode::Client, Platform::Unix, true, bin()),
        RestartKind::Takeover
    ));
    assert!(matches!(
        restart_kind(TunnelMode::Client, Platform::Windows, true, bin()),
        RestartKind::Scheduled(RestartMode::Service)
    ));
    assert!(matches!(
        restart_kind(TunnelMode::Server, Platform::Unix, false, bin()),
        RestartKind::Scheduled(RestartMode::Console(b)) if b == "/opt/agent"
    ));
    assert_eq!(takeover_args("s-1"), vec!["--takeover", "s-1"]);
    assert!(takeover_first_look(ProcessLook::Runs).is_ok());
    assert_eq!(
        takeover_first_look(ProcessLook::Exited),
        Err("New process exited prematurely".to_string())
    );
    assert_eq!(
        takeover_first_look(ProcessLook::Unknown("gone".to_string())),
        Err("Failed to check new process: gone".to_string())
    );
    assert!(takeover_last_look(&ProcessLook::Runs));
    assert!(!takeover_last_look(&ProcessLook::Exited));
    assert_eq!(takeover_spawn_error("x"), "Failed to spawn new process: x");
    assert_eq!(schedule_error("x"), "Failed to schedule restart: x");
}

// Restarts.

#[test]
fn test_restart_mode_debug() {
    let service_mode = RestartMode::Service;
    let console_mode = RestartMode::Console("/usr/bin/test".to_string());

    assert!(format!("{:?}", service_mode).contains("Service"));
    assert!(format!("{:?}", console_mode).contains("Console"));
}

fn restart(platform: Platform, mode: RestartMode) -> (RestartManager, RestartAction) {
    RestartManager::schedule_restart(
        platform,
        mode,
        "C:\\agent",
        "10:31".to_string(),
        "01/02/2025".to_string(),
    )
}

fn ran(success: bool) -> RestartEvent {
    RestartEvent::Ran { success, stderr: "denied".to_string() }
}

#[test]
fn unix_service_restarts_through_a_timer() {
    let (mut m, first) = restart(Platform::Unix, RestartMode::Service);
    assert!(matches!(first, RestartAction::Run { program, args } if program == "sudo"
        && args[0] == "/usr/bin/systemd-run" && args[5] == "xjp-deploy-agent.service"));
    assert!(matches!(m.on_event(ran(true)), RestartAction::Done(Ok(()))));
    let (mut m, _) = restart(Platform::Unix, RestartMode::Service);
    assert!(matches!(m.on_event(ran(false)),
        RestartAction::Done(Err(RestartError::CommandFailed(e))) if e == "denied"));
    let (mut m, _) = restart(Platform::Unix, RestartMode::Service);
    assert!(matches!(m.on_event(RestartEvent::Failed("no sudo".to_string())),
        RestartAction::Done(Err(RestartError::Io(e))) if e == "no sudo"));
}

#[test]
fn unix_console_replaces_its_process() {
    let (mut m, first) = restart(Platform::Unix, RestartMode::Console("/opt/a".to_string()));
    assert!(matches!(first, RestartAction::Exec { program } if program == "/opt/a"));
    assert!(matches!(m.on_event(RestartEvent::Failed("gone".to_string())),
        RestartAction::Done(Err(RestartError::CommandFailed(e))) if e == "exec failed: gone"));
}

#[test]
fn windows_service_has_four_ways_to_restart() {
    let (mut m, first) = restart(Platform::Windows, RestartMode::Service);
    assert!(matches!(first, RestartAction::Run { program, .. } if program == "sc"));
    let next = m.on_event(ran(false));
    assert!(matches!(next, RestartAction::Run { program, args } if program == "schtasks"
        && args.contains(&"/Delete".to_string())));
    let next = m.on_event(ran(false));
    assert!(matches!(next, RestartAction::Run { program, args } if program == "schtasks"
        && args.contains(&"10:31".to_string()) && args.contains(&"01/02/2025".to_string())));
    let next = m.on_event(ran(false));
    assert!(matches!(next, RestartAction::WriteScript { name, text }
        if name == "xjp-deploy-agent-restart.bat" && text.contains("net start xjp-deploy-agent")));
    let next = m.on_event(RestartEvent::Written { path: "C:\\t\\r.bat".to_string() });
    assert!(matches!(next, RestartAction::Run { args, .. }
        if args.iter().any(|a| a.contains("C:\\t\\r.bat"))));
    let next = m.on_event(ran(false));
    assert!(matches!(next, RestartAction::Spawn { args, .. }
        if args.iter().any(|a| a.contains("C:\\t\\r.bat"))));
    assert!(matches!(m.on_event(RestartEvent::Spawned), RestartAction::Done(Ok(()))));
}

#[test]
fn windows_console_starts_the_new_binary_from_a_script() {
    let (mut m, first) = restart(Platform::Windows, RestartMode::Console("new.exe".to_string()));
    assert!(matches!(first, RestartAction::WriteScript { name, text }
        if name == "xjp-deploy-agent-update.bat"
            && text.contains("cd /d \"C:\\agent\"") && text.contains("start \"\" \"new.exe\"")));
    m.on_event(RestartEvent::Written { path: "u.bat".to_string() });
    m.on_event(ran(false));
    assert!(matches!(m.on_event(RestartEvent::Failed("no cmd".to_string())),
        RestartAction::Done(Err(RestartError::Io(e))) if e == "no cmd"));
}

#[test]
fn unknown_platform_cannot_restart() {
    let (_, first) = restart(Platform::Other, RestartMode::Service);
    assert!(matches!(first, RestartAction::Done(Err(RestartError::Unsupported))));
    assert_eq!(
        RestartError::CommandFailed("x".to_string()).to_text(),
        "Failed to execute command: x"
    );
    assert_eq!(RestartError::ScheduleTaskFailed.to_text(), "Failed to schedule restart task");
    assert_eq!(RestartError::Io("x".to_string()).to_text(), "IO error: x");
    assert_eq!(
        RestartError::Unsupported.to_text(),
        "Restart method not supported on this platform"
    );
}

// The local network.

fn lan_config() -> LanDiscoveryConfig {
    LanDiscoveryConfig {
        enabled: true,
        broadcast_port: 19998,
        agent_id: "me".to_string(),
        api_port: 9877,
        local_services: parse_services("rustfs:9000:http:/health"),
        capabilities: vec!["docker".to_string()],
    }
}

fn packet(id: &str, ip: &str, services: &[(&str, u16, &str)]) -> DiscoveryPacket {
    let mut map: StrMap<LocalService> = StrMap::new();
    for (name, port, protocol) in services {
        map.insert(
            name.to_string(),
            LocalService {
                service_id: name.to_string(),
                port: *port,
                protocol: protocol.to_string(),
                health_path: None,
            },
        );
    }
    DiscoveryPacket {
        magic: BROADCAST_MAGIC,
        version: 1,
        agent_id: id.to_string(),
        lan_ip: ip.to_string(),
        api_port: 9877,
        capabilities: Vec::new(),
        services: map,
        timestamp: 1_700_000_000,
    }
}

#[test]
fn mod_test_is_private_ip() {
    assert!(lan_discovery::is_private_ip("192.168.1.1"));
    assert!(lan_discovery::is_private_ip("10.0.0.1"));
    assert!(lan_discovery::is_private_ip("172.16.0.1"));
    assert!(!lan_discovery::is_private_ip("8.8.8.8"));
}

#[test]
fn test_discovery_packet_serialization() {
    let packet = DiscoveryPacket {
        magic: BROADCAST_MAGIC,
        version: 1,
        agent_id: "test".to_string(),
        lan_ip: "192.168.1.100".to_string(),
        api_port: 9876,
        capabilities: vec!["docker".to_string()],
        services: StrMap::new(),
        timestamp: 1234567890,
    };

    let serialized = packet.serialize().unwrap();
    let deserialized = DiscoveryPacket::deserialize(&serialized).unwrap();

    assert_eq!(packet.agent_id, deserialized.agent_id);
    assert_eq!(packet.lan_ip, deserialized.lan_ip);
}

#[test]
fn broadcast_has_the_layout_of_the_wire() {
    let p = packet("ab", "1", &[]);
    let bytes = p.serialize().unwrap();
    let mut expected: Vec<u8> = b"XJPA".to_vec();
    expected.push(1);
    expected.extend([2, 0, 0, 0, 0, 0, 0, 0, b'a', b'b']);
    expected.extend([1, 0, 0, 0, 0, 0, 0, 0, b'1']);
    expected.extend(9877u16.to_le_bytes());
    expected.extend([0; 8]);
    expected.extend([0; 8]);
    expected.extend(1_700_000_000i64.to_le_bytes());
    assert_eq!(bytes, expected);
}

#[test]
fn broadcast_is_read_back_with_its_services() {
    let mine = LanDiscovery::new(lan_config(), Some("192.168.1.5".to_string()));
    let sent = mine.build_discovery_packet(at(1_000));
    assert_eq!(sent.lan_ip, "192.168.1.5");
    assert_eq!(sent.timestamp, 1_000);
    let bytes = sent.serialize().unwrap();
    let read = DiscoveryPacket::deserialize(&bytes).unwrap();
    let service = read.services.get("rustfs").unwrap();
    assert_eq!(service.port, 9000);
    assert_eq!(service.health_path.as_deref(), Some("/health"));
    assert_eq!(read.capabilities, vec!["docker"]);
    assert_eq!(read.timestamp, 1_000);
    // The agent does not listen to itself, nor to anything else.
    assert!(mine.receive(&bytes).is_none());
    assert!(mine.receive(&b"XJ".to_vec()).is_none());
    assert!(mine.receive(&b"XJPA".to_vec()).is_none());
    let other = packet("peer", "192.168.1.6", &[]).serialize().unwrap();
    assert_eq!(mine.receive(&other).unwrap().agent_id, "peer");
    let mut wrong = other.clone();
    wrong[0] = b'Y';
    assert!(mine.receive(&wrong).is_none());
}

#[test]
fn fastest_healthy_peer_offers_the_service() {
    let mut lan = LanDiscovery::new(lan_config(), None);
    let s = [("nfa", 9528, "http"), ("db", 5432, "tcp")];
    lan.handle_discovery(packet("a", "192.168.1.6", &s), true, Some(900), at(10));
    lan.handle_discovery(packet("b", "192.168.1.7", &s), true, Some(300), at(10));
    lan.handle_discovery(packet("c", "192.168.1.8", &s), false, Some(1), at(10));
    assert_eq!(lan.get_service_provider("nfa").unwrap().agent_id, "b");
    assert_eq!(lan.get_service_url("nfa").unwrap(), "http://192.168.1.7:9528");
    assert_eq!(lan.get_service_url("none"), None);
    assert_eq!(lan.get_peers().len(), 3);
    assert_eq!(lan.get_healthy_peers().len(), 2);
    let stats = lan.get_stats();
    assert_eq!(stats.total_peers, 3);
    assert_eq!(stats.healthy_peers, 2);
    assert_eq!(stats.local_services, 1);
    assert_eq!(lan.get_peers()[0].api_url(), "http://192.168.1.6:9877");
}

#[test]
fn silent_peer_is_forgotten_and_a_fresh_one_stays() {
    let mut lan = LanDiscovery::new(lan_config(), None);
    lan.handle_discovery(packet("a", "192.168.1.6", &[]), true, None, at(0));
    lan.handle_discovery(packet("b", "192.168.1.7", &[]), true, None, at(60));
    lan.cleanup(at(PEER_TIMEOUT_SECS));
    assert_eq!(lan.get_peers().len(), 2);
    lan.cleanup(at(PEER_TIMEOUT_SECS + 1));
    let left = lan.get_peers();
    assert_eq!(left.len(), 1);
    assert_eq!(left[0].agent_id, "b");
}

#[test]
fn known_peer_keeps_its_address() {
    let mut lan = LanDiscovery::new(lan_config(), None);
    lan.handle_discovery(packet("a", "192.168.1.6", &[]), true, Some(5), at(1));
    lan.handle_discovery(packet("a", "192.168.1.9", &[("x", 1, "http")]), false, None, at(2));
    let peers = lan.get_peers();
    assert_eq!(peers.len(), 1);
    assert_eq!(peers[0].lan_ip, "192.168.1.6");
    assert_eq!(peers[0].discovered_at.timestamp(), 1);
    assert_eq!(peers[0].last_seen.timestamp(), 2);
    assert!(!peers[0].healthy);
    assert!(peers[0].services.contains_key("x"));
}

#[test]
fn lan_configuration() {
    assert!(LanDiscoveryConfig::from_env(&environment(&[])).is_none());
    assert!(
        LanDiscoveryConfig::from_env(&environment(&[("LAN_DISCOVERY_ENABLED", "TRUE")])).is_none()
    );
    let c = LanDiscoveryConfig::from_env(&environment(&[
        ("LAN_DISCOVERY_ENABLED", "1"),
        ("LAN_LOCAL_SERVICES", "a:1,b,c:x:tcp:/h"),
        ("LAN_CAPABILITIES", "docker, nfa"),
    ]))
    .unwrap();
    assert_eq!(c.agent_id, "node-1");
    assert_eq!(c.broadcast_port, 19998);
    assert_eq!(c.capabilities, vec!["docker", "nfa"]);
    assert_eq!(c.local_services.len(), 2);
    assert_eq!(c.local_services[0].protocol, "http");
    assert_eq!(c.local_services[1].port, 0);
    assert_eq!(c.local_services[1].health_path.as_deref(), Some("/h"));
    assert_eq!(LanDiscovery::new(c, None).bind_addr(), "0.0.0.0:19998");
    assert_eq!(LanDiscovery::verify_url("10.0.0.2", 9877), "http://10.0.0.2:9877/health");
}

// The mesh.

#[test]
fn mesh_test_is_private_ip() {
    assert!(mesh::is_private_ip("192.168.1.1"));
    assert!(mesh::is_private_ip("192.168.0.1"));
    assert!(mesh::is_private_ip("10.0.0.1"));
    assert!(mesh::is_private_ip("10.255.255.255"));
    assert!(mesh::is_private_ip("172.16.0.1"));
    assert!(mesh::is_private_ip("172.31.255.255"));

    assert!(!mesh::is_private_ip("8.8.8.8"));
    assert!(!mesh::is_private_ip("172.32.0.1"));
    assert!(!mesh::is_private_ip("192.169.0.1"));
}

#[test]
fn test_get_local_ip() {
    let ip = mesh::get_local_ip(AddressTool::Hostname, "10.0.0.7 172.17.0.1 \n");
    println!("Detected local IP: {:?}", ip);
    assert_eq!(ip.as_deref(), Some("10.0.0.7"));
    assert_eq!(mesh::get_local_ip(AddressTool::Hostname, "8.8.8.8 10.0.0.7\n"), None);
    assert_eq!(
        mesh::get_local_ip(
            AddressTool::Ipconfig,
            "   IPv4 Address. . . . . . : 192.168.3.4\r\n   Subnet Mask : 255.255.255.0\r\n"
        )
        .as_deref(),
        Some("192.168.3.4")
    );
    assert_eq!(
        mesh::get_local_ip(
            AddressTool::Ifconfig,
            "lo0:\n\tinet 127.0.0.1 netmask 0xff000000\nen0:\n\tinet 172.20.1.2 netmask 0xffff0000\n"
        )
        .as_deref(),
        Some("172.20.1.2")
    );
}

fn disabled_mesh() -> MeshClient {
    let mut off = MeshConfig::from_env(&environment(&[
        ("MESH_ENABLED", "true"),
        ("MESH_REGISTRY_URL", "https://reg"),
    ]))
    .unwrap();
    off.enabled = false;
    MeshClient::new(off)
}

fn mesh_client() -> MeshClient {
    MeshClient::new(
        MeshConfig::from_env(&environment(&[
            ("MESH_ENABLED", "true"),
            ("MESH_REGISTRY_URL", "https://reg"),
            ("MESH_API_KEY", "k"),
            ("MESH_AGENT_ID", "m-1"),
            ("MESH_LOCAL_SERVICES", "rustfs:http://l:9000,x,rustfs:http://l:9001"),
        ]))
        .unwrap(),
    )
}

fn reply(success: bool) -> MeshReply {
    MeshReply {
        success,
        status_text: "500 Internal Server Error".to_string(),
        body: "oops".to_string(),
    }
}

fn mesh_endpoint(url: &str) -> MeshEndpoint {
    MeshEndpoint {
        url: url.to_string(),
        zone_name: "home".to_string(),
        resolution_reason: "same_zone".to_string(),
    }
}

#[test]
fn mesh_registration() {
    assert!(MeshConfig::from_env(&environment(&[("MESH_ENABLED", "true")])).is_none());
    assert!(MeshConfig::from_env(&environment(&[("MESH_REGISTRY_URL", "u")])).is_none());
    let registry = |vars: &[(&str, &str)]| {
        let mut all = vec![("MESH_ENABLED", "true")];
        all.extend_from_slice(vars);
        MeshConfig::from_env(&environment(&all)).map(|c| c.registry_url)
    };
    let (center, older) = (("DEPLOY_CENTER_URL", "c"), ("DEPLOY_CENTER_CALLBACK_URL", "o"));
    assert_eq!(registry(&[center, older]).as_deref(), Some("c"));
    assert_eq!(registry(&[older]).as_deref(), Some("o"));
    assert_eq!(registry(&[("MESH_REGISTRY_URL", "m"), center]).as_deref(), Some("m"));
    let services = parse_mesh_services("a:http://u:1,b");
    assert_eq!(services.len(), 1);
    assert_eq!(services[0].local_url, "http://u:1");
    assert!(services[0].health_check_url.is_none());
    let mut client = mesh_client();
    assert!(client.is_enabled());
    assert_eq!(client.agent_id(), "m-1");
    assert_eq!(client.config().heartbeat_secs, 60);
    assert_eq!(client.detect_capabilities(true), vec!["rustfs", "docker"]);
    let net = NetworkInfo {
        lan_ip: Some("10.0.0.1".to_string()),
        wan_ip: None,
        capabilities: vec!["docker".to_string()],
    };
    let r = client.registration(&net, &environment(&[("PORT", "7000")]));
    assert_eq!(r.api_port, Some(7000));
    assert_eq!(r.lan_ip.as_deref(), Some("10.0.0.1"));
    assert_eq!(r.local_services.len(), 2);
    assert_eq!(
        client.on_registered(&reply(false), None),
        Err("Registration failed: 500 Internal Server Error - oops".to_string())
    );
    assert_eq!(client.detected_zone(), None);
    assert!(client.on_registered(&reply(true), Some("home".to_string())).is_ok());
    assert_eq!(client.detected_zone().as_deref(), Some("home"));
    assert!(MeshClient::heartbeat_result(&reply(true)).is_ok());
    assert_eq!(
        MeshClient::heartbeat_result(&reply(false)),
        Err("Heartbeat failed: 500 Internal Server Error - oops".to_string())
    );
}

#[test]
fn resolved_endpoint_is_remembered_for_a_minute() {
    let mut client = mesh_client();
    assert_eq!(
        client.on_resolved("nfa", &reply(false), mesh_endpoint("http://n"), 0),
        Err("Resolve failed for nfa: 500 Internal Server Error - oops".to_string())
    );
    assert!(client.cached("nfa", 0).is_none());
    assert_eq!(
        client.on_resolved("nfa", &reply(true), mesh_endpoint("http://n"), 5),
        Ok("http://n".to_string())
    );
    assert_eq!(client.cached("nfa", 60_000_000_004).unwrap().url, "http://n");
    assert!(client.cached("nfa", 60_000_000_005).is_none());
    client.clear_cache();
    assert!(client.cached("nfa", 6).is_none());
    assert_eq!(MeshClient::get_service_url_or(Err("e".to_string()), "http://f"), "http://f");
    assert_eq!(MeshClient::get_service_url_or(Ok("http://n".to_string()), "http://f"), "http://n");
}

// The router.

#[test]
fn test_endpoint_source_priority() {
    assert!(EndpointSource::Local.priority() < EndpointSource::LanPeer.priority());
    assert!(EndpointSource::LanPeer.priority() < EndpointSource::Mesh.priority());
    assert!(EndpointSource::Mesh.priority() < EndpointSource::Config.priority());
    assert!(EndpointSource::Config.priority() < EndpointSource::Fallback.priority());
}

#[test]
fn test_parse_service_map() {
    let s = "rustfs=http://localhost:9000,nfa=http://localhost:9528";
    let map = parse_service_map(s);

    assert_eq!(map.get("rustfs"), Some(&"http://localhost:9000".to_string()));
    assert_eq!(map.get("nfa"), Some(&"http://localhost:9528".to_string()));
}

#[test]
fn best_source_offers_the_service() {
    let router = ServiceRouter::new(ServiceRouterConfig::from_env(&environment(&[
        ("ROUTER_LOCAL_SERVICES", "rustfs=http://localhost:9000"),
        ("ROUTER_ENDPOINTS", "nfa=https://public/nfa,rustfs=https://public/rustfs"),
    ])));
    let mut lan = LanDiscovery::new(lan_config(), None);
    let offers = [("nfa", 9528, "http"), ("rustfs", 9000, "http")];
    lan.handle_discovery(packet("b", "192.168.1.7", &offers), true, Some(300), at(10));
    let mesh = || Some("http://mesh".to_string());

    let e = router.resolve_endpoint("rustfs", Some(&lan), mesh());
    assert_eq!((e.url.as_str(), e.source), ("http://localhost:9000", EndpointSource::Local));
    assert!(!router.needs_mesh("rustfs", Some(&lan)));
    let e = router.resolve_endpoint("nfa", Some(&lan), mesh());
    assert_eq!((e.url.as_str(), e.source), ("http://192.168.1.7:9528", EndpointSource::LanPeer));
    assert_eq!((e.latency_ns, e.healthy), (Some(300), true));
    assert!(router.needs_mesh("nfa", None));
    let e = router.resolve_endpoint("nfa", None, mesh());
    assert_eq!((e.url.as_str(), e.source), ("http://mesh", EndpointSource::Mesh));
    let e = router.resolve_endpoint("nfa", None, None);
    assert_eq!((e.url.as_str(), e.source), ("https://public/nfa", EndpointSource::Config));
    let e = router.resolve_endpoint("deploy-center", None, None);
    assert_eq!(
        (e.url.as_str(), e.source),
        ("https://auth.xiaojinpro.com", EndpointSource::Fallback)
    );
    let e = router.resolve_endpoint("unheard-of", None, None);
    assert_eq!((e.url.as_str(), e.healthy), ("", false));
    assert_eq!(ServiceRouter::get_url_or(&e, "http://f"), "http://f");

    let all = router.get_all_endpoints(Some(&lan));
    let sources: Vec<EndpointSource> = all.iter().map(|(_, e)| e.source).collect();
    assert_eq!(sources.len(), 6);
    assert_eq!(all[1].1.peer_agent_id.as_deref(), Some("b"));
    assert!(sources.windows(2).all(|w| w[0].priority() <= w[1].priority()));
}

#[test]
fn healthy_endpoint_is_remembered() {
    let mut router = ServiceRouter::new(ServiceRouterConfig::from_env(&environment(&[(
        "ROUTER_LOCAL_SERVICES",
        "rustfs=http://localhost:9000",
    )])));
    assert_eq!(router.get_nfa_endpoint(None, Some("http://m".to_string()), 7).url, "http://m");
    assert_eq!(router.get_url("nfa", None, None, 30_000_000_006), "http://m");
    assert_eq!(router.get_url("nfa", None, None, 30_000_000_007), "");
    assert_eq!(router.get_rustfs_endpoint(None, None, 8).url, "http://localhost:9000");
    let mesh = mesh_client();
    assert!(!router.must_ask_mesh("nfa", None, Some(&mesh), 8));
    router.clear_cache();
    assert!(router.cached("rustfs", 8).is_none());
    assert!(router.must_ask_mesh("nfa", None, Some(&mesh), 8));
    assert!(!router.must_ask_mesh("rustfs", None, Some(&mesh), 8));
    assert!(!router.must_ask_mesh("nfa", None, None, 8));
    assert!(!router.must_ask_mesh("nfa", None, Some(&disabled_mesh()), 8));
}

#[test]
fn mesh_is_asked_for_what_is_not_remembered() {
    let mut client = mesh_client();
    assert!(matches!(client.begin_resolve("nfa", 1), ResolveStep::Ask { url, api_key, agent_id }
        if url == "https://reg/mesh/resolve/nfa?agent_id=m-1" && api_key == "k" && agent_id == "m-1"));
    client.on_resolved("nfa", &reply(true), mesh_endpoint("http://n"), 1).unwrap();
    assert!(matches!(client.begin_resolve("nfa", 2), ResolveStep::Known { url }
        if url == "http://n"));
    assert!(asks_mesh(Some(&client)));
    // Whether a disabled mesh is asked is for the caller to say.
    let off = disabled_mesh();
    assert!(!asks_mesh(Some(&off)));
    assert!(!asks_mesh(None));
    assert!(matches!(off.begin_resolve("nfa", 1), ResolveStep::Ask { .. }));
}

// The persisted queue.

fn persisted(id: &str, status: &str) -> PersistedTask {
    PersistedTask {
        task_id: id.to_string(),
        project: "my-project".to_string(),
        deploy_log_id: None,
        commit_hash: None,
        branch: None,
        status: status.to_string(),
        queued_at: Timestamp::now(),
        started_at: None,
    }
}

#[test]
fn test_persisted_queue_operations() {
    let mut queue = PersistedQueue::new(&environment(&[]));

    queue.add_task(persisted("test-123", "queued"));
    assert_eq!(queue.tasks.len(), 1);

    queue.add_task(persisted("test-123", "queued"));
    assert_eq!(queue.tasks.len(), 1);

    queue.update_task_status("test-123", "running", Some(Timestamp::now()));
    assert_eq!(queue.tasks[0].status, "running");
    assert!(queue.tasks[0].started_at.is_some());

    assert!(queue.remove_task("test-123"));
    assert!(queue.is_empty());

    assert!(!queue.remove_task("nonexistent"));
}

#[test]
fn persisted_queue_is_taken_over_and_cleared() {
    let mut kept = QueuePersistence::new(&environment(&[("DEPLOY_AGENT_NAME", "c-1")]));
    assert_eq!(kept.get_queue().agent_id.as_deref(), Some("c-1"));
    assert!(!kept.load(None));
    let mut loaded = PersistedQueue::new_at(&environment(&[]), at(5));
    loaded.add_task_at(persisted("a", "queued"), at(6));
    loaded.add_task_at(persisted("b", "running"), at(7));
    assert_eq!(loaded.saved_at.timestamp(), 7);
    assert!(kept.load(Some(loaded)));
    assert_eq!(kept.get_queue().get_queued_tasks()[0].task_id, "a");
    assert_eq!(kept.get_queue().get_running_tasks()[0].task_id, "b");
    kept.add_task(persisted("c", "queued"));
    kept.update_task_status("a", "running", Some(at(9)));
    assert!(kept.get_queue().tasks[0].started_at.is_some());
    assert!(kept.remove_task("b"));
    assert!(!kept.get_queue().contains("b"));
    kept.clear();
    assert!(kept.get_queue().is_empty());
    assert_eq!(queue_dir(&environment(&[]), None), "/opt/xjp-deploy-agent");
}

// Logs.

#[test]
fn ring_keeps_the_last_lines() {
    let mut ring = LogRing::new();
    for i in 0..MAX_LINES + 3 {
        ring.push(format!("{i}"));
    }
    let all = ring.tail(usize::MAX);
    assert_eq!(all.len(), MAX_LINES);
    assert_eq!(all[0], "3");
    assert_eq!(ring.tail(2), vec!["5001", "5002"]);
    assert_eq!(ring.tail(0), vec!["5002"]);
}

#[test]
fn journal_lines_are_dated() {
    let t = parse_journalctl_timestamp("2025-01-02T03:04:05+0800 host agent[1]: hi").unwrap();
    assert_eq!((t.secs, t.nanos), (1_735_758_245, 0));
    let t = parse_journalctl_timestamp("2017-01-01T07:59:60+0800 host agent[1]: hi").unwrap();
    assert_eq!((t.secs, t.nanos), (1_483_228_799, 1_000_000_000));
    assert!(parse_journalctl_timestamp("-- No entries --").is_none());
    assert!(parse_journalctl_timestamp("").is_none());
    assert!(parse_journalctl_timestamp("2025-13-02T03:04:05+0800 x").is_none());

    let many: Vec<String> = (0..MAX_LINES_PER_BATCH + 5).map(|i| format!("line {i}")).collect();
    let report = build_report("a", "http://u", &many);
    assert_eq!(report.logs.len(), MAX_LINES_PER_BATCH);
    assert_eq!(report.logs[199].line, "line 199");

    let args = journal_args(&at(1_735_787_045));
    assert_eq!(args[3], "2025-01-02 03:04:05");
    assert_eq!(args[8], "200");
    assert_eq!(journal_lines(true, "a\n\nb\n"), vec!["a", "b"]);
    assert!(journal_lines(false, "a\n").is_empty());
}

#[test]
fn log_report_moves_on_only_when_it_is_accepted() {
    let mut s = LogReporterState { last_report: None, last_result: None };
    assert_eq!(s.since(at(100)).unwrap().timestamp(), 70);
    s.on_nothing(at(100));
    assert_eq!(s.last_result.as_deref(), Some("No new logs"));
    let no = s.on_reply(at(130), 2, Ok((false, "502 Bad Gateway".to_string(), "x".to_string())));
    assert_eq!(no, Err("HTTP 502 Bad Gateway: x".to_string()));
    assert_eq!(s.since(at(140)).unwrap().timestamp(), 100);
    assert_eq!(s.last_result.as_deref(), Some("Error: HTTP 502 Bad Gateway: x"));
    assert!(s.on_reply(at(150), 2, Ok((true, String::new(), String::new()))).is_ok());
    assert_eq!(s.last_result.as_deref(), Some("Reported 2 logs"));
    assert_eq!(s.since(at(160)).unwrap().timestamp(), 150);
    assert_eq!(s.on_reply(at(170), 2, Err("t".to_string())), Err("t".to_string()));
}

#[test]
fn agent_tells_where_it_is() {
    let center = DeployCenterClient::new(Some("https://c".to_string()));
    assert_eq!(
        get_agent_url(9877, "h", TunnelMode::Client, &center, "me"),
        "https://c/tunnel/proxy/me"
    );
    assert_eq!(get_agent_url(9877, "h", TunnelMode::Server, &center, "me"), "http://h:9877");
    assert_eq!(report_url("https://c", "a"), "https://c/api/deploy/agents/a/service-logs");
    assert_eq!(get_agent_id(&environment(&[])), "node-1");
    assert_eq!(get_agent_id(&Environment { vars: Vec::new(), hostname: None }), "unknown");
}

// The SSH server.

fn ssh(mode: SshAuthMode) -> SshServer {
    let mut config = SshConfig::from_env(&environment(&[("SSH_ENABLED", "true")]));
    config.auth_mode = mode;
    SshServer::new(config, "key".to_string())
}

#[test]
fn only_the_api_key_opens_an_ssh_session() {
    let mut server = ssh(SshAuthMode::ApiKey);
    assert_eq!(server.listen_addr(), "0.0.0.0:2222");
    let mut s = server.new_client("s1".to_string(), Some("1.2.3.4:5".to_string()));
    assert!(!s.channel_open_session(1));
    assert!(s.shell_request(ShellKind::Posix).is_none());
    assert!(s.exec_request(ShellKind::Posix, "ls").is_none());
    assert!(matches!(s.auth_password(&mut server, "deploy", "no", at(1)), AuthReply::Reject));
    assert!(matches!(s.auth_password(&mut server, "root", "key", at(1)), AuthReply::Reject));
    assert_eq!(server.status().active_sessions, 0);
    assert!(matches!(s.auth_password(&mut server, "deploy", "key", at(1)), AuthReply::Accept));
    assert_eq!(server.status().sessions[0].client_addr, "1.2.3.4:5");
    server.touch("s1", at(9));
    assert_eq!(server.status().sessions[0].last_activity.timestamp(), 9);
    assert!(s.channel_open_session(1));
    s.pty_request(1, "xterm", 80, 24);
    s.env_request(1, "LANG", "C");
    let env = s.channel_env(1);
    assert_eq!(env.len(), 4);
    assert!(env.contains(&("COLUMNS".to_string(), "80".to_string())));
    assert_eq!(s.shell_request(ShellKind::Posix).as_deref(), Some("/bin/bash"));
    assert_eq!(
        s.exec_request(ShellKind::PowerShell, "ls"),
        Some(("powershell.exe".to_string(), vec!["-Command".to_string(), "ls".to_string()]))
    );
    assert!(!s.takes_input(1));
    s.on_shell(1);
    assert!(s.takes_input(1));
    assert!(s.channel_close(1));
    assert!(!s.takes_input(1));
    server.end_session("s1");
    assert_eq!(server.health_info().active_sessions, 0);
}

#[test]
fn ssh_sessions_are_limited() {
    let vars = [("SSH_MAX_SESSIONS", "1"), ("SSH_SESSION_TIMEOUT_SECS", "60")];
    let mut server = SshServer::new(SshConfig::from_env(&environment(&vars)), "key".to_string());
    let mut first = server.new_client("s1".to_string(), None);
    let mut second = server.new_client("s2".to_string(), None);
    assert!(matches!(first.auth_password(&mut server, "deploy", "key", at(1)), AuthReply::Accept));
    assert!(matches!(second.auth_password(&mut server, "deploy", "key", at(2)), AuthReply::Reject));
    assert_eq!(server.status().active_sessions, 1);
    assert!(server.has_session("s1"));
    assert!(!server.is_expired("s1", at(60)));
    assert!(server.is_expired("s1", at(61)));
    assert!(!server.is_expired("s2", at(61)));
    server.end_session("s1");
    assert!(matches!(second.auth_password(&mut server, "deploy", "key", at(3)), AuthReply::Accept));
    let none = SshConfig::from_env(&environment(&[("SSH_MAX_SESSIONS", "0")]));
    let mut closed = SshServer::new(none, "key".to_string());
    let mut s = closed.new_client("s".to_string(), None);
    assert!(matches!(s.auth_password(&mut closed, "deploy", "key", at(1)), AuthReply::Reject));
}

#[test]
fn public_key_mode_takes_no_password() {
    let mut server = ssh(SshAuthMode::PublicKey);
    let mut s = server.new_client("s1".to_string(), None);
    assert!(matches!(
        s.auth_password(&mut server, "deploy", "key", at(1)),
        AuthReply::UsePublicKey
    ));
    assert!(!matches!(s.auth_publickey(&server), AuthReply::Accept));
    assert!(matches!(
        server.new_client("s2".to_string(), None).auth_publickey(&ssh(SshAuthMode::ApiKey)),
        AuthReply::UsePassword
    ));
    assert_eq!(exit_status(Some(3)), 3);
    assert_eq!(exit_status(None), u32::MAX);
    assert_eq!(exit_status(Some(-2)), u32::MAX - 1);
    assert_eq!(exec_failure("gone"), "Failed to execute command: gone\n");
    let mut config = SshConfig::from_env(&environment(&[]));
    assert!(matches!(host_key_plan(&config, false), HostKeyPlan::Ephemeral));
    config.host_key_file = Some("/k".to_string());
    assert!(matches!(host_key_plan(&config, false), HostKeyPlan::Create(f) if f == "/k"));
    assert!(matches!(host_key_plan(&config, true), HostKeyPlan::Load(f) if f == "/k"));
}
