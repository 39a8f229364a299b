//! The processes that the agent looks after: the frp client and the NFA
//! service.

use xjp_deploy_agent::api::lan;
use xjp_deploy_agent::api::nfa::{default_tail, nfa_failure, require_nfa};
use xjp_deploy_agent::config::env::{FrpConfig, NfaConfig};
use xjp_deploy_agent::domain::tunnel::PortMapping;
use xjp_deploy_agent::error::ApiError;
use xjp_deploy_agent::services::frp::{mapping_statuses, ChildPoll, FrpcManager, StartStep};
use xjp_deploy_agent::services::nfa::{
    align, align_sync, create_job, job_id, job_state, poll_job, AlignStep, JobState, LaunchStep,
    PollStep,
    NfaReply, NfaSupervisor,
};
use xjp_deploy_agent::time::Timestamp;

fn at(secs: i64) -> Timestamp {
    Timestamp::new(secs, 0).unwrap()
}

fn frp(enabled: bool) -> FrpcManager {
    let config = FrpConfig {
        enabled,
        frpc_path: "frpc".to_string(),
        server_addr: "1.2.3.4".to_string(),
        server_port: 7000,
        token: Some("secret".to_string()),
        admin_addr: "127.0.0.1".to_string(),
        admin_port: 7400,
        admin_user: Some("u".to_string()),
        admin_pwd: None,
    };
    let mappings = PortMapping::parse_mappings("web:18080:127.0.0.1:8080");
    FrpcManager::new(config, mappings, "/tmp/frpc.ini".to_string())
}

#[test]
fn frp_configuration_is_written_before_the_start() {
    let mut m = frp(true);
    let text = "[common]\nserver_addr = 1.2.3.4\nserver_port = 7000\nlogin_fail_exit = false\n\
                token = secret\nadmin_addr = 127.0.0.1\nadmin_port = 7400\nadmin_user = u\n\n\
                [web]\ntype = tcp\nlocal_ip = 127.0.0.1\nlocal_port = 8080\n\
                remote_port = 18080\n\n";
    assert_eq!(m.build_ini(), text);
    match m.start(ChildPoll::Running(None)) {
        Ok(StartStep::Write { path, text: t }) => {
            assert_eq!(path, "/tmp/frpc.ini");
            assert_eq!(t, text);
        }
        _ => panic!("the configuration is to be written"),
    }
    assert_eq!(
        m.on_config_written(Err("full".to_string())).err(),
        Some("Failed to write frpc.ini: full".to_string())
    );
    assert!(matches!(m.on_config_written(Ok(())), Ok(StartStep::Spawn { program, args })
        if program == "frpc" && args.join(" ") == "-c /tmp/frpc.ini"));
    assert_eq!(
        m.on_spawned(Err("gone".to_string()), at(1)),
        Err("Failed to start frpc: gone".to_string())
    );
    assert!(m.on_spawned(Ok(()), at(1)).is_ok());
    assert!(matches!(m.start(ChildPoll::Running(Some(7))), Ok(StartStep::Running)));
    let s = m.status(ChildPoll::Running(Some(7)));
    assert_eq!((s.running, s.pid, s.restart_count), (true, Some(7), 0));
    assert_eq!(s.mappings.len(), 1);
}

#[test]
fn frp_that_exits_is_started_again_unless_it_was_stopped() {
    let mut m = frp(true);
    m.start(ChildPoll::Running(None)).unwrap();
    m.on_config_written(Ok(())).unwrap();
    m.on_spawned(Ok(()), at(1)).unwrap();
    m.on_output(false, "up");
    m.on_output(true, "down");
    assert!(!m.supervise_tick(ChildPoll::Running(Some(7))));
    assert!(m.supervise_tick(ChildPoll::Exited("exit status: 1".to_string())));
    let s = m.status(ChildPoll::Running(None));
    assert_eq!(s.restart_count, 1);
    assert!(!s.running);
    assert_eq!(s.last_error.as_deref(), Some("frpc exited: exit status: 1"));
    let log = m.tail_logs(3);
    assert_eq!(log[0], "[frpc stderr] down");
    assert_eq!(log[2], "[frp] frpc not running, restarting");
    m.on_spawned(Ok(()), at(2)).unwrap();
    assert!(m.stop());
    m.on_stopped(None, None);
    assert!(!m.supervise_tick(ChildPoll::Exited("x".to_string())));
    assert!(!m.status(ChildPoll::Running(None)).desired_running);
}

#[test]
fn frp_may_be_disabled() {
    let mut m = frp(false);
    assert!(!m.enabled());
    assert_eq!(
        m.start(ChildPoll::Running(None)).err(),
        Some("FRP is disabled (FRP_ENABLED=false)".to_string())
    );
    let rows = mapping_statuses(&PortMapping::parse_mappings("a:1:h:2"), "active");
    assert_eq!(rows[0].status, "active");
}

fn nfa(enabled: bool) -> NfaSupervisor {
    NfaSupervisor::new(NfaConfig {
        enabled,
        auto_start: true,
        python_path: "python3".to_string(),
        script_path: "nfa.py".to_string(),
        port: 9528,
        max_concurrent: 0,
        poll_interval_ms: 500,
        job_timeout_secs: 600,
        restart_backoff_ms: 1500,
    })
}

#[test]
fn nfa_service_is_started_and_watched() {
    let mut s = nfa(true);
    assert_eq!(s.permits(), 1);
    assert_eq!(s.local_base_url(), "http://127.0.0.1:9528");
    assert_eq!(s.health_url(), "http://127.0.0.1:9528/health");
    assert_eq!(s.create_url(), "http://127.0.0.1:9528/align-nfa/job");
    assert_eq!(s.poll_url("j"), "http://127.0.0.1:9528/align-nfa/job/j");
    assert_eq!(s.sync_url(), "http://127.0.0.1:9528/align-nfa");
    assert!(matches!(s.start(ChildPoll::Running(None)), Ok(LaunchStep::Spawn { program, args })
        if program == "python3" && args.join(" ") == "nfa.py --port 9528"));
    s.on_spawned(Ok(()), at(1)).unwrap();
    assert!(!s.on_health(false, false));
    assert!(s.on_health(false, true));
    assert!(matches!(s.ensure_running(ChildPoll::Running(Some(3))), Ok(LaunchStep::Running)));
    assert_eq!(s.supervise_tick(ChildPoll::Running(Some(3))), None);
    assert_eq!(s.supervise_tick(ChildPoll::Exited("exit status: 2".to_string())), Some(1500));
    let log = s.tail_logs(1);
    assert!(log[0].ends_with("nfa_service not running, restarting after 1.5s"));
    let status = s.status(ChildPoll::Running(None), false);
    assert_eq!((status.running, status.restart_count), (false, 1));
    s.stop();
    assert_eq!(s.supervise_tick(ChildPoll::Exited("x".to_string())), None);
    // A restart is counted once its pause is over.
    assert_eq!(s.restart_pause(), 1500);
    assert_eq!(s.status(ChildPoll::Running(None), false).restart_count, 1);
    assert!(matches!(s.restart(ChildPoll::Running(None)), Ok(LaunchStep::Spawn { .. })));
    assert_eq!(s.status(ChildPoll::Running(None), false).restart_count, 2);
    assert_eq!(s.timeout_error(), "NFA job timed out after 600s");
    assert!(matches!(s.poll_step("j", true), PollStep::TimedOut { error }
        if error == "NFA job timed out after 600s"));
    assert!(matches!(s.poll_step("j", false), PollStep::Ask { url }
        if url == s.poll_url("j")));
    assert_eq!(
        nfa(false).start(ChildPoll::Running(None)).err(),
        Some("NFA is disabled (NFA_ENABLED=false)".to_string())
    );
}

fn answer(status: u16, text: &str, body: &str) -> Result<NfaReply, String> {
    Ok(NfaReply { status, status_text: text.to_string(), body: body.to_string() })
}

#[test]
fn nfa_job_is_made() {
    assert_eq!(create_job(answer(200, "200 OK", r#"{"job_id":"j-1"}"#)), Ok("j-1".to_string()));
    assert_eq!(
        create_job(answer(404, "404 Not Found", "")),
        Err("NFA job endpoint not found".to_string())
    );
    assert_eq!(
        create_job(answer(500, "500 Internal Server Error", "x")),
        Err("NFA create job error 500 Internal Server Error: x".to_string())
    );
    assert_eq!(
        create_job(Err("refused".to_string())),
        Err("NFA create job failed: refused".to_string())
    );
    assert_eq!(
        create_job(answer(200, "200 OK", r#"{"job_id":7}"#)),
        Err(r#"Missing job_id in NFA response: {"job_id":7}"#.to_string())
    );
    let bad = create_job(answer(200, "200 OK", "{")).unwrap_err();
    assert!(bad.starts_with("Invalid NFA create job JSON: EOF while parsing"));
    assert!(bad.ends_with(" ({)"));
    assert_eq!(job_id("r", Ok(Some("a".to_string()))), Ok("a".to_string()));
    assert!(matches!(align(Ok("a".to_string())), AlignStep::Poll { job_id } if job_id == "a"));
    assert!(matches!(align(Err("e".to_string())), AlignStep::Sync));
}

fn failure(state: JobState) -> String {
    match state {
        JobState::Failed(e) => e,
        _ => panic!("failure expected"),
    }
}

#[test]
fn nfa_job_is_asked_about() {
    let done = poll_job(answer(200, "200 OK", r#"{"status":"done","result":{"b":1,"a":[2]}}"#));
    assert!(matches!(done, JobState::Done(t) if t == r#"{"a":[2],"b":1}"#));
    let bare = poll_job(answer(200, "200 OK", r#"{ "status": "done" }"#));
    assert!(matches!(bare, JobState::Done(t) if t == r#"{"status":"done"}"#));
    for word in ["pending", "running"] {
        let body = format!("{{\"status\":\"{word}\"}}");
        assert!(matches!(poll_job(answer(200, "200 OK", &body)), JobState::Waiting));
    }
    let failed = poll_job(answer(200, "200 OK", r#"{"status":"failed","error":"oom"}"#));
    assert_eq!(failure(failed), "NFA job failed: oom");
    let failed = poll_job(answer(200, "200 OK", r#"{"status":"failed"}"#));
    assert_eq!(failure(failed), "NFA job failed: unknown error");
    assert_eq!(
        failure(poll_job(answer(200, "200 OK", "{}"))),
        "Unknown NFA job status: unknown"
    );
    assert_eq!(
        failure(poll_job(answer(503, "503 Service Unavailable", "x"))),
        "NFA poll error 503 Service Unavailable: x"
    );
    assert_eq!(failure(poll_job(Err("t".to_string()))), "NFA poll failed: t");
    assert!(failure(poll_job(answer(200, "200 OK", "["))).starts_with("Invalid NFA poll JSON: "));
    let done = || Ok(Some("done".to_string()));
    let given = job_state("r", done(), Ok(None), Ok(None), Ok("1".to_string()));
    assert!(matches!(given, JobState::Done(t) if t == "1"));
    let given = job_state("r", done(), Ok(None), Ok(Some("2".to_string())), Ok("1".to_string()));
    assert!(matches!(given, JobState::Done(t) if t == "2"));
}

#[test]
fn nfa_aligns_at_once_where_there_are_no_jobs() {
    assert_eq!(align_sync(answer(200, "200 OK", " [1, 2] ")), Ok("[1,2]".to_string()));
    assert_eq!(
        align_sync(answer(400, "400 Bad Request", "x")),
        Err("NFA sync align error 400 Bad Request: x".to_string())
    );
    assert_eq!(align_sync(Err("t".to_string())), Err("NFA sync align failed: t".to_string()));
    assert!(align_sync(answer(200, "200 OK", "no"))
        .unwrap_err()
        .starts_with("Invalid NFA sync align JSON: "));
    assert_eq!(default_tail(), 200);
    assert!(require_nfa(true).is_ok());
    assert!(matches!(require_nfa(false),
        Err(ApiError::ServiceUnavailable(m)) if m == "NFA disabled"));
    assert!(matches!(nfa_failure("x".to_string()), ApiError::Internal(m) if m == "x"));
}

#[test]
fn lan_api_without_discovery() {
    assert!(lan::require_discovery(true).is_ok());
    assert_eq!(lan::require_discovery(false).unwrap_err().error, "LAN discovery not enabled");
    assert_eq!(lan::require_router(false).unwrap_err().error, "Service router not available");
    assert!(!lan::get_stats(None).enabled);
    assert!(lan::service_infos(&Vec::new()).is_empty());
}
