//! The configuration, the deploy center and the API key.

use xjp_deploy_agent::config::autoupdate::{AutoUpdateConfig, AutoUpdateState, UpdateProgress};
use xjp_deploy_agent::config::env::{EnvConfig, TunnelConfig};
use xjp_deploy_agent::config::environment::Environment;
use xjp_deploy_agent::config::project::load_projects_from_env;
use xjp_deploy_agent::domain::deploy::{DeployStatus, DeployType, LogLine};
use xjp_deploy_agent::domain::tunnel::TunnelMode;
use xjp_deploy_agent::error::ApiError;
use xjp_deploy_agent::infra::command::{CommandError, CommandRunner, WaitEvent};
use xjp_deploy_agent::infra::deploy_center::{
    DeployCenterClient, NotifyAttempts, NotifyError, NotifyReply, NotifyStep,
};
use xjp_deploy_agent::middleware::auth::{optional_api_key, verify_api_key, Header, Headers};

fn environment(vars: &[(&str, &str)]) -> Environment {
    Environment {
        vars: vars.iter().map(|(k, v)| (k.to_string(), v.to_string())).collect(),
        hostname: Some("node-1".to_string()),
    }
}

#[test]
fn test_load_with_fallback() {
    let mut env = environment(&[
        ("TEST_PRIMARY", "primary_value"),
        ("TEST_FALLBACK", "fallback_value"),
    ]);
    assert_eq!(
        env.load_with_fallback("TEST_PRIMARY", "TEST_FALLBACK"),
        Some("primary_value".to_string())
    );
    env.vars.remove(0);
    assert_eq!(
        env.load_with_fallback("TEST_PRIMARY", "TEST_FALLBACK"),
        Some("fallback_value".to_string())
    );
    env.vars.remove(0);
    assert_eq!(env.load_with_fallback("TEST_PRIMARY", "TEST_FALLBACK"), None);
}

#[test]
fn test_client_without_callback() {
    let client = DeployCenterClient::new(None);
    assert!(!client.has_callback());
    assert!(client.callback_url().is_none());
    assert!(client.heartbeat("t").is_none());
    assert!(client.fetch_config("p").is_none());
}

#[test]
fn test_client_with_callback() {
    let client = DeployCenterClient::new(Some("https://example.com".to_string()));
    assert!(client.has_callback());
    assert_eq!(client.callback_url(), Some("https://example.com"));
}

#[test]
fn deploy_center_requests() {
    let client = DeployCenterClient::new(Some("https://c".to_string()));
    assert_eq!(client.heartbeat("t").unwrap(), "https://c/api/deploy/logs/t/heartbeat");
    assert_eq!(client.fetch_config("p").unwrap(), "https://c/api/deploy/agent-config/p");
    let a = client.append_log("t", &LogLine::stdout("hi")).unwrap();
    assert_eq!((a.url.as_str(), a.stream.as_str()), ("https://c/api/deploy/logs/t/append", "stdout"));
    assert_eq!(client.append_log_simple("t", "stderr", "x").unwrap().line, "x");
    let n = client.notify_status_with_stages("t", DeployStatus::Success, 0, Vec::new()).unwrap();
    assert_eq!((n.url.as_str(), n.status.as_str()), ("https://c/api/deploy/logs/t", "success"));
    assert!(n.stages.is_some());
}

#[test]
fn status_is_sent_three_times_at_most() {
    let mut a = NotifyAttempts::new();
    assert!(matches!(a.on_reply(NotifyReply::Failed("down".to_string())), NotifyStep::Retry));
    assert!(matches!(a.on_reply(NotifyReply::Rejected), NotifyStep::Retry));
    match a.on_reply(NotifyReply::Rejected) {
        NotifyStep::Done(Err(NotifyError::Network(e))) => assert_eq!(e, "down"),
        _ => panic!("network error expected"),
    }
    let mut b = NotifyAttempts::new();
    assert!(matches!(b.on_reply(NotifyReply::Rejected), NotifyStep::Retry));
    assert!(matches!(b.on_reply(NotifyReply::Accepted), NotifyStep::Done(Ok(()))));
    let mut c = NotifyAttempts { made: 2, last_error: None };
    match c.on_reply(NotifyReply::Rejected) {
        NotifyStep::Done(Err(e)) => assert_eq!(e.to_text(), "Server returned non-success status"),
        _ => panic!("failure expected"),
    }
    assert_eq!(NotifyError::Network("x".to_string()).to_text(), "Network error: x");
}

#[test]
fn test_verify_api_key_success() {
    let mut headers = Headers::new();
    headers.push("x-api-key", "test-key");
    assert!(verify_api_key(&headers, "test-key").is_ok());
}

#[test]
fn test_verify_api_key_wrong_key() {
    let mut headers = Headers::new();
    headers.push("x-api-key", "wrong-key");
    assert!(verify_api_key(&headers, "test-key").is_err());
}

#[test]
fn test_verify_api_key_missing() {
    let headers = Headers::new();
    assert!(verify_api_key(&headers, "test-key").is_err());
}

#[test]
fn optional_key_is_checked_where_it_is_there() {
    let mut right = Headers::new();
    right.push("X-API-KEY", "k");
    assert!(optional_api_key(&right, "k").unwrap().authenticated);
    assert!(matches!(optional_api_key(&right, "other"), Err(ApiError::Unauthorized)));
    assert!(!optional_api_key(&Headers::new(), "k").unwrap().authenticated);
    let unreadable =
        Headers { entries: vec![Header { name: "x-api-key".to_string(), value: None }] };
    assert!(verify_api_key(&unreadable, "k").is_err());
}

#[test]
fn documented_names_come_first() {
    let c = EnvConfig::from_env(&environment(&[
        ("CALLBACK_URL", "old"),
        ("DEPLOY_CENTER_URL", "new"),
        ("API_KEY", "k"),
    ]));
    assert_eq!(c.callback_url.as_deref(), Some("new"));
    assert_eq!(c.api_key, "k");
    assert_eq!(c.port, 9877);
    assert!(EnvConfig::has_deprecated_variables(&environment(&[("API_KEY", "k")])));
    let d = EnvConfig::from_env(&environment(&[]));
    assert_eq!(d.api_key, "change-me-in-production");
    assert!(d.callback_url.is_none());
    assert!(d.auto_update.is_none());
}

#[test]
fn tunnel_configuration() {
    let c = TunnelConfig::from_env(&environment(&[
        ("TUNNEL_MODE", "SERVER"),
        ("TUNNEL_MAPPINGS", "minio:19000:localhost:9000,bad,pg:15432:db:5432"),
    ]));
    assert_eq!(c.mode, TunnelMode::Server);
    assert_eq!(c.client_id, "node-1");
    assert_eq!(c.port_mappings.len(), 2);
    assert_eq!(c.port_mappings[1].local_host, "db");
}

#[test]
fn documented_project_types() {
    let env = environment(&[
        ("PROJECT_MY_PROJECT_DIR", "/p"),
        ("PROJECT_MY_PROJECT_TYPE", "script"),
        ("PROJECT_MY_PROJECT_SCRIPT", "./go.sh"),
        ("PROJECT_SVC_DIR", "/s"),
        ("PROJECT_SVC_TYPE", "docker_compose"),
        ("PROJECT_SVC_IMAGE", "img"),
        ("PROJECT_APP_DIR", "/a"),
        ("PROJECT_APP_TYPE", "docker_build"),
        ("PROJECT_APP_IMAGE", "img"),
        ("PROJECT_APP_PUSH_LATEST", "true"),
        ("PROJECT_XJC_DIR", "/x"),
        ("PROJECT_XJC_TYPE", "xiaojincut"),
        ("PROJECT_XJC_TASK_TYPE", "export"),
        ("PROJECT_BAD_DIR", "/b"),
        ("PROJECT_BAD_TYPE", "docker_build"),
        ("BACKEND_WORK_DIR", "/legacy"),
    ]);
    let projects = load_projects_from_env(&env);
    assert_eq!(projects.len(), 5);
    match &projects.get("my-project").unwrap().deploy_type {
        DeployType::Script { script } => assert_eq!(script, "./go.sh"),
        _ => panic!("script expected"),
    }
    match &projects.get("app").unwrap().deploy_type {
        DeployType::DockerBuild { push_latest, image, .. } => {
            assert!(*push_latest);
            assert_eq!(image, "img");
        }
        _ => panic!("build expected"),
    }
    assert_eq!(projects.get("svc").unwrap().deploy_type.name(), "docker_compose");
    assert_eq!(projects.get("xjc").unwrap().deploy_type.name(), "xiaojincut");
    assert_eq!(projects.get("xiaojinpro-backend").unwrap().work_dir, "/legacy");
    assert!(projects.get("bad").is_none());
}

#[test]
fn update_configuration() {
    let c = AutoUpdateConfig::from_env(&environment(&[
        ("AUTO_UPDATE_ENABLED", "true"),
        ("AUTO_UPDATE_ENDPOINT", "https://r/x"),
        ("AUTO_UPDATE_INTERVAL", "60"),
        ("UPDATE_METADATA_PATH", "latest.json"),
        ("UPDATE_BINARY_PATH_TEMPLATE", "v{version}/agent"),
    ]))
    .unwrap();
    assert_eq!(c.check_interval_secs, 60);
    assert_eq!(c.metadata_url(), "https://r/x/latest.json");
    assert_eq!(c.binary_url("1.2.3"), "https://r/x/v1.2.3/agent");
    assert!(AutoUpdateConfig::from_env(&environment(&[])).is_none());
    let endpoint = ("AUTO_UPDATE_ENDPOINT", "https://releases.example.com/xjp-deploy-agent");
    let c = AutoUpdateConfig::from_env(&environment(&[endpoint])).unwrap();
    assert!(c.enabled);
    assert_eq!(c.endpoint, "https://releases.example.com/xjp-deploy-agent");
    assert_eq!(c.check_interval_secs, 3600);
    assert_eq!(
        c.metadata_url(),
        "https://releases.example.com/xjp-deploy-agent/latest.json"
    );
    assert!(c.binary_url("1.2.3").ends_with("/xjp-deploy-agent-1.2.3-linux-musl-amd64"));
    let off = ("AUTO_UPDATE_ENABLED", "false");
    assert!(AutoUpdateConfig::from_env(&environment(&[endpoint, off])).is_none());
    let (on, older) = (("AUTO_UPDATE_ENABLED", "1"), ("UPDATE_ENDPOINT", "https://o"));
    assert!(AutoUpdateConfig::from_env(&environment(&[older])).is_none());
    assert!(AutoUpdateConfig::from_env(&environment(&[on, older])).is_none());
    let paths = [("UPDATE_METADATA_PATH", "m"), ("UPDATE_BINARY_PATH_TEMPLATE", "b")];
    let c = AutoUpdateConfig::from_env(&environment(&[on, older, paths[0], paths[1]])).unwrap();
    assert_eq!((c.metadata_url().as_str(), c.check_interval_secs), ("https://o/m", 3600));
    let s = AutoUpdateState::new();
    assert!(!s.has_pending_update());
    assert!(!s.is_update_in_progress());
    assert_eq!(s.update_progress, UpdateProgress::Idle);
}

#[test]
fn commands_end_in_results_or_errors() {
    assert_eq!(CommandRunner::shell("ls").args, vec!["-c".to_string(), "ls".to_string()]);
    assert!(matches!(
        CommandRunner::conclude(WaitEvent::Cancelled),
        Err(CommandError::Cancelled)
    ));
    let r = CommandRunner::conclude(WaitEvent::Exited(Ok(Some(3)))).unwrap();
    assert_eq!((r.exit_code, r.timed_out), (Some(3), false));
    assert!(CommandRunner::conclude(WaitEvent::Exited(Err("gone".to_string()))).is_err());
    assert_eq!(
        CommandError::SpawnFailed("x".to_string()).to_text(),
        "Failed to spawn command: x"
    );
    assert_eq!(CommandError::Timeout.to_text(), "Command timed out");
    assert_eq!(CommandError::Cancelled.to_text(), "Command was cancelled");
    assert_eq!(CommandError::WaitFailed("x".to_string()).to_text(), "Failed to wait for command: x");
}

#[test]
fn errors_have_statuses() {
    assert_eq!(ApiError::unauthorized().status_code(), 401);
    assert_eq!(ApiError::not_found("x").status_code(), 404);
    assert_eq!(ApiError::bad_request("x").status_code(), 400);
    assert_eq!(ApiError::conflict("x").status_code(), 409);
    assert_eq!(ApiError::internal("x").status_code(), 500);
    assert_eq!(ApiError::service_unavailable("x").status_code(), 503);
    assert_eq!(ApiError::not_found("Task 'x'").to_response().message, "Task 'x' not found");
    assert_eq!(ApiError::unauthorized().to_response().error, "unauthorized");
    assert_eq!(ApiError::conflict("x").to_text(), "Conflict: x");
}
