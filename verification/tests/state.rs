//! Logs, tasks, the state of the agent and its queues.

use xjp_deploy_agent::api::deploy::{
    completion, get_project_config, get_queue_status, get_recent_tasks, get_task_status,
    resolve_project, stream_logs, trigger_deploy, trigger_deploy_at, TaskHistoryQuery,
    TriggerRequest,
};
use xjp_deploy_agent::config::env::{MAX_QUEUE_SIZE, QUEUE_TIMEOUT_SECS};
use xjp_deploy_agent::config::environment::Environment;
use xjp_deploy_agent::config::project::{ProjectConfig, RemoteAgentConfig};
use xjp_deploy_agent::domain::deploy::{DeployStage, DeployStatus, DeployTask, DeployType, LogLine};
use xjp_deploy_agent::domain::tunnel::TunnelMode;
use xjp_deploy_agent::error::ApiError;
use xjp_deploy_agent::middleware::auth::Headers;
use xjp_deploy_agent::runtime::{
    listen_address, parse_args, periodic_cleanup_at, run_agent_with_config, BackgroundTask,
    RuntimeConfig,
};
use xjp_deploy_agent::services::deploy::context::DeployContext;
use xjp_deploy_agent::services::deploy::execute::{after_deploy, execute_single, process_queue};
use xjp_deploy_agent::services::deploy::action::{DeployAction, Moment};
use xjp_deploy_agent::state::app_state::{AppState, QueuedDeploy};
use xjp_deploy_agent::state::log_hub::LogHub;
use xjp_deploy_agent::state::task_store::TaskStore;
use xjp_deploy_agent::state::tunnel_state::{ClientState, TunnelServerState};
use xjp_deploy_agent::time::Timestamp;

fn at(secs: i64) -> Timestamp {
    Timestamp::new(secs, 0).unwrap()
}

fn environment(vars: &[(&str, &str)]) -> Environment {
    Environment {
        vars: vars.iter().map(|(k, v)| (k.to_string(), v.to_string())).collect(),
        hostname: Some("node-1".to_string()),
    }
}

fn state(vars: &[(&str, &str)]) -> AppState {
    AppState::new_at(&environment(vars), "/tmp/frpc.ini".to_string(), None, at(1_000))
}

fn request(id: Option<&str>) -> TriggerRequest {
    TriggerRequest {
        deploy_log_id: id.map(|s| s.to_string()),
        commit_hash: Some("abc".to_string()),
        branch: None,
    }
}

fn project() -> ProjectConfig {
    ProjectConfig {
        work_dir: "/srv/app".to_string(),
        deploy_type: DeployType::Script { script: "./deploy.sh".to_string() },
    }
}

fn remote(work_dir: Option<&str>) -> RemoteAgentConfig {
    RemoteAgentConfig {
        deploy_type: "execute_command".to_string(),
        script: None,
        work_dir: work_dir.map(|s| s.to_string()),
        dockerfile: None,
        build_context: None,
        image: None,
        tag: None,
        push_latest: false,
        branch: None,
        repo_url: None,
        compose_file: None,
        services: None,
        env: None,
        timeout_secs: None,
        xjc_task_type: None,
        xjc_input_path: None,
        xjc_output_dir: None,
        xjc_prompt: None,
        xjc_port: None,
    }
}

#[test]
fn test_create_and_subscribe() {
    let mut hub = LogHub::new();
    let sender = hub.create("task-1");
    assert!(hub.contains("task-1"));
    let mut receiver = hub.subscribe("task-1").unwrap();
    let _ = sender.send(LogLine::stdout("Hello"));
    let line = receiver.try_recv().unwrap();
    assert_eq!(line.content, "Hello");
}

#[test]
fn test_finish_and_cleanup() {
    let mut hub = LogHub::new();
    hub.create("task-1");
    assert!(!hub.is_finished("task-1"));
    hub.finish("task-1");
    assert!(hub.is_finished("task-1"));
    hub.cleanup();
    assert!(!hub.contains("task-1"));
}

#[test]
fn test_cleanup_preserves_active_subscribers() {
    let mut hub = LogHub::new();
    hub.create("task-1");
    let _receiver = hub.subscribe("task-1");
    hub.finish("task-1");
    hub.cleanup();
    assert!(hub.contains("task-1"));
}

#[test]
fn unfinished_channel_survives_every_cleanup() {
    let mut hub = LogHub::new();
    hub.create_at("old", at(0));
    hub.create_at("over", at(0));
    hub.finish("over");
    assert_eq!(hub.receiver_counts(), vec![0, 0]);
    hub.cleanup_expired_at(24, at(48 * 3600));
    assert!(hub.contains("old"));
    assert!(!hub.contains("over"));
    hub.cleanup_with(&vec![0]);
    assert_eq!(hub.count(), 1);
    assert_eq!(hub.active_count(), 1);
}

#[test]
fn finished_channel_is_not_subscribed_to() {
    let mut hub = LogHub::new();
    hub.create("t");
    assert!(hub.subscribe("t").is_some());
    hub.finish("t");
    assert!(hub.subscribe("t").is_none());
    assert!(hub.subscribe("nobody").is_none());
    assert!(hub.is_finished("nobody"));
    assert!(hub.get_sender("t").is_some());
    assert!(hub.get_sender("nobody").is_none());
}

#[test]
fn channel_expires_after_whole_hours() {
    let mut hub = LogHub::new();
    hub.create_at("t", at(0));
    hub.finish("t");
    hub.cleanup_expired_at(24, at(24 * 3600 - 1));
    assert!(hub.contains("t"));
    hub.cleanup_expired_at(24, at(24 * 3600));
    assert!(!hub.contains("t"));
}

#[test]
fn test_task_lifecycle() {
    let mut store = TaskStore::new();
    let task = DeployTask::new("task-1".to_string(), "test-project".to_string());
    store.create(task);
    let task = store.get("task-1");
    assert!(task.is_some());
    assert_eq!(task.unwrap().project, "test-project");
    store.finish("task-1", DeployStatus::Success, Some(0));
    assert!(store.get("task-1").is_none());
    let history = store.get_history(10, None, None);
    assert_eq!(history.len(), 1);
    assert_eq!(history[0].id, "task-1");
}

#[test]
fn test_history_limit() {
    let mut store = TaskStore::with_config(10, 5, 24);
    for i in 0..10 {
        let mut task = DeployTask::new(format!("task-{}", i), "test".to_string());
        task.status = DeployStatus::Success;
        task.finished_at = Some(Timestamp::now());
        store.add_to_history(task);
    }
    assert_eq!(store.history_count(), 5);
    let ids: Vec<&str> =
        store.get_history(5, None, None).iter().map(|t| t.id.as_str()).collect();
    assert_eq!(ids, vec!["task-9", "task-8", "task-7", "task-6", "task-5"]);
}

#[test]
fn finished_task_stands_first() {
    let mut store = TaskStore::new();
    store.create(DeployTask::new_at("a".to_string(), "p".to_string(), at(0)));
    store.create(DeployTask::new_at("b".to_string(), "q".to_string(), at(1)));
    store.finish_at("a", DeployStatus::Failed, Some(3), at(10));
    store.finish_at("b", DeployStatus::Success, Some(0), at(11));
    assert_eq!(store.get_any("a").unwrap().exit_code, Some(3));
    assert_eq!(store.get_any("a").unwrap().finished_at, Some(at(10)));
    let history = store.get_history(10, None, None);
    assert_eq!(history[0].id, "b");
    assert_eq!(store.get_history(10, Some("p"), None)[0].id, "a");
    assert_eq!(store.get_history(10, None, Some("success"))[0].id, "b");
    assert_eq!(store.get_history(1, None, None).len(), 1);
    assert!(store.get_any("c").is_none());
}

#[test]
fn stale_tasks_are_forgotten_but_running_ones_are_not() {
    let mut store = TaskStore::with_config(2, 5, 24);
    store.create(DeployTask::new_at("run".to_string(), "p".to_string(), at(0)));
    let mut over = DeployTask::new_at("over".to_string(), "p".to_string(), at(0));
    over.complete_at(at(5), DeployStatus::Failed, Some(1));
    store.create(over);
    assert!(store.is_at_capacity());
    store.finish_at("nobody", DeployStatus::Success, None, at(6));
    assert_eq!(store.history_count(), 0);
    store.cleanup_stale_at(at(5 + 24 * 3600));
    assert!(store.contains("run"));
    assert!(!store.contains("over"));
    assert_eq!(store.active_count(), 1);
    assert!(!store.is_at_capacity());
}

#[test]
fn status_and_stages_of_an_active_task_change() {
    let mut store = TaskStore::new();
    store.create(DeployTask::new_at("a".to_string(), "p".to_string(), at(0)));
    store.update_status_at("a", DeployStatus::Failed, Some(-1), at(9));
    assert_eq!(store.get("a").unwrap().status, DeployStatus::Failed);
    assert_eq!(store.get("a").unwrap().finished_at, Some(at(9)));
    store.update_stages("a", vec![DeployStage::new("git_pull", "Git Pull")]);
    assert_eq!(store.get("a").unwrap().stages.len(), 1);
    store.update_stages("b", Vec::new());
    assert_eq!(store.get_all().len(), 1);
}

#[test]
fn state_starts_idle() {
    let s = state(&[
        ("API_KEY", "k"),
        ("PORT", "8000"),
        ("TUNNEL_MODE", "client"),
        ("NFA_ENABLED", "true"),
        ("PROJECT_APP_DIR", "/srv/app"),
    ]);
    assert_eq!(s.api_key, "k");
    assert_eq!(s.config.port, 8000);
    assert_eq!(s.tunnel_mode, TunnelMode::Client);
    assert_eq!(s.tunnel_client_id, "node-1");
    assert!(s.nfa.is_some());
    assert!(s.frp.is_none());
    assert!(s.ssh_server.is_none());
    assert!(s.mesh_client.is_none());
    assert!(s.lan_discovery.is_none());
    assert!(s.service_router.is_some());
    assert!(s.get_project("app").is_some());
    assert!(s.get_project("other").is_none());
    assert_eq!(s.started_at, at(1_000));
    assert!(s.callback_url().is_none());
    assert!(!s.has_running_deploy("app"));
    assert_eq!(s.task_store.active_count(), 0);
}

#[test]
fn default_port_is_the_documented_one() {
    assert_eq!(state(&[]).config.port, 9877);
}

#[test]
fn api_key_lets_in() {
    let s = state(&[("API_KEY", "k")]);
    let mut h = Headers::new();
    assert!(!s.verify_api_key(&h));
    h.push("X-Api-Key", "k");
    assert!(s.verify_api_key(&h));
    let mut w = Headers::new();
    w.push("x-api-key", "other");
    assert!(!s.verify_api_key(&w));
}

#[test]
fn running_deployment_is_registered_and_cancelled() {
    let mut s = state(&[]);
    assert!(!s.cancel_deploy("app"));
    s.register_running_deploy("app", "t1");
    assert!(s.has_running_deploy("app"));
    assert_eq!(s.get_running_deploy_task_id("app"), Some("t1".to_string()));
    assert!(!s.is_cancelled("app"));
    assert!(s.cancel_deploy("app"));
    assert!(s.is_cancelled("app"));
    assert_eq!(s.get_running_deploy_task_id("app"), Some("t1".to_string()));
    s.unregister_running_deploy("app");
    assert!(!s.has_running_deploy("app"));
    assert!(!s.is_cancelled("app"));
}

fn waiting(id: &str, since: i64) -> QueuedDeploy {
    QueuedDeploy {
        task_id: id.to_string(),
        project_config: project(),
        request: request(None),
        queued_at: at(since),
    }
}

#[test]
fn queue_is_first_in_first_out() {
    let mut s = state(&[]);
    assert_eq!(s.enqueue_deploy("app", waiting("a", 0)), 1);
    assert_eq!(s.enqueue_deploy("app", waiting("b", 1)), 2);
    assert_eq!(s.enqueue_deploy("web", waiting("c", 2)), 1);
    assert_eq!(s.get_queue_length("app"), 2);
    assert_eq!(s.get_queue_position("app", "b"), 2);
    assert_eq!(s.get_queue_position("app", "c"), 0);
    assert_eq!(s.dequeue_deploy("app").unwrap().task_id, "a");
    assert_eq!(s.get_queue_position("app", "b"), 1);
    assert_eq!(s.dequeue_deploy("app").unwrap().task_id, "b");
    assert!(s.dequeue_deploy("app").is_none());
    assert!(s.dequeue_deploy("none").is_none());
    assert_eq!(s.get_queue_length("web"), 1);
}

#[test]
fn expired_queue_items_are_told_of() {
    let mut s = state(&[]);
    s.enqueue_deploy("app", waiting("old", 0));
    s.enqueue_deploy("app", waiting("new", 500));
    s.enqueue_deploy("web", waiting("older", -5));
    let gone = s.cleanup_expired_queue_items_at(600, at(601));
    assert_eq!(
        gone,
        vec![
            ("app".to_string(), "old".to_string()),
            ("web".to_string(), "older".to_string())
        ]
    );
    assert_eq!(s.get_queue_position("app", "new"), 1);
    assert_eq!(s.get_queue_length("web"), 0);
    assert!(s.cleanup_expired_queue_items_at(600, at(1100)).is_empty());
}

#[test]
fn project_comes_from_here_or_from_the_deploy_center() {
    let s = state(&[("PROJECT_APP_DIR", "/srv/app")]);
    assert_eq!(resolve_project(&s, "app", None).unwrap().work_dir, "/srv/app");
    match resolve_project(&s, "web", None) {
        Err(ApiError::NotFound(t)) => assert_eq!(t, "Project 'web'"),
        _ => panic!("not found expected"),
    }
    match resolve_project(&s, "web", Some(&remote(None))) {
        Err(ApiError::BadRequest(t)) => {
            assert_eq!(t, "Invalid remote config: missing required fields")
        }
        _ => panic!("bad request expected"),
    }
    assert_eq!(resolve_project(&s, "web", Some(&remote(Some("/w")))).unwrap().work_dir, "/w");
    let shown = get_project_config(&s, "web", Some(&remote(Some("/w")))).unwrap();
    assert_eq!(shown.deploy_type, "script");
    assert!(matches!(get_project_config(&s, "web", None), Err(ApiError::NotFound(_))));
}

#[test]
fn deployment_begins_waits_or_is_refused() {
    let mut s = state(&[]);
    let first =
        trigger_deploy_at(&mut s, "app", project(), request(Some("t0")), "fresh".to_string(), at(5))
            .unwrap();
    assert_eq!(first.response.task_id, "t0");
    assert_eq!(first.response.status, "running");
    assert_eq!(first.response.stream_url, "/logs/t0/stream");
    assert!(first.response.queue_position.is_none());
    assert!(first.start.is_some());
    assert!(stream_logs(&s, "t0").is_ok());
    for i in 1..=MAX_QUEUE_SIZE {
        let id = format!("t{}", i);
        let next =
            trigger_deploy_at(&mut s, "app", project(), request(None), id.clone(), at(6)).unwrap();
        assert_eq!(next.response.task_id, id);
        assert_eq!(next.response.status, "queued");
        assert_eq!(next.response.queue_position, Some(i));
        assert_eq!(next.response.stream_url, "");
        assert!(next.start.is_none());
    }
    match trigger_deploy_at(&mut s, "app", project(), request(None), "x".to_string(), at(7)) {
        Err(ApiError::Conflict(t)) => {
            assert_eq!(t, "Deployment queue for 'app' is full (max 10)")
        }
        _ => panic!("conflict expected"),
    }
    let status = get_queue_status(&s, "app");
    assert_eq!(status.running_task_id, Some("t0".to_string()));
    assert_eq!(status.queue_length, 10);
    assert_eq!(get_queue_status(&s, "web").queue_length, 0);
}

#[test]
fn no_deployment_begins_during_an_update() {
    let mut s = state(&[]);
    s.auto_update_state.set_update_in_progress(true);
    match trigger_deploy(&mut s, "app", project(), request(None)) {
        Err(ApiError::ServiceUnavailable(t)) => assert_eq!(t, "Agent update in progress"),
        _ => panic!("refusal expected"),
    }
    assert_eq!(s.task_store.active_count(), 0);
    s.auto_update_state.set_update_in_progress(false);
    assert!(trigger_deploy(&mut s, "app", project(), request(None)).is_ok());
}

#[test]
fn new_tasks_have_new_names() {
    let mut s = state(&[]);
    let a = trigger_deploy(&mut s, "app", project(), request(None)).unwrap().response.task_id;
    let b = trigger_deploy(&mut s, "app", project(), request(None)).unwrap().response.task_id;
    assert_eq!(a.len(), 36);
    assert_ne!(a, b);
    assert!(get_task_status(&s, &a).is_ok());
    match get_task_status(&s, "nobody") {
        Err(ApiError::NotFound(t)) => assert_eq!(t, "Task 'nobody'"),
        _ => panic!("not found expected"),
    }
    match stream_logs(&s, &b) {
        Err(ApiError::NotFound(t)) => {
            assert_eq!(t, format!("Task '{}' not found or already completed", b))
        }
        _ => panic!("not found expected"),
    }
}

#[test]
fn next_deployment_has_its_turn() {
    let mut s = state(&[]);
    trigger_deploy_at(&mut s, "app", project(), request(None), "a".to_string(), at(0)).unwrap();
    trigger_deploy_at(&mut s, "app", project(), request(None), "b".to_string(), at(1)).unwrap();
    let ctx = DeployContext::new(&s, "a", "app", &request(None));
    assert!(ctx.log_tx.is_some());
    assert_eq!(completion(&s, "a"), Some(("running", None)));
    let notice = ctx.finish_at(&mut s, DeployStatus::Failed, None, Vec::new(), at(9));
    assert!(notice.is_none());
    assert!(!s.has_running_deploy("app"));
    assert!(s.log_hub.is_finished("a"));
    assert_eq!(s.task_store.get_any("a").unwrap().finished_at, Some(at(9)));
    assert_eq!(completion(&s, "a"), None);
    let next = after_deploy(&mut s, "app").unwrap();
    assert_eq!(next.task_id, "b");
    assert_eq!(s.get_running_deploy_task_id("app"), Some("b".to_string()));
    assert!(s.log_hub.contains("b"));
    assert!(process_queue(&mut s, "app").is_none());
    assert!(after_deploy(&mut s, "app").is_none());
    assert!(!s.has_running_deploy("app"));
}

#[test]
fn log_lines_reach_readers_and_the_deploy_center() {
    let mut s = state(&[("DEPLOY_CENTER_URL", "https://center")]);
    trigger_deploy_at(&mut s, "app", project(), request(None), "a".to_string(), at(0)).unwrap();
    let mut reader = stream_logs(&s, "a").unwrap();
    let ctx = DeployContext::new(&s, "a", "app", &request(None));
    let logged = ctx.log_stderr(&s, "oops");
    assert!(logged.broadcast.is_some());
    let sent = logged.append.unwrap();
    assert_eq!(sent.url, "https://center/api/deploy/logs/a/append");
    assert_eq!(sent.stream, "stderr");
    assert_eq!(sent.line, "oops");
    let line = reader.try_recv().unwrap();
    assert_eq!(line.content, "oops");
    assert_eq!(line.stream, "stderr");
    let notice = ctx.update_status(&mut s, DeployStatus::Running, None).unwrap();
    assert_eq!(notice.url, "https://center/api/deploy/logs/a");
    assert_eq!(notice.status, "running");
    assert_eq!(notice.exit_code, -1);
    assert!(notice.stages.is_none());
    assert!(!ctx.is_cancelled(&s));
    s.cancel_deploy("app");
    assert!(ctx.is_cancelled(&s));
    // That another deployment is told to stop does not concern this one.
    s.register_running_deploy("app", "b");
    s.cancel_deploy("app");
    assert!(s.is_cancelled("app"));
    assert!(!ctx.is_cancelled(&s));
}

#[test]
fn deployment_is_carried_out_by_its_type() {
    let s = state(&[]);
    let m = Moment { now: at(0), clock_ns: 0, cancelled: false };
    let start = execute_single(&s, "a", "app", project(), &request(None), &m);
    match start.actions.last() {
        Some(DeployAction::Run { program, args, dir }) => {
            assert_eq!(program, "git");
            assert_eq!(args, &vec!["pull".to_string()]);
            assert_eq!(dir.as_deref(), Some("/srv/app"));
        }
        _ => panic!("git expected"),
    }
}

#[test]
fn recent_tasks_are_the_running_ones_and_the_latest() {
    let mut s = state(&[]);
    for (i, id) in ["a", "b", "c"].iter().enumerate() {
        s.task_store.create(DeployTask::new_at(id.to_string(), "app".to_string(), at(i as i64)));
    }
    s.task_store.finish_at("a", DeployStatus::Success, Some(0), at(10));
    s.task_store.finish_at("b", DeployStatus::Failed, Some(1), at(11));
    let all = TaskHistoryQuery { limit: 20, project: None, status: None };
    let r = get_recent_tasks(&s, &all);
    let ids: Vec<&str> = r.tasks.iter().map(|t| t.id.as_str()).collect();
    assert_eq!(ids, vec!["c", "b", "a"]);
    assert_eq!(r.total, 3);
    let failed = TaskHistoryQuery { limit: 20, project: None, status: Some("failed".to_string()) };
    assert_eq!(get_recent_tasks(&s, &failed).tasks[0].id, "b");
    let two = TaskHistoryQuery { limit: 2, project: Some("app".to_string()), status: None };
    assert_eq!(get_recent_tasks(&s, &two).total, 2);
    let other = TaskHistoryQuery { limit: 2, project: Some("web".to_string()), status: None };
    assert_eq!(get_recent_tasks(&s, &other).total, 0);
}

#[test]
fn cleanup_fails_what_waited_too_long() {
    let mut s = state(&[]);
    trigger_deploy_at(&mut s, "app", project(), request(None), "a".to_string(), at(0)).unwrap();
    trigger_deploy_at(&mut s, "app", project(), request(None), "b".to_string(), at(0)).unwrap();
    let late = at(QUEUE_TIMEOUT_SECS as i64 + 1);
    let told = periodic_cleanup_at(&mut s, 1, late);
    assert_eq!(told, vec![("app".to_string(), "b".to_string())]);
    let b = s.task_store.get("b").unwrap();
    assert_eq!(b.status, DeployStatus::Failed);
    assert_eq!(b.exit_code, Some(-1));
    assert_eq!(b.finished_at, Some(late));
    let day = at(QUEUE_TIMEOUT_SECS as i64 + 1 + 24 * 3600);
    periodic_cleanup_at(&mut s, 61, day);
    assert!(s.task_store.contains("b"));
    periodic_cleanup_at(&mut s, 120, day);
    assert!(!s.task_store.contains("b"));
    assert!(s.task_store.contains("a"));
}

fn args(list: &[&str]) -> Vec<String> {
    list.iter().map(|s| s.to_string()).collect()
}

#[test]
fn command_line_is_read() {
    let c = parse_args(&args(&["agent", "--port", "19999", "--canary"])).unwrap();
    assert_eq!(c.port_override, Some(19999));
    assert!(c.canary_mode);
    assert!(c.takeover_session_id.is_none());
    assert_eq!(parse_args(&args(&["agent", "--port", "x"])).unwrap().port_override, None);
    assert_eq!(parse_args(&args(&["agent", "--port"])).unwrap().port_override, None);
    assert!(parse_args(&args(&["agent", "-h"])).is_none());
    assert!(parse_args(&args(&["agent", "--canary", "--help"])).is_none());
    assert!(parse_args(&args(&["agent", "service", "--help"])).is_some());
    let t = parse_args(&args(&["agent", "--takeover", "s-1"])).unwrap();
    assert_eq!(t.takeover_session_id.as_deref(), Some("s-1"));
    assert_eq!(RuntimeConfig::default().port_override, None);
}

#[test]
fn agent_starts_what_is_configured() {
    let mut s = state(&[
        ("TUNNEL_MODE", "client"),
        ("FRP_ENABLED", "1"),
        ("SSH_ENABLED", "true"),
        ("AUTO_UPDATE_ENABLED", "true"),
        ("AUTO_UPDATE_ENDPOINT", "https://releases"),
        ("UPDATE_METADATA_PATH", "latest.json"),
        ("UPDATE_BINARY_PATH_TEMPLATE", "agent-{version}"),
    ]);
    let runtime = RuntimeConfig {
        port_override: Some(1234),
        canary_mode: false,
        takeover_session_id: Some("s".to_string()),
    };
    let tasks = run_agent_with_config(&mut s, &runtime);
    assert_eq!(s.config.port, 1234);
    assert_eq!(listen_address(&s), "0.0.0.0:1234");
    assert!(tasks.iter().any(|t| matches!(
        t,
        BackgroundTask::Tunnel { takeover: Some(id) } if id == "s"
    )));
    assert!(tasks.iter().any(|t| matches!(t, BackgroundTask::AutoUpdate)));
    assert!(matches!(tasks[tasks.len() - 1], BackgroundTask::Cleanup));
    assert!(matches!(tasks[tasks.len() - 2], BackgroundTask::LogReporter));
}

#[test]
fn canary_run_does_not_update() {
    let mut s = state(&[
        ("AUTO_UPDATE_ENABLED", "true"),
        ("AUTO_UPDATE_ENDPOINT", "https://releases"),
        ("UPDATE_METADATA_PATH", "latest.json"),
        ("UPDATE_BINARY_PATH_TEMPLATE", "agent-{version}"),
    ]);
    assert!(s.auto_update_config.is_some());
    let runtime =
        RuntimeConfig { port_override: None, canary_mode: true, takeover_session_id: None };
    let tasks = run_agent_with_config(&mut s, &runtime);
    assert!(s.auto_update_config.is_none());
    assert!(!tasks.iter().any(|t| matches!(t, BackgroundTask::AutoUpdate)));
}

#[test]
fn removed_tunnel_client_owns_no_port() {
    let mut t = TunnelServerState::new();
    t.add_client(ClientState::new_at("a".to_string(), "1.2.3.4".to_string(), at(0)));
    t.add_client(ClientState::new_at("b".to_string(), "unknown".to_string(), at(1)));
    t.register_port(19000, "a".to_string());
    t.register_port(19001, "b".to_string());
    assert_eq!(t.client_count(), 2);
    assert_eq!(t.get_client("a").unwrap().client_addr, "1.2.3.4");
    assert_eq!(t.remove_client("a").unwrap().client_id, "a");
    assert!(t.remove_client("a").is_none());
    assert!(!t.has_client("a"));
    assert!(t.get_client_by_port(19000).is_none());
    assert_eq!(t.get_client_by_port(19001), Some("b".to_string()));
    assert_eq!(t.connected_clients().len(), 1);
    t.await_response("r");
    assert!(t.take_pending("r"));
    assert!(!t.take_pending("r"));
}

#[test]
fn new_commit_stops_the_build_of_an_older_one() {
    let mut s = state(&[]);
    let of = |commit: Option<&str>| TriggerRequest {
        deploy_log_id: None,
        commit_hash: commit.map(|c| c.to_string()),
        branch: None,
    };
    let mut trigger = |s: &mut AppState, id: &str, commit: Option<&str>| {
        trigger_deploy_at(s, "app", project(), of(commit), id.to_string(), at(0)).unwrap()
    };
    assert!(!trigger(&mut s, "a", Some("c1")).supersedes);
    assert!(!s.is_cancelled("app"));
    // The same commit, or none, stops nothing.
    assert!(!trigger(&mut s, "b", Some("c1")).supersedes);
    assert!(!trigger(&mut s, "c", None).supersedes);
    assert!(!s.is_cancelled("app"));
    assert!(trigger(&mut s, "d", Some("c2")).supersedes);
    assert!(s.is_cancelled("app"));
    assert_eq!(s.get_running_deploy_task_id("app"), Some("a".to_string()));
    assert_eq!(s.get_queue_length("app"), 3);
    assert_eq!(s.total_queued(), 3);
    // The one that has its turn next has not been stopped.
    assert_eq!(after_deploy(&mut s, "app").unwrap().task_id, "b");
    assert!(!s.is_cancelled("app"));
    assert_eq!(s.total_queued(), 2);
    // A deployment whose commit is not known gives way too.
    s.register_running_deploy("web", "w");
    let t = trigger_deploy_at(&mut s, "web", project(), of(Some("c")), "x".to_string(), at(1));
    assert!(t.unwrap().supersedes);
    assert!(s.is_cancelled("web"));
    assert_eq!(s.total_queued(), 3);
}
