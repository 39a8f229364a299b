//! What the interface of the agent answers.

use xjp_deploy_agent::api::containers::{
    container_env_args, container_logs_args, get_container_env_internal, get_container_logs,
    list_containers, list_containers_args,
};
use xjp_deploy_agent::api::database::{
    affected_rows, check_execute, check_query, db_command, db_execute_command, db_execute_query,
    db_export_data, db_get_schema, db_list_databases, db_list_tables, db_output,
    db_output_within, export_sql,
    list_tables_sql, schema_sql, ExecuteDecision,
};
use xjp_deploy_agent::api::health::{
    health_check, list_projects, restart_args, restart_service,
};
use xjp_deploy_agent::api::images::{
    get_prefetch_status, list_images, prefetch_done, prefetch_image, prefetch_image_at, pull_args,
    PrefetchRequest, PrefetchTasks, MAX_PREFETCH_TASKS,
};
use xjp_deploy_agent::api::system::{
    agent_log_args, default_agent_log_lines, default_initial_lines, default_lines,
    default_service_name, default_timeout, exec_args, exec_command, follow_log_args, force_update,
    force_update_to, get_agent_logs, get_config, get_service_logs, initial_log_args,
    service_log_args, stream_agent_logs, stream_ended, uptime, uptime_text, AgentLogsQuery,
    ExecRequest, FetchedMetadata, ForceUpdateRequest, ServiceLogsQuery, StreamLogsQuery,
    TimedOutput,
};
use xjp_deploy_agent::config::autoupdate::{UpdateMetadata, UpdateProgress};
use xjp_deploy_agent::config::environment::Environment;
use xjp_deploy_agent::domain::container::ContainerLogsQuery;
use xjp_deploy_agent::domain::database::{
    DatabaseType, DbConnectionConfig, DbExecuteRequest, DbExportRequest, DbQueryRequest,
    ExportFormat, GetSchemaRequest, ListDatabasesRequest, ListTablesRequest,
};
use xjp_deploy_agent::error::ApiError;
use xjp_deploy_agent::infra::command::CommandOutput;
use xjp_deploy_agent::services::deploy::action::ProcessOutput;
use xjp_deploy_agent::services::frp::ChildPoll;
use xjp_deploy_agent::services::windows_service::{
    is_running_as_service, launch_arguments, service_command, ServiceCommand,
};
use xjp_deploy_agent::state::app_state::AppState;
use xjp_deploy_agent::time::Timestamp;

fn at(secs: i64) -> Timestamp {
    Timestamp::new(secs, 0).unwrap()
}

fn agent(vars: &[(&str, &str)]) -> AppState {
    let env = Environment {
        vars: vars.iter().map(|(k, v)| (k.to_string(), v.to_string())).collect(),
        hostname: Some("node-1".to_string()),
    };
    AppState::new_at(&env, "/tmp/frpc.ini".to_string(), None, at(1_000))
}

fn output(success: bool, stdout: &str, stderr: &str) -> Result<CommandOutput, String> {
    Ok(CommandOutput { success, stdout: stdout.to_string(), stderr: stderr.to_string() })
}

fn text(e: ApiError) -> (u16, String) {
    (e.status_code(), e.to_text())
}

// Containers.

#[test]
fn containers_are_listed() {
    assert_eq!(list_containers_args()[..3], ["ps", "-a", "--format"]);
    let out = "a1|web|nginx:1|Up 2 hours|running|2025|0.0.0.0:80->80/tcp, :::80->80/tcp\n\nb2|db\n";
    let list = list_containers(output(true, out, "")).unwrap().containers;
    assert_eq!(list.len(), 2);
    assert_eq!(list[0].state, "running");
    assert_eq!(list[0].ports, vec!["0.0.0.0:80->80/tcp", ":::80->80/tcp"]);
    assert_eq!(list[1].name, "db");
    assert!(list[1].image.is_empty());
    assert!(list[1].ports.is_empty());
    let e = list_containers(output(false, "", "no daemon")).err().unwrap();
    assert!(matches!(e, ApiError::Internal(m) if m == "Docker command failed: no daemon"));
    let e = list_containers(Err("no docker".to_string())).err().unwrap();
    assert!(matches!(e, ApiError::Internal(m) if m == "Failed to list containers: no docker"));
}

#[test]
fn container_logs_are_merged() {
    let query =
        ContainerLogsQuery { tail: 5, timestamps: true, since: Some("10m".to_string()) };
    assert_eq!(
        container_logs_args("web", &query).join(" "),
        "logs --tail 5 --timestamps --since 10m web"
    );
    let r = get_container_logs("web", output(true, "a\n\nb\n", "c\n")).unwrap();
    assert_eq!(r.logs, vec!["a", "b", "c"]);
    assert_eq!(r.total_lines, 3);
    let e = get_container_logs("web", output(false, "", "Error: No such container: web"));
    assert!(matches!(e.err().unwrap(), ApiError::NotFound(m) if m.contains("Container 'web'")));
    let r = get_container_logs("web", output(false, "", "other")).unwrap();
    assert_eq!(r.logs, vec!["other"]);
}

#[test]
fn secrets_of_a_container_are_hidden() {
    assert_eq!(container_env_args("web")[0], "inspect");
    let out = "PATH=/bin\nDB_PASSWORD=a=b\nnothing\n\n";
    let shown = get_container_env_internal("web", true, output(true, out, "")).unwrap();
    assert_eq!(shown.env_vars.len(), 2);
    assert_eq!(shown.env_vars[1].value, "***REDACTED***");
    assert!(shown.env_vars[1].sensitive);
    let full = get_container_env_internal("web", false, output(true, out, "")).unwrap();
    assert_eq!(full.env_vars[1].value, "a=b");
    let e = get_container_env_internal("x", true, output(false, "", "Error: No such object"));
    assert_eq!(e.err().unwrap().status_code(), 404);
    let e = get_container_env_internal("x", true, output(false, "", "denied"));
    assert!(matches!(e.err().unwrap(),
        ApiError::Internal(m) if m == "Docker inspect failed: denied"));
}

// Databases.

fn connection(db_type: DatabaseType) -> DbConnectionConfig {
    DbConnectionConfig {
        db_type,
        container: "pg".to_string(),
        database: "app".to_string(),
        username: None,
        password: Some("pw".to_string()),
    }
}

fn query(sql: &str, max_rows: usize) -> DbQueryRequest {
    DbQueryRequest {
        connection: connection(DatabaseType::Postgres),
        sql: sql.to_string(),
        max_rows,
        timeout_seconds: 30,
    }
}

#[test]
fn database_commands() {
    let pg = db_command(&connection(DatabaseType::Postgres), "SELECT 1");
    assert_eq!(pg.program, "docker");
    assert_eq!(pg.args.join(" "), "exec -i pg psql -U postgres -d app -c SELECT 1");
    assert_eq!(pg.envs, vec![("PGPASSWORD".to_string(), "pw".to_string())]);
    let my = db_command(&connection(DatabaseType::Mysql), "SELECT 1");
    assert_eq!(my.args.join(" "), "exec -i pg mysql -u root -ppw app -e SELECT 1");
    assert!(my.envs.is_empty());
    assert_eq!(db_output(output(true, "x", "")).ok().as_deref(), Some("x"));
    assert!(matches!(db_output(output(false, "", "syntax")).err().unwrap(),
        ApiError::Internal(m) if m == "Database error: syntax"));
    assert!(matches!(db_output(Err("gone".to_string())).err().unwrap(),
        ApiError::Internal(m) if m == "Failed to execute command: gone"));
    assert!(db_list_databases(&ListDatabasesRequest { db_type: None }).databases.is_empty());
}

#[test]
fn tables_and_columns_are_read() {
    let request =
        ListTablesRequest { connection: connection(DatabaseType::Postgres), schema: None };
    assert_eq!(
        list_tables_sql(&request),
        "SELECT table_name FROM information_schema.tables WHERE table_schema = 'public'"
    );
    let r = db_list_tables(&request, " table_name \n------\n users \n orders\n\n");
    let names: Vec<&str> = r.tables.iter().map(|t| t.name.as_str()).collect();
    assert_eq!(names, vec!["users", "orders"]);
    assert_eq!(r.tables[0].schema.as_deref(), Some("public"));
    assert_eq!(r.database, "app");

    let request = GetSchemaRequest {
        connection: connection(DatabaseType::Mysql),
        table: "users".to_string(),
        schema: None,
    };
    assert!(schema_sql(&request).ends_with("table_schema = 'app' AND table_name = 'users'"));
    let out = "column_name | x\n---\nid | integer | NO | nextval\nname | text | YES | NULL\nbad\n";
    let r = db_get_schema(&request, out);
    assert_eq!(r.columns.len(), 2);
    assert_eq!(r.columns[0].default_value.as_deref(), Some("nextval"));
    assert!(!r.columns[0].is_nullable);
    assert!(r.columns[1].is_nullable);
    assert!(r.columns[1].default_value.is_none());
}

#[test]
fn only_queries_are_queried() {
    assert!(check_query(&query("  select 1", 10)).is_ok());
    assert!(check_query(&query("WITH x AS (SELECT 1) SELECT 2", 10)).is_ok());
    assert!(matches!(check_query(&query("UPDATE x SET a = 1", 10)).err().unwrap(),
        ApiError::BadRequest(m) if m
            == "Only SELECT queries are allowed. Use /db/execute for other operations."));
    assert_eq!(check_query(&query("", 10)).err().unwrap().status_code(), 400);

    let out = " id | name \n----+-----\n 1 | a\n 2 | \n 3\n(3 rows)\n\n";
    let r = db_execute_query(&query("SELECT", 2), out, 7);
    assert_eq!(r.columns, vec!["id", "name"]);
    assert_eq!(r.rows.len(), 2);
    assert_eq!(r.rows[0], vec![Some("1".to_string()), Some("a".to_string())]);
    assert_eq!(r.rows[1][1], None);
    assert_eq!(r.warning.as_deref(), Some("Results limited to 2 rows"));
    assert_eq!(r.execution_time_ms, 7);
    assert!(db_execute_query(&query("SELECT", 2), "", 7).columns.is_empty());
    let r = db_execute_query(&query("SELECT", 1), out, 7);
    assert_eq!((r.rows.len(), r.row_count), (1, 1));
    assert_eq!(r.warning.as_deref(), Some("Results limited to 1 rows"));
    let r = db_execute_query(&query("SELECT", 3), out, 7);
    assert_eq!((r.row_count, r.warning), (2, None));
    let late = db_output_within(None, 30).err().unwrap();
    assert!(late.to_text().contains("Database command timed out after 30 seconds"));
    let done = CommandOutput {
        success: true,
        stdout: "x".to_string(),
        stderr: String::new(),
    };
    assert_eq!(db_output_within(Some(Ok(done)), 30).ok().as_deref(), Some("x"));
}

fn execute(sql: &str, confirm_dangerous: bool) -> DbExecuteRequest {
    DbExecuteRequest {
        connection: connection(DatabaseType::Postgres),
        sql: sql.to_string(),
        confirm_dangerous,
        timeout_seconds: 30,
    }
}

#[test]
fn dangerous_statement_needs_a_confirmation() {
    match check_execute(&execute("DELETE FROM users", false)).unwrap() {
        ExecuteDecision::Answer(r) => {
            assert!(!r.success);
            assert_eq!(r.warning.as_deref(), Some("Dangerous operation detected"));
            assert_eq!(
                r.error.as_deref(),
                Some("This operation (DELETE/TRUNCATE/DROP/ALTER) requires confirm_dangerous=true")
            );
        }
        ExecuteDecision::Run => panic!("a confirmation is needed"),
    }
    assert!(matches!(
        check_execute(&execute("DELETE FROM users", true)),
        Ok(ExecuteDecision::Run)
    ));
    assert!(matches!(
        check_execute(&execute("INSERT INTO a VALUES (1)", false)),
        Ok(ExecuteDecision::Run)
    ));
    assert!(check_execute(&execute(" ", true)).is_err());

    assert_eq!(affected_rows("NOTICE\nINSERT 0 5\nUPDATE 9\n"), 5);
    assert_eq!(affected_rows("UPDATE many\n"), 0);
    let r = db_execute_command(Ok("DELETE 3".to_string()), 4);
    assert_eq!((r.success, r.affected_rows, r.execution_time_ms), (true, 3, 4));
    let r = db_execute_command(Err(ApiError::internal("Database error: x")), 4);
    assert!(!r.success);
    assert!(r.error.unwrap().contains("Database error: x"));
}

#[test]
fn data_is_exported() {
    let request = |format, is_query| DbExportRequest {
        connection: connection(DatabaseType::Postgres),
        source: "users".to_string(),
        is_query,
        format,
        max_rows: 5,
    };
    assert_eq!(export_sql(&request(ExportFormat::Csv, false)), "SELECT * FROM users LIMIT 5");
    assert_eq!(export_sql(&request(ExportFormat::Csv, true)), "users");
    let out = " id | name \n----+-----\n 1 | a \n\n";
    let r = db_export_data(&request(ExportFormat::Csv, false), out, 1);
    assert_eq!((r.data.as_str(), r.row_count), ("id,name\n1,a", 1));
    let r = db_export_data(&request(ExportFormat::Json, false), out, 1);
    assert_eq!((r.data.as_str(), r.row_count), (out, 4));
    let r = db_export_data(&request(ExportFormat::Sql, false), "x\n", 1);
    assert_eq!((r.data.as_str(), r.row_count), ("-- SQL export for users\nx\n", 1));

    let few = |format| DbExportRequest { max_rows: 1, ..request(format, true) };
    let out = " id | name \n----+-----\n 1 | a \n 2 | b \n(2 rows)\n\n";
    let r = db_export_data(&few(ExportFormat::Csv), out, 1);
    assert_eq!((r.data.as_str(), r.row_count), ("id,name\n1,a", 1));
    let r = db_export_data(&few(ExportFormat::Json), out, 1);
    assert_eq!((r.data.as_str(), r.row_count), (" id | name \n----+-----\n 1 | a ", 1));
    let r = db_export_data(&few(ExportFormat::Sql), out, 1);
    assert!(r.data.starts_with("-- SQL export for users\n id"));
    assert!(!r.data.contains(" 2 | b "));
    assert_eq!(r.row_count, 1);

    // As many rows as are wanted: nothing is cut, and the footer stays.
    let all = |format| DbExportRequest { max_rows: 2, ..request(format, true) };
    let r = db_export_data(&all(ExportFormat::Csv), out, 1);
    assert_eq!((r.data.as_str(), r.row_count), ("id,name\n1,a\n2,b\n(2 rows)", 3));
    let r = db_export_data(&all(ExportFormat::Json), out, 1);
    assert_eq!((r.data.as_str(), r.row_count), (out, 6));
    let r = db_export_data(&all(ExportFormat::Sql), out, 1);
    assert_eq!(r.data, format!("-- SQL export for users\n{out}"));
    assert_eq!(r.row_count, 6);
    let none = DbExportRequest { max_rows: 0, ..request(ExportFormat::Json, true) };
    let r = db_export_data(&none, out, 1);
    assert_eq!((r.data.as_str(), r.row_count), (" id | name \n----+-----", 0));
}

// Images.

fn prefetch(image: &str) -> PrefetchRequest {
    PrefetchRequest { image: image.to_string(), project: None, source_deploy_log_id: None }
}

#[test]
fn image_is_fetched_ahead() {
    let mut tasks = PrefetchTasks::new();
    for bad in ["", "a b"] {
        assert!(matches!(prefetch_image(&mut tasks, &prefetch(bad)).err().unwrap(),
            ApiError::BadRequest(m) if m == "Invalid image name"));
    }
    let r = prefetch_image_at(&mut tasks, &prefetch("reg/a:1"), "t1".to_string(), at(10));
    assert_eq!(r.unwrap().status, "started");
    assert_eq!(get_prefetch_status(&tasks, "t1").unwrap().status, "running");
    assert_eq!(pull_args("reg/a:1").join(" "), "pull reg/a:1");
    prefetch_done(&mut tasks, "t1", Ok((true, String::new())), 1500, at(12));
    let t = get_prefetch_status(&tasks, "t1").unwrap();
    assert_eq!((t.status.as_str(), t.duration_ms), ("completed", Some(1500)));
    assert_eq!(t.completed_at.unwrap().timestamp(), 12);
    prefetch_image_at(&mut tasks, &prefetch("reg/b:1"), "t2".to_string(), at(20)).ok().unwrap();
    prefetch_done(&mut tasks, "t2", Ok((false, "denied".to_string())), 1, at(21));
    let t = get_prefetch_status(&tasks, "t2").unwrap();
    assert_eq!((t.status.as_str(), t.error.as_deref()), ("failed", Some("denied")));
    let list = list_images(&tasks);
    assert_eq!(list.total, 2);
    assert_eq!(list.tasks[0].task_id, "t2");
    assert!(matches!(get_prefetch_status(&tasks, "t3").err().unwrap(),
        ApiError::NotFound(m) if m.contains("Prefetch task 't3'")));
    let a = prefetch_image(&mut tasks, &prefetch("x")).ok().unwrap().task_id;
    let b = prefetch_image(&mut tasks, &prefetch("x")).ok().unwrap().task_id;
    assert_ne!(a, b);
}

#[test]
fn old_fetches_are_forgotten() {
    let mut tasks = PrefetchTasks::new();
    let mut begin = |tasks: &mut PrefetchTasks, id: &str, secs: i64| {
        prefetch_image_at(tasks, &prefetch("x"), id.to_string(), at(secs)).ok().unwrap();
    };
    begin(&mut tasks, "old", 0);
    begin(&mut tasks, "new", 3599);
    assert_eq!(list_images(&tasks).total, 2);
    begin(&mut tasks, "next", 3600);
    assert!(get_prefetch_status(&tasks, "old").is_err());
    assert!(get_prefetch_status(&tasks, "new").is_ok());

    let mut tasks = PrefetchTasks::new();
    for i in 0..MAX_PREFETCH_TASKS {
        begin(&mut tasks, &format!("t{i}"), i as i64);
    }
    prefetch_done(&mut tasks, "t7", Ok((true, String::new())), 1, at(200));
    prefetch_done(&mut tasks, "t3", Err("e".to_string()), 1, at(200));
    begin(&mut tasks, "more", 300);
    assert!(get_prefetch_status(&tasks, "t3").is_err());
    assert!(get_prefetch_status(&tasks, "t7").is_ok());
    assert_eq!(list_images(&tasks).total, MAX_PREFETCH_TASKS);
    begin(&mut tasks, "again", 301);
    begin(&mut tasks, "and again", 302);
    // What runs is kept, though there are too many.
    assert_eq!(list_images(&tasks).total, MAX_PREFETCH_TASKS + 1);
}

// The system.

fn ended(code: i32, stdout: &str, stderr: &str) -> TimedOutput {
    TimedOutput::Ended(ProcessOutput {
        code: Some(code),
        stdout: stdout.to_string(),
        stderr: stderr.to_string(),
    })
}

#[test]
fn command_is_run_within_its_time() {
    let request = ExecRequest { command: "ls".to_string(), cwd: None, timeout: 60 };
    assert_eq!(default_timeout(), 60);
    assert_eq!(exec_args(&request).join(" "), "-c ls");
    let r = exec_command(&request, ended(3, "o", "e")).unwrap();
    assert_eq!((r.success, r.exit_code), (false, Some(3)));
    assert_eq!((r.stdout.as_str(), r.stderr.as_str()), ("o", "e"));
    assert!(matches!(exec_command(&request, TimedOutput::TimedOut).err().unwrap(),
        ApiError::Internal(m) if m == "Command timed out after 60 seconds"));
    assert!(matches!(exec_command(&request, TimedOutput::NotRun("x".to_string())).err().unwrap(),
        ApiError::Internal(m) if m == "Failed to execute command: x"));
}

#[test]
fn uptime_is_shown_in_days() {
    assert_eq!(uptime_text(93_784), "1d 2h 3m 4s");
    assert_eq!(uptime_text(-61), "0d 0h -1m -1s");
    assert_eq!(uptime(&agent(&[]), &at(1_059)), "0d 0h 0m 59s");
}

#[test]
fn update_is_forced() {
    let mut state = agent(&[]);
    assert_eq!(
        text(force_update(&mut state).err().unwrap()).0,
        400
    );
    let mut state = agent(&[
        ("AUTO_UPDATE_ENABLED", "true"),
        ("AUTO_UPDATE_ENDPOINT", "https://oss"),
        ("AUTO_UPDATE_METADATA_PATH", "latest.json"),
        ("AUTO_UPDATE_BINARY_PATH_TEMPLATE", "bin/{version}"),
        ("UPDATE_METADATA_PATH", "latest.json"),
        ("UPDATE_BINARY_PATH_TEMPLATE", "bin/{version}"),
    ]);
    assert_eq!(force_update(&mut state).ok().as_deref(), Some("https://oss/latest.json"));
    assert!(matches!(state.auto_update_state.update_progress, UpdateProgress::Checking));
    let fetched = FetchedMetadata::Read(UpdateMetadata {
        version: "1.2.0".to_string(),
        released_at: String::new(),
        changelog: None,
        sha256: None,
    });
    let asked = |v: Option<&str>| ForceUpdateRequest { version: v.map(|s| s.to_string()) };
    assert!(matches!(
        force_update_to(&mut state, &asked(Some("1.1.0")), &fetched).err().unwrap(),
        ApiError::BadRequest(m)
            if m == "Requested version 1.1.0 not found. Latest available: 1.2.0"
    ));
    let r = force_update_to(&mut state, &asked(None), &fetched).ok().unwrap();
    assert_eq!((r.status.as_str(), r.target_version.as_str()), ("update_started", "latest"));
    assert!(state.auto_update_state.update_available);
    let lost = FetchedMetadata::NotFetched("timeout".to_string());
    assert!(matches!(force_update_to(&mut state, &asked(None), &lost).err().unwrap(),
        ApiError::Internal(m) if m == "Failed to fetch update metadata: timeout"));
    let torn = FetchedMetadata::NotRead("eof".to_string());
    assert!(matches!(force_update_to(&mut state, &asked(None), &torn).err().unwrap(),
        ApiError::Internal(m) if m == "Failed to parse update metadata: eof"));
}

#[test]
fn journal_is_read() {
    assert_eq!(default_lines(), 100);
    assert_eq!(default_service_name(), "xjp-deploy-agent");
    assert_eq!(default_agent_log_lines(), 100);
    assert_eq!(default_initial_lines(), 50);
    let query = ServiceLogsQuery {
        lines: 7,
        since: Some("1h".to_string()),
        service: "nginx".to_string(),
    };
    assert_eq!(service_log_args(&query).join(" "), "-u nginx -n 7 --no-pager --since 1h");
    assert_eq!(get_service_logs(ended(0, "log", "")).ok().as_deref(), Some("log"));
    for (outcome, why) in [
        (ended(1, "out", ""), "journalctl failed: out"),
        (ended(1, "out", "err"), "journalctl failed: err"),
        (TimedOutput::NotRun("x".to_string()), "Failed to execute journalctl: x"),
        (TimedOutput::TimedOut, "journalctl command timed out"),
    ] {
        assert!(matches!(get_service_logs(outcome).err().unwrap(),
            ApiError::Internal(m) if m == why));
    }
    assert_eq!(
        agent_log_args(&AgentLogsQuery { lines: 999 }).join(" "),
        "-u xjp-deploy-agent -n 200 --no-pager -o short-iso"
    );
    assert!(initial_log_args(&StreamLogsQuery { initial: 999 }).contains(&"100".to_string()));
    assert!(follow_log_args().contains(&"-f".to_string()));
    let logs = get_agent_logs(ended(0, "a\nb\n", ""));
    assert_eq!((logs.lines, logs.logs.len()), (2, 2));
    assert!(logs.error.is_none());
    let logs = get_agent_logs(TimedOutput::TimedOut);
    assert_eq!(logs.error.as_deref(), Some("journalctl command timed out"));
    let stream = stream_agent_logs(Some("a\nb\n"));
    assert_eq!(stream.len(), 3);
    assert_eq!(stream[2].event.as_deref(), Some("history_end"));
    assert_eq!(stream[2].data, "---");
    let end = stream_ended(Some("no journal"));
    assert_eq!(end[0].data, "Failed to start log stream: no journal");
    assert_eq!(end[1].event.as_deref(), Some("end"));
    assert_eq!(stream_ended(None).len(), 1);
}

#[test]
fn configuration_is_shown_without_its_key() {
    let state = agent(&[("DEPLOY_AGENT_API_KEY", "k"), ("TUNNEL_MODE", "client")]);
    let report = get_config(&state, "1.0.0");
    assert!(report.api_key_configured);
    assert_eq!(report.tunnel_mode, "Client");
    assert_eq!(report.started_at, "1970-01-01T00:16:40+00:00");
    assert!(report.auto_update.is_none());
}

#[test]
fn health_is_reported() {
    let mut state = agent(&[("TUNNEL_MODE", "server")]);
    state.register_running_deploy("app", "t1");
    let h = health_check(&mut state, "1.0.0", at(2_000), ChildPoll::Running(None), false);
    assert_eq!((h.status.as_str(), h.service.as_str()), ("ok", "xjp-deploy-agent"));
    assert_eq!(h.timestamp, "1970-01-01T00:33:20+00:00");
    assert_eq!(h.active_deploys, 1);
    assert_eq!(h.active_projects, vec!["app"]);
    assert!(!h.auto_update_enabled);
    let tunnel = h.tunnel.unwrap();
    assert_eq!((tunnel.mode.as_str(), tunnel.client_connected), ("server", Some(false)));
    assert!(h.ssh.is_none());
    assert_eq!(list_projects(&state).len(), h.projects.len());
    assert_eq!(restart_args()[0], "/usr/bin/systemd-run");
    assert!(restart_service(Ok((true, String::new()))).success);
    assert_eq!(
        restart_service(Ok((false, "denied".to_string()))).message,
        "Failed to schedule restart: denied"
    );
    assert_eq!(
        restart_service(Err("no sudo".to_string())).message,
        "Failed to run restart command: no sudo"
    );
}

// The Windows service.

#[test]
fn service_is_commanded() {
    let args = |list: &[&str]| list.iter().map(|s| s.to_string()).collect::<Vec<String>>();
    assert!(service_command(&args(&["agent"])).is_none());
    assert!(matches!(service_command(&args(&["agent", "service"])), Some(ServiceCommand::Usage)));
    assert!(matches!(
        service_command(&args(&["agent", "service", "install"])),
        Some(ServiceCommand::Install)
    ));
    assert!(matches!(
        service_command(&args(&["agent", "service", "dance"])),
        Some(ServiceCommand::Unknown(w)) if w == "dance"
    ));
    let mut launched = args(&["agent"]);
    launched.extend(launch_arguments());
    assert!(is_running_as_service(&launched));
    assert!(!is_running_as_service(&args(&["agent", "run", "service"])));
}
