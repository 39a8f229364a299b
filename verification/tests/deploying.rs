//! The course of a deployment, event by event.

use xjp_deploy_agent::domain::deploy::{DeployStage, DeployStatus, StageStatus};
use xjp_deploy_agent::services::deploy::action::{DeployAction, Moment, ProcessOutput, SpawnEnd};
use xjp_deploy_agent::services::deploy::canary::canary_container_name;
use xjp_deploy_agent::services::deploy::docker_build::{BuildDeploy, DockerBuildConfig};
use xjp_deploy_agent::services::deploy::docker_compose::{ComposeDeploy, DockerComposeConfig};
use xjp_deploy_agent::services::deploy::fatal::{check_log, find_pattern};
use xjp_deploy_agent::services::deploy::monitor::{get_container_state, ContainerState};
use xjp_deploy_agent::services::deploy::script::{should_send_to_center, ScriptDeploy};
use xjp_deploy_agent::services::deploy::xiaojincut::{
    HttpReply, XiaojincutConfig, XiaojincutDeploy,
};
use xjp_deploy_agent::services::deploy::zombies::{
    hung_build_pids, listed_pids, zombie_pids, ZombieCleanup,
};
use xjp_deploy_agent::time::Timestamp;

fn moment(secs: i64) -> Moment {
    Moment {
        now: Timestamp::new(secs, 0).unwrap(),
        clock_ns: secs as u64 * 1_000_000_000,
        cancelled: false,
    }
}

fn cancelled(secs: i64) -> Moment {
    Moment { cancelled: true, ..moment(secs) }
}

fn ok(stdout: &str) -> Result<ProcessOutput, String> {
    Ok(ProcessOutput { code: Some(0), stdout: stdout.to_string(), stderr: String::new() })
}

fn failed(code: i32, stderr: &str) -> Result<ProcessOutput, String> {
    Ok(ProcessOutput { code: Some(code), stdout: String::new(), stderr: stderr.to_string() })
}

/// The lines of the log, those of the standard error marked.
fn log(acts: &[DeployAction]) -> Vec<String> {
    acts.iter()
        .filter_map(|a| match a {
            DeployAction::Log { stream, text } if stream.as_str() == "stderr" => {
                Some(format!("! {text}"))
            }
            DeployAction::Log { text, .. } => Some(text.clone()),
            _ => None,
        })
        .collect()
}

/// What is run last.
fn command(acts: &[DeployAction]) -> String {
    match acts.last() {
        Some(DeployAction::Run { program, args, .. }) => format!("{program} {}", args.join(" ")),
        Some(DeployAction::Spawn { program, args, .. }) => {
            format!("{program} {}", args.join(" "))
        }
        _ => panic!("a command is to be run"),
    }
}

fn end(acts: &[DeployAction]) -> (DeployStatus, i32, &Vec<DeployStage>) {
    match acts.last() {
        Some(DeployAction::Finish { status, exit_code, stages }) => (*status, *exit_code, stages),
        _ => panic!("the deployment is to be over"),
    }
}

fn statuses(stages: &[DeployStage]) -> Vec<StageStatus> {
    stages.iter().map(|s| s.status).collect()
}

// Scripts.

fn script() -> ScriptDeploy {
    ScriptDeploy::new(
        "app".to_string(),
        "/srv/app".to_string(),
        "./deploy.sh".to_string(),
        Some("abc".to_string()),
        None,
    )
}

#[test]
fn script_runs_after_the_pull() {
    let mut run = script();
    let acts = run.begin(&moment(1));
    assert_eq!(
        log(&acts),
        vec![
            "=== Starting deployment for app ===",
            "Working directory: /srv/app",
            "Script: ./deploy.sh",
            "Commit: abc",
            ">>> git pull",
        ]
    );
    assert_eq!(command(&acts), "git pull");
    let acts = run.on_output(failed(1, "conflict"), &moment(2));
    assert_eq!(
        log(&acts),
        vec!["! conflict", "! git pull failed, continuing anyway...", ">>> ./deploy.sh"]
    );
    assert_eq!(command(&acts), "bash -c ./deploy.sh");
    assert!(matches!(acts.last(), Some(DeployAction::Spawn { dir, envs, filtered: true, .. })
        if dir == "/srv/app"
            && envs[0] == ("COMMIT_HASH".to_string(), "abc".to_string())
            && envs[1] == ("BRANCH".to_string(), String::new())));
    let acts = run.on_spawn_end(SpawnEnd::Exited(Some(0)), &moment(5));
    assert_eq!(
        log(&acts),
        vec!["=== Deployment completed successfully (exit code: 0) ==="]
    );
    let (status, code, stages) = end(&acts);
    assert_eq!((status, code), (DeployStatus::Success, 0));
    assert_eq!(statuses(stages), vec![StageStatus::Failed, StageStatus::Success]);
    assert_eq!(
        stages[0].message.as_deref(),
        Some("git pull failed, continuing anyway")
    );
    assert_eq!(stages[1].duration_ms, Some(3000));
}

#[test]
fn script_ends_as_its_process_does() {
    let ends = [
        (SpawnEnd::Exited(Some(7)), 7, "! === Deployment failed (exit code: 7) ==="),
        (SpawnEnd::Exited(None), -1, "! === Deployment failed (exit code: -1) ==="),
        (SpawnEnd::Lost("gone".to_string()), -1, "! === Process error: gone ==="),
        (SpawnEnd::NotStarted("no bash".to_string()), -1, "! Failed to start script: no bash"),
        (SpawnEnd::Cancelled, -2, "! === Deployment CANCELLED ==="),
    ];
    for (how, code, line) in ends {
        let mut run = script();
        run.begin(&moment(1));
        run.on_output(ok(""), &moment(2));
        let acts = run.on_spawn_end(how, &moment(3));
        assert_eq!(log(&acts), vec![line]);
        let (status, c, stages) = end(&acts);
        assert_eq!((status, c), (DeployStatus::Failed, code));
        assert_eq!(statuses(stages), vec![StageStatus::Success, StageStatus::Failed]);
    }
}

#[test]
fn cancelled_script_does_not_start() {
    let mut run = script();
    run.begin(&moment(1));
    let acts = run.on_output(ok("up to date"), &cancelled(2));
    assert_eq!(log(&acts), vec!["up to date", "! === Deployment CANCELLED ==="]);
    let (status, code, stages) = end(&acts);
    assert_eq!((status, code), (DeployStatus::Failed, -2));
    assert_eq!(statuses(stages), vec![StageStatus::Success, StageStatus::Pending]);
}

#[test]
fn noise_stays_out_of_the_log() {
    assert!(!should_send_to_center("   "));
    assert!(should_send_to_center("hello"));
    assert!(should_send_to_center("#5 DONE 0.1s"));
    assert!(should_send_to_center("#5 [builder 2/3] x"));
    assert!(!should_send_to_center("#5 0.123 extracting"));
    assert!(should_send_to_center("# heading"));
    assert!(!should_send_to_center("sha256:abc Pulling fs layer"));
    assert!(should_send_to_center("sha256:abc done"));
    assert!(!should_send_to_center("[=>   ] 1MB"));
    assert!(!should_send_to_center("[ 10%]"));
}

// Image builds.

fn build(tag: Option<&str>, push_latest: bool) -> BuildDeploy {
    BuildDeploy::new(
        "app".to_string(),
        "/srv/app".to_string(),
        DockerBuildConfig {
            dockerfile: None,
            build_context: None,
            image: "reg/app".to_string(),
            tag: tag.map(|t| t.to_string()),
            push_latest,
            branch: Some("main".to_string()),
        },
    )
}

/// Runs the search for stale processes, which finds none.
fn nothing_stale(run: &mut BuildDeploy, acts: Vec<DeployAction>) -> Vec<DeployAction> {
    assert_eq!(command(&acts), "ps aux");
    let acts = run.on_output(ok(""), &moment(3));
    assert_eq!(command(&acts), "ps -eo pid,etimes,args");
    let acts = run.on_output(ok(""), &moment(3));
    assert_eq!(command(&acts), "pgrep -f buildkit");
    run.on_output(failed(1, ""), &moment(3))
}

#[test]
fn image_is_built_and_pushed_under_its_commit() {
    let mut run = build(None, true);
    let acts = run.begin(&moment(1_735_787_045));
    let lines = log(&acts);
    assert_eq!(lines[0], "=== Docker Build Deploy for app ===");
    assert_eq!(lines[2], "Dockerfile: Dockerfile");
    assert_eq!(lines[6], "Timestamp: 2025-01-02T03:04:05+00:00");
    assert_eq!(command(&acts), "git pull --ff-only origin main");
    let acts = run.on_output(ok(""), &moment(1_735_787_046));
    assert_eq!(command(&acts), "git rev-parse --short HEAD");
    let acts = run.on_output(ok("abc123\n"), &moment(1_735_787_046));
    assert_eq!(
        log(&acts),
        vec![
            "Using commit hash as tag: abc123",
            "Checking for zombie docker processes..."
        ]
    );
    let acts = nothing_stale(&mut run, acts);
    assert_eq!(
        command(&acts),
        "docker build --progress=plain -t reg/app:abc123 -f Dockerfile ."
    );
    let acts = run.on_spawn_end(SpawnEnd::Exited(Some(0)), &moment(1_735_787_050));
    assert_eq!(command(&acts), "docker push reg/app:abc123");
    let acts = run.on_output(ok("pushed"), &moment(1_735_787_051));
    assert_eq!(command(&acts), "docker tag reg/app:abc123 reg/app:latest");
    let acts = run.on_output(ok(""), &moment(1_735_787_051));
    assert_eq!(command(&acts), "docker push reg/app:latest");
    let acts = run.on_output(failed(1, "denied"), &moment(1_735_787_052));
    let (status, code, stages) = end(&acts);
    // The tag "latest" is a convenience: the deployment is a success without.
    assert_eq!((status, code), (DeployStatus::Success, 0));
    assert_eq!(stages[3].status, StageStatus::Failed);
    let lines = log(&acts);
    assert!(lines.contains(&"! Warning: Failed to push latest tag".to_string()));
    assert!(lines.contains(&"Status: Success".to_string()));
    assert!(lines.contains(&"✗ Push Latest Tag (1000ms)".to_string()));
}

#[test]
fn failed_build_pushes_nothing() {
    let mut run = build(Some("v1"), false);
    run.begin(&moment(1));
    let acts = run.on_output(ok(""), &moment(2));
    let acts = nothing_stale(&mut run, acts);
    assert!(command(&acts).contains("reg/app:v1"));
    let acts = run.on_spawn_end(SpawnEnd::Exited(Some(2)), &moment(4));
    let (status, code, stages) = end(&acts);
    assert_eq!((status, code), (DeployStatus::Failed, 2));
    assert_eq!(
        statuses(stages),
        vec![StageStatus::Success, StageStatus::Failed, StageStatus::Pending]
    );
    assert!(log(&acts).contains(&"○ Docker Push (-)".to_string()));
}

#[test]
fn cancelled_build_skips_what_is_left() {
    let mut run = build(Some("v1"), false);
    run.begin(&moment(1));
    let acts = run.on_output(ok(""), &moment(2));
    nothing_stale(&mut run, acts);
    let acts = run.on_spawn_end(SpawnEnd::Cancelled, &moment(4));
    assert_eq!(
        log(&acts),
        vec![
            "! === Docker build CANCELLED: superseded by newer commit ===",
            "=== Docker Build Deploy cancelled ==="
        ]
    );
    let (status, code, stages) = end(&acts);
    assert_eq!((status, code), (DeployStatus::Failed, -2));
    assert_eq!(
        statuses(stages),
        vec![StageStatus::Success, StageStatus::Skipped, StageStatus::Skipped]
    );
    let mut run = build(Some("v1"), false);
    run.begin(&moment(1));
    let acts = run.on_output(failed(128, ""), &cancelled(2));
    assert_eq!(end(&acts).1, -2);
}

#[test]
fn build_stops_where_the_pull_fails() {
    let mut run = build(None, false);
    run.begin(&moment(1));
    let acts = run.on_output(failed(128, "no remote"), &moment(2));
    assert_eq!(end(&acts).1, 128);
    let mut run = build(None, false);
    run.begin(&moment(1));
    let acts = run.on_output(Err("no git".to_string()), &moment(2));
    assert_eq!(end(&acts).1, -1);
    assert!(log(&acts).contains(&"! Error: Failed to run git pull: no git".to_string()));
}

#[test]
fn stale_docker_processes_are_found() {
    let listing = "USER PID STAT COMMAND\nroot 7 Z [docker] <defunct>\nroot 8 S docker ps\n\
                   root x Z docker\n";
    assert_eq!(zombie_pids(listing), vec!["7"]);
    let ages = "PID ELAPSED CMD\n 9 1801 docker build .\n 10 1800 docker build .\n 11 9999 bash\n";
    assert_eq!(hung_build_pids(ages), vec!["9"]);
    assert_eq!(listed_pids(" 12 \n\n13\n"), vec!["12", "13"]);

    let mut c = ZombieCleanup::new();
    c.begin();
    let next = c.on_output(&ok(listing)).unwrap();
    assert_eq!(command(&[next]), "kill -9 7");
    c.on_output(&ok(""));
    let next = c.on_output(&ok(ages)).unwrap();
    assert_eq!(command(&[next]), "kill -9 9");
    let next = c.on_output(&ok("")).unwrap();
    assert_eq!(command(&[next]), "pgrep -f buildkit");
    let next = c.on_output(&ok("12\n13\n")).unwrap();
    assert_eq!(command(&[next]), "ps -o ppid= -p 12");
    let next = c.on_output(&ok(" 5\n")).unwrap();
    assert_eq!(command(&[next]), "ps -o ppid= -p 13");
    let next = c.on_output(&ok(" 1\n")).unwrap();
    assert_eq!(command(&[next]), "kill -9 13");
    assert!(c.on_output(&ok("")).is_none());
    assert_eq!((c.zombies, c.hung), (1, 2));
}

// Blue-green deployments.

fn compose(service: Option<&str>) -> ComposeDeploy {
    ComposeDeploy::new(
        "0123456789".to_string(),
        "app".to_string(),
        "/srv/app".to_string(),
        DockerComposeConfig {
            compose_file: "compose.yml".to_string(),
            image: "reg/app:1".to_string(),
            git_repo_dir: None,
            service: service.map(|s| s.to_string()),
            health_port: None,
        },
    )
}

/// Runs the deployment up to the question how the canary is, asked at second 5.
fn canary_asked(run: &mut ComposeDeploy) -> Vec<DeployAction> {
    let acts = run.begin(&moment(1));
    assert!(log(&acts).contains(&"Canary container: deploy-canary-01234567".to_string()));
    assert_eq!(command(&acts), "docker ps -a -q --filter name=^deploy-canary");
    let acts = run.on_output(ok("stale1\n"), &moment(2));
    assert_eq!(command(&acts), "docker rm -f stale1");
    let acts = run.on_output(ok(""), &moment(2));
    assert_eq!(log(&acts)[0], "  Removed: stale1");
    assert_eq!(command(&acts), "which docker-compose");
    let acts = run.on_output(Err("not found".to_string()), &moment(3));
    assert!(log(&acts).contains(&"Using: docker [\"compose\"]".to_string()));
    assert_eq!(command(&acts), "docker pull reg/app:1");
    let acts = run.on_output(ok("pulled"), &moment(4));
    assert!(log(&acts).contains(&"[3/4] Running canary health check...".to_string()));
    assert_eq!(command(&acts), "docker ps -a -q -f name=^deploy-canary-01234567$");
    let acts = run.on_output(ok(""), &moment(4));
    assert_eq!(
        command(&acts),
        "docker compose -f /srv/app/compose.yml run -d --name deploy-canary-01234567 \
         --no-deps -p 19999:8081 web"
    );
    let acts = run.on_output(ok("id"), &moment(5));
    assert!(command(&acts).starts_with("docker inspect --format "));
    acts
}

#[test]
fn healthy_canary_lets_the_swap_happen() {
    let mut run = compose(Some("web"));
    canary_asked(&mut run);
    let acts = run.on_output(ok("running|starting|0\n"), &moment(6));
    assert!(matches!(acts.last(), Some(DeployAction::Sleep { millis: 500 })));
    let acts = run.on_wake(&moment(7));
    assert!(command(&acts).starts_with("docker inspect"));
    let acts = run.on_output(ok("running|healthy|0\n"), &moment(8));
    assert_eq!(log(&acts)[0], "✓ Canary became healthy in 3.0s");
    assert_eq!(command(&acts), "curl -sf --max-time 5 http://127.0.0.1:19999/health");
    let acts = run.on_output(ok("ok"), &moment(9));
    assert_eq!(command(&acts), "docker logs --tail 100 deploy-canary-01234567");
    let acts = run.on_output(ok("listening"), &moment(9));
    assert!(log(&acts).contains(&"✓ No fatal patterns found in logs".to_string()));
    let acts = run.on_output(ok(""), &moment(10));
    assert!(log(&acts).contains(&"✓ Canary health check passed".to_string()));
    assert_eq!(command(&acts), "docker compose -f /srv/app/compose.yml pull web");
    let acts = run.on_output(ok(""), &moment(11));
    assert_eq!(
        command(&acts),
        "docker compose -f /srv/app/compose.yml up -d --force-recreate web"
    );
    let acts = run.on_output(ok(""), &moment(12));
    assert!(log(&acts).contains(&"✓ New container is now live".to_string()));
    assert!(log(&acts).contains(&"[5/5] Post-deploy monitoring for 90 seconds...".to_string()));
}

#[test]
fn sick_canary_keeps_the_old_container() {
    let mut run = compose(Some("web"));
    canary_asked(&mut run);
    let acts = run.on_output(ok("exited|none|3\n"), &moment(6));
    let why = "Container died (status: exited, exit_code: 3)";
    assert_eq!(log(&acts)[0], format!("! ✗ Canary health wait failed: {why}"));
    assert_eq!(command(&acts), "docker logs --tail 50 deploy-canary-01234567");
    let mut acts = run.on_output(ok("boom"), &moment(6));
    for _ in 0..2 {
        if !matches!(acts.last(), Some(DeployAction::Finish { .. })) {
            acts = run.on_output(ok(""), &moment(7));
        }
    }
    let (status, code, stages) = end(&acts);
    assert_eq!((status, code), (DeployStatus::Failed, -1));
    assert_eq!(stages[2].message.as_deref(), Some(why));
    assert_eq!(
        statuses(stages),
        vec![
            StageStatus::Skipped,
            StageStatus::Success,
            StageStatus::Failed,
            StageStatus::Pending,
            StageStatus::Pending
        ]
    );
    assert!(log(&acts)
        .contains(&"! Aborting deployment - keeping old container running".to_string()));
}

#[test]
fn health_log_is_cut_by_characters() {
    let mut run = compose(Some("web"));
    canary_asked(&mut run);
    run.on_output(ok("running|unhealthy|0\n"), &moment(6));
    let text = format!("前{}", "日志".repeat(100));
    let acts = run.on_output(ok(&text), &moment(6));
    let why = format!("Container marked unhealthy: ...{}", "日志".repeat(100));
    assert_eq!(log(&acts)[0], format!("! ✗ Canary health wait failed: {why}"));
}

#[test]
fn slow_canary_is_given_up_after_a_minute() {
    let mut run = compose(Some("web"));
    canary_asked(&mut run);
    run.on_output(ok("running|starting|0\n"), &moment(65));
    let acts = run.on_wake(&moment(66));
    assert_eq!(
        log(&acts)[0],
        "! ✗ Canary health wait failed: Timeout after 60s waiting for healthy status"
    );
}

#[test]
fn failed_image_pull_ends_the_deployment() {
    let mut run = compose(None);
    run.begin(&moment(1));
    run.on_output(ok(""), &moment(2));
    run.on_output(ok("1.29"), &moment(2));
    let acts = run.on_output(failed(1, "denied"), &moment(3));
    assert_eq!(end(&acts).1, 1);
    let mut run = compose(None);
    run.begin(&moment(1));
    run.on_output(ok(""), &moment(2));
    let acts = run.on_output(ok("1.29"), &cancelled(2));
    assert_eq!(end(&acts).1, -2);
    assert_eq!(canary_container_name("abc"), "deploy-canary-abc");
    assert_eq!(canary_container_name("0123456789"), "deploy-canary-01234567");
    assert_eq!(
        canary_container_name("部署任务编号一二三"),
        "deploy-canary-部署任务编号一二"
    );
}

#[test]
fn fatal_lines_are_found() {
    assert_eq!(find_pattern("thread 'main' panicked at x").as_deref(), Some("panic"));
    assert_eq!(find_pattern("all is well"), None);
    assert_eq!(
        check_log("started", "dial: Connection refused").unwrap(),
        "connection refused (in: dial: Connection refused)"
    );
    assert_eq!(check_log("relation exists: on conflict killed", ""), None);
    assert_eq!(check_log("fine", "fine"), None);
}

#[test]
fn container_state_is_read() {
    assert!(matches!(get_container_state(&ok("running|healthy|2|0\n")),
        ContainerState::Running { restart_count: 2, health_status } if health_status == "healthy"));
    assert!(matches!(get_container_state(&failed(1, "Error: No such object: x")),
        ContainerState::NotFound));
    assert!(matches!(get_container_state(&ok("exited|none|0|137")),
        ContainerState::Exited { exit_code: 137 }));
    assert!(matches!(get_container_state(&ok("paused")),
        ContainerState::Unknown(s) if s == "paused"));
    assert!(matches!(get_container_state(&Err("no docker".to_string())),
        ContainerState::NotFound));
}

#[test]
fn new_container_is_watched_and_does_not_fail_the_deployment() {
    let mut run = compose(Some("web"));
    canary_asked(&mut run);
    run.on_output(ok("running|healthy|0\n"), &moment(8));
    run.on_output(ok("ok"), &moment(9));
    run.on_output(ok("listening"), &moment(9));
    run.on_output(ok(""), &moment(10));
    run.on_output(ok(""), &moment(11));
    let acts = run.on_output(ok(""), &moment(12));
    assert_eq!(command(&acts), "docker compose -f /srv/app/compose.yml ps -q web");
    let acts = run.on_output(ok("c1\n"), &moment(12));
    assert_eq!(command(&acts), "docker inspect --format {{.Name}} c1");
    let acts = run.on_output(ok("/app-web-1\n"), &moment(12));
    assert_eq!(log(&acts), vec!["Monitoring container: app-web-1"]);
    let acts = run.on_output(ok("running|healthy|1|0"), &moment(13));
    assert_eq!(command(&acts), "docker logs --tail 20 app-web-1");
    let acts = run.on_output(ok("thread panicked"), &moment(13));
    assert_eq!(
        log(&acts),
        vec!["! ⚠ Fatal pattern detected in logs: panic", "! [POST-DEPLOY ISSUE] Fatal error: panic"]
    );
    assert!(acts.iter().any(|a| matches!(a, DeployAction::Report { text }
        if text == "[POST-DEPLOY ALERT] Fatal error: panic (restarts: 1)")));
    assert!(matches!(acts.last(), Some(DeployAction::Sleep { millis: 5000 })));
    run.on_wake(&moment(18));
    let acts = run.on_output(ok("running|healthy|3|0"), &moment(18));
    let why = "Container in crash loop: 2 restarts since deployment";
    assert!(log(&acts).contains(&format!("! ✗ Post-deploy monitoring detected issue: {why}")));
    assert_eq!(command(&acts), "docker compose -f /srv/app/compose.yml ps");
    run.on_output(ok("web up"), &moment(19));
    let acts = run.on_output(ok("last line"), &moment(19));
    let (status, code, stages) = end(&acts);
    assert_eq!((status, code), (DeployStatus::Success, 0));
    assert_eq!(stages[4].message.as_deref(), Some(why));
}

#[test]
fn stable_container_is_watched_for_ninety_seconds() {
    let mut run = compose(Some("web"));
    canary_asked(&mut run);
    run.on_output(ok("running|healthy|0\n"), &moment(8));
    run.on_output(ok("ok"), &moment(9));
    run.on_output(ok("listening"), &moment(9));
    run.on_output(ok(""), &moment(10));
    run.on_output(ok(""), &moment(11));
    run.on_output(ok(""), &moment(100));
    run.on_output(failed(1, ""), &moment(100));
    for t in 0..18 {
        let secs = 100 + 5 * t;
        run.on_output(ok("running|none|0|0"), &moment(secs));
        let acts = run.on_output(ok("fine"), &moment(secs));
        let tells = log(&acts).contains(&format!("... monitoring: {}s / 90s", secs - 100));
        assert_eq!(tells, secs == 130 || secs == 160);
        let acts = run.on_wake(&moment(secs + 5));
        let over = log(&acts)
            .contains(&"✓ Post-deploy monitoring passed - container is stable".to_string());
        assert_eq!(over, t == 17);
    }
}

// Video tasks.

fn video(task: &str, input: Option<&str>) -> XiaojincutDeploy {
    XiaojincutDeploy::new(XiaojincutConfig {
        task_type: task.to_string(),
        input_path: input.map(|s| s.to_string()),
        output_dir: Some("/out".to_string()),
        prompt: None,
        port: None,
    })
}

fn answered(status: u16, text: &str, body: &str) -> HttpReply {
    HttpReply::Answered {
        status,
        status_text: text.to_string(),
        body: body.to_string(),
    }
}

fn request(acts: &[DeployAction]) -> (String, u64, bool, Option<Vec<(String, String)>>) {
    match acts.last() {
        Some(DeployAction::Request { url, body, timeout_secs, cancellable }) => {
            (url.clone(), *timeout_secs, *cancellable, body.clone())
        }
        _ => panic!("a request is to be made"),
    }
}

#[test]
fn video_task_shows_its_answer() {
    let mut run = video("export", None);
    let acts = run.begin();
    assert_eq!(
        request(&acts),
        ("http://localhost:19527/api/health".to_string(), 5, true, None)
    );
    assert!(log(&acts).contains(&"Output Dir: /out".to_string()));
    let acts = run.on_reply(answered(200, "200 OK", ""));
    assert_eq!(
        request(&acts),
        (
            "http://localhost:19527/api/export".to_string(),
            300,
            false,
            Some(vec![("output_dir".to_string(), "/out".to_string())])
        )
    );
    let acts = run.on_reply(answered(200, "200 OK", r#"{"b":1,"a":"x"}"#));
    let lines = log(&acts);
    assert_eq!(lines[1], "✅ Task completed successfully");
    assert_eq!(&lines[2..6], ["{", "  \"a\": \"x\",", "  \"b\": 1", "}"]);
    assert_eq!(end(&acts).1, 0);
}

#[test]
fn video_task_fails_with_its_service() {
    let mut run = video("status", None);
    run.begin();
    let acts = run.on_reply(answered(503, "503 Service Unavailable", ""));
    assert_eq!(
        log(&acts),
        vec!["! ❌ xiaojincut health check failed: HTTP 503 Service Unavailable"]
    );
    assert_eq!(end(&acts).1, 1);

    let mut run = video("status", None);
    run.begin();
    let acts = run.on_reply(HttpReply::Failed("refused".to_string()));
    assert_eq!(log(&acts)[0], "! ❌ xiaojincut service not reachable: refused");

    let mut run = video("status", None);
    run.begin();
    let acts = run.on_reply(HttpReply::Cancelled);
    assert_eq!(log(&acts), vec!["! Task cancelled"]);
    assert_eq!(end(&acts).1, -1);

    let mut run = video("import", None);
    run.begin();
    let acts = run.on_reply(answered(200, "200 OK", ""));
    assert_eq!(log(&acts)[1], "! ❌ Missing input_path for import task");

    let mut run = video("dance", None);
    run.begin();
    let acts = run.on_reply(answered(200, "200 OK", ""));
    assert_eq!(log(&acts)[1], "! ❌ Unknown task type: dance");

    let mut run = video("import", Some("/in.mp4"));
    run.begin();
    run.on_reply(answered(200, "200 OK", ""));
    let acts = run.on_reply(answered(500, "500 Internal Server Error", "boom"));
    assert_eq!(
        log(&acts),
        vec!["! ❌ Task failed: HTTP 500 Internal Server Error", "! boom"]
    );
    assert_eq!(end(&acts).1, 1);
}
