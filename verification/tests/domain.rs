//! Deployments, SQL, secrets, the tunnel and errors.

use xjp_deploy_agent::domain::container::EnvVar;
use xjp_deploy_agent::domain::database::{is_dangerous_sql, validate_sql};
use xjp_deploy_agent::domain::deploy::{DeployStage, DeployStatus, LogLine, StageStatus};
use xjp_deploy_agent::domain::tunnel::{PortMapping, TunnelMode};
use xjp_deploy_agent::error::ErrorResponse;

#[test]
fn test_is_sensitive_key() {
    assert!(EnvVar::is_sensitive_key("DATABASE_PASSWORD"));
    assert!(EnvVar::is_sensitive_key("api_key"));
    assert!(EnvVar::is_sensitive_key("SECRET_TOKEN"));
    assert!(!EnvVar::is_sensitive_key("DEBUG"));
    assert!(!EnvVar::is_sensitive_key("PORT"));
}

#[test]
fn test_is_dangerous_sql() {
    assert!(is_dangerous_sql("DELETE FROM users"));
    assert!(is_dangerous_sql("TRUNCATE TABLE users"));
    assert!(is_dangerous_sql("DROP TABLE users"));
    assert!(!is_dangerous_sql("SELECT * FROM users"));
    assert!(!is_dangerous_sql("INSERT INTO users VALUES (1)"));
}

#[test]
fn test_validate_sql() {
    let result = validate_sql("SELECT * FROM users", true);
    assert!(result.valid);
    assert!(!result.is_dangerous);

    let result = validate_sql("DELETE FROM users", true);
    assert!(result.valid);
    assert!(result.is_dangerous);

    let result = validate_sql("", true);
    assert!(!result.valid);
}

#[test]
fn test_deploy_status_as_str() {
    assert_eq!(DeployStatus::Running.as_str(), "running");
    assert_eq!(DeployStatus::Success.as_str(), "success");
    assert_eq!(DeployStatus::Failed.as_str(), "failed");
}

#[test]
fn test_deploy_status_is_terminal() {
    assert!(!DeployStatus::Running.is_terminal());
    assert!(DeployStatus::Success.is_terminal());
    assert!(DeployStatus::Failed.is_terminal());
}

#[test]
fn test_deploy_stage_lifecycle() {
    let mut stage = DeployStage::new("test", "Test Stage");
    assert_eq!(stage.status, StageStatus::Pending);

    stage.start();
    assert_eq!(stage.status, StageStatus::Running);
    assert!(stage.started_at.is_some());

    stage.finish(true, Some("Done".to_string()));
    assert_eq!(stage.status, StageStatus::Success);
    assert!(stage.finished_at.is_some());
    assert!(stage.duration_ms.is_some());
}

#[test]
fn test_log_line_creation() {
    let line = LogLine::stdout("Hello");
    assert_eq!(line.stream, "stdout");
    assert_eq!(line.content, "Hello");

    let line = LogLine::stderr("Error");
    assert_eq!(line.stream, "stderr");
    assert_eq!(line.content, "Error");
}

#[test]
fn test_tunnel_mode_from_str() {
    assert_eq!(TunnelMode::from_str("server"), TunnelMode::Server);
    assert_eq!(TunnelMode::from_str("SERVER"), TunnelMode::Server);
    assert_eq!(TunnelMode::from_str("client"), TunnelMode::Client);
    assert_eq!(TunnelMode::from_str("disabled"), TunnelMode::Disabled);
    assert_eq!(TunnelMode::from_str("unknown"), TunnelMode::Disabled);
}

#[test]
fn test_port_mapping_parse() {
    let mappings =
        PortMapping::parse_mappings("minio:19000:localhost:9000,postgres:15432:localhost:5432");
    assert_eq!(mappings.len(), 2);
    assert_eq!(mappings[0].name, "minio");
    assert_eq!(mappings[0].remote_port, 19000);
    assert_eq!(mappings[0].local_port, 9000);
    assert_eq!(mappings[1].name, "postgres");
}

#[test]
fn test_port_mapping_parse_empty() {
    let mappings = PortMapping::parse_mappings("");
    assert!(mappings.is_empty());
}

#[test]
fn test_error_response_new() {
    let resp = ErrorResponse::new("test_error", "Test message");
    assert_eq!(resp.error, "test_error");
    assert_eq!(resp.message, "Test message");
    assert!(resp.details.is_none());
}

#[test]
fn test_error_response_with_details() {
    let resp = ErrorResponse::new("test_error", "Test message").with_details("Extra info");
    assert_eq!(resp.details, Some("Extra info".to_string()));
}
