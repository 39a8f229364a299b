//! The configuration that the environment gives.

use vstd::prelude::*;

use crate::config::autoupdate;
use crate::config::autoupdate::AutoUpdateConfig;
use crate::config::environment::Environment;
use crate::domain::ssh::SshConfig;
use crate::domain::tunnel;
use crate::domain::tunnel::{clone_mappings, PortMapping, TunnelMode};
use crate::text::case;
use crate::text::chars;

verus! {

/// Time limit of a deployment, in seconds.
pub const DEPLOY_TIMEOUT_SECS: u64 = 1800;

/// Seconds between heartbeats.
pub const HEARTBEAT_INTERVAL_SECS: u64 = 15;

/// Number of finished tasks that are kept.
pub const MAX_TASK_HISTORY: usize = 100;

/// Number of active tasks.
pub const MAX_ACTIVE_TASKS: usize = 50;

/// Length of the queue of one project.
pub const MAX_QUEUE_SIZE: usize = 10;

/// Seconds after which a queued task is given up.
pub const QUEUE_TIMEOUT_SECS: u64 = 600;

/// Port that the agent listens on where none is configured.
pub const DEFAULT_PORT: u16 = 9877;

/// The configuration of the agent.
#[derive(Debug)]
pub struct EnvConfig {
    pub api_key: String,
    /// Where the deploy center is told of deployments.
    pub callback_url: Option<String>,
    pub port: u16,
    pub tunnel: TunnelConfig,
    pub nfa: NfaConfig,
    pub frp: FrpConfig,
    pub auto_update: Option<AutoUpdateConfig>,
    pub ssh: SshConfig,
}

/// The configuration of the tunnel.
#[derive(Debug)]
pub struct TunnelConfig {
    pub mode: TunnelMode,
    /// Name of this client, by default that of the host.
    pub client_id: String,
    pub auth_token: String,
    pub server_url: String,
    pub port_mappings: Vec<PortMapping>,
}

/// The configuration of the alignment service.
#[derive(Debug)]
pub struct NfaConfig {
    pub enabled: bool,
    pub auto_start: bool,
    pub python_path: String,
    pub script_path: String,
    pub port: u16,
    pub max_concurrent: usize,
    pub poll_interval_ms: u64,
    pub job_timeout_secs: u64,
    pub restart_backoff_ms: u64,
}

/// The configuration of the managed frp client.
#[derive(Debug)]
pub struct FrpConfig {
    pub enabled: bool,
    pub frpc_path: String,
    pub server_addr: String,
    pub server_port: u16,
    pub token: Option<String>,
    pub admin_addr: String,
    pub admin_port: u16,
    pub admin_user: Option<String>,
    pub admin_pwd: Option<String>,
}

impl Clone for TunnelConfig {
    fn clone(&self) -> (r: TunnelConfig)
        ensures
            r.mode == self.mode,
            r.client_id == self.client_id,
            r.auth_token == self.auth_token,
            r.server_url == self.server_url,
            r.port_mappings@ == self.port_mappings@,
    {
        TunnelConfig {
            mode: self.mode,
            client_id: self.client_id.clone(),
            auth_token: self.auth_token.clone(),
            server_url: self.server_url.clone(),
            port_mappings: clone_mappings(&self.port_mappings),
        }
    }
}

impl Clone for NfaConfig {
    fn clone(&self) -> (r: NfaConfig)
        ensures
            r == *self,
    {
        NfaConfig {
            enabled: self.enabled,
            auto_start: self.auto_start,
            python_path: self.python_path.clone(),
            script_path: self.script_path.clone(),
            port: self.port,
            max_concurrent: self.max_concurrent,
            poll_interval_ms: self.poll_interval_ms,
            job_timeout_secs: self.job_timeout_secs,
            restart_backoff_ms: self.restart_backoff_ms,
        }
    }
}

impl Clone for FrpConfig {
    fn clone(&self) -> (r: FrpConfig)
        ensures
            r == *self,
    {
        FrpConfig {
            enabled: self.enabled,
            frpc_path: self.frpc_path.clone(),
            server_addr: self.server_addr.clone(),
            server_port: self.server_port,
            token: self.token.clone(),
            admin_addr: self.admin_addr.clone(),
            admin_port: self.admin_port,
            admin_user: self.admin_user.clone(),
            admin_pwd: self.admin_pwd.clone(),
        }
    }
}

impl TunnelConfig {
    /// This is the tunnel configuration that the environment gives.
    pub open spec fn is_from(self, env: &Environment) -> bool {
        &&& self.mode == match env.value("TUNNEL_MODE"@) {
            Some(s) => TunnelMode::named(case::lowercase_of(s)),
            None => TunnelMode::Disabled,
        }
        &&& self.client_id@ == env.text_or("TUNNEL_CLIENT_ID"@, env.host())
        &&& self.auth_token@ == env.text_or("TUNNEL_AUTH_TOKEN"@, "change-tunnel-token"@)
        &&& self.server_url@ == env.text_or(
            "TUNNEL_SERVER_URL"@,
            "ws://localhost:9878/tunnel/ws"@,
        )
        &&& tunnel::mapping_views(self.port_mappings@) == match env.value("TUNNEL_MAPPINGS"@) {
            Some(s) => tunnel::mappings_of(s),
            None => Seq::empty(),
        }
    }

    /// Reads the tunnel configuration.
    pub fn from_env(env: &Environment) -> (r: TunnelConfig)
        ensures
            r.is_from(env),
    {
        let mode = match env.var("TUNNEL_MODE") {
            Some(s) => TunnelMode::from_str(s.as_str()),
            None => TunnelMode::Disabled,
        };
        let client_id = match env.var("TUNNEL_CLIENT_ID") {
            Some(s) => s,
            None => env.host_name(),
        };
        let port_mappings = match env.var("TUNNEL_MAPPINGS") {
            Some(s) => PortMapping::parse_mappings(s.as_str()),
            None => Vec::new(),
        };
        let r = TunnelConfig {
            mode,
            client_id,
            auth_token: env.get_text("TUNNEL_AUTH_TOKEN", "change-tunnel-token"),
            server_url: env.get_text("TUNNEL_SERVER_URL", "ws://localhost:9878/tunnel/ws"),
            port_mappings,
        };
        proof {
            if env.value("TUNNEL_MAPPINGS"@) is None {
                assert(tunnel::mapping_views(r.port_mappings@) =~= Seq::empty());
            }
        }
        r
    }
}

impl NfaConfig {
    /// This is the service configuration that the environment gives.
    pub open spec fn is_from(self, env: &Environment) -> bool {
        &&& self.enabled == env.switch("NFA_ENABLED"@, false)
        &&& self.auto_start == env.switch("NFA_AUTO_START"@, true)
        &&& self.python_path@ == env.text_or("NFA_PYTHON_PATH"@, "python"@)
        &&& self.script_path@ == env.text_or(
            "NFA_SCRIPT_PATH"@,
            "C:\\alignment-service\\nfa_service.py"@,
        )
        &&& self.port == env.number_or("NFA_PORT"@, u16::MAX as int, 9528)
        &&& self.max_concurrent == env.number_or("NFA_MAX_CONCURRENT"@, usize::MAX as int, 1)
        &&& self.poll_interval_ms == env.number_or("NFA_POLL_INTERVAL_MS"@, u64::MAX as int, 800)
        &&& self.job_timeout_secs == env.number_or("NFA_JOB_TIMEOUT_SECS"@, u64::MAX as int, 300)
        &&& self.restart_backoff_ms == env.number_or(
            "NFA_RESTART_BACKOFF_MS"@,
            u64::MAX as int,
            1500,
        )
    }

    /// Reads the configuration of the alignment service.
    pub fn from_env(env: &Environment) -> (r: NfaConfig)
        ensures
            r.is_from(env),
    {
        NfaConfig {
            enabled: env.get_switch("NFA_ENABLED", false),
            auto_start: env.get_switch("NFA_AUTO_START", true),
            python_path: env.get_text("NFA_PYTHON_PATH", "python"),
            script_path: env.get_text("NFA_SCRIPT_PATH", "C:\\alignment-service\\nfa_service.py"),
            port: env.get_u16("NFA_PORT", 9528),
            max_concurrent: env.get_usize("NFA_MAX_CONCURRENT", 1),
            poll_interval_ms: env.get_u64("NFA_POLL_INTERVAL_MS", 800),
            job_timeout_secs: env.get_u64("NFA_JOB_TIMEOUT_SECS", 300),
            restart_backoff_ms: env.get_u64("NFA_RESTART_BACKOFF_MS", 1500),
        }
    }
}

impl FrpConfig {
    /// This is the frp configuration that the environment gives.
    pub open spec fn is_from(self, env: &Environment) -> bool {
        &&& self.enabled == env.switch("FRP_ENABLED"@, false)
        &&& self.frpc_path@ == env.text_or("FRPC_PATH"@, "frpc"@)
        &&& self.server_addr@ == env.text_or("FRP_SERVER_ADDR"@, "127.0.0.1"@)
        &&& self.server_port == env.number_or("FRP_SERVER_PORT"@, u16::MAX as int, 7000)
        &&& chars::opt_view(self.token) == env.nonempty("FRP_TOKEN"@)
        &&& self.admin_addr@ == env.text_or("FRP_ADMIN_ADDR"@, "127.0.0.1"@)
        &&& self.admin_port == env.number_or("FRP_ADMIN_PORT"@, u16::MAX as int, 7400)
        &&& chars::opt_view(self.admin_user) == env.nonempty("FRP_ADMIN_USER"@)
        &&& chars::opt_view(self.admin_pwd) == env.nonempty("FRP_ADMIN_PWD"@)
    }

    /// Reads the configuration of the frp client.
    pub fn from_env(env: &Environment) -> (r: FrpConfig)
        ensures
            r.is_from(env),
    {
        FrpConfig {
            enabled: env.get_switch("FRP_ENABLED", false),
            frpc_path: env.get_text("FRPC_PATH", "frpc"),
            server_addr: env.get_text("FRP_SERVER_ADDR", "127.0.0.1"),
            server_port: env.get_u16("FRP_SERVER_PORT", 7000),
            token: env.get_nonempty("FRP_TOKEN"),
            admin_addr: env.get_text("FRP_ADMIN_ADDR", "127.0.0.1"),
            admin_port: env.get_u16("FRP_ADMIN_PORT", 7400),
            admin_user: env.get_nonempty("FRP_ADMIN_USER"),
            admin_pwd: env.get_nonempty("FRP_ADMIN_PWD"),
        }
    }
}

/// Where the deploy center is told of deployments: `DEPLOY_CENTER_URL`, or
/// one of the older names.
pub open spec fn callback_url_spec(env: &Environment) -> Option<Seq<char>> {
    match env.value("DEPLOY_CENTER_URL"@) {
        Some(s) => Some(s),
        None => env.either("DEPLOY_CENTER_CALLBACK_URL"@, "CALLBACK_URL"@),
    }
}

/// The API key that the environment gives.
pub open spec fn api_key_spec(env: &Environment) -> Seq<char> {
    match env.either("DEPLOY_AGENT_API_KEY"@, "API_KEY"@) {
        Some(s) => s,
        None => "change-me-in-production"@,
    }
}

impl EnvConfig {
    /// This is the configuration that the environment gives.
    pub open spec fn is_from(self, env: &Environment) -> bool {
        &&& self.api_key@ == api_key_spec(env)
        &&& chars::opt_view(self.callback_url) == callback_url_spec(env)
        &&& self.port == env.number_or("PORT"@, u16::MAX as int, DEFAULT_PORT as int)
        &&& self.tunnel.is_from(env)
        &&& self.nfa.is_from(env)
        &&& self.frp.is_from(env)
        &&& autoupdate::config_view(self.auto_update) == autoupdate::config_from(env)
        &&& self.ssh.is_from(env)
    }

    /// Reads the configuration of the agent.
    pub fn from_env(env: &Environment) -> (r: EnvConfig)
        ensures
            r.is_from(env),
    {
        let api_key = match env.load_with_fallback("DEPLOY_AGENT_API_KEY", "API_KEY") {
            Some(s) => s,
            None => "change-me-in-production".to_owned(),
        };
        let callback_url = match env.var("DEPLOY_CENTER_URL") {
            Some(s) => Some(s),
            None => env.load_with_fallback("DEPLOY_CENTER_CALLBACK_URL", "CALLBACK_URL"),
        };
        EnvConfig {
            api_key,
            callback_url,
            port: env.get_u16("PORT", DEFAULT_PORT),
            tunnel: TunnelConfig::from_env(env),
            nfa: NfaConfig::from_env(env),
            frp: FrpConfig::from_env(env),
            auto_update: AutoUpdateConfig::from_env(env),
            ssh: SshConfig::from_env(env),
        }
    }

    /// Whether one of the deprecated variables is set.
    pub fn has_deprecated_variables(env: &Environment) -> (r: bool)
        ensures
            r == (env.value("API_KEY"@) is Some || env.value("CALLBACK_URL"@) is Some),
    {
        env.var("API_KEY").is_some() || env.var("CALLBACK_URL").is_some()
    }
}

} // verus!
