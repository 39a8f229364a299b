//! The SSH server.

use vstd::prelude::*;

use crate::config::environment::Environment;
use crate::text::case;
use crate::text::case::to_lowercase;
use crate::text::chars;
use crate::text::chars::str_eq;
use crate::time::Timestamp;

verus! {

/// How a client proves who it is.
#[derive(Clone, Copy, Debug, PartialEq, Eq, Structural)]
pub enum SshAuthMode {
    /// The API key as the password.
    ApiKey,
    /// A public key.
    PublicKey,
    /// Either of them.
    Both,
}

impl Default for SshAuthMode {
    fn default() -> (r: SshAuthMode)
        ensures
            r is ApiKey,
    {
        SshAuthMode::ApiKey
    }
}

impl SshAuthMode {
    /// The mode that the lower-case name `s` stands for.
    pub open spec fn named(s: Seq<char>) -> SshAuthMode {
        if s == "pubkey"@ || s == "publickey"@ || s == "public_key"@ {
            SshAuthMode::PublicKey
        } else if s == "both"@ {
            SshAuthMode::Both
        } else {
            SshAuthMode::ApiKey
        }
    }

    /// The mode that the lower-case name `s` stands for.
    pub fn from_lowercase(s: &str) -> (r: SshAuthMode)
        ensures
            r == SshAuthMode::named(s@),
    {
        if str_eq(s, "pubkey") || str_eq(s, "publickey") || str_eq(s, "public_key") {
            SshAuthMode::PublicKey
        } else if str_eq(s, "both") {
            SshAuthMode::Both
        } else {
            SshAuthMode::ApiKey
        }
    }

    /// The mode that `s` names, in any case of letters.
    pub fn from_str(s: &str) -> (r: SshAuthMode)
        ensures
            r == SshAuthMode::named(case::lowercase_of(s@)),
    {
        SshAuthMode::from_lowercase(to_lowercase(s).as_str())
    }
}

/// The configuration of the SSH server.
#[derive(Debug)]
pub struct SshConfig {
    pub enabled: bool,
    pub port: u16,
    pub username: String,
    pub auth_mode: SshAuthMode,
    pub authorized_keys_file: Option<String>,
    pub host_key_file: Option<String>,
    pub session_timeout_secs: u64,
    pub idle_timeout_secs: u64,
    pub max_sessions: usize,
}

impl Clone for SshConfig {
    fn clone(&self) -> (r: SshConfig)
        ensures
            r == *self,
    {
        SshConfig {
            enabled: self.enabled,
            port: self.port,
            username: self.username.clone(),
            auth_mode: self.auth_mode,
            authorized_keys_file: self.authorized_keys_file.clone(),
            host_key_file: self.host_key_file.clone(),
            session_timeout_secs: self.session_timeout_secs,
            idle_timeout_secs: self.idle_timeout_secs,
            max_sessions: self.max_sessions,
        }
    }
}

impl Default for SshConfig {
    fn default() -> (r: SshConfig)
        ensures
            !r.enabled,
            r.port == 2222,
            r.username@ == "deploy"@,
            r.auth_mode is ApiKey,
            r.authorized_keys_file is None,
            r.host_key_file is None,
            r.session_timeout_secs == 3600,
            r.idle_timeout_secs == 300,
            r.max_sessions == 10,
    {
        SshConfig {
            enabled: false,
            port: 2222,
            username: "deploy".to_owned(),
            auth_mode: SshAuthMode::ApiKey,
            authorized_keys_file: None,
            host_key_file: None,
            session_timeout_secs: 3600,
            idle_timeout_secs: 300,
            max_sessions: 10,
        }
    }
}

impl SshConfig {
    /// This is the configuration that the environment gives.
    pub open spec fn is_from(self, env: &Environment) -> bool {
        &&& self.enabled == env.switch("SSH_ENABLED"@, false)
        &&& self.port == env.number_or("SSH_PORT"@, u16::MAX as int, 2222)
        &&& self.username@ == env.text_or("SSH_USERNAME"@, "deploy"@)
        &&& self.auth_mode == match env.value("SSH_AUTH_MODE"@) {
            Some(s) => SshAuthMode::named(case::lowercase_of(s)),
            None => SshAuthMode::ApiKey,
        }
        &&& chars::opt_view(self.authorized_keys_file) == env.nonempty(
            "SSH_AUTHORIZED_KEYS_FILE"@,
        )
        &&& chars::opt_view(self.host_key_file) == env.nonempty("SSH_HOST_KEY_FILE"@)
        &&& self.session_timeout_secs == env.number_or(
            "SSH_SESSION_TIMEOUT_SECS"@,
            u64::MAX as int,
            3600,
        )
        &&& self.idle_timeout_secs == env.number_or("SSH_IDLE_TIMEOUT_SECS"@, u64::MAX as int, 300)
        &&& self.max_sessions == env.number_or("SSH_MAX_SESSIONS"@, usize::MAX as int, 10)
    }

    /// Reads the configuration of the SSH server.
    pub fn from_env(env: &Environment) -> (r: SshConfig)
        ensures
            r.is_from(env),
    {
        let auth_mode = match env.var("SSH_AUTH_MODE") {
            Some(s) => SshAuthMode::from_str(s.as_str()),
            None => SshAuthMode::ApiKey,
        };
        SshConfig {
            enabled: env.get_switch("SSH_ENABLED", false),
            port: env.get_u16("SSH_PORT", 2222),
            username: env.get_text("SSH_USERNAME", "deploy"),
            auth_mode,
            authorized_keys_file: env.get_nonempty("SSH_AUTHORIZED_KEYS_FILE"),
            host_key_file: env.get_nonempty("SSH_HOST_KEY_FILE"),
            session_timeout_secs: env.get_u64("SSH_SESSION_TIMEOUT_SECS", 3600),
            idle_timeout_secs: env.get_u64("SSH_IDLE_TIMEOUT_SECS", 300),
            max_sessions: env.get_usize("SSH_MAX_SESSIONS", 10),
        }
    }
}

/// One session of the SSH server.
#[derive(Debug)]
pub struct SshSessionInfo {
    pub session_id: String,
    pub username: String,
    pub client_addr: String,
    pub connected_at: Timestamp,
    pub last_activity: Timestamp,
}

/// The state of the SSH server.
#[derive(Debug)]
pub struct SshServerStatus {
    pub enabled: bool,
    pub listening: bool,
    pub port: u16,
    pub active_sessions: usize,
    pub max_sessions: usize,
    pub sessions: Vec<SshSessionInfo>,
}

/// What the health report says of the SSH server.
#[derive(Clone, Debug)]
pub struct SshHealthInfo {
    pub enabled: bool,
    pub port: u16,
    pub active_sessions: usize,
}

} // verus!
