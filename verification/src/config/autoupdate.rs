//! Automatic updates: configuration and state.

use vstd::prelude::*;

use crate::config::environment::Environment;
use crate::text::chars;
use crate::text::chars::concat3;
use crate::text::edit;
use crate::text::edit::replace_all;
use crate::text::number;
use crate::text::number::parse_u64;
use crate::time::Timestamp;

verus! {

/// What the release server says of the latest version.
#[derive(Debug)]
pub struct UpdateMetadata {
    pub version: String,
    pub released_at: String,
    pub changelog: Option<String>,
    pub sha256: Option<String>,
}

impl Clone for UpdateMetadata {
    fn clone(&self) -> (r: UpdateMetadata)
        ensures
            r == *self,
    {
        UpdateMetadata {
            version: self.version.clone(),
            released_at: self.released_at.clone(),
            changelog: self.changelog.clone(),
            sha256: self.sha256.clone(),
        }
    }
}

/// Where updates come from, and how often to look.
#[derive(Debug)]
pub struct AutoUpdateConfig {
    pub enabled: bool,
    /// Storage endpoint.
    pub endpoint: String,
    /// Path of the metadata below the endpoint.
    pub metadata_path: String,
    /// Path of a binary below the endpoint, with "{version}" for the version.
    pub binary_path_template: String,
    /// Seconds between two checks.
    pub check_interval_secs: u64,
}

/// The contents of an `AutoUpdateConfig`.
pub ghost struct AutoUpdateConfigView {
    pub enabled: bool,
    pub endpoint: Seq<char>,
    pub metadata_path: Seq<char>,
    pub binary_path_template: Seq<char>,
    pub check_interval_secs: u64,
}

impl View for AutoUpdateConfig {
    type V = AutoUpdateConfigView;

    open spec fn view(&self) -> AutoUpdateConfigView {
        AutoUpdateConfigView {
            enabled: self.enabled,
            endpoint: self.endpoint@,
            metadata_path: self.metadata_path@,
            binary_path_template: self.binary_path_template@,
            check_interval_secs: self.check_interval_secs,
        }
    }
}

impl Clone for AutoUpdateConfig {
    fn clone(&self) -> (r: AutoUpdateConfig)
        ensures
            r == *self,
    {
        AutoUpdateConfig {
            enabled: self.enabled,
            endpoint: self.endpoint.clone(),
            metadata_path: self.metadata_path.clone(),
            binary_path_template: self.binary_path_template.clone(),
            check_interval_secs: self.check_interval_secs,
        }
    }
}

/// The contents of an optional configuration.
pub open spec fn config_view(c: Option<AutoUpdateConfig>) -> Option<AutoUpdateConfigView> {
    match c {
        Some(c) => Some(c@),
        None => None,
    }
}

/// The seconds between two checks that the environment gives.
pub open spec fn interval_from(env: &Environment) -> u64 {
    match env.either("AUTO_UPDATE_INTERVAL"@, "UPDATE_CHECK_INTERVAL_SECS"@) {
        Some(s) => match number::parse_spec(s, u64::MAX as int) {
            Some(n) => n as u64,
            None => 3600,
        },
        None => 3600,
    }
}

/// Where the metadata lies below `AUTO_UPDATE_ENDPOINT`, unless a variable
/// says otherwise.
pub const DEFAULT_METADATA_PATH: &'static str = "latest.json";

/// Where the binary of a version lies below `AUTO_UPDATE_ENDPOINT`, unless a
/// variable says otherwise.
pub const DEFAULT_BINARY_PATH_TEMPLATE: &'static str =
    "xjp-deploy-agent-{version}-linux-musl-amd64";

/// Updates are on: the switch says so, or it says nothing and
/// `AUTO_UPDATE_ENDPOINT` is set.
pub open spec fn switched_on(env: &Environment) -> bool {
    match env.value("AUTO_UPDATE_ENABLED"@) {
        Some(_) => env.exact_switch("AUTO_UPDATE_ENABLED"@),
        None => env.value("AUTO_UPDATE_ENDPOINT"@) is Some,
    }
}

/// A path that a variable sets. Below `AUTO_UPDATE_ENDPOINT` it has a default.
pub open spec fn path_from(env: &Environment, name: Seq<char>, default: Seq<char>) -> Option<
    Seq<char>,
> {
    match env.value(name) {
        Some(path) => Some(path),
        None => if env.value("AUTO_UPDATE_ENDPOINT"@) is Some {
            Some(default)
        } else {
            None
        },
    }
}

/// The configuration that the environment gives: none unless updates are on
/// and the endpoint and both paths are known.
pub open spec fn config_from(env: &Environment) -> Option<AutoUpdateConfigView> {
    if !switched_on(env) {
        None
    } else {
        match (
            env.either("AUTO_UPDATE_ENDPOINT"@, "UPDATE_ENDPOINT"@),
            path_from(env, "UPDATE_METADATA_PATH"@, DEFAULT_METADATA_PATH@),
            path_from(env, "UPDATE_BINARY_PATH_TEMPLATE"@, DEFAULT_BINARY_PATH_TEMPLATE@),
        ) {
            (Some(endpoint), Some(metadata_path), Some(binary_path_template)) => Some(
                AutoUpdateConfigView {
                    enabled: true,
                    endpoint,
                    metadata_path,
                    binary_path_template,
                    check_interval_secs: interval_from(env),
                },
            ),
            _ => None,
        }
    }
}

/// Reads a path; where no variable sets it, it is the default below
/// `AUTO_UPDATE_ENDPOINT`.
fn read_path(env: &Environment, name: &str, default: &str, below_endpoint: bool) -> (r: Option<
    String,
>)
    requires
        below_endpoint == (env.value("AUTO_UPDATE_ENDPOINT"@) is Some),
    ensures
        chars::opt_view(r) == path_from(env, name@, default@),
{
    match env.var(name) {
        Some(path) => Some(path),
        None => if below_endpoint {
            Some(default.to_owned())
        } else {
            None
        },
    }
}

impl AutoUpdateConfig {
    /// Reads the configuration.
    pub fn from_env(env: &Environment) -> (r: Option<AutoUpdateConfig>)
        ensures
            config_view(r) == config_from(env),
    {
        let below_endpoint = env.var("AUTO_UPDATE_ENDPOINT").is_some();
        let on = if env.var("AUTO_UPDATE_ENABLED").is_some() {
            env.get_exact_switch("AUTO_UPDATE_ENABLED")
        } else {
            below_endpoint
        };
        if !on {
            return None;
        }
        let endpoint = env.load_with_fallback("AUTO_UPDATE_ENDPOINT", "UPDATE_ENDPOINT");
        let metadata_path = read_path(
            env,
            "UPDATE_METADATA_PATH",
            DEFAULT_METADATA_PATH,
            below_endpoint,
        );
        let binary_path_template = read_path(
            env,
            "UPDATE_BINARY_PATH_TEMPLATE",
            DEFAULT_BINARY_PATH_TEMPLATE,
            below_endpoint,
        );
        let check_interval_secs: u64 = match env.load_with_fallback(
            "AUTO_UPDATE_INTERVAL",
            "UPDATE_CHECK_INTERVAL_SECS",
        ) {
            Some(s) => match parse_u64(s.as_str()) {
                Some(n) => n,
                None => 3600,
            },
            None => 3600,
        };
        match (endpoint, metadata_path, binary_path_template) {
            (Some(endpoint), Some(metadata_path), Some(binary_path_template)) => Some(
                AutoUpdateConfig {
                    enabled: true,
                    endpoint,
                    metadata_path,
                    binary_path_template,
                    check_interval_secs,
                },
            ),
            _ => None,
        }
    }

    /// The URL of the metadata.
    pub fn metadata_url(&self) -> (r: String)
        ensures
            r@ == self.endpoint@ + "/"@ + self.metadata_path@,
    {
        concat3(self.endpoint.as_str(), "/", self.metadata_path.as_str())
    }

    /// The URL of the binary of a version.
    pub fn binary_url(&self, version: &str) -> (r: String)
        ensures
            r@ == self.endpoint@ + "/"@ + edit::replace_from(
                self.binary_path_template@,
                "{version}"@,
                version@,
                0,
            ),
    {
        proof {
            reveal_strlit("{version}");
        }
        let path = replace_all(self.binary_path_template.as_str(), "{version}", version);
        concat3(self.endpoint.as_str(), "/", path.as_str())
    }
}

/// How far an update has come.
#[derive(Clone, Copy, Debug, PartialEq, Eq, Structural)]
pub enum UpdateProgress {
    Idle,
    Checking,
    Downloading,
    Verifying,
    HealthCheck,
    Applying,
    Deferred,
    Restarting,
}

impl UpdateProgress {
    /// The name in reports.
    pub open spec fn label(self) -> Seq<char> {
        match self {
            UpdateProgress::Idle => "none"@,
            UpdateProgress::Checking => "checking"@,
            UpdateProgress::Downloading => "downloading"@,
            UpdateProgress::Verifying => "verifying"@,
            UpdateProgress::HealthCheck => "health_check"@,
            UpdateProgress::Applying => "applying"@,
            UpdateProgress::Deferred => "deferred"@,
            UpdateProgress::Restarting => "restarting"@,
        }
    }

    /// The name in reports.
    pub fn as_str(&self) -> (r: &'static str)
        ensures
            r@ == self.label(),
    {
        match self {
            UpdateProgress::Idle => "none",
            UpdateProgress::Checking => "checking",
            UpdateProgress::Downloading => "downloading",
            UpdateProgress::Verifying => "verifying",
            UpdateProgress::HealthCheck => "health_check",
            UpdateProgress::Applying => "applying",
            UpdateProgress::Deferred => "deferred",
            UpdateProgress::Restarting => "restarting",
        }
    }
}

/// What is known of updates.
#[derive(Debug)]
pub struct AutoUpdateState {
    pub last_check: Option<Timestamp>,
    pub last_check_result: Option<String>,
    pub latest_version: Option<String>,
    pub update_available: bool,
    pub update_progress: UpdateProgress,
    pub next_check: Option<Timestamp>,
    /// The update that waits for running tasks to end.
    pub pending_update: Option<UpdateMetadata>,
    /// Whether an update is under way, which keeps new tasks out.
    pub update_in_progress: bool,
}

impl AutoUpdateState {
    /// Nothing is known yet.
    pub open spec fn initial() -> AutoUpdateState {
        AutoUpdateState {
            last_check: None,
            last_check_result: None,
            latest_version: None,
            update_available: false,
            update_progress: UpdateProgress::Idle,
            next_check: None,
            pending_update: None,
            update_in_progress: false,
        }
    }

    /// Nothing is known yet.
    pub fn new() -> (r: AutoUpdateState)
        ensures
            r == AutoUpdateState::initial(),
    {
        AutoUpdateState {
            last_check: None,
            last_check_result: None,
            latest_version: None,
            update_available: false,
            update_progress: UpdateProgress::Idle,
            next_check: None,
            pending_update: None,
            update_in_progress: false,
        }
    }

    /// Sets the update that waits.
    pub fn set_pending_update(&mut self, metadata: Option<UpdateMetadata>)
        ensures
            *final(self) == (AutoUpdateState { pending_update: metadata, ..*old(self) }),
    {
        self.pending_update = metadata;
    }

    /// The update that waits.
    pub fn get_pending_update(&self) -> (r: Option<UpdateMetadata>)
        ensures
            r == self.pending_update,
    {
        match &self.pending_update {
            Some(m) => Some(m.clone()),
            None => None,
        }
    }

    /// Whether an update waits.
    pub fn has_pending_update(&self) -> (r: bool)
        ensures
            r == (self.pending_update is Some),
    {
        self.pending_update.is_some()
    }

    /// Says whether an update is under way.
    pub fn set_update_in_progress(&mut self, in_progress: bool)
        ensures
            *final(self) == (AutoUpdateState { update_in_progress: in_progress, ..*old(self) }),
    {
        self.update_in_progress = in_progress;
    }

    /// Whether an update is under way.
    pub fn is_update_in_progress(&self) -> (r: bool)
        ensures
            r == self.update_in_progress,
    {
        self.update_in_progress
    }
}

impl Default for AutoUpdateState {
    fn default() -> (r: AutoUpdateState)
        ensures
            r == AutoUpdateState::initial(),
    {
        AutoUpdateState::new()
    }
}

/// What the health report says of updates.
#[derive(Clone, Debug)]
pub struct AutoUpdateStatus {
    pub enabled: bool,
    pub current_version: String,
    pub latest_version: Option<String>,
    pub update_available: bool,
    pub last_check: Option<String>,
    pub last_check_result: Option<String>,
    pub next_check: Option<String>,
    pub update_progress: String,
}

impl AutoUpdateStatus {
    /// The report where updates are off.
    pub fn disabled(current_version: String) -> (r: AutoUpdateStatus)
        ensures
            !r.enabled,
            r.current_version == current_version,
            r.latest_version is None,
            !r.update_available,
            r.last_check is None,
            r.last_check_result is None,
            r.next_check is None,
            r.update_progress@ == "none"@,
    {
        AutoUpdateStatus {
            enabled: false,
            current_version,
            latest_version: None,
            update_available: false,
            last_check: None,
            last_check_result: None,
            next_check: None,
            update_progress: "none".to_owned(),
        }
    }
}

} // verus!
