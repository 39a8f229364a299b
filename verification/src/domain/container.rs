//! Containers.

use vstd::prelude::*;

use crate::text::case;
use crate::text::case::to_lowercase;
use crate::text::chars;
use crate::text::search;
use crate::text::search::contains;

verus! {

/// A container.
#[derive(Clone, Debug)]
pub struct ContainerInfo {
    pub id: String,
    pub name: String,
    pub image: String,
    pub status: String,
    pub state: String,
    pub created: String,
    pub ports: Vec<String>,
}

/// The contents of a `ContainerInfo`.
pub ghost struct ContainerInfoView {
    pub id: Seq<char>,
    pub name: Seq<char>,
    pub image: Seq<char>,
    pub status: Seq<char>,
    pub state: Seq<char>,
    pub created: Seq<char>,
    pub ports: Seq<Seq<char>>,
}

impl View for ContainerInfo {
    type V = ContainerInfoView;

    open spec fn view(&self) -> ContainerInfoView {
        ContainerInfoView {
            id: self.id@,
            name: self.name@,
            image: self.image@,
            status: self.status@,
            state: self.state@,
            created: self.created@,
            ports: chars::views(self.ports@),
        }
    }
}

/// All containers.
#[derive(Debug)]
pub struct ContainersResponse {
    pub containers: Vec<ContainerInfo>,
}

/// Which lines of a container's log are wanted.
#[derive(Debug)]
pub struct ContainerLogsQuery {
    /// Number of lines from the end.
    pub tail: usize,
    pub timestamps: bool,
    /// Only lines since this time.
    pub since: Option<String>,
}

/// The number of log lines where the query names none.
pub fn default_log_lines() -> (r: usize)
    ensures
        r == 100,
{
    100
}

/// The log of a container.
#[derive(Debug)]
pub struct ContainerLogsResponse {
    pub container: String,
    pub logs: Vec<String>,
    pub total_lines: usize,
}

/// A variable of a container's environment.
#[derive(Clone, Debug)]
pub struct EnvVar {
    pub key: String,
    pub value: String,
    /// Whether the value is a secret.
    pub sensitive: bool,
}

/// The contents of an `EnvVar`.
pub ghost struct EnvVarView {
    pub key: Seq<char>,
    pub value: Seq<char>,
    pub sensitive: bool,
}

impl View for EnvVar {
    type V = EnvVarView;

    open spec fn view(&self) -> EnvVarView {
        EnvVarView { key: self.key@, value: self.value@, sensitive: self.sensitive }
    }
}

/// The lower-case name `s` holds a word that marks a secret.
pub open spec fn names_secret(s: Seq<char>) -> bool {
    ||| search::has_substring(s, "password"@)
    ||| search::has_substring(s, "secret"@)
    ||| search::has_substring(s, "key"@)
    ||| search::has_substring(s, "token"@)
    ||| search::has_substring(s, "credential"@)
    ||| search::has_substring(s, "auth"@)
    ||| search::has_substring(s, "api_key"@)
    ||| search::has_substring(s, "apikey"@)
    ||| search::has_substring(s, "private"@)
    ||| search::has_substring(s, "jwt"@)
    ||| search::has_substring(s, "pem"@)
    ||| search::has_substring(s, "cert"@)
}

impl EnvVar {
    /// A variable.
    pub fn new(key: String, value: String, sensitive: bool) -> (r: EnvVar)
        ensures
            r.key == key,
            r.value == value,
            r.sensitive == sensitive,
    {
        EnvVar { key, value, sensitive }
    }

    /// Whether the lower-case name holds a word that marks a secret.
    pub fn is_sensitive_lowercase(s: &str) -> (r: bool)
        ensures
            r == names_secret(s@),
    {
        contains(s, "password") || contains(s, "secret") || contains(s, "key") || contains(
            s,
            "token",
        ) || contains(s, "credential") || contains(s, "auth") || contains(s, "api_key")
            || contains(s, "apikey") || contains(s, "private") || contains(s, "jwt") || contains(
            s,
            "pem",
        ) || contains(s, "cert")
    }

    /// Whether the name, in any case of letters, marks a secret.
    pub fn is_sensitive_key(key: &str) -> (r: bool)
        ensures
            r == names_secret(case::lowercase_of(key@)),
    {
        EnvVar::is_sensitive_lowercase(to_lowercase(key).as_str())
    }
}

/// The environment of a container.
#[derive(Debug)]
pub struct ContainerEnvResponse {
    pub container: String,
    pub env_vars: Vec<EnvVar>,
}

} // verus!
