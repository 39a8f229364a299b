//! Sessions of the SSH server: who may come in, and what their channels run.

use vstd::prelude::*;

use crate::collections::{StrMap, Table};
use crate::domain::ssh::{SshAuthMode, SshConfig, SshHealthInfo, SshServerStatus, SshSessionInfo};
use crate::text::chars;
use crate::text::chars::{concat2, concat3, str_eq, strings};
use crate::text::number;
use crate::text::number::decimal;
use crate::time;
use crate::time::Timestamp;

verus! {

/// Where the host key of the server comes from.
#[derive(Debug)]
pub enum HostKeyPlan {
    /// It is read from this file.
    Load(String),
    /// It is made and written to this file.
    Create(String),
    /// It is made and kept nowhere.
    Ephemeral,
}

/// Where the host key comes from: from its file where that is there.
pub fn host_key_plan(config: &SshConfig, file_exists: bool) -> (r: HostKeyPlan)
    ensures
        match config.host_key_file {
            Some(f) => if file_exists {
                r == HostKeyPlan::Load(f)
            } else {
                r == HostKeyPlan::Create(f)
            },
            None => r is Ephemeral,
        },
{
    match &config.host_key_file {
        Some(f) => if file_exists {
            HostKeyPlan::Load(f.clone())
        } else {
            HostKeyPlan::Create(f.clone())
        },
        None => HostKeyPlan::Ephemeral,
    }
}

/// The sessions of the server.
pub struct SshServer {
    config: SshConfig,
    api_key: String,
    sessions: StrMap<SshSessionInfo>,
}

/// The contents of a `SshServer`.
pub ghost struct SshServerView {
    pub config: SshConfig,
    pub api_key: Seq<char>,
    /// The sessions that are open, by their names.
    pub sessions: Map<Seq<char>, SshSessionInfo>,
}

impl View for SshServer {
    type V = SshServerView;

    closed spec fn view(&self) -> SshServerView {
        SshServerView {
            config: self.config,
            api_key: self.api_key@,
            sessions: self.sessions@,
        }
    }
}

/// The answer to somebody who wants to come in.
#[derive(Clone, Copy, Debug, PartialEq, Eq, Structural)]
pub enum AuthReply {
    /// They may.
    Accept,
    /// They may not; they should try with a public key.
    UsePublicKey,
    /// They may not; they should try with a password.
    UsePassword,
    /// They may not.
    Reject,
}

/// The shell that a session runs, and how it runs a command.
#[derive(Clone, Copy, Debug, PartialEq, Eq, Structural)]
pub enum ShellKind {
    Posix,
    PowerShell,
}

/// One channel of a session.
pub struct ChannelState {
    /// Whether it stands for a terminal.
    pub pty: bool,
    env: StrMap<String>,
    /// Whether it runs a process.
    pub child: bool,
}

/// One session.
pub struct SshSessionHandler {
    session_id: String,
    client_addr: String,
    username: Option<String>,
    authenticated: bool,
    channels: Table<u32, ChannelState>,
}

/// The contents of a `ChannelState`.
pub ghost struct ChannelView {
    pub pty: bool,
    pub env: Map<Seq<char>, Seq<char>>,
    pub child: bool,
}

impl View for ChannelState {
    type V = ChannelView;

    closed spec fn view(&self) -> ChannelView {
        ChannelView {
            pty: self.pty,
            env: self.env@.map_values(|s: String| s@),
            child: self.child,
        }
    }
}

/// The contents of a `SshSessionHandler`.
pub ghost struct SessionView {
    pub id: Seq<char>,
    pub addr: Seq<char>,
    pub username: Option<Seq<char>>,
    pub authenticated: bool,
    pub channels: Map<u32, ChannelView>,
}

impl View for SshSessionHandler {
    type V = SessionView;

    closed spec fn view(&self) -> SessionView {
        SessionView {
            id: self.session_id@,
            addr: self.client_addr@,
            username: chars::opt_view(self.username),
            authenticated: self.authenticated,
            channels: self.channels@.map_values(|c: ChannelState| c@),
        }
    }
}

impl SshServer {
    /// The names of the sessions in the order in which they stand.
    pub closed spec fn session_order(&self) -> Seq<Seq<char>> {
        self.sessions.keys()
    }

    /// A server without sessions.
    pub fn new(config: SshConfig, api_key: String) -> (r: SshServer)
        ensures
            r@ == (SshServerView { config, api_key: api_key@, sessions: Map::empty() }),
    {
        SshServer { config, api_key, sessions: StrMap::new() }
    }

    /// The address that the server listens on.
    pub fn listen_addr(&self) -> (r: String)
        ensures
            r@ == "0.0.0.0:"@ + number::decimal_spec(self@.config.port as nat),
    {
        concat2("0.0.0.0:", decimal(self.config.port as u64).as_str())
    }

    /// The state for reports.
    pub fn status(&self) -> (r: SshServerStatus)
        ensures
            r.enabled == self@.config.enabled,
            r.listening,
            r.port == self@.config.port,
            r.active_sessions == self@.sessions.dom().len(),
            r.max_sessions == self@.config.max_sessions,
            r.sessions@.len() == self.session_order().len(),
            self.session_order().no_duplicates(),
            self.session_order().to_set() == self@.sessions.dom(),
            forall|i: int|
                0 <= i < r.sessions@.len() ==> #[trigger] r.sessions@[i]
                    == self@.sessions[self.session_order()[i]],
    {
        let n = self.sessions.len();
        let mut sessions: Vec<SshSessionInfo> = Vec::new();
        let mut i: usize = 0;
        while i < n
            invariant
                n == self.sessions.keys().len(),
                i <= n,
                sessions@.len() == i,
                forall|j: int|
                    0 <= j < i ==> #[trigger] sessions@[j]
                        == self.sessions@[self.sessions.keys()[j]],
            decreases n - i,
        {
            let s = self.sessions.value_at(i);
            sessions.push(
                SshSessionInfo {
                    session_id: s.session_id.clone(),
                    username: s.username.clone(),
                    client_addr: s.client_addr.clone(),
                    connected_at: s.connected_at,
                    last_activity: s.last_activity,
                },
            );
            i = i + 1;
        }
        SshServerStatus {
            enabled: self.config.enabled,
            listening: true,
            port: self.config.port,
            active_sessions: n,
            max_sessions: self.config.max_sessions,
            sessions,
        }
    }

    /// The state for health reports.
    pub fn health_info(&self) -> (r: SshHealthInfo)
        ensures
            r.enabled == self@.config.enabled,
            r.port == self@.config.port,
            r.active_sessions == self@.sessions.dom().len(),
    {
        SshHealthInfo {
            enabled: self.config.enabled,
            port: self.config.port,
            active_sessions: self.sessions.len(),
        }
    }

    /// A new connection, under the given name, from an address where it is
    /// known.
    pub fn new_client(&self, session_id: String, peer_addr: Option<String>) -> (r:
        SshSessionHandler)
        ensures
            r@.id == session_id@,
            r@.addr == match peer_addr {
                Some(a) => a@,
                None => "unknown"@,
            },
            r@.username is None,
            !r@.authenticated,
            r@.channels == Map::<u32, ChannelView>::empty(),
    {
        let client_addr = match peer_addr {
            Some(a) => a,
            None => "unknown".to_owned(),
        };
        let r = SshSessionHandler {
            session_id,
            client_addr,
            username: None,
            authenticated: false,
            channels: Table::new(),
        };
        assert(r@.channels =~= Map::<u32, ChannelView>::empty());
        r
    }

    /// Forgets a session that ended.
    pub fn end_session(&mut self, session_id: &str)
        ensures
            final(self)@ == (SshServerView {
                sessions: old(self)@.sessions.remove(session_id@),
                ..old(self)@
            }),
    {
        self.sessions.remove(session_id);
    }

    /// Whether a session is there.
    pub fn has_session(&self, session_id: &str) -> (r: bool)
        ensures
            r == self@.sessions.dom().contains(session_id@),
    {
        self.sessions.contains_key(session_id)
    }

    /// A session has lasted, at `now`, as long as one may.
    pub open spec fn lasted(view: SshServerView, session_id: Seq<char>, now: Timestamp) -> bool {
        &&& view.sessions.dom().contains(session_id)
        &&& time::quotient(
            now.instant() - view.sessions[session_id].connected_at.instant(),
            1_000_000_000,
        ) >= view.config.session_timeout_secs
    }

    /// Whether a session has lasted, at `now`, as long as one may.
    pub fn is_expired(&self, session_id: &str, now: Timestamp) -> (r: bool)
        ensures
            r == SshServer::lasted(self@, session_id@, now),
    {
        match self.sessions.get(session_id) {
            Some(info) => {
                let secs = now.seconds_since(&info.connected_at);
                secs >= 0 && secs as u64 >= self.config.session_timeout_secs
            },
            None => false,
        }
    }

    /// Notes that a session did something at `now`.
    pub fn touch(&mut self, session_id: &str, now: Timestamp)
        ensures
            final(self)@ == (SshServerView {
                sessions: if old(self)@.sessions.dom().contains(session_id@) {
                    old(self)@.sessions.insert(
                        session_id@,
                        SshSessionInfo {
                            last_activity: now,
                            ..old(self)@.sessions[session_id@]
                        },
                    )
                } else {
                    old(self)@.sessions
                },
                ..old(self)@
            }),
    {
        if let Some(info) = self.sessions.remove(session_id) {
            let mut info = info;
            info.last_activity = now;
            self.sessions.insert(session_id.to_owned(), info);
            assert(self@.sessions =~= old(self)@.sessions.insert(
                session_id@,
                SshSessionInfo { last_activity: now, ..old(self)@.sessions[session_id@] },
            ));
        } else {
            assert(self@.sessions =~= old(self)@.sessions);
        }
    }
}

/// As many sessions are there as there may be.
pub open spec fn is_full(server: SshServerView) -> bool {
    server.sessions.dom().len() >= server.config.max_sessions
}

/// The answer to a user with a password.
pub open spec fn password_reply(
    server: SshServerView,
    user: Seq<char>,
    password: Seq<char>,
) -> AuthReply {
    if server.config.auth_mode is PublicKey {
        AuthReply::UsePublicKey
    } else if user == server.config.username@ && password == server.api_key && !is_full(server) {
        AuthReply::Accept
    } else {
        AuthReply::Reject
    }
}

/// The session as it is recorded.
pub open spec fn records(
    info: SshSessionInfo,
    session: SessionView,
    user: Seq<char>,
    now: Timestamp,
) -> bool {
    &&& info.session_id@ == session.id
    &&& info.username@ == user
    &&& info.client_addr@ == session.addr
    &&& info.connected_at == now
    &&& info.last_activity == now
}

impl SshSessionHandler {
    /// Answers a user with a password: exactly the configured name with the
    /// API key as password may come in, unless only public keys are taken or
    /// as many sessions are there as there may be. The session is then
    /// recorded.
    pub fn auth_password(
        &mut self,
        server: &mut SshServer,
        user: &str,
        password: &str,
        now: Timestamp,
    ) -> (r: AuthReply)
        ensures
            r == password_reply(old(server)@, user@, password@),
            r is Accept ==> {
                &&& final(self)@ == (SessionView {
                    username: Some(user@),
                    authenticated: true,
                    ..old(self)@
                })
                &&& final(server)@.config == old(server)@.config
                &&& final(server)@.api_key == old(server)@.api_key
                &&& exists|info: SshSessionInfo|
                    records(info, old(self)@, user@, now) && final(server)@.sessions == #[trigger] old(
                        server,
                    )@.sessions.insert(old(self)@.id, info)
            },
            !(r is Accept) ==> final(self)@ == old(self)@ && final(server)@ == old(server)@,
    {
        if let SshAuthMode::PublicKey = server.config.auth_mode {
            return AuthReply::UsePublicKey;
        }
        if str_eq(user, server.config.username.as_str()) && str_eq(
            password,
            server.api_key.as_str(),
        ) && server.sessions.len() < server.config.max_sessions {
            self.username = Some(user.to_owned());
            self.authenticated = true;
            let info = SshSessionInfo {
                session_id: self.session_id.clone(),
                username: user.to_owned(),
                client_addr: self.client_addr.clone(),
                connected_at: now,
                last_activity: now,
            };
            let ghost recorded = info;
            server.sessions.insert(self.session_id.clone(), info);
            assert(records(recorded, old(self)@, user@, now));
            assert(server@.sessions == old(server)@.sessions.insert(old(self)@.id, recorded));
            AuthReply::Accept
        } else {
            AuthReply::Reject
        }
    }

    /// Answers a user with a public key: nobody may come in with one.
    pub fn auth_publickey(&self, server: &SshServer) -> (r: AuthReply)
        ensures
            r == if server@.config.auth_mode is ApiKey {
                AuthReply::UsePassword
            } else {
                AuthReply::Reject
            },
    {
        if let SshAuthMode::ApiKey = server.config.auth_mode {
            AuthReply::UsePassword
        } else {
            AuthReply::Reject
        }
    }

    /// Opens a channel, where the user came in.
    pub fn channel_open_session(&mut self, channel: u32) -> (r: bool)
        ensures
            r == old(self)@.authenticated,
            final(self)@ == if r {
                SessionView {
                    channels: old(self)@.channels.insert(
                        channel,
                        ChannelView { pty: false, env: Map::empty(), child: false },
                    ),
                    ..old(self)@
                }
            } else {
                old(self)@
            },
    {
        if !self.authenticated {
            return false;
        }
        let state = ChannelState { pty: false, env: StrMap::new(), child: false };
        assert(state@.env =~= Map::<Seq<char>, Seq<char>>::empty());
        self.channels.insert(channel, state);
        assert(self@.channels =~= old(self)@.channels.insert(
            channel,
            ChannelView { pty: false, env: Map::empty(), child: false },
        ));
        true
    }

    fn change(&mut self, channel: u32, state: ChannelState)
        ensures
            final(self)@ == (SessionView {
                channels: old(self)@.channels.insert(channel, state@),
                ..old(self)@
            }),
    {
        self.channels.insert(channel, state);
        assert(self@.channels =~= old(self)@.channels.insert(channel, state@));
    }

    fn take(&mut self, channel: u32) -> (r: Option<ChannelState>)
        ensures
            r is Some <==> old(self)@.channels.dom().contains(channel),
            r matches Some(c) ==> c@ == old(self)@.channels[channel],
            final(self)@ == (SessionView {
                channels: old(self)@.channels.remove(channel),
                ..old(self)@
            }),
    {
        let r = self.channels.take_out(&channel);
        assert(self@.channels =~= old(self)@.channels.remove(channel));
        r
    }

    /// Turns a channel that is there into a terminal of the given size.
    pub fn pty_request(&mut self, channel: u32, term: &str, col_width: u32, row_height: u32)
        ensures
            final(self)@ == if old(self)@.channels.dom().contains(channel) {
                let c = old(self)@.channels[channel];
                SessionView {
                    channels: old(self)@.channels.insert(
                        channel,
                        ChannelView {
                            pty: true,
                            env: c.env.insert("TERM"@, term@).insert(
                                "COLUMNS"@,
                                number::decimal_spec(col_width as nat),
                            ).insert("LINES"@, number::decimal_spec(row_height as nat)),
                            ..c
                        },
                    ),
                    ..old(self)@
                }
            } else {
                old(self)@
            },
    {
        if let Some(state) = self.take(channel) {
            let mut state = state;
            let ghost before = state@;
            state.pty = true;
            state.set_env("TERM", term);
            state.set_env("COLUMNS", decimal(col_width as u64).as_str());
            state.set_env("LINES", decimal(row_height as u64).as_str());
            self.change(channel, state);
            assert(self@.channels =~= old(self)@.channels.insert(channel, state@));
        } else {
            assert(self@.channels =~= old(self)@.channels);
        }
    }

    /// Sets a variable for a channel that is there.
    pub fn env_request(&mut self, channel: u32, name: &str, value: &str)
        ensures
            final(self)@ == if old(self)@.channels.dom().contains(channel) {
                let c = old(self)@.channels[channel];
                SessionView {
                    channels: old(self)@.channels.insert(
                        channel,
                        ChannelView { env: c.env.insert(name@, value@), ..c },
                    ),
                    ..old(self)@
                }
            } else {
                old(self)@
            },
    {
        if let Some(state) = self.take(channel) {
            let mut state = state;
            state.set_env(name, value);
            self.change(channel, state);
            assert(self@.channels =~= old(self)@.channels.insert(channel, state@));
        } else {
            assert(self@.channels =~= old(self)@.channels);
        }
    }

    /// The shell that a channel is to run; none where the user did not come
    /// in.
    pub fn shell_request(&self, kind: ShellKind) -> (r: Option<String>)
        ensures
            r is Some <==> self@.authenticated,
            r matches Some(s) ==> s@ == match kind {
                ShellKind::Posix => "/bin/bash"@,
                ShellKind::PowerShell => "powershell.exe"@,
            },
    {
        if !self.authenticated {
            return None;
        }
        match kind {
            ShellKind::Posix => Some("/bin/bash".to_owned()),
            ShellKind::PowerShell => Some("powershell.exe".to_owned()),
        }
    }

    /// Notes that a channel runs a shell.
    pub fn on_shell(&mut self, channel: u32)
        ensures
            final(self)@ == if old(self)@.channels.dom().contains(channel) {
                SessionView {
                    channels: old(self)@.channels.insert(
                        channel,
                        ChannelView { child: true, ..old(self)@.channels[channel] },
                    ),
                    ..old(self)@
                }
            } else {
                old(self)@
            },
    {
        if let Some(state) = self.take(channel) {
            let mut state = state;
            state.child = true;
            self.change(channel, state);
            assert(self@.channels =~= old(self)@.channels.insert(channel, state@));
        } else {
            assert(self@.channels =~= old(self)@.channels);
        }
    }

    /// The program and the arguments that run a command; none where the user
    /// did not come in.
    pub fn exec_request(&self, kind: ShellKind, command: &str) -> (r: Option<(String, Vec<String>)>)
        ensures
            r is Some <==> self@.authenticated,
            r matches Some((program, args)) ==> match kind {
                ShellKind::Posix => program@ == "sh"@ && chars::views(args@) == seq![
                    "-c"@,
                    command@,
                ],
                ShellKind::PowerShell => program@ == "powershell.exe"@ && chars::views(args@)
                    == seq!["-Command"@, command@],
            },
    {
        if !self.authenticated {
            return None;
        }
        match kind {
            ShellKind::Posix => {
                let args = strings(&["-c", command]);
                assert(chars::views(args@) =~= seq!["-c"@, command@]);
                Some(("sh".to_owned(), args))
            },
            ShellKind::PowerShell => {
                let args = strings(&["-Command", command]);
                assert(chars::views(args@) =~= seq!["-Command"@, command@]);
                Some(("powershell.exe".to_owned(), args))
            },
        }
    }

    /// The variables of a channel.
    pub fn channel_env(&self, channel: u32) -> (r: Vec<(String, String)>)
        ensures
            self@.channels.dom().contains(channel) ==> {
                let env = self@.channels[channel].env;
                &&& forall|i: int|
                    0 <= i < r@.len() ==> env.dom().contains((#[trigger] r@[i]).0@)
                        && env[r@[i].0@] == r@[i].1@
                &&& forall|i: int, j: int|
                    0 <= i < j < r@.len() ==> (#[trigger] r@[i]).0@ != (#[trigger] r@[j]).0@
                &&& r@.len() == env.dom().len()
            },
            !self@.channels.dom().contains(channel) ==> r@.len() == 0,
    {
        let mut r: Vec<(String, String)> = Vec::new();
        if let Some(state) = self.channels.value_of(&channel) {
            let n = state.env.len();
            let mut i: usize = 0;
            while i < n
                invariant
                    n == state.env.keys().len(),
                    i <= n,
                    r@.len() == i,
                    state.env.keys().no_duplicates(),
                    forall|j: int|
                        0 <= j < i ==> (#[trigger] r@[j]).0@ == state.env.keys()[j],
                    forall|j: int|
                        0 <= j < i ==> state@.env.dom().contains((#[trigger] r@[j]).0@)
                            && state@.env[r@[j].0@] == r@[j].1@,
                decreases n - i,
            {
                r.push((state.env.key_at(i).clone(), state.env.value_at(i).clone()));
                i = i + 1;
            }
            assert(state@.env.dom() =~= state.env@.dom());
        }
        r
    }

    /// Whether a channel runs a process that gets what the user types.
    pub fn takes_input(&self, channel: u32) -> (r: bool)
        ensures
            r == (self@.channels.dom().contains(channel) && self@.channels[channel].child),
    {
        match self.channels.value_of(&channel) {
            Some(state) => state.child,
            None => false,
        }
    }

    /// Closes a channel, and tells whether it ran a process that is to be
    /// killed.
    pub fn channel_close(&mut self, channel: u32) -> (r: bool)
        ensures
            r == (old(self)@.channels.dom().contains(channel) && old(
                self,
            )@.channels[channel].child),
            final(self)@ == (SessionView {
                channels: old(self)@.channels.remove(channel),
                ..old(self)@
            }),
    {
        match self.take(channel) {
            Some(state) => state.child,
            None => false,
        }
    }
}

impl ChannelState {
    fn set_env(&mut self, name: &str, value: &str)
        ensures
            final(self)@ == (ChannelView {
                env: old(self)@.env.insert(name@, value@),
                ..old(self)@
            }),
    {
        let text = value.to_owned();
        self.env.insert(name.to_owned(), text);
        assert(self@.env =~= old(self)@.env.insert(name@, value@));
    }
}

/// The exit status that a command reports: its code, as an unsigned number;
/// the largest one where there is no code.
pub open spec fn exit_status_spec(code: Option<i32>) -> int {
    match code {
        Some(c) => if c >= 0 {
            c as int
        } else {
            c + 0x1_0000_0000
        },
        None => 0xffff_ffff,
    }
}

/// The exit status that a command reports.
pub fn exit_status(code: Option<i32>) -> (r: u32)
    ensures
        r == exit_status_spec(code),
{
    match code {
        Some(c) => if c >= 0 {
            c as u32
        } else {
            (c as i64 + 0x1_0000_0000) as u32
        },
        None => 0xffff_ffff,
    }
}

/// What a command that could not be run reports.
pub fn exec_failure(error: &str) -> (r: String)
    ensures
        r@ == "Failed to execute command: "@ + error@ + "\n"@,
{
    concat3("Failed to execute command: ", error, "\n")
}

/// There are never more sessions than there may be: who comes in is the last
/// one for whom there is room.
pub proof fn sessions_stay_limited(
    server: SshServerView,
    user: Seq<char>,
    password: Seq<char>,
    id: Seq<char>,
    info: SshSessionInfo,
)
    requires
        server.sessions.dom().finite(),
        password_reply(server, user, password) is Accept,
    ensures
        server.sessions.insert(id, info).dom().len() <= server.config.max_sessions,
{
    assert(server.sessions.insert(id, info).dom() =~= server.sessions.dom().insert(id));
}

/// Nobody comes in with a password but under the configured name and with the
/// API key, and not at all where only public keys are taken.
pub proof fn only_the_key_lets_in(server: SshServerView, user: Seq<char>, password: Seq<char>)
    requires
        password_reply(server, user, password) is Accept,
    ensures
        user == server.config.username@,
        password == server.api_key,
        !(server.config.auth_mode is PublicKey),
{
}

} // verus!
