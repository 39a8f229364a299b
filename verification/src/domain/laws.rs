//! What holds of the agent's data as it is read and written: of times, sizes and
//! lists, and of the state that it starts with.

use vstd::prelude::*;

use crate::api::containers;
use crate::api::database;
use crate::api::system;
use crate::api::tunnel as tunnel_api;
use crate::config::autoupdate::UpdateProgress;
use crate::config::environment::Environment;
use crate::config::project::ProjectConfig;
use crate::domain::deploy::{DeployTask, DeployType};
use crate::domain::tunnel;
use crate::domain::tunnel::{PortMappingStatus, TunnelClientStatus, TunnelMode, TunnelServerStatus};
use crate::infra::command::CommandError;
use crate::services::deploy::zombies;
use crate::services::frp;
use crate::services::lan_discovery;
use crate::services::lan_discovery::DiscoveredPeer;
use crate::services::mesh;
use crate::services::service_router;
use crate::services::service_router::EndpointSource;
use crate::state::app_state::AppState;
use crate::state::port_listener_manager::Listeners;
use crate::state::tunnel_state::TunnelServerState;
use crate::text::bytes;
use crate::text::chars;
use crate::text::duration;
use crate::text::number;
use crate::text::split;
use crate::time;
use crate::time::Timestamp;

verus! {

/// Times are divided towards zero.
pub proof fn division_goes_towards_zero(a: int, b: int)
    requires
        b > 0,
    ensures
        a >= 0 ==> time::quotient(a, b) * b <= a < (time::quotient(a, b) + 1) * b,
        a < 0 ==> (time::quotient(a, b) - 1) * b < a <= time::quotient(a, b) * b,
        time::quotient(-a, b) == -time::quotient(a, b),
{
    let x = if a >= 0 {
        a
    } else {
        -a
    };
    vstd::arithmetic::div_mod::lemma_fundamental_div_mod(x, b);
    vstd::arithmetic::div_mod::lemma_mod_bound(x, b);
    let q = x / b;
    assert(b * q == q * b && (q + 1) * b == q * b + b && (-q) * b == -(q * b) && (-q - 1) * b
        == -(q * b) - b) by (nonlinear_arith);
}

/// A quotient is rounded to the nearest number, and to the even one of two.
pub proof fn quotient_is_rounded(n: int, d: int)
    requires
        0 <= n,
        0 < d,
    ensures
        ({
            let q = duration::nearest_spec(n, d);
            &&& -d <= 2 * (n - q * d) <= d
            &&& 2 * (n - q * d) == d || 2 * (n - q * d) == -d ==> q % 2 == 0
        }),
{
    vstd::arithmetic::div_mod::lemma_fundamental_div_mod(n, d);
    vstd::arithmetic::div_mod::lemma_mod_bound(n, d);
    let q = n / d;
    assert(d * q == q * d && (q + 1) * d == q * d + d) by (nonlinear_arith);
}

/// A small whole number of a unit is held exactly.
pub proof fn small_numbers_are_exact(n: int, d: int)
    requires
        0 <= n < 9_007_199_254_740_992,
        0 < d,
    ensures
        duration::binary_spec(n, 1) == n,
        n < d * 9_007_199_254_740_992 ==> duration::binary_spec(n, d) == duration::nearest_spec(
            n,
            d,
        ),
{
}

/// Milliseconds are written as such below a second, and as seconds with up to
/// three digits behind the point from then on.
pub proof fn milliseconds_are_written(seconds: nat, first: nat, second: nat, third: nat)
    requires
        seconds < 1_000_000_000,
        first <= 9,
        second <= 9,
        third <= 9,
    ensures
        ({
            let ms = first * 100 + second * 10 + third;
            let whole = number::decimal_spec(seconds);
            let text = duration::millis_spec((seconds * 1000 + ms) as u64);
            &&& seconds == 0 && ms > 0 ==> text == number::decimal_spec(ms) + "ms"@
            &&& seconds == 0 && ms == 0 ==> text == "0ns"@
            &&& seconds > 0 && third > 0 ==> text == whole + ("."@ + number::decimal_spec(first)
                + number::decimal_spec(second) + number::decimal_spec(third)) + "s"@
            &&& seconds > 0 && third == 0 && second > 0 ==> text == whole + ("."@
                + number::decimal_spec(first) + number::decimal_spec(second)) + "s"@
            &&& seconds > 0 && third == 0 && second == 0 && first > 0 ==> text == whole + ("."@
                + number::decimal_spec(first)) + "s"@
            &&& seconds > 0 && ms == 0 ==> text == whole + "s"@
        }),
{
    let ms = first * 100 + second * 10 + third;
    let n = (seconds * 1000 + ms) as u64;
    assert(n as int == seconds * 1000 + ms);
    assert(n / 1000 == seconds && n % 1000 == ms);
    assert(ms as int / 100 == first && ms as int / 10 % 10 == second && ms as int % 10 == third);
    if seconds > 0 && ms == 0 {
        assert(number::decimal_spec(seconds) + Seq::<char>::empty() =~= number::decimal_spec(
            seconds,
        ));
    }
}

/// The length in bytes is that of the UTF-8 form.
pub proof fn bytes_are_those_of_utf8(s: Seq<char>, c: char)
    ensures
        bytes::byte_len(Seq::empty()) == 0,
        bytes::byte_len(s.push(c)) == bytes::byte_len(s) + vstd::utf8::encode_scalar(
            c as u32,
        ).len(),
{
    assert(s.push(c).drop_last() =~= s);
}

/// A text that is cut keeps its beginning, takes no more bytes than the limit,
/// and one character more would.
pub proof fn text_is_cut_at_the_limit(s: Seq<char>, limit: int)
    requires
        0 <= limit,
    ensures
        ({
            let p = bytes::byte_prefix_spec(s, limit);
            &&& p.len() <= s.len()
            &&& p == s.take(p.len() as int)
            &&& bytes::byte_len(p) <= limit
            &&& p.len() < s.len() ==> bytes::byte_len(s.take(p.len() as int + 1)) > limit
        }),
    decreases s.len(),
{
    if bytes::byte_len(s) > limit && s.len() > 0 {
        let less = s.drop_last();
        text_is_cut_at_the_limit(less, limit);
        let p = bytes::byte_prefix_spec(less, limit);
        assert(p =~= s.take(p.len() as int));
        if p.len() < less.len() {
            assert(less.take(p.len() as int + 1) =~= s.take(p.len() as int + 1));
        } else {
            assert(s.take(p.len() as int + 1) =~= s);
        }
    } else {
        assert(s.take(s.len() as int) =~= s);
    }
}

/// A mapping is written as its name, its remote port, its local host and its
/// local port, between colons; anything else is none.
pub proof fn mapping_has_four_parts(item: Seq<char>)
    ensures
        ({
            let p = split::split_spec(split::trim_spec(item), ':');
            let m = tunnel::mapping_of(item);
            let good = p.len() == 4 && number::parse_spec(p[1], 65535) is Some
                && number::parse_spec(p[3], 65535) is Some;
            &&& m is Some <==> good
            &&& good ==> m->0.name == p[0] && m->0.remote_port == number::parse_spec(
                p[1],
                65535,
            )->0 as u16 && m->0.local_host == p[2] && m->0.local_port == number::parse_spec(
                p[3],
                65535,
            )->0 as u16
        }),
{
}

/// The mode of the tunnel goes by its name.
pub proof fn tunnel_mode_goes_by_its_name(s: Seq<char>, mode: TunnelMode)
    ensures
        TunnelMode::named(s) == TunnelMode::Server <==> s == "server"@,
        TunnelMode::named(s) == TunnelMode::Client <==> s == "client"@,
        TunnelMode::named(s) == TunnelMode::Disabled <==> s != "server"@ && s != "client"@,
        system::mode_name(mode) == (match mode {
            TunnelMode::Disabled => "Disabled"@,
            TunnelMode::Server => "Server"@,
            TunnelMode::Client => "Client"@,
        }),
{
    reveal_strlit("server");
    reveal_strlit("client");
    assert("server"@[0] == 's' && "client"@[0] == 'c');
}

/// Each state of an update, each type of deployment and each failure of a
/// command has its name.
pub proof fn states_have_names(p: UpdateProgress, t: DeployType, e: CommandError)
    ensures
        p.label() == (match p {
            UpdateProgress::Idle => "none"@,
            UpdateProgress::Checking => "checking"@,
            UpdateProgress::Downloading => "downloading"@,
            UpdateProgress::Verifying => "verifying"@,
            UpdateProgress::HealthCheck => "health_check"@,
            UpdateProgress::Applying => "applying"@,
            UpdateProgress::Deferred => "deferred"@,
            UpdateProgress::Restarting => "restarting"@,
        }),
        t is Script ==> t.kind_name() == "script"@,
        t is DockerCompose ==> t.kind_name() == "docker_compose"@,
        t is DockerBuild ==> t.kind_name() == "docker_build"@,
        t is Xiaojincut ==> t.kind_name() == "xiaojincut"@,
        e is Timeout ==> e.text() == "Command timed out"@,
        e is Cancelled ==> e.text() == "Command was cancelled"@,
        e matches CommandError::SpawnFailed(s) ==> e.text() == "Failed to spawn command: "@ + s@,
        e matches CommandError::WaitFailed(s) ==> e.text() == "Failed to wait for command: "@ + s@,
{
}

/// A list with one item more.
spec fn with_item<T>(list: Seq<T>, item: Option<T>) -> Seq<T> {
    match item {
        Some(x) => list.push(x),
        None => list,
    }
}

proof fn lemma_one_more<A, B>(items: Seq<A>, item: A, f: spec_fn(A) -> Option<B>)
    ensures
        crate::collections::keep_some(items.push(item).map_values(f)) == with_item(
            crate::collections::keep_some(items.map_values(f)),
            f(item),
        ),
        crate::collections::keep_some(Seq::<A>::empty().map_values(f)).len() == 0,
{
    assert(items.push(item).map_values(f).drop_last() =~= items.map_values(f));
    assert(items.push(item).map_values(f).last() == f(item));
}

/// What docker or a database lists is read line by line: one line more of the
/// output is one container, table, column, variable or line more, exactly where
/// the line is one, and it comes last.
pub proof fn lists_are_read_line_by_line(a: Seq<char>, b: Seq<char>, line: Seq<char>, hide: bool)
    requires
        split::lines_spec(b) == split::lines_spec(a).push(line),
    ensures
        containers::containers_of(b) == (if containers::container_of(line) is Some {
            containers::containers_of(a).push(containers::container_of(line)->0)
        } else {
            containers::containers_of(a)
        }),
        containers::env_vars_of(b, hide) == (if containers::env_var_of(line, hide) is Some {
            containers::env_vars_of(a, hide).push(containers::env_var_of(line, hide)->0)
        } else {
            containers::env_vars_of(a, hide)
        }),
        containers::nonempty_lines(b) == (if line.len() > 0 {
            containers::nonempty_lines(a).push(line)
        } else {
            containers::nonempty_lines(a)
        }),
        database::tables_of(b) == (if database::table_of(line) is Some {
            database::tables_of(a).push(database::table_of(line)->0)
        } else {
            database::tables_of(a)
        }),
        database::columns_of(b) == (if database::column_of(line) is Some {
            database::columns_of(a).push(database::column_of(line)->0)
        } else {
            database::columns_of(a)
        }),
{
    let all = split::lines_spec(a);
    lemma_one_more(all, line, |l: Seq<char>| containers::container_of(l));
    lemma_one_more(all, line, |l: Seq<char>| containers::env_var_of(l, hide));
    lemma_one_more(all, line, |l: Seq<char>| containers::nonempty_line(l));
    lemma_one_more(all, line, |l: Seq<char>| database::table_of(l));
    lemma_one_more(all, line, |l: Seq<char>| database::column_of(l));
    assert(containers::containers_of(a) == crate::collections::keep_some(
        all.map_values(|l: Seq<char>| containers::container_of(l)),
    ));
}

/// The processes that are in the way are found line by line, and the builds that
/// hang below the heading of their list.
pub proof fn processes_are_read_line_by_line(a: Seq<char>, b: Seq<char>, line: Seq<char>)
    requires
        split::lines_spec(b) == split::lines_spec(a).push(line),
    ensures
        zombies::zombies_of(b) == (if zombies::zombie_of(line) is Some {
            zombies::zombies_of(a).push(zombies::zombie_of(line)->0)
        } else {
            zombies::zombies_of(a)
        }),
        split::lines_spec(a).len() == 0 ==> zombies::hung_builds_of(b).len() == 0,
        split::lines_spec(a).len() > 0 ==> zombies::hung_builds_of(b) == (if zombies::hung_of(
            line,
        ) is Some {
            zombies::hung_builds_of(a).push(zombies::hung_of(line)->0)
        } else {
            zombies::hung_builds_of(a)
        }),
        zombies::pids_of(b) == (if zombies::pid_of(line) is Some {
            zombies::pids_of(a).push(zombies::pid_of(line)->0)
        } else {
            zombies::pids_of(a)
        }),
{
    let all = split::lines_spec(a);
    lemma_one_more(all, line, |l: Seq<char>| zombies::zombie_of(l));
    lemma_one_more(all, line, |l: Seq<char>| zombies::pid_of(l));
    if all.len() > 0 {
        let below = all.subrange(1, all.len() as int);
        let more = all.push(line);
        assert(more.subrange(1, more.len() as int) =~= below.push(line));
        lemma_one_more(below, line, |l: Seq<char>| zombies::hung_of(l));
    }
}

/// What stands between commas is read item by item: ports, services and
/// mappings.
pub proof fn lists_are_read_item_by_item(a: Seq<char>, b: Seq<char>, item: Seq<char>)
    requires
        split::split_spec(b, ',') == split::split_spec(a, ',').push(item),
    ensures
        containers::port_items(b) == (if split::trim_spec(item).len() > 0 {
            containers::port_items(a).push(split::trim_spec(item))
        } else {
            containers::port_items(a)
        }),
        lan_discovery::services_of(b) == (if lan_discovery::service_of(item) is Some {
            lan_discovery::services_of(a).push(lan_discovery::service_of(item)->0)
        } else {
            lan_discovery::services_of(a)
        }),
        lan_discovery::trimmed_items(b) == lan_discovery::trimmed_items(a).push(
            split::trim_spec(item),
        ),
        mesh::mesh_services_of(b) == (if mesh::mesh_service_of(item) is Some {
            mesh::mesh_services_of(a).push(mesh::mesh_service_of(item)->0)
        } else {
            mesh::mesh_services_of(a)
        }),
        tunnel::mappings_of(b) == (if tunnel::mapping_of(item) is Some {
            tunnel::mappings_of(a).push(tunnel::mapping_of(item)->0)
        } else {
            tunnel::mappings_of(a)
        }),
        service_router::service_map_of(b) == service_router::entries_of(
            split::split_spec(a, ',').push(item),
        ),
{
    let all = split::split_spec(a, ',');
    lemma_one_more(all, item, |i: Seq<char>| containers::trimmed_item(i));
    lemma_one_more(all, item, |i: Seq<char>| lan_discovery::service_of(i));
    lemma_one_more(all, item, |i: Seq<char>| mesh::mesh_service_of(i));
    lemma_one_more(all, item, |i: Seq<char>| tunnel::mapping_of(i));
    assert(lan_discovery::trimmed_items(b) =~= lan_discovery::trimmed_items(a).push(
        split::trim_spec(item),
    ));
}

/// Each mapping is shown in its place, all in the same state.
pub proof fn mappings_are_shown_in_place(
    shown: Seq<PortMappingStatus>,
    mappings: Seq<tunnel::PortMappingView>,
    word: Seq<char>,
    i: int,
)
    requires
        frp::mappings_shown(shown, mappings, word),
    ensures
        shown.len() == mappings.len(),
        0 <= i < shown.len() ==> shown[i].mapping@ == mappings[i] && shown[i].status@ == word,
{
}

/// The server side of a tunnel shows its port and each of its clients, with the
/// state of its mappings.
pub proof fn server_side_is_shown(
    shown: TunnelServerStatus,
    server: TunnelServerState,
    l: Listeners,
    port: u16,
    i: int,
    k: int,
)
    requires
        tunnel_api::server_shown(shown, server, l, port),
    ensures
        shown.listening,
        shown.listen_port == port,
        shown.client_count == server@.clients.dom().len(),
        shown.client_connected <==> server@.clients.dom().len() > 0,
        0 <= i < shown.clients@.len() ==> {
            let c = server@.clients[server.client_order()[i]];
            let s = shown.clients@[i];
            &&& s.client_id == c.client_id && s.client_addr == c.client_addr && s.connected_at
                == c.connected_at
            &&& s.port_mappings@.len() == c.mappings@.len()
            &&& 0 <= k < s.port_mappings@.len() ==> {
                let port = c.mappings@[k].remote_port;
                let bound = l.dom().contains(port) && l[port].bound == Some(c.client_id@);
                &&& s.port_mappings@[k].mapping == c.mappings@[k]
                &&& bound ==> s.port_mappings@[k].status@ == "listening"@
                &&& !bound ==> s.port_mappings@[k].status@ == "pending"@
            }
        },
{
    if 0 <= i < shown.clients@.len() {
        let s = shown.clients@[i];
        assert(tunnel_api::client_shown(s, server@.clients[server.client_order()[i]], l));
        if 0 <= k < s.port_mappings@.len() {
            assert(s.port_mappings@[k].active_connections == 0);
        }
    }
}

/// The client side of a tunnel shows what is known of the connection.
pub proof fn client_side_is_shown(shown: TunnelClientStatus, state: AppState)
    requires
        tunnel_api::client_side_shown(shown, state),
    ensures
        shown.connected == state.tunnel_client_state.connected,
        shown.server_url == state.tunnel_server_url,
        shown.connected_at == state.tunnel_client_state.connected_at,
        shown.last_error == state.tunnel_client_state.last_error,
        shown.reconnect_count == state.tunnel_client_state.reconnect_count,
        shown.mappings@.len() == state.tunnel_port_mappings@.len(),
{
}

/// A frp client shows whether its process runs, and where its server is.
pub proof fn frp_client_is_shown(
    shown: TunnelClientStatus,
    before: frp::FrpcView,
    poll: frp::PollView,
)
    requires
        tunnel_api::frp_shown(shown, before, poll),
    ensures
        shown.connected == (before.child && !(poll is Exited)),
        shown.server_url@ == before.config.server_addr@ + ":"@ + number::decimal_spec(
            before.config.server_port as nat,
        ),
        shown.connected_at == before.started_at,
        shown.reconnect_count == before.restart_count,
        shown.mappings@.len() == before.mappings.len(),
{
}

/// A project is shown with its name, its directory and its type.
pub proof fn project_is_shown(shown: system::ProjectSummary, name: Seq<char>, p: ProjectConfig)
    requires
        system::project_shown(shown, name, p),
    ensures
        shown.name@ == name,
        shown.work_dir == p.work_dir,
        shown.deploy_type@ == p.deploy_type.kind_name(),
{
}

/// All endpoints of a source are listed in order, each with its address; those
/// of an agent in the local network with the state of the agent.
pub proof fn endpoints_are_listed(
    keys: Seq<Seq<char>>,
    m: Map<Seq<char>, Seq<char>>,
    source: EndpointSource,
    peers: Seq<DiscoveredPeer>,
    peer: DiscoveredPeer,
    i: int,
)
    ensures
        service_router::map_endpoints(keys, m, source).len() == keys.len(),
        0 <= i < keys.len() ==> {
            let e = service_router::map_endpoints(keys, m, source)[i];
            e.0 == keys[i] && e.1.url == m[keys[i]] && e.1.source == source && e.1.healthy
                && e.1.peer is None && (e.1.latency_ns == Some(0u64) <==> source is Local)
        },
        service_router::peer_endpoints(peer).len() == peer.services.keys().len(),
        0 <= i < peer.services.keys().len() ==> {
            let e = service_router::peer_endpoints(peer)[i];
            let k = peer.services.keys()[i];
            e.0 == k && e.1.url == peer.services@[k].protocol@ + "://"@ + peer.lan_ip@ + ":"@
                + number::decimal_spec(peer.services@[k].port as nat) && e.1.healthy == peer.healthy
                && e.1.latency_ns == peer.latency_ns && e.1.peer == Some(peer.agent_id@)
                && e.1.source == EndpointSource::LanPeer
        },
        service_router::peers_endpoints(Seq::empty()).len() == 0,
        service_router::peers_endpoints(peers.push(peer)) == service_router::peers_endpoints(peers)
            + service_router::peer_endpoints(peer),
{
    assert(peers.push(peer).drop_last() =~= peers);
}

/// The agent starts with what is configured, with nothing running, nothing
/// waiting and nobody connected, and with its limits.
pub proof fn agent_starts_idle(
    state: AppState,
    env: &Environment,
    file: Seq<char>,
    ip: Option<Seq<char>>,
    now: Timestamp,
    name: Seq<char>,
)
    requires
        state.is_started(env, file, ip, now),
    ensures
        state.api_key == state.config.api_key,
        state.started_at == now,
        state.deploy_center.url() == chars::opt_view(state.config.callback_url),
        state.tunnel_mode == state.config.tunnel.mode,
        state.tunnel_client_id == state.config.tunnel.client_id,
        state.tunnel_auth_token == state.config.tunnel.auth_token,
        state.tunnel_server_url == state.config.tunnel.server_url,
        state.auto_update_config == state.config.auto_update,
        state.nfa is Some <==> state.config.nfa.enabled,
        state.frp is Some <==> state.config.frp.enabled,
        state.ssh_server is None,
        !state.running_deploys@.dom().contains(name),
        state.queue(name).len() == 0,
        !state.task_store.active().dom().contains(name),
        state.task_store.past().len() == 0,
        state.task_store.active_limit() == 50,
        state.task_store.history_limit() == 100,
        state.task_store.retention() == 24,
        !state.log_hub@.dom().contains(name),
        !state.tunnel_server_state@.clients.dom().contains(name),
        !state.tunnel_client_state.connected,
        state.port_listener_manager@.dom().len() == 0,
        !state.auto_update_state.update_in_progress,
        !state.auto_update_state.update_available,
        state.auto_update_state.pending_update is None,
        state.auto_update_state.update_progress is Idle,
{
    assert(state.task_store.past() =~= Seq::<DeployTask>::empty());
}

} // verus!
