//! The central list of servers: giving a new server its ports, adding,
//! finding and removing servers, changing a server's ports, and the lines the
//! listing commands print.

use vstd::prelude::*;
use crate::config::{
    Config, PortKind, ServerInfo, ServerList, DEFAULT_GAME_PORT, DEFAULT_MAX_RAM_MB,
    DEFAULT_RCON_PORT, free_port_exists, has_free_port, is_first_free_port, next_available_port,
    next_available_rcon_port, port_in_use, port_of,
};
use crate::text::{decimal, push_decimal, same_text};

verus! {

/// The mod loader a server runs on.
#[derive(Clone, Copy, Debug, PartialEq, Eq, Structural)]
pub enum Loader {
    Vanilla,
    Fabric,
    Forge,
    NeoForge,
}

/// The name under which a loader is recorded in a server's description.
pub open spec fn loader_name(loader: Loader) -> Seq<char> {
    match loader {
        Loader::Vanilla => "Vanilla"@,
        Loader::Fabric => "Fabric"@,
        Loader::Forge => "Forge"@,
        Loader::NeoForge => "NeoForge"@,
    }
}

impl Loader {
    /// The name under which the loader is recorded.
    pub fn name(&self) -> (s: String)
        ensures
            s@ == loader_name(*self),
    {
        match self {
            Loader::Vanilla => String::from_str("Vanilla"),
            Loader::Fabric => String::from_str("Fabric"),
            Loader::Forge => String::from_str("Forge"),
            Loader::NeoForge => String::from_str("NeoForge"),
        }
    }
}

/// The port a new server's port of the given kind is searched from: the one
/// the settings name, or the default.
pub open spec fn base_port(config: &Config, kind: PortKind) -> u16 {
    match kind {
        PortKind::Game => match config.port {
            Some(p) => p,
            None => DEFAULT_GAME_PORT,
        },
        PortKind::Rcon => match config.rcon_port {
            Some(p) => p,
            None => DEFAULT_RCON_PORT,
        },
    }
}

/// The RCON password a new server is given: the one the settings name, or
/// `defaultpassword`.
pub open spec fn new_rcon_password(config: &Config) -> Seq<char> {
    match config.rcon_password {
        Some(p) => p@,
        None => "defaultpassword"@,
    }
}

/// The memory a server is given: the amount set, unless it is zero (unset),
/// in which case the default.
pub open spec fn resolved_max_ram(ram_mb: u32) -> u32 {
    if ram_mb > 0 {
        ram_mb
    } else {
        DEFAULT_MAX_RAM_MB
    }
}

/// The memory a server is given, from the amount set (zero when unset).
pub fn resolve_max_ram(ram_mb: u32) -> (r: u32)
    ensures
        r == resolved_max_ram(ram_mb),
{
    if ram_mb > 0 {
        ram_mb
    } else {
        DEFAULT_MAX_RAM_MB
    }
}

/// Whether a new server can be given both ports: a free game port at or
/// above the game base port and a free RCON port at or above the RCON base
/// port.
pub open spec fn ports_allocatable(config: &Config, list: &ServerList) -> bool {
    &&& free_port_exists(list.servers@, PortKind::Game, base_port(config, PortKind::Game))
    &&& free_port_exists(list.servers@, PortKind::Rcon, base_port(config, PortKind::Rcon))
}

/// Whether a new server can be given both ports.
pub fn can_allocate_ports(config: &Config, list: &ServerList) -> (b: bool)
    ensures
        b == ports_allocatable(config, list),
{
    let game_base = match config.port {
        Some(p) => p,
        None => DEFAULT_GAME_PORT,
    };
    let rcon_base = match config.rcon_port {
        Some(p) => p,
        None => DEFAULT_RCON_PORT,
    };
    has_free_port(game_base, list, PortKind::Game) && has_free_port(rcon_base, list, PortKind::Rcon)
}

/// The description of a newly created server: its game and RCON ports are
/// the lowest free ones at or above the configured (or default) base ports,
/// its RCON password the configured one (or `defaultpassword`), its memory
/// the configured amount (or the default), and it has not been started yet.
pub fn new_server_info(
    name: String,
    version: String,
    loader: Loader,
    config: &Config,
    list: &ServerList,
) -> (info: ServerInfo)
    requires
        ports_allocatable(config, list),
    ensures
        info.name == name,
        info.version == version,
        info.loader@ == loader_name(loader),
        is_first_free_port(list.servers@, PortKind::Game, base_port(config, PortKind::Game), info.port),
        is_first_free_port(
            list.servers@,
            PortKind::Rcon,
            base_port(config, PortKind::Rcon),
            info.rcon_port,
        ),
        info.rcon_password@ == new_rcon_password(config),
        info.max_ram_mb == resolved_max_ram(config.max_ram_mb),
        !info.has_been_started,
{
    let game_base = match config.port {
        Some(p) => p,
        None => DEFAULT_GAME_PORT,
    };
    let port = next_available_port(game_base, list);
    let rcon_base = match config.rcon_port {
        Some(p) => p,
        None => DEFAULT_RCON_PORT,
    };
    let rcon_port = next_available_rcon_port(rcon_base, list);
    let rcon_password = match &config.rcon_password {
        Some(p) => p.clone(),
        None => String::from_str("defaultpassword"),
    };
    ServerInfo {
        name,
        version,
        loader: loader.name(),
        port,
        rcon_port,
        rcon_password,
        max_ram_mb: resolve_max_ram(config.max_ram_mb),
        has_been_started: false,
    }
}

/// Adds a server at the end of the list.
pub fn register(list: &mut ServerList, info: ServerInfo)
    ensures
        final(list).servers@ == old(list).servers@.push(info),
{
    list.servers.push(info);
}

/// Whether a server is not named `name`.
pub open spec fn not_named(info: ServerInfo, name: Seq<char>) -> bool {
    info.name@ != name
}

/// The servers of the list that are not named `name`, in their order.
pub open spec fn without_name(servers: Seq<ServerInfo>, name: Seq<char>) -> Seq<ServerInfo> {
    servers.filter(|s: ServerInfo| not_named(s, name))
}

/// Removes every server named `name` from the list; the others keep their
/// order.
pub fn delete(list: &mut ServerList, name: &str)
    ensures
        final(list).servers@ == without_name(old(list).servers@, name@),
{
    let ghost orig = list.servers@;
    let ghost keep = |s: ServerInfo| not_named(s, name@);
    let n = list.servers.len();
    let mut i: usize = 0;
    let mut k: usize = 0;
    while k < n
        invariant
            n == orig.len(),
            keep == (|s: ServerInfo| not_named(s, name@)),
            k <= orig.len(),
            i == orig.take(k as int).filter(keep).len(),
            list.servers@ == orig.take(k as int).filter(keep) + orig.skip(k as int),
        decreases n - k,
    {
        proof {
            reveal_with_fuel(Seq::filter, 1);
            assert(orig.take(k + 1).drop_last() =~= orig.take(k as int));
            assert(list.servers@[i as int] == orig[k as int]);
        }
        if same_text(list.servers[i].name.as_str(), name) {
            list.servers.remove(i);
            assert(list.servers@ =~= orig.take(k + 1).filter(keep) + orig.skip(k + 1));
        } else {
            assert(list.servers@ =~= orig.take(k + 1).filter(keep) + orig.skip(k + 1));
            i = i + 1;
        }
        k = k + 1;
    }
    assert(orig.take(orig.len() as int) =~= orig);
    assert(list.servers@ =~= orig.filter(keep));
}

/// The position of the first server named `name`, if any.
pub fn find_server(list: &ServerList, name: &str) -> (found: Option<usize>)
    ensures
        match found {
            Some(i) => i < list.servers@.len() && list.servers@[i as int].name@ == name@ && forall|
                j: int,
            | 0 <= j < i ==> #[trigger] list.servers@[j].name@ != name@,
            None => forall|j: int|
                0 <= j < list.servers@.len() ==> #[trigger] list.servers@[j].name@ != name@,
        },
{
    let mut i: usize = 0;
    while i < list.servers.len()
        invariant
            i <= list.servers@.len(),
            forall|j: int| 0 <= j < i ==> #[trigger] list.servers@[j].name@ != name@,
        decreases list.servers.len() - i,
    {
        if same_text(list.servers[i].name.as_str(), name) {
            return Some(i);
        }
        i = i + 1;
    }
    None
}

/// Changes the game port, the RCON port, or both, of a server; everything
/// else stays.
pub fn change_ports(info: &mut ServerInfo, port: Option<u16>, rcon_port: Option<u16>)
    ensures
        final(info).port == (match port {
            Some(p) => p,
            None => old(info).port,
        }),
        final(info).rcon_port == (match rcon_port {
            Some(p) => p,
            None => old(info).rcon_port,
        }),
        *final(info) == (ServerInfo {
            port: final(info).port,
            rcon_port: final(info).rcon_port,
            ..*old(info)
        }),
{
    if let Some(p) = port {
        info.port = p;
    }
    if let Some(p) = rcon_port {
        info.rcon_port = p;
    }
}

/// Changes a server's RCON password (the `rcon-password` command of a
/// server); everything else of its description stays.
pub fn change_rcon_password(info: &mut ServerInfo, password: String)
    ensures
        *final(info) == (ServerInfo { rcon_password: password, ..*old(info) }),
{
    info.rcon_password = password;
}

/// The line that lists a server: ` - name (version: v, loader: l, port: p)`.
pub open spec fn listing(info: ServerInfo) -> Seq<char> {
    " - "@ + info.name@ + " (version: "@ + info.version@ + ", loader: "@ + info.loader@
        + ", port: "@ + decimal(info.port as nat) + ")"@
}

/// The line that lists a server.
pub fn listing_line(info: &ServerInfo) -> (line: String)
    ensures
        line@ == listing(*info),
{
    let mut line = String::from_str(" - ");
    line.append(info.name.as_str());
    line.append(" (version: ");
    line.append(info.version.as_str());
    line.append(", loader: ");
    line.append(info.loader.as_str());
    line.append(", port: ");
    push_decimal(&mut line, info.port as u32);
    line.append(")");
    line
}

/// The local address of a server's RCON port.
pub open spec fn rcon_address_of(port: u16) -> Seq<char> {
    "127.0.0.1:"@ + decimal(port as nat)
}

/// The local address at which a server's RCON port is reached.
pub fn rcon_address(port: u16) -> (addr: String)
    ensures
        addr@ == rcon_address_of(port),
{
    let mut addr = String::from_str("127.0.0.1:");
    push_decimal(&mut addr, port as u32);
    addr
}

/// No two servers of the list share a game port, and no two share an RCON
/// port.
pub open spec fn ports_distinct(servers: Seq<ServerInfo>) -> bool {
    forall|i: int, j: int|
        0 <= i < j < servers.len() ==> #[trigger] servers[i].port != #[trigger] servers[j].port
            && servers[i].rcon_port != servers[j].rcon_port
}

/// Servers side by side never collide: adding a server whose ports were
/// chosen for the list (as `new_server_info` chooses them) to a list whose
/// servers all have their own ports keeps every server's ports its own.
pub proof fn law_new_server_keeps_ports_distinct(
    servers: Seq<ServerInfo>,
    info: ServerInfo,
    game_base: u16,
    rcon_base: u16,
)
    requires
        ports_distinct(servers),
        is_first_free_port(servers, PortKind::Game, game_base, info.port),
        is_first_free_port(servers, PortKind::Rcon, rcon_base, info.rcon_port),
    ensures
        ports_distinct(servers.push(info)),
{
    let t = servers.push(info);
    assert forall|i: int, j: int| 0 <= i < j < t.len() implies #[trigger] t[i].port != #[trigger] t[j].port
        && t[i].rcon_port != t[j].rcon_port by {
        if j == servers.len() {
            assert(t[i] == servers[i]);
            assert(port_of(servers[i], PortKind::Game) != info.port);
            assert(port_of(servers[i], PortKind::Rcon) != info.rcon_port);
        } else {
            assert(t[i] == servers[i] && t[j] == servers[j]);
        }
    }
}

/// Removing servers from a list keeps the other servers' ports distinct and
/// keeps whatever held of every server.
proof fn lemma_without_name(servers: Seq<ServerInfo>, name: Seq<char>, x: ServerInfo)
    requires
        forall|i: int|
            0 <= i < servers.len() ==> #[trigger] servers[i].port != x.port && servers[i].rcon_port
                != x.rcon_port,
    ensures
        forall|k: int|
            0 <= k < without_name(servers, name).len() ==> #[trigger] without_name(servers, name)[k].port
                != x.port && without_name(servers, name)[k].rcon_port != x.rcon_port,
        ports_distinct(servers) ==> ports_distinct(without_name(servers, name)),
    decreases servers.len(),
{
    if servers.len() > 0 {
        let t = servers.drop_last();
        let y = servers.last();
        assert(servers == t.push(y));
        t.lemma_filter_push(y, |s: ServerInfo| not_named(s, name));
        assert forall|i: int| 0 <= i < t.len() implies #[trigger] t[i].port != x.port && t[i].rcon_port
            != x.rcon_port by {
            assert(t[i] == servers[i]);
        }
        lemma_without_name(t, name, x);
        if ports_distinct(servers) {
            assert forall|i: int| 0 <= i < t.len() implies #[trigger] t[i].port != y.port
                && t[i].rcon_port != y.rcon_port by {
                assert(t[i] == servers[i]);
                assert(servers[i].port != servers[t.len() as int].port);
            }
            lemma_without_name(t, name, y);
            assert(ports_distinct(t)) by {
                assert forall|i: int, j: int| 0 <= i < j < t.len() implies #[trigger] t[i].port
                    != #[trigger] t[j].port && t[i].rcon_port != t[j].rcon_port by {
                    assert(t[i] == servers[i] && t[j] == servers[j]);
                }
            }
            lemma_without_name(t, name, x);
        }
    }
}

/// Deleting a server removes every server of that name and keeps the others,
/// in order, with their ports still distinct; afterwards no server of that
/// name is found.
pub proof fn law_delete_removes_name(servers: Seq<ServerInfo>, name: Seq<char>)
    ensures
        forall|k: int|
            0 <= k < without_name(servers, name).len() ==> #[trigger] without_name(servers, name)[k].name@
                != name,
        ports_distinct(servers) ==> ports_distinct(without_name(servers, name)),
{
    broadcast use vstd::seq_lib::group_filter_ensures;

    let keep = |s: ServerInfo| not_named(s, name);
    assert forall|k: int|
        0 <= k < without_name(servers, name).len() implies #[trigger] without_name(servers, name)[k].name@
        != name by {
        assert(keep(servers.filter(keep)[k]));
    }
    if ports_distinct(servers) && servers.len() > 0 {
        let t = servers.drop_last();
        let y = servers.last();
        assert(servers == t.push(y));
        assert forall|i: int| 0 <= i < t.len() implies #[trigger] t[i].port != y.port && t[i].rcon_port
            != y.rcon_port by {
            assert(t[i] == servers[i]);
            assert(servers[i].port != servers[t.len() as int].port);
        }
        assert(ports_distinct(t)) by {
            assert forall|i: int, j: int| 0 <= i < j < t.len() implies #[trigger] t[i].port
                != #[trigger] t[j].port && t[i].rcon_port != t[j].rcon_port by {
                assert(t[i] == servers[i] && t[j] == servers[j]);
            }
        }
        lemma_without_name(t, name, y);
        t.lemma_filter_push(y, keep);
        let r = without_name(servers, name);
        let rt = without_name(t, name);
        assert forall|i: int, j: int| 0 <= i < j < r.len() implies #[trigger] r[i].port != #[trigger] r[j].port
            && r[i].rcon_port != r[j].rcon_port by {
            if not_named(y, name) && j == rt.len() {
                assert(r[i] == rt[i]);
            } else {
                assert(r[i] == rt[i] && r[j] == rt[j]);
            }
        }
    }
}

/// Deleting a name keeps exactly the servers of other names, in their
/// order: every server whose name differs is kept, every server kept was in
/// the list and has another name, and the result is the list filtered by
/// having a different name.
pub proof fn law_delete_keeps_other_names(servers: Seq<ServerInfo>, name: Seq<char>)
    ensures
        without_name(servers, name) == servers.filter(|s: ServerInfo| s.name@ != name),
        forall|i: int|
            0 <= i < servers.len() && servers[i].name@ != name ==> without_name(servers, name).contains(
                #[trigger] servers[i],
            ),
        forall|k: int|
            0 <= k < without_name(servers, name).len() ==> #[trigger] without_name(servers, name)[k].name@
                != name && servers.contains(without_name(servers, name)[k]),
{
    broadcast use vstd::seq_lib::group_filter_ensures;

    let p1 = |s: ServerInfo| not_named(s, name);
    let p2 = |s: ServerInfo| s.name@ != name;
    assert(p1 =~= p2);
    assert(without_name(servers, name) == servers.filter(p2));
    assert forall|k: int| 0 <= k < servers.filter(p2).len() implies #[trigger] servers.filter(p2)[k].name@
        != name && servers.contains(servers.filter(p2)[k]) by {
        assert(p2(servers.filter(p2)[k]));
        assert(servers.filter(p2).contains(servers.filter(p2)[k]));
        servers.lemma_filter_contains_rev(p2, servers.filter(p2)[k]);
    }
}

/// A new server's settings: its game port is searched from the configured
/// game port or 25565, its RCON port from the configured RCON port or 25575;
/// its password is the configured one or `defaultpassword`; its memory is
/// the configured amount, or 1024 MB when that is zero; its loader is
/// recorded by name.
pub proof fn law_new_server_defaults(config: Config, p: u16, r: u16, pw: String, ram: u32)
    ensures
        base_port(&(Config { port: Some(p), ..config }), PortKind::Game) == p,
        base_port(&(Config { port: None, ..config }), PortKind::Game) == 25565,
        base_port(&(Config { rcon_port: Some(r), ..config }), PortKind::Rcon) == r,
        base_port(&(Config { rcon_port: None, ..config }), PortKind::Rcon) == 25575,
        new_rcon_password(&(Config { rcon_password: Some(pw), ..config })) == pw@,
        new_rcon_password(&(Config { rcon_password: None, ..config })) == "defaultpassword"@,
        ram > 0 ==> resolved_max_ram(ram) == ram,
        resolved_max_ram(0) == 1024,
        loader_name(Loader::Vanilla) == "Vanilla"@,
        loader_name(Loader::Fabric) == "Fabric"@,
        loader_name(Loader::Forge) == "Forge"@,
        loader_name(Loader::NeoForge) == "NeoForge"@,
{
}

} // verus!
