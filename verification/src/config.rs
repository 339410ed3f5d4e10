//! The tool's settings, the description of each managed server, and the
//! central list of servers.

use vstd::prelude::*;

verus! {

/// Settings shared by every server that this tool manages.
pub struct Config {
    pub servers_dir: Option<String>,
    pub port: Option<u16>,
    pub rcon_port: Option<u16>,
    pub rcon_password: Option<String>,
    pub max_ram_mb: u32,
}

/// What the tool records about one server: its name, its Minecraft version,
/// its loader, its game and RCON ports and RCON password, the memory it may
/// use, and whether it has been started once.
#[derive(Clone)]
pub struct ServerInfo {
    pub name: String,
    pub version: String,
    pub loader: String,
    pub port: u16,
    pub rcon_port: u16,
    pub rcon_password: String,
    pub max_ram_mb: u32,
    pub has_been_started: bool,
}

/// The central list of every server the tool knows of.
pub struct ServerList {
    pub servers: Vec<ServerInfo>,
}

impl Default for Config {
    /// The settings in effect when none were saved: nothing set.
    fn default() -> (c: Config)
        ensures
            c.servers_dir is None,
            c.port is None,
            c.rcon_port is None,
            c.rcon_password is None,
            c.max_ram_mb == 0,
    {
        Config { servers_dir: None, port: None, rcon_port: None, rcon_password: None, max_ram_mb: 0 }
    }
}

impl Default for ServerList {
    /// The list when none was saved: no server.
    fn default() -> (l: ServerList)
        ensures
            l.servers@.len() == 0,
    {
        ServerList { servers: Vec::new() }
    }
}

/// The settings with the servers folder set to `dir`.
pub open spec fn with_servers_dir(config: Config, dir: String) -> Config {
    Config { servers_dir: Some(dir), ..config }
}

/// The servers folder that the settings name, if any.
pub open spec fn dir_of(config: Config) -> Option<String> {
    config.servers_dir
}

/// Sets the folder in which servers are created and kept.
pub fn servers_dir(config: &mut Config, dir: String)
    ensures
        *final(config) == with_servers_dir(*old(config), dir),
{
    config.servers_dir = Some(dir);
}

/// Sets the game port that new servers start from.
pub fn defualtport(config: &mut Config, port: u16)
    ensures
        *final(config) == (Config { port: Some(port), ..*old(config) }),
{
    config.port = Some(port);
}

/// Sets the RCON port that new servers start from.
pub fn default_rcon_port(config: &mut Config, port: u16)
    ensures
        *final(config) == (Config { rcon_port: Some(port), ..*old(config) }),
{
    config.rcon_port = Some(port);
}

/// Sets the memory, in MB, that new servers are given.
pub fn set_max_ram(config: &mut Config, ram_mb: u32)
    ensures
        *final(config) == (Config { max_ram_mb: ram_mb, ..*old(config) }),
{
    config.max_ram_mb = ram_mb;
}

/// The folder in which servers are kept, if one is set.
pub fn get_dir(config: &Config) -> (dir: Option<String>)
    ensures
        dir == dir_of(*config),
{
    match &config.servers_dir {
        Some(d) => Some(d.clone()),
        None => None,
    }
}

/// The folder that `servers_dir` sets is the one `get_dir` reads back, and
/// setting it changes no other setting.
pub proof fn law_servers_dir_read_back(config: Config, dir: String)
    ensures
        dir_of(with_servers_dir(config, dir)) == Some(dir),
        with_servers_dir(config, dir).port == config.port,
        with_servers_dir(config, dir).rcon_port == config.rcon_port,
        with_servers_dir(config, dir).rcon_password == config.rcon_password,
        with_servers_dir(config, dir).max_ram_mb == config.max_ram_mb,
{
}

/// The game port a new server starts from when the settings name none.
pub const DEFAULT_GAME_PORT: u16 = 25565;

/// The RCON port a new server starts from when the settings name none.
pub const DEFAULT_RCON_PORT: u16 = 25575;

/// The memory, in MB, a server is given when none is set.
pub const DEFAULT_MAX_RAM_MB: u32 = 1024;

/// Which of a server's two ports is meant.
#[derive(Clone, Copy, Debug, PartialEq, Eq, Structural)]
pub enum PortKind {
    Game,
    Rcon,
}

/// The port of the given kind of a server.
pub open spec fn port_of(info: ServerInfo, kind: PortKind) -> u16 {
    match kind {
        PortKind::Game => info.port,
        PortKind::Rcon => info.rcon_port,
    }
}

/// Whether some server of the list uses `port` as its port of the given kind.
pub open spec fn port_in_use(servers: Seq<ServerInfo>, kind: PortKind, port: u16) -> bool {
    exists|i: int| 0 <= i < servers.len() && port_of(#[trigger] servers[i], kind) == port
}

/// Whether some port at or above `base` is free of the given kind.
pub open spec fn free_port_exists(servers: Seq<ServerInfo>, kind: PortKind, base: u16) -> bool {
    exists|p: u16| base <= p && !port_in_use(servers, kind, p)
}

/// `port` is the lowest port at or above `base` that no server uses.
pub open spec fn is_first_free_port(servers: Seq<ServerInfo>, kind: PortKind, base: u16, port: u16) -> bool {
    &&& base <= port
    &&& !port_in_use(servers, kind, port)
    &&& forall|q: u16| base <= q < port ==> port_in_use(servers, kind, q)
}

/// Whether a server of the list uses `port` as its port of the given kind.
pub fn uses_port(list: &ServerList, kind: PortKind, port: u16) -> (b: bool)
    ensures
        b == port_in_use(list.servers@, kind, port),
{
    let mut i: usize = 0;
    while i < list.servers.len()
        invariant
            i <= list.servers@.len(),
            forall|m: int| 0 <= m < i ==> port_of(#[trigger] list.servers@[m], kind) != port,
        decreases list.servers.len() - i,
    {
        let s = &list.servers[i];
        let p = match kind {
            PortKind::Game => s.port,
            PortKind::Rcon => s.rcon_port,
        };
        if p == port {
            assert(port_of(list.servers@[i as int], kind) == port);
            return true;
        }
        i = i + 1;
    }
    false
}

/// The lowest port of the given kind at or above `base` that no server of
/// the list uses. A port is needed: some port at or above `base` is free.
pub fn next_free_port(base: u16, list: &ServerList, kind: PortKind) -> (port: u16)
    requires
        free_port_exists(list.servers@, kind, base),
    ensures
        is_first_free_port(list.servers@, kind, base, port),
{
    let ghost free = choose|p: u16| base <= p && !port_in_use(list.servers@, kind, p);
    let mut candidate = base;
    loop
        invariant
            base <= candidate <= free,
            !port_in_use(list.servers@, kind, free),
            forall|q: u16| base <= q < candidate ==> port_in_use(list.servers@, kind, q),
        decreases free - candidate,
    {
        if !uses_port(list, kind, candidate) {
            return candidate;
        }
        candidate = candidate + 1;
    }
}

/// Whether a port of the given kind at or above `base` is free.
pub fn has_free_port(base: u16, list: &ServerList, kind: PortKind) -> (b: bool)
    ensures
        b == free_port_exists(list.servers@, kind, base),
{
    let mut candidate = base;
    loop
        invariant
            base <= candidate,
            forall|q: u16| base <= q < candidate ==> port_in_use(list.servers@, kind, q),
        decreases u16::MAX - candidate,
    {
        if !uses_port(list, kind, candidate) {
            return true;
        }
        if candidate == u16::MAX {
            assert forall|p: u16| base <= p implies port_in_use(list.servers@, kind, p) by {
                assert(p < candidate || p == candidate);
            }
            return false;
        }
        candidate = candidate + 1;
    }
}

/// The lowest game port at or above `base` that no server of the list uses.
pub fn next_available_port(base: u16, list: &ServerList) -> (port: u16)
    requires
        free_port_exists(list.servers@, PortKind::Game, base),
    ensures
        is_first_free_port(list.servers@, PortKind::Game, base, port),
{
    next_free_port(base, list, PortKind::Game)
}

/// The lowest RCON port at or above `base` that no server of the list uses.
pub fn next_available_rcon_port(base: u16, list: &ServerList) -> (port: u16)
    requires
        free_port_exists(list.servers@, PortKind::Rcon, base),
    ensures
        is_first_free_port(list.servers@, PortKind::Rcon, base, port),
{
    next_free_port(base, list, PortKind::Rcon)
}

/// Whether some server of the list has `port` as its game port.
pub open spec fn some_server_has_game_port(servers: Seq<ServerInfo>, port: u16) -> bool {
    exists|i: int| 0 <= i < servers.len() && servers[i].port == port
}

/// Whether some server of the list has `port` as its RCON port.
pub open spec fn some_server_has_rcon_port(servers: Seq<ServerInfo>, port: u16) -> bool {
    exists|i: int| 0 <= i < servers.len() && servers[i].rcon_port == port
}

/// The port search gives the lowest port at or above the base that no
/// server of the list uses as that kind of port: no server uses it, and every
/// port from the base up to it is used by some server.
pub proof fn law_port_search(servers: Seq<ServerInfo>, base: u16, port: u16)
    requires
        is_first_free_port(servers, PortKind::Game, base, port),
    ensures
        base <= port,
        forall|i: int| 0 <= i < servers.len() ==> #[trigger] servers[i].port != port,
        forall|q: u16| base <= q < port ==> #[trigger] some_server_has_game_port(servers, q),
{
    assert forall|i: int| 0 <= i < servers.len() implies #[trigger] servers[i].port != port by {
        assert(port_of(servers[i], PortKind::Game) == servers[i].port);
    }
    assert forall|q: u16| base <= q < port implies #[trigger] some_server_has_game_port(servers, q) by {
        assert(port_in_use(servers, PortKind::Game, q));
        let i = choose|i: int| 0 <= i < servers.len() && port_of(#[trigger] servers[i], PortKind::Game) == q;
        assert(servers[i].port == q);
    }
}

/// The same for RCON ports.
pub proof fn law_rcon_port_search(servers: Seq<ServerInfo>, base: u16, port: u16)
    requires
        is_first_free_port(servers, PortKind::Rcon, base, port),
    ensures
        base <= port,
        forall|i: int| 0 <= i < servers.len() ==> #[trigger] servers[i].rcon_port != port,
        forall|q: u16| base <= q < port ==> #[trigger] some_server_has_rcon_port(servers, q),
{
    assert forall|i: int| 0 <= i < servers.len() implies #[trigger] servers[i].rcon_port != port by {
        assert(port_of(servers[i], PortKind::Rcon) == servers[i].rcon_port);
    }
    assert forall|q: u16| base <= q < port implies #[trigger] some_server_has_rcon_port(servers, q) by {
        assert(port_in_use(servers, PortKind::Rcon, q));
        let i = choose|i: int| 0 <= i < servers.len() && port_of(#[trigger] servers[i], PortKind::Rcon) == q;
        assert(servers[i].rcon_port == q);
    }
}

} // verus!
