use blockcommander::config::{
    default_rcon_port, defualtport, get_dir, has_free_port, next_available_port,
    next_available_rcon_port, servers_dir, set_max_ram, Config, PortKind, ServerInfo, ServerList,
};
use blockcommander::servers::{
    can_allocate_ports, change_ports, delete, find_server, listing_line, new_server_info, rcon_address,
    register, resolve_max_ram, Loader,
};

fn server(name: &str, port: u16, rcon_port: u16) -> ServerInfo {
    ServerInfo {
        name: name.to_string(),
        version: "1.20.1".to_string(),
        loader: "Vanilla".to_string(),
        port,
        rcon_port,
        rcon_password: "secret".to_string(),
        max_ram_mb: 2048,
        has_been_started: false,
    }
}

fn list_of(servers: Vec<ServerInfo>) -> ServerList {
    ServerList { servers }
}

#[test]
fn next_port_skips_taken_ports() {
    let list = list_of(vec![server("a", 25565, 25575), server("b", 25566, 25576)]);
    assert_eq!(next_available_port(25565, &list), 25567);
    assert_eq!(next_available_port(25566, &list), 25567);
    assert_eq!(next_available_port(25570, &list), 25570);
    assert_eq!(next_available_port(1, &list), 1);
}

#[test]
fn next_rcon_port_skips_taken_rcon_ports() {
    let list = list_of(vec![server("a", 25565, 25575), server("b", 25566, 25576)]);
    assert_eq!(next_available_rcon_port(25575, &list), 25577);
    // a game port does not block an RCON port
    assert_eq!(next_available_rcon_port(25565, &list), 25565);
}

#[test]
fn empty_list_gives_the_base_port() {
    let list = ServerList::default();
    assert_eq!(next_available_port(25565, &list), 25565);
    assert_eq!(next_available_rcon_port(65535, &list), 65535);
}

#[test]
fn free_port_check_sees_a_full_range() {
    let list = list_of(vec![server("a", 65535, 65534), server("b", 65534, 65535)]);
    assert!(!has_free_port(65534, &list, PortKind::Game));
    assert!(!has_free_port(65535, &list, PortKind::Rcon));
    assert!(has_free_port(65533, &list, PortKind::Game));
    let cfg = Config { port: Some(65534), ..Config::default() };
    assert!(!can_allocate_ports(&cfg, &list));
    assert!(can_allocate_ports(&Config::default(), &list));
}

#[test]
fn config_setters_change_only_their_field() {
    let mut c = Config::default();
    servers_dir(&mut c, "/srv/mc".to_string());
    defualtport(&mut c, 30000);
    default_rcon_port(&mut c, 30010);
    set_max_ram(&mut c, 4096);
    assert_eq!(c.servers_dir.as_deref(), Some("/srv/mc"));
    assert_eq!(c.port, Some(30000));
    assert_eq!(c.rcon_port, Some(30010));
    assert_eq!(c.rcon_password, None);
    assert_eq!(c.max_ram_mb, 4096);
    defualtport(&mut c, 30001);
    assert_eq!(c.rcon_port, Some(30010));
    assert_eq!(c.port, Some(30001));
}

#[test]
fn servers_dir_is_read_back() {
    let mut c = Config::default();
    assert_eq!(get_dir(&c), None);
    servers_dir(&mut c, "/home/me/servers".to_string());
    assert_eq!(get_dir(&c).as_deref(), Some("/home/me/servers"));
}

#[test]
fn new_server_uses_defaults() {
    let list = ServerList::default();
    let info = new_server_info("World".to_string(), "1.20.1".to_string(), Loader::Vanilla, &Config::default(), &list);
    assert_eq!(info.name, "World");
    assert_eq!(info.version, "1.20.1");
    assert_eq!(info.loader, "Vanilla");
    assert_eq!(info.port, 25565);
    assert_eq!(info.rcon_port, 25575);
    assert_eq!(info.rcon_password, "defaultpassword");
    assert_eq!(info.max_ram_mb, 1024);
    assert!(!info.has_been_started);
}

#[test]
fn new_server_uses_settings_and_avoids_collisions() {
    let list = list_of(vec![server("a", 30000, 31000), server("b", 30001, 31002)]);
    let cfg = Config {
        servers_dir: None,
        port: Some(30000),
        rcon_port: Some(31000),
        rcon_password: Some("hunter2".to_string()),
        max_ram_mb: 3072,
    };
    let info = new_server_info("c".to_string(), "1.21".to_string(), Loader::Forge, &cfg, &list);
    assert_eq!(info.port, 30002);
    assert_eq!(info.rcon_port, 31001);
    assert_eq!(info.loader, "Forge");
    assert_eq!(info.rcon_password, "hunter2");
    assert_eq!(info.max_ram_mb, 3072);
}

#[test]
fn servers_side_by_side_have_their_own_ports() {
    let mut list = ServerList::default();
    let cfg = Config::default();
    for i in 0..5 {
        let info = new_server_info(format!("s{}", i), "1.20.1".to_string(), Loader::Vanilla, &cfg, &list);
        register(&mut list, info);
    }
    for i in 0..5 {
        for j in (i + 1)..5 {
            assert_ne!(list.servers[i].port, list.servers[j].port);
            assert_ne!(list.servers[i].rcon_port, list.servers[j].rcon_port);
        }
    }
    assert_eq!(list.servers[4].port, 25569);
    assert_eq!(list.servers[4].rcon_port, 25579);
}

#[test]
fn max_ram_defaults_when_unset() {
    assert_eq!(resolve_max_ram(0), 1024);
    assert_eq!(resolve_max_ram(512), 512);
}

#[test]
fn delete_removes_every_server_of_the_name() {
    let mut list = list_of(vec![server("a", 1, 2), server("b", 3, 4), server("a", 5, 6), server("c", 7, 8)]);
    delete(&mut list, "a");
    let names: Vec<&str> = list.servers.iter().map(|s| s.name.as_str()).collect();
    assert_eq!(names, vec!["b", "c"]);
    assert_eq!(find_server(&list, "a"), None);
    delete(&mut list, "zzz");
    assert_eq!(list.servers.len(), 2);
}

#[test]
fn find_server_gives_the_first_match() {
    let list = list_of(vec![server("a", 1, 2), server("b", 3, 4), server("b", 5, 6)]);
    assert_eq!(find_server(&list, "b"), Some(1));
    assert_eq!(find_server(&list, "a"), Some(0));
    assert_eq!(find_server(&list, "B"), None);
    let mut list2 = ServerList::default();
    register(&mut list2, server("x", 9, 10));
    assert_eq!(find_server(&list2, "x"), Some(0));
}

#[test]
fn change_ports_changes_only_what_is_given() {
    let mut s = server("a", 25565, 25575);
    change_ports(&mut s, Some(26000), None);
    assert_eq!((s.port, s.rcon_port), (26000, 25575));
    change_ports(&mut s, None, Some(26010));
    assert_eq!((s.port, s.rcon_port), (26000, 26010));
    change_ports(&mut s, None, None);
    assert_eq!((s.port, s.rcon_port), (26000, 26010));
    assert_eq!(s.name, "a");
    assert_eq!(s.rcon_password, "secret");
}

#[test]
fn listing_line_shows_name_version_loader_port() {
    let s = server("MyWorld", 25565, 25575);
    assert_eq!(listing_line(&s), " - MyWorld (version: 1.20.1, loader: Vanilla, port: 25565)");
    let z = server("z", 0, 0);
    assert_eq!(listing_line(&z), " - z (version: 1.20.1, loader: Vanilla, port: 0)");
}

#[test]
fn rcon_address_is_local() {
    assert_eq!(rcon_address(25575), "127.0.0.1:25575");
    assert_eq!(rcon_address(7), "127.0.0.1:7");
    assert_eq!(rcon_address(65535), "127.0.0.1:65535");
}

#[test]
fn loader_names() {
    assert_eq!(Loader::Vanilla.name(), "Vanilla");
    assert_eq!(Loader::Fabric.name(), "Fabric");
    assert_eq!(Loader::Forge.name(), "Forge");
    assert_eq!(Loader::NeoForge.name(), "NeoForge");
}

#[test]
fn server_rcon_password_changes_only_the_password() {
    let mut s = server("a", 25565, 25575);
    blockcommander::servers::change_rcon_password(&mut s, "new".to_string());
    assert_eq!(s.rcon_password, "new");
    assert_eq!((s.port, s.rcon_port), (25565, 25575));
    assert_eq!(s.name, "a");
}
