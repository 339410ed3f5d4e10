use blockcommander::config::{Config, ServerInfo};
use blockcommander::launch::{first_run_due, needs_first_start, run_server, start_async_server, start_server, LaunchPlan, STOP_COMMAND};
use blockcommander::manifest::{find_version_url, VersionEntry, VersionManifest};
use blockcommander::properties::{first_time_server_properties, firsttime_server_properties, mark_started};
use blockcommander::text::{same_text, trimmed};

fn info(loader: &str, started: bool) -> ServerInfo {
    ServerInfo {
        name: "World".to_string(),
        version: "1.20.1".to_string(),
        loader: loader.to_string(),
        port: 25570,
        rcon_port: 25580,
        rcon_password: "pw".to_string(),
        max_ram_mb: 2048,
        has_been_started: started,
    }
}

const PROPERTIES: &str = "#Minecraft server properties\nenable-rcon=false\nlevel-name=world\nmotd=A Minecraft Server\nrcon.password=\nrcon.port=25575\nserver-port=25565\n";

#[test]
fn first_start_rewrites_ports_rcon_and_level() {
    let u = first_time_server_properties(PROPERTIES, "MyWorld", &info("Vanilla", false));
    assert_eq!(
        u.contents,
        "#Minecraft server properties\nenable-rcon=true\nlevel-name=MyWorld\nmotd=A Minecraft Server\nrcon.password=pw\nrcon.port=25580\nserver-port=25570"
    );
    assert!(u.port_updated && u.rcon_port_updated && u.rcon_enabled && u.level_name_updated);
}

#[test]
fn first_start_leaves_other_lines_and_reports_missing_keys() {
    let u = first_time_server_properties("motd=hi\r\npvp=true", "w", &info("Vanilla", false));
    assert_eq!(u.contents, "motd=hi\npvp=true\nenable-rcon=true\nrcon.port=25580\nrcon.password=pw");
    assert!(!u.port_updated && !u.rcon_port_updated && !u.rcon_enabled && !u.level_name_updated);
    let empty = first_time_server_properties("", "w", &info("Vanilla", false));
    assert_eq!(empty.contents, "enable-rcon=true\nrcon.port=25580\nrcon.password=pw");
}

#[test]
fn only_line_starts_count() {
    let u = first_time_server_properties("# server-port=1\n server-port=2\nserver-port=3\n\n", "w", &info("Vanilla", false));
    assert_eq!(
        u.contents,
        "# server-port=1\n server-port=2\nserver-port=25570\n\nenable-rcon=true\nrcon.port=25580\nrcon.password=pw"
    );
}

#[test]
fn basic_first_start_sets_port_and_level_only() {
    let cfg = Config { port: Some(30000), ..Config::default() };
    let u = firsttime_server_properties(PROPERTIES, "Other", &cfg);
    assert_eq!(
        u.contents,
        "#Minecraft server properties\nenable-rcon=false\nlevel-name=Other\nmotd=A Minecraft Server\nrcon.password=\nrcon.port=25575\nserver-port=30000"
    );
    assert!(u.port_updated && u.level_name_updated && !u.rcon_port_updated && !u.rcon_enabled);
    let d = firsttime_server_properties("server-port=1", "x", &Config::default());
    assert_eq!(d.contents, "server-port=25565");
}

#[test]
fn mark_started_sets_the_flag() {
    let text = "name = \"World\"\nport = 25565\nhas_been_started = false\n";
    assert_eq!(mark_started(text), "name = \"World\"\nport = 25565\nhas_been_started = true");
    assert_eq!(mark_started("has_been_started=false"), "has_been_started=false");
    assert_eq!(mark_started(""), "");
}

#[test]
fn first_start_due_only_once() {
    assert!(needs_first_start(false, &info("Vanilla", false)));
    assert!(!needs_first_start(true, &info("Vanilla", false)));
    assert!(needs_first_start(true, &info("Forge", false)));
    assert!(!needs_first_start(false, &info("Vanilla", true)));
    assert!(!needs_first_start(false, &info("Forge", true)));
}

fn java_args(plan: LaunchPlan) -> (Vec<String>, String, Vec<String>) {
    match plan {
        LaunchPlan::Java(l) => (l.before_jar, l.jar, l.after_jar),
        LaunchPlan::RunScript { .. } => panic!("expected a java launch"),
    }
}

#[test]
fn vanilla_and_fabric_run_their_jars() {
    let (before, jar, after) = java_args(start_server("Vanilla", Some(2048)));
    assert_eq!(before, vec!["-Xmx2048M", "-Xms2048M", "-jar"]);
    assert_eq!(jar, "server.jar");
    assert_eq!(after, vec!["nogui"]);
    let (before, jar, _) = java_args(start_server("Fabric", None));
    assert_eq!(before, vec!["-Xmx1024M", "-Xms1024M", "-jar"]);
    assert_eq!(jar, "fabric-server-launch.jar");
    let (_, jar, _) = java_args(start_server("NeoForge", Some(0)));
    assert_eq!(jar, "");
    let (before, _, _) = java_args(start_server("Vanilla", Some(0)));
    assert_eq!(before, vec!["-Xmx0M", "-Xms0M", "-jar"]);
}

#[test]
fn forge_runs_its_script_with_jvm_args() {
    let max_ram = 3000;
    let expected = format!("\
        -Xmx{}M
        \n-Xms{}M
        \n-XX:+UseG1GC
        \n-XX:MaxGCPauseMillis=200
        \n-XX:+ParallelRefProcEnabled
        \n-XX:+DisableExplicitGC
        \n-XX:MaxTenuringThreshold=1
        \n-XX:SurvivorRatio=32
        \n-Djava.awt.headless=true
        ", max_ram, max_ram);
    match start_server("Forge", Some(3000)) {
        LaunchPlan::RunScript { jvm_args, java_home } => {
            assert_eq!(jvm_args, expected);
            assert_eq!(java_home, "/usr/lib/jvm/java-17-openjdk");
        }
        LaunchPlan::Java(_) => panic!("expected the run script"),
    }
}

#[test]
fn dashboard_launch_defaults_memory() {
    let l = start_async_server(Some(0));
    assert_eq!(l.before_jar, vec!["-Xmx1024M", "-Xms1024M", "-jar"]);
    assert_eq!(l.jar, "server.jar");
    assert_eq!(l.after_jar, vec!["nogui"]);
    let l = start_async_server(Some(512));
    assert_eq!(l.before_jar[0], "-Xmx512M");
    let l = start_async_server(None);
    assert_eq!(l.before_jar[1], "-Xms1024M");
    assert_eq!(STOP_COMMAND, "stop\n");
}

#[test]
fn version_lookup_takes_the_first_match() {
    let m = VersionManifest {
        versions: vec![
            VersionEntry { id: "1.21".to_string(), url: "https://a/1.21.json".to_string() },
            VersionEntry { id: "1.20.1".to_string(), url: "https://a/1.20.1.json".to_string() },
            VersionEntry { id: "1.20.1".to_string(), url: "https://b/dup.json".to_string() },
        ],
    };
    assert_eq!(find_version_url(&m, "1.20.1").as_deref(), Some("https://a/1.20.1.json"));
    assert_eq!(find_version_url(&m, "1.21").as_deref(), Some("https://a/1.21.json"));
    assert_eq!(find_version_url(&m, "1.19"), None);
    assert_eq!(find_version_url(&VersionManifest { versions: vec![] }, "1.21"), None);
}

#[test]
fn trimming_and_comparing_text() {
    assert_eq!(trimmed("  /opt/forge.jar \n"), "/opt/forge.jar");
    assert_eq!(trimmed("\u{3000}x\u{a0}"), "x");
    assert_eq!(trimmed(" \t\r\n"), "");
    assert!(same_text("abc", "abc"));
    assert!(!same_text("abc", "abd"));
    assert!(!same_text("ab", "abc"));
    assert!(same_text("", ""));
}

#[test]
fn rewriting_twice_changes_nothing() {
    let i = info("Vanilla", false);
    let once = first_time_server_properties(PROPERTIES, "MyWorld", &i);
    let twice = first_time_server_properties(&once.contents, "MyWorld", &i);
    assert_eq!(once.contents, twice.contents);
    let crlf = "a=1\r\nserver-port=1\r\nb=2";
    let once = first_time_server_properties(crlf, "w", &i).contents;
    assert_eq!(first_time_server_properties(&once, "w", &i).contents, once);
    let marked = mark_started("x = 1\nhas_been_started = false");
    assert_eq!(mark_started(&marked), marked);
}

#[test]
fn rewriting_twice_changes_nothing_on_more_files() {
    let i = info("Vanilla", false);
    let once = first_time_server_properties("\n", "w", &i).contents;
    assert_eq!(once, "\nenable-rcon=true\nrcon.port=25580\nrcon.password=pw");
    assert_eq!(first_time_server_properties(&once, "w", &i).contents, once);
    // no level-name line, so the name's line break never reaches the file
    let once = first_time_server_properties("motd=x\nserver-port=1", "two\nlines", &i).contents;
    assert_eq!(first_time_server_properties(&once, "two\nlines", &i).contents, once);
    // a stray carriage return on a line that is replaced anyway
    let once = first_time_server_properties("server-port=1\r\r\nmotd=x", "w", &i).contents;
    assert_eq!(once, "server-port=25570\nmotd=x\nenable-rcon=true\nrcon.port=25580\nrcon.password=pw");
    assert_eq!(first_time_server_properties(&once, "w", &i).contents, once);
}

#[test]
fn marked_description_says_started() {
    let marked = mark_started("has_been_started = false\r\nname = \"w\"\nhas_been_started =  false");
    assert_eq!(marked, "has_been_started = true\nname = \"w\"\nhas_been_started = true");
}


#[test]
fn missing_rcon_lines_are_added() {
    let i = info("Vanilla", false);
    let u = first_time_server_properties("motd=x\nenable-rcon=false\n", "w", &i);
    assert_eq!(u.contents, "motd=x\nenable-rcon=true\nrcon.port=25580\nrcon.password=pw");
    assert!(u.rcon_enabled && !u.rcon_port_updated);
    let u = first_time_server_properties("motd=x", "w", &i);
    assert_eq!(u.contents, "motd=x\nenable-rcon=true\nrcon.port=25580\nrcon.password=pw");
    // a password ending in a carriage return still rewrites stably
    let mut j = info("Vanilla", false);
    j.rcon_password = "pw\r".to_string();
    let once = first_time_server_properties("rcon.password=\nmotd=x", "w", &j).contents;
    assert_eq!(first_time_server_properties(&once, "w", &j).contents, once);
}

#[test]
fn foreground_run_plan() {
    let l = run_server();
    assert_eq!(l.before_jar, vec!["-jar"]);
    assert_eq!(l.jar, "server.jar");
    assert!(l.after_jar.is_empty());
    assert!(first_run_due(false));
    assert!(!first_run_due(true));
}
