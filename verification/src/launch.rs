//! How a server process is started: whether its first-start setup is due,
//! which jar it runs, the memory it is given and the JVM arguments.

use vstd::prelude::*;
use crate::config::{ServerInfo, DEFAULT_MAX_RAM_MB};
use crate::servers::{resolve_max_ram, resolved_max_ram};
use crate::text::{decimal, push_decimal, same_text};

verus! {

/// The line a server's console is sent to shut it down.
pub const STOP_COMMAND: &'static str = "stop\n";

/// The Java installation that a Forge server's run script is started with.
pub const FORGE_JAVA_HOME: &'static str = "/usr/lib/jvm/java-17-openjdk";

/// The file into which a Forge server's JVM arguments are written.
pub const FORGE_JVM_ARGS_FILE: &'static str = "user_jvm_args.txt";

/// Whether a server's first-start setup is due: it has never been started,
/// and either it has no `server.properties` yet or it is not a vanilla server.
pub open spec fn first_start_due(properties_exist: bool, info: ServerInfo) -> bool {
    (!properties_exist || info.loader@ != "Vanilla"@) && !info.has_been_started
}

/// Whether a server's first-start setup is due.
pub fn needs_first_start(properties_exist: bool, info: &ServerInfo) -> (due: bool)
    ensures
        due == first_start_due(properties_exist, *info),
{
    (!properties_exist || !same_text(info.loader.as_str(), "Vanilla")) && !info.has_been_started
}

/// The jar file a server of the given loader runs from: `server.jar` for
/// Vanilla, `fabric-server-launch.jar` for Fabric, and none (empty) otherwise.
pub open spec fn jar_of(loader: Seq<char>) -> Seq<char> {
    if loader == "Vanilla"@ {
        "server.jar"@
    } else if loader == "Fabric"@ {
        "fabric-server-launch.jar"@
    } else {
        Seq::empty()
    }
}

/// The JVM heap argument `flag` followed by the amount in MB: `-Xmx1024M`.
pub open spec fn heap_arg(flag: Seq<char>, ram_mb: u32) -> Seq<char> {
    flag + decimal(ram_mb as nat) + "M"@
}

/// The memory a server is launched with: the amount its description sets,
/// or the default when the description could not be read.
pub open spec fn launch_ram(described: Option<u32>) -> u32 {
    match described {
        Some(r) => r,
        None => DEFAULT_MAX_RAM_MB,
    }
}

/// A server started directly by `java`: the arguments before the jar's path,
/// the jar (a file in the server's folder), and the arguments after it.
pub struct JavaLaunch {
    pub before_jar: Vec<String>,
    pub jar: String,
    pub after_jar: Vec<String>,
}

/// How a server is started.
pub enum LaunchPlan {
    /// `java` runs the server's jar.
    Java(JavaLaunch),
    /// The server's `run.sh` runs it, with `jvm_args` written into the
    /// server's JVM arguments file and `java_home` as the Java installation.
    RunScript { jvm_args: String, java_home: String },
}

/// The arguments before the jar: maximum and initial heap, then `-jar`.
pub open spec fn heap_args(ram_mb: u32) -> Seq<Seq<char>> {
    seq![heap_arg("-Xmx"@, ram_mb), heap_arg("-Xms"@, ram_mb), "-jar"@]
}

/// The views of a list of strings.
pub open spec fn views(v: Seq<String>) -> Seq<Seq<char>> {
    v.map_values(|s: String| s@)
}

/// `java` with the given heap running `jar`, without a console window.
pub open spec fn java_launch_is(l: JavaLaunch, ram_mb: u32, jar: Seq<char>) -> bool {
    &&& views(l.before_jar@) == heap_args(ram_mb)
    &&& l.jar@ == jar
    &&& views(l.after_jar@) == seq!["nogui"@]
}

/// The JVM arguments file of a Forge server with the given heap.
pub open spec fn forge_jvm_args(ram_mb: u32) -> Seq<char> {
    "-Xmx"@ + decimal(ram_mb as nat) + "M\n        \n-Xms"@ + decimal(ram_mb as nat)
        + "M\n        \n-XX:+UseG1GC\n        \n-XX:MaxGCPauseMillis=200\n        \n-XX:+ParallelRefProcEnabled\n        \n-XX:+DisableExplicitGC\n        \n-XX:MaxTenuringThreshold=1\n        \n-XX:SurvivorRatio=32\n        \n-Djava.awt.headless=true\n        "@
}

fn heap_arg_string(flag: &str, ram_mb: u32) -> (s: String)
    ensures
        s@ == heap_arg(flag@, ram_mb),
{
    let mut s = String::from_str(flag);
    push_decimal(&mut s, ram_mb);
    s.append("M");
    s
}

fn java_launch(ram_mb: u32, jar: &str) -> (l: JavaLaunch)
    ensures
        java_launch_is(l, ram_mb, jar@),
{
    let mut before_jar: Vec<String> = Vec::new();
    before_jar.push(heap_arg_string("-Xmx", ram_mb));
    before_jar.push(heap_arg_string("-Xms", ram_mb));
    before_jar.push(String::from_str("-jar"));
    let mut after_jar: Vec<String> = Vec::new();
    after_jar.push(String::from_str("nogui"));
    assert(views(before_jar@) =~= heap_args(ram_mb));
    assert(views(after_jar@) =~= seq!["nogui"@]);
    JavaLaunch { before_jar, jar: String::from_str(jar), after_jar }
}

/// How a server of the given loader is started, with the memory its
/// description sets (or the default when it could not be read): a Forge
/// server through its run script with the Forge JVM arguments, any other
/// directly by `java` with that heap and the loader's jar.
pub fn start_server(loader: &str, described_ram: Option<u32>) -> (plan: LaunchPlan)
    ensures
        loader@ == "Forge"@ ==> (plan matches LaunchPlan::RunScript { jvm_args, java_home }
            && jvm_args@ == forge_jvm_args(launch_ram(described_ram)) && java_home@
            == FORGE_JAVA_HOME@),
        loader@ != "Forge"@ ==> (plan matches LaunchPlan::Java(l) && java_launch_is(
            l,
            launch_ram(described_ram),
            jar_of(loader@),
        )),
{
    let ram = match described_ram {
        Some(r) => r,
        None => DEFAULT_MAX_RAM_MB,
    };
    if !same_text(loader, "Forge") {
        if same_text(loader, "Vanilla") {
            LaunchPlan::Java(java_launch(ram, "server.jar"))
        } else if same_text(loader, "Fabric") {
            LaunchPlan::Java(java_launch(ram, "fabric-server-launch.jar"))
        } else {
            proof {
                reveal_strlit("");
            }
            assert(""@ =~= Seq::<char>::empty());
            LaunchPlan::Java(java_launch(ram, ""))
        }
    } else {
        let mut jvm_args = String::from_str("-Xmx");
        push_decimal(&mut jvm_args, ram);
        jvm_args.append("M\n        \n-Xms");
        push_decimal(&mut jvm_args, ram);
        jvm_args.append(
            "M\n        \n-XX:+UseG1GC\n        \n-XX:MaxGCPauseMillis=200\n        \n-XX:+ParallelRefProcEnabled\n        \n-XX:+DisableExplicitGC\n        \n-XX:MaxTenuringThreshold=1\n        \n-XX:SurvivorRatio=32\n        \n-Djava.awt.headless=true\n        ",
        );
        LaunchPlan::RunScript { jvm_args, java_home: String::from_str(FORGE_JAVA_HOME) }
    }
}

/// How the dashboard starts a server: `java` runs `server.jar` with the
/// memory its description sets, or the default when none is set or the
/// description could not be read.
pub fn start_async_server(described_ram: Option<u32>) -> (l: JavaLaunch)
    ensures
        java_launch_is(
            l,
            resolved_max_ram(
                match described_ram {
                    Some(r) => r,
                    None => 0,
                },
            ),
            "server.jar"@,
        ),
{
    let ram = match described_ram {
        Some(r) => resolve_max_ram(r),
        None => DEFAULT_MAX_RAM_MB,
    };
    java_launch(ram, "server.jar")
}

/// Whether the foreground `run` must let the server write its files first:
/// it has no `server.properties` yet.
pub fn first_run_due(properties_exist: bool) -> (due: bool)
    ensures
        due == !properties_exist,
{
    !properties_exist
}

/// How the foreground `run` starts a server: `java -jar server.jar`, with
/// no heap arguments and no `nogui`.
pub fn run_server() -> (l: JavaLaunch)
    ensures
        views(l.before_jar@) == seq!["-jar"@],
        l.jar@ == "server.jar"@,
        views(l.after_jar@) == Seq::<Seq<char>>::empty(),
{
    let mut before_jar: Vec<String> = Vec::new();
    before_jar.push(String::from_str("-jar"));
    let after_jar: Vec<String> = Vec::new();
    assert(views(before_jar@) =~= seq!["-jar"@]);
    assert(views(after_jar@) =~= Seq::<Seq<char>>::empty());
    JavaLaunch { before_jar, jar: String::from_str("server.jar"), after_jar }
}

/// First-start setup runs once: it is never due for a server that has been
/// started; for one that has not, it is due when `server.properties` is
/// missing, and otherwise exactly when the server is not vanilla.
pub proof fn law_first_start_only_once(properties_exist: bool, info: ServerInfo)
    ensures
        info.has_been_started ==> !first_start_due(properties_exist, info),
        !info.has_been_started && !properties_exist ==> first_start_due(properties_exist, info),
        !info.has_been_started && properties_exist ==> (first_start_due(properties_exist, info) <==> info.loader@
            != "Vanilla"@),
{
}

/// The jar a loader's server runs from, and its heap: Vanilla runs
/// `server.jar`, Fabric `fabric-server-launch.jar`, others none; the heap
/// arguments are `-Xmx` and `-Xms` with the amount in MB, then `-jar`; the
/// memory is the described amount, or 1024 MB when it could not be read.
pub proof fn law_launch_settings(ram: u32)
    ensures
        jar_of("Vanilla"@) == "server.jar"@,
        jar_of("Fabric"@) == "fabric-server-launch.jar"@,
        heap_args(ram) == seq![
            "-Xmx"@ + decimal(ram as nat) + "M"@,
            "-Xms"@ + decimal(ram as nat) + "M"@,
            "-jar"@,
        ],
        launch_ram(Some(ram)) == ram,
        launch_ram(None) == 1024,
{
    reveal_strlit("Vanilla");
    reveal_strlit("Fabric");
    assert("Vanilla"@[0] != "Fabric"@[0]);
}

} // verus!
