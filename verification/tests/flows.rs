use blockcommander::creation::{create, eula_accepted, CreateAction, CreateOutcome, Stage};
use blockcommander::dashboard::{Dashboard, DashboardAction, DashboardEvent, DashboardKey, Phase};
use blockcommander::servers::Loader;

fn line(s: &str) -> DashboardEvent {
    DashboardEvent::ServerLine(s.to_string())
}

fn sent(a: DashboardAction) -> Option<String> {
    match a {
        DashboardAction::Send(t) => Some(t),
        _ => None,
    }
}

#[test]
fn dashboard_follows_the_log() {
    let mut d = Dashboard::new(5, true);
    for i in 0..20 {
        d.step(line(&format!("line {}", i)), 15);
    }
    assert_eq!(d.log_lines.len(), 20);
    assert_eq!(d.scroll_offset, 10);
    d.step(DashboardEvent::ServerWarning("careful".to_string()), 15);
    assert_eq!(d.log_lines[20], "[warn] careful");
    assert_eq!(d.scroll_offset, 11);
    // a terminal smaller than the frames shows the log from its end
    d.step(DashboardEvent::StatsTick, 3);
    assert_eq!(d.scroll_offset, 21);
}

#[test]
fn scrolling_up_stops_following() {
    let mut d = Dashboard::new(2, false);
    for i in 0..10 {
        d.step(line(&i.to_string()), 6);
    }
    assert_eq!(d.scroll_offset, 6);
    d.step(DashboardEvent::Key(DashboardKey::Up), 6);
    assert!(!d.auto_scroll);
    assert_eq!(d.scroll_offset, 5);
    d.step(line("more"), 6);
    assert_eq!(d.scroll_offset, 5);
    d.step(DashboardEvent::Key(DashboardKey::Down), 6);
    d.step(DashboardEvent::Key(DashboardKey::Down), 6);
    assert_eq!(d.scroll_offset, 7);
    for _ in 0..10 {
        d.step(DashboardEvent::Key(DashboardKey::Up), 6);
    }
    assert_eq!(d.scroll_offset, 0);
}

#[test]
fn typed_commands_are_sent_with_a_newline() {
    let mut d = Dashboard::new(5, true);
    for c in "sayx".chars() {
        assert!(sent(d.step(DashboardEvent::Key(DashboardKey::Char(c)), 20)).is_none());
    }
    d.step(DashboardEvent::Key(DashboardKey::Backspace), 20);
    d.step(DashboardEvent::Key(DashboardKey::Char(' ')), 20);
    d.step(DashboardEvent::Key(DashboardKey::Char('q')), 20);
    assert_eq!(d.input, "say q");
    assert_eq!(d.phase, Phase::Running);
    let a = d.step(DashboardEvent::Key(DashboardKey::Enter), 20);
    assert_eq!(sent(a).as_deref(), Some("say q\n"));
    assert_eq!(d.input, "");
    assert_eq!(d.log_lines.last().map(|s| s.as_str()), Some("> say q"));
    assert!(sent(d.step(DashboardEvent::Key(DashboardKey::Enter), 20)).is_none());
    d.step(DashboardEvent::Key(DashboardKey::Backspace), 20);
    assert_eq!(d.input, "");
}

#[test]
fn without_command_box_typing_is_ignored() {
    let mut d = Dashboard::new(2, false);
    d.step(DashboardEvent::Key(DashboardKey::Char('a')), 20);
    assert_eq!(d.input, "");
    assert!(sent(d.step(DashboardEvent::Key(DashboardKey::Enter), 20)).is_none());
    d.step(DashboardEvent::Key(DashboardKey::Other), 20);
    assert_eq!(d.log_lines.len(), 0);
}

#[test]
fn q_stops_the_server_and_waits_for_it() {
    let mut d = Dashboard::new(5, true);
    d.step(line("hello"), 10);
    let a = d.step(DashboardEvent::Key(DashboardKey::Char('q')), 10);
    assert_eq!(sent(a).as_deref(), Some("stop\n"));
    assert_eq!(d.phase, Phase::ShuttingDown { exited: false, stdout_closed: false, stderr_closed: false });
    d.step(DashboardEvent::Key(DashboardKey::Char('x')), 10);
    assert_eq!(d.input, "");
    d.step(line("Stopping server"), 10);
    d.step(DashboardEvent::ServerExited(false), 10);
    d.step(DashboardEvent::ServerExited(true), 10);
    d.step(DashboardEvent::StdoutClosed, 10);
    d.step(line("ignored after close"), 10);
    assert_eq!(d.log_lines.len(), 2);
    assert!(matches!(d.phase, Phase::ShuttingDown { exited: true, stdout_closed: true, stderr_closed: false }));
    d.step(DashboardEvent::StderrClosed, 10);
    assert_eq!(d.phase, Phase::Finished);
    assert!(matches!(d.step(line("late"), 10), DashboardAction::Nothing));
    assert_eq!(d.log_lines.len(), 2);
}

#[test]
fn slow_shutdown_kills_the_server() {
    let mut d = Dashboard::new(5, true);
    d.step(DashboardEvent::Key(DashboardKey::Char('q')), 10);
    assert!(matches!(d.step(DashboardEvent::ShutdownTimedOut, 10), DashboardAction::Kill));
    assert_eq!(d.phase, Phase::Finished);
}

#[test]
fn eula_answers() {
    assert!(eula_accepted("y\n"));
    assert!(eula_accepted("  Y  "));
    assert!(!eula_accepted("yes"));
    assert!(!eula_accepted("n"));
    assert!(!eula_accepted(""));
    assert!(!eula_accepted("y y"));
}

fn text(s: &str) -> CreateOutcome {
    CreateOutcome::Text(s.to_string())
}

#[test]
fn vanilla_creation_happy_path() {
    let (mut f, a) = create(Loader::Vanilla);
    assert!(matches!(a, CreateAction::LocateServersDir));
    assert!(matches!(f.step(CreateOutcome::Succeeded), CreateAction::CheckFolderFree));
    assert!(matches!(f.step(CreateOutcome::Succeeded), CreateAction::MakeFolder));
    assert!(matches!(f.step(CreateOutcome::Succeeded), CreateAction::FindVersion));
    match f.step(text("https://x/1.20.1.json")) {
        CreateAction::DownloadJar(u) => assert_eq!(u, "https://x/1.20.1.json"),
        _ => panic!("expected a download"),
    }
    assert!(matches!(f.step(CreateOutcome::Succeeded), CreateAction::AskEula));
    assert!(matches!(f.step(text("y\n")), CreateAction::WriteEula));
    assert!(matches!(f.step(CreateOutcome::Succeeded), CreateAction::Register));
    assert!(matches!(f.step(CreateOutcome::Succeeded), CreateAction::Sync));
    assert!(matches!(f.step(CreateOutcome::Succeeded), CreateAction::Done));
    assert!(f.eula_accepted && f.made_folder);
    assert_eq!(f.stage, Stage::Finished);
}

#[test]
fn existing_folder_is_never_removed() {
    let (mut f, _) = create(Loader::Vanilla);
    f.step(CreateOutcome::Succeeded);
    assert!(matches!(f.step(CreateOutcome::Failed), CreateAction::Sync));
    assert!(!f.made_folder);
    assert!(matches!(f.step(CreateOutcome::Succeeded), CreateAction::Done));
}

#[test]
fn failures_after_making_the_folder_remove_it() {
    let (mut f, _) = create(Loader::Vanilla);
    f.step(CreateOutcome::Succeeded);
    f.step(CreateOutcome::Succeeded);
    f.step(CreateOutcome::Succeeded);
    assert!(matches!(f.step(CreateOutcome::Failed), CreateAction::RemoveFolder));
    assert!(matches!(f.step(CreateOutcome::Succeeded), CreateAction::Sync));

    let (mut g, _) = create(Loader::Vanilla);
    for _ in 0..3 {
        g.step(CreateOutcome::Succeeded);
    }
    g.step(text("https://x"));
    g.step(CreateOutcome::Succeeded);
    assert!(matches!(g.step(text("no")), CreateAction::RemoveFolder));
    assert!(!g.eula_accepted);
}

#[test]
fn forge_creation_path() {
    let (mut f, _) = create(Loader::Forge);
    f.step(CreateOutcome::Succeeded);
    f.step(CreateOutcome::Succeeded);
    assert!(matches!(f.step(CreateOutcome::Succeeded), CreateAction::AskInstallerPath));
    match f.step(text("  /tmp/forge-installer.jar\n")) {
        CreateAction::CheckInstaller(p) => assert_eq!(p, "/tmp/forge-installer.jar"),
        _ => panic!("expected an installer check"),
    }
    match f.step(CreateOutcome::Succeeded) {
        CreateAction::RunInstaller(p) => assert_eq!(p, "/tmp/forge-installer.jar"),
        _ => panic!("expected the installer to run"),
    }
    assert!(matches!(f.step(CreateOutcome::Succeeded), CreateAction::CheckRunScript));
    assert!(matches!(f.step(CreateOutcome::Succeeded), CreateAction::RunFirstBoot));
    assert!(matches!(f.step(CreateOutcome::Succeeded), CreateAction::CheckEulaFile));
    assert!(matches!(f.step(CreateOutcome::Failed), CreateAction::RemoveFolder));
}

#[test]
fn fabric_and_neoforge_only_sync() {
    let (mut f, a) = create(Loader::Fabric);
    assert!(matches!(a, CreateAction::Sync));
    assert!(matches!(f.step(CreateOutcome::Succeeded), CreateAction::Done));
    let (_, a) = create(Loader::NeoForge);
    assert!(matches!(a, CreateAction::Sync));
}
