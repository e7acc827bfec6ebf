use windmill_launcher::paths::LaunchPath;
use windmill_launcher::paths::Platform;
use windmill_launcher::sidecar_log::SidecarRole;
use windmill_launcher::startup::CommandArg;
use windmill_launcher::startup::CommandOutcome;
use windmill_launcher::startup::FileTarget;
use windmill_launcher::startup::Program;
use windmill_launcher::startup::RunMode;
use windmill_launcher::startup::Service;
use windmill_launcher::startup::Stage;
use windmill_launcher::startup::Startup;
use windmill_launcher::startup::StartupAction;
use windmill_launcher::startup::StartupEvent;

fn path(root: &str) -> LaunchPath {
    LaunchPath::new(root.to_string())
}

fn shown(p: &LaunchPath) -> String {
    let mut s = p.root.clone();
    for part in &p.parts {
        s.push('/');
        s.push_str(part);
    }
    s
}

fn args(a: &[CommandArg]) -> Vec<String> {
    a.iter()
        .map(|x| match x {
            CommandArg::Text(t) => t.clone(),
            CommandArg::Path(p) => shown(p),
        })
        .collect()
}

fn expect_emit(m: &Startup, channel: &str, text: &str) {
    match m.action() {
        StartupAction::Emit { channel: c, message } => {
            assert_eq!(c, channel);
            assert_eq!(message.text, text);
            assert!(message.path.is_none());
        }
        _ => panic!("expected an emit of {:?} at {:?}", text, m.stage),
    }
}

fn expect_print(m: &Startup, line: &str) {
    match m.action() {
        StartupAction::Print { line: l } => assert_eq!(l, line),
        _ => panic!("expected a print of {:?} at {:?}", line, m.stage),
    }
}

fn expect_check(m: &Startup, p: &str) {
    match m.action() {
        StartupAction::CheckExists { path } => assert_eq!(shown(&path), p),
        _ => panic!("expected a check of {:?} at {:?}", p, m.stage),
    }
}

fn ack(m: &mut Startup) {
    m.advance(StartupEvent::Ack);
}

fn boot_to_binaries(m: &mut Startup) {
    expect_emit(m, "log-app", "[Setup] Resolving paths...");
    ack(m);
    assert!(matches!(m.action(), StartupAction::ResolveBaseDir));
    m.advance(StartupEvent::BaseDir(Ok(path("/base"))));
}

#[test]
fn full_startup_with_new_cluster_and_pending_migration() {
    let mut m = Startup::new(Platform::Unix);
    boot_to_binaries(&mut m);
    for tool in ["initdb", "postgres", "psql"] {
        expect_check(&m, &format!("/base/pgsql/bin/{}", tool));
        m.advance(StartupEvent::Exists(true));
    }
    match m.action() {
        StartupAction::Emit { channel, message } => {
            assert_eq!(channel, "log-app");
            assert_eq!(message.text, "[Setup] PostgreSQL binaries found at ");
            assert_eq!(shown(message.path.as_ref().unwrap()), "/base/pgsql");
        }
        _ => panic!("expected the binaries note"),
    }
    ack(&mut m);
    assert!(matches!(m.action(), StartupAction::LocateAppDataDir));
    m.advance(StartupEvent::AppDataDir(Ok(path("/data"))));
    expect_check(&m, "/data/pgdata/PG_VERSION");
    m.advance(StartupEvent::Exists(false));
    expect_emit(&m, "log-app", "[PostgreSQL] Initializing database cluster...");
    ack(&mut m);
    expect_check(&m, "/data/pgdata");
    m.advance(StartupEvent::Exists(false));
    match m.action() {
        StartupAction::CreateDirAll { path } => assert_eq!(shown(&path), "/data/pgdata"),
        _ => panic!("expected a directory creation"),
    }
    m.advance(StartupEvent::Created(Ok(())));
    match m.action() {
        StartupAction::Run { command } => {
            assert!(matches!(&command.program, Program::Executable(p) if shown(p) == "/base/pgsql/bin/initdb"));
            assert_eq!(
                args(&command.args),
                vec!["-D", "/data/pgdata", "-U", "postgres", "-E", "UTF8", "--no-locale", "--auth=trust"]
            );
            assert_eq!(command.mode, RunMode::Wait);
            assert!(command.envs.is_empty());
        }
        _ => panic!("expected initdb"),
    }
    m.advance(StartupEvent::Command(CommandOutcome::Exited { success: true }));
    expect_emit(&m, "log-app", "[PostgreSQL] Database cluster initialized.");
    ack(&mut m);
    expect_emit(&m, "log-app", "[PostgreSQL] Starting server on port 5432...");
    ack(&mut m);
    match m.action() {
        StartupAction::Run { command } => {
            assert!(matches!(&command.program, Program::Executable(p) if shown(p) == "/base/pgsql/bin/postgres"));
            assert_eq!(args(&command.args), vec!["-D", "/data/pgdata", "-p", "5432"]);
            assert_eq!(command.mode, RunMode::Spawn);
        }
        _ => panic!("expected postgres"),
    }
    m.advance(StartupEvent::Command(CommandOutcome::Started));
    assert!(matches!(m.action(), StartupAction::StartTimer));
    ack(&mut m);
    expect_emit(&m, "log-app", "[PostgreSQL] Waiting for database to accept connections...");
    ack(&mut m);
    match m.action() {
        StartupAction::Connect { address, timeout_millis } => {
            assert_eq!(address, "127.0.0.1:5432");
            assert_eq!(timeout_millis, 500);
        }
        _ => panic!("expected a probe"),
    }
    m.advance(StartupEvent::Probed { connected: false, elapsed_nanos: 100_000_000 });
    assert!(matches!(m.action(), StartupAction::Sleep { millis: 500 }));
    ack(&mut m);
    assert!(matches!(m.action(), StartupAction::Connect { .. }));
    m.advance(StartupEvent::Probed { connected: true, elapsed_nanos: 1_500_000_000 });
    let ready = "[PostgreSQL] database system is ready to accept connections (1500ms)";
    expect_print(&m, ready);
    ack(&mut m);
    expect_emit(&m, "log-app", ready);
    ack(&mut m);
    match m.action() {
        StartupAction::ResolveMigrationDir { base } => assert_eq!(shown(&base), "/base"),
        _ => panic!("expected the migration folder"),
    }
    m.advance(StartupEvent::MigrationDir(path("/mig")));
    expect_check(&m, "/mig/PENDING_MIGRATION");
    m.advance(StartupEvent::Exists(true));
    match m.action() {
        StartupAction::ReadText { path } => assert_eq!(shown(&path), "/mig/PENDING_MIGRATION"),
        _ => panic!("expected a read"),
    }
    m.advance(StartupEvent::Text(Some("  /mig/dump.sql\n".to_string())));
    expect_print(&m, "Restoring database from /mig/dump.sql...");
    ack(&mut m);
    expect_emit(&m, "log-migration", "Restoring database from /mig/dump.sql...");
    ack(&mut m);
    match m.action() {
        StartupAction::Run { command } => {
            assert!(matches!(&command.program, Program::Executable(p) if shown(p) == "/base/pgsql/bin/psql"));
            assert_eq!(
                args(&command.args),
                vec!["-h", "localhost", "-p", "5432", "-U", "postgres", "-d", "postgres", "-f", "/mig/dump.sql"]
            );
            assert_eq!(command.mode, RunMode::Wait);
        }
        _ => panic!("expected psql"),
    }
    m.advance(StartupEvent::Command(CommandOutcome::Exited { success: true }));
    expect_print(&m, "Migration restored successfully.");
    ack(&mut m);
    expect_emit(&m, "log-migration", "Migration restored successfully.");
    ack(&mut m);
    match m.action() {
        StartupAction::RemoveFile { target: FileTarget::Path(p) } => {
            assert_eq!(shown(&p), "/mig/PENDING_MIGRATION")
        }
        _ => panic!("expected the flag's removal"),
    }
    ack(&mut m);
    match m.action() {
        StartupAction::RemoveFile { target: FileTarget::Text(t) } => assert_eq!(t, "/mig/dump.sql"),
        _ => panic!("expected the dump's removal"),
    }
    ack(&mut m);
    expect_emit(&m, "log-app", "[Windmill] Starting server...");
    ack(&mut m);
    match m.action() {
        StartupAction::Run { command } => {
            assert!(matches!(&command.program, Program::Sidecar { name, role: SidecarRole::Server } if name == "windmill"));
            assert!(command.args.is_empty());
            assert_eq!(
                command.envs,
                vec![("DATABASE_URL".to_string(), "postgres://postgres@localhost:5432/postgres".to_string())]
            );
            assert_eq!(command.mode, RunMode::Spawn);
        }
        _ => panic!("expected the server sidecar"),
    }
    m.advance(StartupEvent::Command(CommandOutcome::Started));
    expect_emit(&m, "log-app", "[Windmill] Starting worker...");
    ack(&mut m);
    match m.action() {
        StartupAction::Run { command } => {
            assert!(matches!(&command.program, Program::Sidecar { name, role: SidecarRole::Worker } if name == "windmill"));
            assert_eq!(args(&command.args), vec!["worker"]);
            assert_eq!(
                command.envs,
                vec![
                    ("DATABASE_URL".to_string(), "postgres://postgres@localhost:5432/postgres".to_string()),
                    ("METRICS_ADDR".to_string(), "0.0.0.0:8002".to_string())
                ]
            );
        }
        _ => panic!("expected the worker sidecar"),
    }
    m.advance(StartupEvent::Command(CommandOutcome::Started));
    assert!(matches!(m.action(), StartupAction::Finish));
    m.advance(StartupEvent::Ack);
    assert_eq!(m.stage, Stage::Done);
}

fn expect_stop(m: &mut Startup, service: Service) {
    match m.action() {
        StartupAction::Stop { service: s } => assert_eq!(s, service),
        _ => panic!("expected a stop of {:?} at {:?}", service, m.stage),
    }
    ack(m);
}

fn fail_text(m: &Startup) -> (String, Option<String>) {
    match m.action() {
        StartupAction::Fail { message } => (message.text, message.path.as_ref().map(shown)),
        _ => panic!("expected a failure at {:?}", m.stage),
    }
}

#[test]
fn missing_binary_fails_with_its_path() {
    let mut m = Startup::new(Platform::Windows);
    boot_to_binaries(&mut m);
    expect_check(&m, "/base/pgsql/bin/initdb.exe");
    m.advance(StartupEvent::Exists(true));
    expect_check(&m, "/base/pgsql/bin/postgres.exe");
    m.advance(StartupEvent::Exists(false));
    assert_eq!(
        fail_text(&m),
        ("postgres binary not found at ".to_string(), Some("/base/pgsql/bin/postgres.exe".to_string()))
    );
    m.advance(StartupEvent::Exists(true));
    assert_eq!(m.stage, Stage::Failed);
}

#[test]
fn missing_base_dir_fails_with_the_hosts_message() {
    let mut m = Startup::new(Platform::Unix);
    ack(&mut m);
    m.advance(StartupEvent::BaseDir(Err("Could not find pgsql/bin/ directory.".to_string())));
    assert_eq!(fail_text(&m), ("Could not find pgsql/bin/ directory.".to_string(), None));
}

fn boot_to_postgres(m: &mut Startup, initialized: bool) {
    boot_to_binaries(m);
    for _ in 0..3 {
        m.advance(StartupEvent::Exists(true));
    }
    ack(m);
    m.advance(StartupEvent::AppDataDir(Ok(path("/data"))));
    m.advance(StartupEvent::Exists(initialized));
}

#[test]
fn existing_cluster_skips_initdb() {
    let mut m = Startup::new(Platform::Unix);
    boot_to_postgres(&mut m, true);
    expect_emit(&m, "log-app", "[PostgreSQL] Starting server on port 5432...");
}

#[test]
fn failed_initdb_is_reported_then_fails() {
    let mut m = Startup::new(Platform::Unix);
    boot_to_postgres(&mut m, false);
    ack(&mut m);
    m.advance(StartupEvent::Exists(true));
    assert!(matches!(m.action(), StartupAction::Run { .. }));
    m.advance(StartupEvent::Command(CommandOutcome::Exited { success: false }));
    expect_emit(&m, "log-app", "[PostgreSQL ERR] initdb failed to initialize the database cluster");
    ack(&mut m);
    assert_eq!(fail_text(&m), ("initdb failed to initialize the database cluster".to_string(), None));
}

#[test]
fn initdb_that_cannot_run_fails() {
    let mut m = Startup::new(Platform::Unix);
    boot_to_postgres(&mut m, false);
    ack(&mut m);
    m.advance(StartupEvent::Exists(true));
    m.advance(StartupEvent::Command(CommandOutcome::LaunchFailed("no such file".to_string())));
    assert_eq!(fail_text(&m), ("Failed to run initdb: no such file".to_string(), None));
}

#[test]
fn app_data_and_directory_errors_fail() {
    let mut m = Startup::new(Platform::Unix);
    boot_to_binaries(&mut m);
    for _ in 0..3 {
        m.advance(StartupEvent::Exists(true));
    }
    ack(&mut m);
    m.advance(StartupEvent::AppDataDir(Err("unknown path".to_string())));
    assert_eq!(fail_text(&m), ("Could not find app_data_dir: unknown path".to_string(), None));

    let mut m = Startup::new(Platform::Unix);
    boot_to_postgres(&mut m, false);
    ack(&mut m);
    m.advance(StartupEvent::Exists(false));
    m.advance(StartupEvent::Created(Err("permission denied".to_string())));
    assert_eq!(fail_text(&m), ("permission denied".to_string(), None));
}

fn boot_to_probe(m: &mut Startup) {
    boot_to_postgres(m, true);
    ack(m);
    m.advance(StartupEvent::Command(CommandOutcome::Started));
    ack(m);
    ack(m);
}

#[test]
fn database_that_never_answers_times_out() {
    let mut m = Startup::new(Platform::Unix);
    boot_to_probe(&mut m);
    m.advance(StartupEvent::Probed { connected: false, elapsed_nanos: 31_000_000_000 });
    let msg = "[PostgreSQL] Timeout after 30s waiting for port 5432";
    expect_emit(&m, "log-app", msg);
    ack(&mut m);
    expect_stop(&mut m, Service::Postgres);
    assert_eq!(fail_text(&m), (msg.to_string(), None));
}

#[test]
fn postgres_that_cannot_start_fails() {
    let mut m = Startup::new(Platform::Unix);
    boot_to_postgres(&mut m, true);
    ack(&mut m);
    m.advance(StartupEvent::Command(CommandOutcome::LaunchFailed("denied".to_string())));
    assert_eq!(fail_text(&m), ("Failed to start PostgreSQL: denied".to_string(), None));
}

fn boot_to_migration(m: &mut Startup) {
    boot_to_probe(m);
    m.advance(StartupEvent::Probed { connected: true, elapsed_nanos: 0 });
    ack(m);
    ack(m);
    m.advance(StartupEvent::MigrationDir(path("/mig")));
}

#[test]
fn failed_restore_keeps_the_flag_and_continues() {
    let mut m = Startup::new(Platform::Unix);
    boot_to_migration(&mut m);
    m.advance(StartupEvent::Exists(true));
    m.advance(StartupEvent::Text(Some("/d.sql".to_string())));
    ack(&mut m);
    ack(&mut m);
    m.advance(StartupEvent::Command(CommandOutcome::Exited { success: false }));
    expect_print(&m, "Failed to restore migration.");
    ack(&mut m);
    expect_emit(&m, "log-migration", "Failed to restore migration.");
    ack(&mut m);
    expect_emit(&m, "log-app", "[Windmill] Starting server...");
}

#[test]
fn no_pending_migration_or_unreadable_flag_goes_to_sidecars() {
    let mut m = Startup::new(Platform::Unix);
    boot_to_migration(&mut m);
    m.advance(StartupEvent::Exists(false));
    expect_emit(&m, "log-app", "[Windmill] Starting server...");

    let mut m = Startup::new(Platform::Unix);
    boot_to_migration(&mut m);
    m.advance(StartupEvent::Exists(true));
    m.advance(StartupEvent::Text(None));
    expect_emit(&m, "log-app", "[Windmill] Starting server...");

    let mut m = Startup::new(Platform::Unix);
    boot_to_migration(&mut m);
    m.advance(StartupEvent::Exists(true));
    m.advance(StartupEvent::Text(Some("/d.sql".to_string())));
    ack(&mut m);
    ack(&mut m);
    m.advance(StartupEvent::Command(CommandOutcome::LaunchFailed("x".to_string())));
    expect_emit(&m, "log-app", "[Windmill] Starting server...");
}

#[test]
fn sidecar_failures() {
    let mut m = Startup::new(Platform::Unix);
    boot_to_migration(&mut m);
    m.advance(StartupEvent::Exists(false));
    ack(&mut m);
    m.advance(StartupEvent::Command(CommandOutcome::Unavailable("sidecar missing".to_string())));
    expect_stop(&mut m, Service::Postgres);
    assert_eq!(fail_text(&m), ("sidecar missing".to_string(), None));

    let mut m = Startup::new(Platform::Unix);
    boot_to_migration(&mut m);
    m.advance(StartupEvent::Exists(false));
    ack(&mut m);
    m.advance(StartupEvent::Command(CommandOutcome::LaunchFailed("e".to_string())));
    expect_stop(&mut m, Service::Postgres);
    assert_eq!(fail_text(&m), ("Failed to start Windmill server sidecar: e".to_string(), None));

    let mut m = Startup::new(Platform::Unix);
    boot_to_migration(&mut m);
    m.advance(StartupEvent::Exists(false));
    ack(&mut m);
    m.advance(StartupEvent::Command(CommandOutcome::Started));
    ack(&mut m);
    m.advance(StartupEvent::Command(CommandOutcome::LaunchFailed("e".to_string())));
    expect_stop(&mut m, Service::Server);
    expect_stop(&mut m, Service::Postgres);
    assert_eq!(fail_text(&m), ("Failed to start Windmill worker sidecar: e".to_string(), None));
}

#[test]
fn unexpected_answers_change_nothing() {
    let mut m = Startup::new(Platform::Unix);
    m.advance(StartupEvent::Exists(true));
    assert_eq!(m.stage, Stage::Start);
    ack(&mut m);
    ack(&mut m);
    assert_eq!(m.stage, Stage::ResolveBase);
    m.advance(StartupEvent::Probed { connected: true, elapsed_nanos: 0 });
    assert_eq!(m.stage, Stage::ResolveBase);
}

#[test]
fn bad_probe_address_fails() {
    let mut m = Startup::new(Platform::Unix);
    boot_to_probe(&mut m);
    m.advance(StartupEvent::ProbeFailed("invalid socket address syntax".to_string()));
    expect_stop(&mut m, Service::Postgres);
    assert_eq!(fail_text(&m), ("Bad address: invalid socket address syntax".to_string(), None));
}
