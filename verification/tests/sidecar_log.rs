use windmill_launcher::sidecar_log::handle_sidecar_event;
use windmill_launcher::sidecar_log::ConsoleStream;
use windmill_launcher::sidecar_log::LogEffects;
use windmill_launcher::sidecar_log::SidecarEvent;
use windmill_launcher::sidecar_log::SidecarRole;

fn emissions(e: &LogEffects) -> Vec<(String, String)> {
    e.emissions.iter().map(|m| (m.channel.clone(), m.payload.clone())).collect()
}

fn pair(a: &str, b: &str) -> (String, String) {
    (a.to_string(), b.to_string())
}

#[test]
fn server_migration_output_goes_to_migration_channel() {
    let e = handle_sidecar_event(
        SidecarRole::Server,
        &SidecarEvent::Stdout(b"running migration 20240101".to_vec()),
    );
    let line = e.console.as_ref().unwrap();
    assert_eq!(line.stream, ConsoleStream::Standard);
    assert_eq!(line.text, "Windmill Server [OUT]: running migration 20240101");
    assert_eq!(
        emissions(&e),
        vec![pair("log-migration", "[Server] running migration 20240101")]
    );

    let e = handle_sidecar_event(SidecarRole::Server, &SidecarEvent::Stdout(b"migrating".to_vec()));
    assert_eq!(emissions(&e), vec![pair("log-migration", "[Server] migrating")]);

    let e = handle_sidecar_event(SidecarRole::Server, &SidecarEvent::Stdout(b"listening".to_vec()));
    assert_eq!(emissions(&e), vec![pair("log-app", "[Server] listening")]);
}

#[test]
fn worker_output_always_goes_to_app_channel() {
    let e = handle_sidecar_event(
        SidecarRole::Worker,
        &SidecarEvent::Stdout(b"migration done".to_vec()),
    );
    assert_eq!(e.console.as_ref().unwrap().text, "Windmill Worker [OUT]: migration done");
    assert_eq!(emissions(&e), vec![pair("log-app", "[Worker] migration done")]);
}

#[test]
fn stderr_is_echoed_on_stderr() {
    let e = handle_sidecar_event(SidecarRole::Worker, &SidecarEvent::Stderr(b"oops".to_vec()));
    let line = e.console.as_ref().unwrap();
    assert_eq!(line.stream, ConsoleStream::Error);
    assert_eq!(line.text, "Windmill Worker [ERR]: oops");
    assert_eq!(emissions(&e), vec![pair("log-app", "[Worker ERR] oops")]);
}

#[test]
fn invalid_utf8_is_replaced() {
    let e = handle_sidecar_event(SidecarRole::Server, &SidecarEvent::Stdout(vec![b'a', 0xff, b'b']));
    assert_eq!(emissions(&e), vec![pair("log-app", "[Server] a\u{fffd}b")]);
}

#[test]
fn runner_errors_raise_service_error() {
    let e = handle_sidecar_event(SidecarRole::Server, &SidecarEvent::Error("broken pipe".to_string()));
    assert_eq!(e.console.as_ref().unwrap().stream, ConsoleStream::Error);
    assert_eq!(e.console.as_ref().unwrap().text, "[Server CRITICAL] broken pipe");
    assert_eq!(
        emissions(&e),
        vec![
            pair("log-app", "[Server CRITICAL] broken pipe"),
            pair("service-error", "windmill-server")
        ]
    );
}

#[test]
fn exit_reports() {
    let ok = handle_sidecar_event(
        SidecarRole::Worker,
        &SidecarEvent::Terminated { code: Some(0), signal: None },
    );
    assert_eq!(ok.console.as_ref().unwrap().text, "[Worker EXIT] code=0, signal=None");
    assert_eq!(emissions(&ok), vec![pair("log-app", "[Worker EXIT] code=0, signal=None")]);

    let bad = handle_sidecar_event(
        SidecarRole::Server,
        &SidecarEvent::Terminated { code: None, signal: Some(9) },
    );
    assert_eq!(
        emissions(&bad),
        vec![
            pair("log-app", "[Server EXIT] code=-1, signal=Some(9)"),
            pair("service-error", "windmill-server")
        ]
    );
    let bad = handle_sidecar_event(
        SidecarRole::Worker,
        &SidecarEvent::Terminated { code: Some(2), signal: None },
    );
    assert_eq!(emissions(&bad)[1], pair("service-error", "windmill-worker"));
}

#[test]
fn other_events_are_ignored() {
    let e = handle_sidecar_event(SidecarRole::Server, &SidecarEvent::Other);
    assert!(e.console.is_none());
    assert!(e.emissions.is_empty());
}
