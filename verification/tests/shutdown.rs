use windmill_launcher::shutdown::RunEvent;
use windmill_launcher::shutdown::ServiceSlots;

#[test]
fn exit_releases_everything_once() {
    let mut slots: ServiceSlots<u32, &str> = ServiceSlots::new();
    slots.install(1, "server", "worker");

    let none = slots.on_run_event(RunEvent::Other);
    assert!(none.postgres.is_none() && none.server.is_none() && none.worker.is_none());
    assert_eq!(slots.postgres, Some(1));

    let stop = slots.on_run_event(RunEvent::ExitRequested);
    assert_eq!(stop.postgres, Some(1));
    assert_eq!(stop.server, Some("server"));
    assert_eq!(stop.worker, Some("worker"));
    assert!(slots.postgres.is_none() && slots.server.is_none() && slots.worker.is_none());

    let again = slots.on_run_event(RunEvent::Exit);
    assert!(again.postgres.is_none() && again.server.is_none() && again.worker.is_none());
}

#[test]
fn exit_without_services_releases_nothing() {
    let mut slots: ServiceSlots<u32, u32> = ServiceSlots::new();
    let stop = slots.on_run_event(RunEvent::Exit);
    assert!(stop.postgres.is_none() && stop.server.is_none() && stop.worker.is_none());
}
