use windmill_launcher::readiness::PgReadiness;
use windmill_launcher::readiness::ReadinessStep;

fn wait() -> PgReadiness {
    PgReadiness { port: 5432, timeout_nanos: 30_000_000_000 }
}

#[test]
fn address_and_note() {
    assert_eq!(wait().address(), "127.0.0.1:5432");
    assert_eq!(
        PgReadiness::waiting_note(),
        "[PostgreSQL] Waiting for database to accept connections..."
    );
}

#[test]
fn connected_is_ready_whatever_the_time() {
    match wait().step(true, 1_234_567_890) {
        ReadinessStep::Ready { message } => assert_eq!(
            message,
            "[PostgreSQL] database system is ready to accept connections (1234ms)"
        ),
        _ => panic!("expected ready"),
    }
    assert!(matches!(wait().step(true, u64::MAX), ReadinessStep::Ready { .. }));
}

#[test]
fn refused_before_timeout_retries() {
    assert!(matches!(wait().step(false, 0), ReadinessStep::Retry { pause_millis: 500 }));
    assert!(matches!(
        wait().step(false, 30_000_000_000),
        ReadinessStep::Retry { pause_millis: 500 }
    ));
}

#[test]
fn refused_after_timeout_fails() {
    match wait().step(false, 30_000_000_001) {
        ReadinessStep::TimedOut { message } => {
            assert_eq!(message, "[PostgreSQL] Timeout after 30s waiting for port 5432")
        }
        _ => panic!("expected timeout"),
    }
}
