//! Waiting for PostgreSQL to accept TCP connections: the decision taken
//! after each connection attempt, and the messages that report it.

use vstd::prelude::*;
use crate::text::append_decimal;
use crate::text::decimal;
use crate::text::decimal_value;
use crate::text::lemma_decimal_reads_back;

verus! {

/// The pause between connection attempts, and the time allowed for each
/// attempt, in milliseconds.
pub const PROBE_INTERVAL_MILLIS: u64 = 500;

/// Nanoseconds in a millisecond.
pub const NANOS_PER_MILLI: u64 = 1_000_000;

/// Nanoseconds in a second.
pub const NANOS_PER_SEC: u64 = 1_000_000_000;

/// Waiting for the database server on `port`, for at most `timeout_nanos`.
#[derive(Clone, Copy, PartialEq, Eq, Structural, Debug)]
pub struct PgReadiness {
    pub port: u16,
    pub timeout_nanos: u64,
}

/// What to do after a connection attempt.
pub enum ReadinessStep {
    /// The server accepts connections; `message` reports it.
    Ready { message: String },
    /// The time is up; `message` is the error.
    TimedOut { message: String },
    /// Try again after `pause_millis`.
    Retry { pause_millis: u64 },
}

/// The address that is probed: `127.0.0.1:<port>`.
pub open spec fn probe_address(port: u16) -> Seq<char> {
    "127.0.0.1:"@ + decimal(port as nat)
}

/// The note emitted before the first attempt.
pub open spec fn waiting_note() -> Seq<char> {
    "[PostgreSQL] Waiting for database to accept connections..."@
}

/// The report of a server that accepts connections after `elapsed_nanos`.
pub open spec fn ready_message(elapsed_nanos: u64) -> Seq<char> {
    "[PostgreSQL] database system is ready to accept connections ("@ + decimal(
        (elapsed_nanos / NANOS_PER_MILLI) as nat,
    ) + "ms)"@
}

/// The error of a wait that ran out of time.
pub open spec fn timeout_message(timeout_nanos: u64, port: u16) -> Seq<char> {
    "[PostgreSQL] Timeout after "@ + decimal((timeout_nanos / NANOS_PER_SEC) as nat)
        + "s waiting for port "@ + decimal(port as nat)
}

/// The three outcomes of an attempt, without their messages.
#[derive(Clone, Copy, PartialEq, Eq, Structural, Debug)]
pub enum ReadinessKind {
    Ready,
    TimedOut,
    Retry,
}

/// The decision after an attempt: a connection means ready whatever the
/// time; a refused one means timed out once more than the timeout has
/// elapsed, and another attempt otherwise.
pub open spec fn readiness_decision(wait: PgReadiness, connected: bool, elapsed_nanos: u64) -> ReadinessKind {
    if connected {
        ReadinessKind::Ready
    } else if elapsed_nanos > wait.timeout_nanos {
        ReadinessKind::TimedOut
    } else {
        ReadinessKind::Retry
    }
}

impl PgReadiness {
    /// The address to probe.
    pub fn address(&self) -> (a: String)
        ensures
            a@ == probe_address(self.port),
            a@.take(10) == "127.0.0.1:"@,
            decimal_value(a@.skip(10)) == self.port,
    {
        proof {
            lemma_probe_address_names_its_port(self.port);
        }
        let mut a = String::from_str("127.0.0.1:");
        append_decimal(&mut a, self.port as u64);
        a
    }

    /// The note emitted before the first attempt.
    pub fn waiting_note() -> (s: String)
        ensures
            s@ == waiting_note(),
    {
        String::from_str("[PostgreSQL] Waiting for database to accept connections...")
    }

    /// Decides what follows an attempt that did (`connected`) or did not
    /// connect, `elapsed_nanos` after the wait began.
    pub fn step(&self, connected: bool, elapsed_nanos: u64) -> (r: ReadinessStep)
        ensures
            readiness_decision(*self, connected, elapsed_nanos) == ReadinessKind::Ready <==> r is Ready,
            readiness_decision(*self, connected, elapsed_nanos) == ReadinessKind::TimedOut <==> r is TimedOut,
            readiness_decision(*self, connected, elapsed_nanos) == ReadinessKind::Retry <==> r is Retry,
            r matches ReadinessStep::Ready { message } ==> message@ == ready_message(elapsed_nanos),
            r matches ReadinessStep::TimedOut { message } ==> message@ == timeout_message(
                self.timeout_nanos,
                self.port,
            ),
            r matches ReadinessStep::Retry { pause_millis } ==> pause_millis == PROBE_INTERVAL_MILLIS,
    {
        if connected {
            let mut m = String::from_str("[PostgreSQL] database system is ready to accept connections (");
            append_decimal(&mut m, elapsed_nanos / NANOS_PER_MILLI);
            m.append("ms)");
            ReadinessStep::Ready { message: m }
        } else if elapsed_nanos > self.timeout_nanos {
            let mut m = String::from_str("[PostgreSQL] Timeout after ");
            append_decimal(&mut m, self.timeout_nanos / NANOS_PER_SEC);
            m.append("s waiting for port ");
            append_decimal(&mut m, self.port as u64);
            ReadinessStep::TimedOut { message: m }
        } else {
            ReadinessStep::Retry { pause_millis: PROBE_INTERVAL_MILLIS }
        }
    }
}

/// The probed address is the local host followed by the wait's own port:
/// the text after `127.0.0.1:` reads back as the port, so waits on two
/// different ports never probe the same address.
pub proof fn lemma_probe_address_names_its_port(port: u16)
    ensures
        probe_address(port).take(10) == "127.0.0.1:"@,
        decimal_value(probe_address(port).skip(10)) == port,
        forall|other: u16| #[trigger] probe_address(other) == probe_address(port) ==> other == port,
{
    reveal_strlit("127.0.0.1:");
    let prefix = "127.0.0.1:"@;
    assert(prefix.len() == 10);
    lemma_decimal_reads_back(port as nat);
    assert(probe_address(port).take(10) == prefix);
    assert(probe_address(port).skip(10) == decimal(port as nat));
    assert forall|other: u16| #[trigger] probe_address(other) == probe_address(port) implies other
        == port by {
        lemma_decimal_reads_back(other as nat);
        assert(probe_address(other).skip(10) == decimal(other as nat));
    }
}

/// The wait is bounded: when every retry is followed by a pause of the probe
/// interval, so that successive attempts are at least that far apart, a run
/// of refused attempts that were all answered with a retry spans at most the
/// timeout, and so holds at most `timeout / interval + 1` attempts.
pub proof fn lemma_wait_is_bounded(wait: PgReadiness, elapsed: Seq<u64>)
    requires
        elapsed.len() > 0,
        forall|j: int|
            #![trigger elapsed[j]]
            0 <= j < elapsed.len() - 1 ==> elapsed[j + 1] >= elapsed[j] + PROBE_INTERVAL_MILLIS
                * NANOS_PER_MILLI,
        forall|j: int|
            0 <= j < elapsed.len() ==> readiness_decision(wait, false, #[trigger] elapsed[j])
                == ReadinessKind::Retry,
    ensures
        (elapsed.len() - 1) * (PROBE_INTERVAL_MILLIS * NANOS_PER_MILLI) <= wait.timeout_nanos,
{
    let step: int = PROBE_INTERVAL_MILLIS * NANOS_PER_MILLI;
    let last = elapsed.len() - 1;
    lemma_spread(elapsed, step, last);
    assert(readiness_decision(wait, false, elapsed[last]) == ReadinessKind::Retry);
}

/// The wait ends soon after its timeout: when each attempt and the pause
/// after it together take at most twice the probe interval (a connection
/// attempt is limited to one interval, and the pause is one interval), a run
/// of attempts all answered with a retry but the last has its last attempt
/// at most the timeout plus twice the interval after the wait began; a
/// refused attempt past the timeout is never retried.
pub proof fn lemma_wait_ends_after_timeout(wait: PgReadiness, elapsed: Seq<u64>)
    requires
        elapsed.len() >= 2,
        forall|j: int|
            #![trigger elapsed[j]]
            0 <= j < elapsed.len() - 1 ==> elapsed[j + 1] <= elapsed[j] + 2 * (PROBE_INTERVAL_MILLIS
                * NANOS_PER_MILLI),
        forall|j: int|
            0 <= j < elapsed.len() - 1 ==> readiness_decision(wait, false, #[trigger] elapsed[j])
                == ReadinessKind::Retry,
    ensures
        elapsed[elapsed.len() - 1] <= wait.timeout_nanos + 2 * (PROBE_INTERVAL_MILLIS
            * NANOS_PER_MILLI),
        forall|e: u64| e > wait.timeout_nanos ==> readiness_decision(wait, false, e)
            != ReadinessKind::Retry,
{
    let k = elapsed.len() - 2;
    assert(readiness_decision(wait, false, elapsed[k]) == ReadinessKind::Retry);
    assert(elapsed[k + 1] <= elapsed[k] + 2 * (PROBE_INTERVAL_MILLIS * NANOS_PER_MILLI));
}

proof fn lemma_spread(elapsed: Seq<u64>, step: int, k: int)
    requires
        0 <= k < elapsed.len(),
        forall|j: int| #![trigger elapsed[j]] 0 <= j < elapsed.len() - 1 ==> elapsed[j + 1] >= elapsed[j] + step,
    ensures
        elapsed[k] >= elapsed[0] + k * step,
    decreases k,
{
    if k > 0 {
        lemma_spread(elapsed, step, k - 1);
        assert(elapsed[k] >= elapsed[k - 1] + step);
        assert(elapsed[0] + k * step == elapsed[0] + (k - 1) * step + step) by (nonlinear_arith);
    }
}

} // verus!
