//! Properties of the startup sequence, over single steps and over whole
//! runs.

use vstd::prelude::*;
use crate::paths::PgTool;
use crate::startup::ActionModel;
use crate::startup::EventModel;
use crate::startup::OutcomeModel;
use crate::startup::Service;
use crate::startup::Stage;
use crate::startup::StartupModel;
use crate::startup::startup_action;
use crate::startup::startup_next;

verus! {

/// The state after answering `events` in order, starting from `s`.
pub open spec fn run_events(s: StartupModel, events: Seq<EventModel>) -> StartupModel
    decreases events.len(),
{
    if events.len() == 0 {
        s
    } else {
        startup_next(run_events(s, events.drop_last()), events.last())
    }
}

/// Whether `event` is the kind of answer that `action` asks for.
pub open spec fn answers(action: ActionModel, event: EventModel) -> bool {
    match action {
        ActionModel::Emit { .. } | ActionModel::Print { .. } | ActionModel::StartTimer
        | ActionModel::Sleep { .. } | ActionModel::RemoveFile { .. } | ActionModel::Stop {
            ..
        } => event is Ack,
        ActionModel::ResolveBaseDir => event is BaseDir,
        ActionModel::CheckExists { .. } => event is Exists,
        ActionModel::LocateAppDataDir => event is AppDataDir,
        ActionModel::CreateDirAll { .. } => event is Created,
        ActionModel::Run { .. } => event is Command,
        ActionModel::Connect { .. } => event is Probed || event is ProbeFailed,
        ActionModel::ResolveMigrationDir { .. } => event is MigrationDir,
        ActionModel::ReadText { .. } => event is Text,
        ActionModel::Finish | ActionModel::Fail { .. } => false,
    }
}

/// A finished sequence stays finished: once startup is complete or has
/// failed, no event changes the state.
pub proof fn lemma_terminal_states_absorb(s: StartupModel, event: EventModel)
    requires
        s.stage == Stage::Done || s.stage == Stage::Failed,
    ensures
        startup_next(s, event) == s,
{
}

/// An event that is not the kind of answer the current action asks for
/// changes nothing.
pub proof fn lemma_unanswered_events_change_nothing(s: StartupModel, event: EventModel)
    requires
        !answers(startup_action(s), event),
    ensures
        startup_next(s, event) == s,
{
}

/// Whether `event`, answering the step `stage`, reports a failure that ends
/// startup at once.
pub open spec fn reports_fatal_failure(stage: Stage, event: EventModel) -> bool {
    match (stage, event) {
        (Stage::ResolveBase, EventModel::BaseDir(Err(_))) => true,
        (Stage::CheckBinary(_), EventModel::Exists(false)) => true,
        (Stage::LocateAppData, EventModel::AppDataDir(Err(_))) => true,
        (Stage::CreateDataDir, EventModel::Created(Err(_))) => true,
        (Stage::RunInitdb, EventModel::Command(OutcomeModel::LaunchFailed(_))) => true,
        (Stage::StartPostgres, EventModel::Command(OutcomeModel::LaunchFailed(_))) => true,
        (Stage::Probe, EventModel::ProbeFailed(_)) => true,
        (Stage::StartServer, EventModel::Command(OutcomeModel::Unavailable(_))) => true,
        (Stage::StartServer, EventModel::Command(OutcomeModel::LaunchFailed(_))) => true,
        (Stage::StartWorker, EventModel::Command(OutcomeModel::Unavailable(_))) => true,
        (Stage::StartWorker, EventModel::Command(OutcomeModel::LaunchFailed(_))) => true,
        _ => false,
    }
}

/// Whether the database server started by this sequence runs at `stage`.
pub open spec fn postgres_running(stage: Stage) -> bool {
    stage_rank(Stage::StartClock) <= stage_rank(stage) <= stage_rank(Stage::Done)
}

/// Failures abort startup: a missing base directory or binary, a missing
/// application data directory, a directory that cannot be created, a tool
/// or sidecar that cannot be launched end it at once; an `initdb` that exits
/// unsuccessfully and a database that never accepts connections end it
/// after their report is emitted. A failure before the database server was
/// started fails at once; one after stops the database server first, and
/// one after the server sidecar was started stops it before the database.
/// Conversely, startup fails only in these ways.
pub proof fn lemma_failures_abort(s: StartupModel, event: EventModel)
    ensures
        reports_fatal_failure(s.stage, event) && !postgres_running(s.stage) ==> startup_next(
            s,
            event,
        ).stage == Stage::Failed,
        reports_fatal_failure(s.stage, event) && postgres_running(s.stage) && s.stage
            != Stage::StartWorker ==> startup_next(s, event).stage == Stage::StopPostgres,
        reports_fatal_failure(s.stage, event) && s.stage == Stage::StartWorker ==> startup_next(
            s,
            event,
        ).stage == Stage::StopServer,
        s.stage == Stage::RunInitdb && event == EventModel::Command(
            OutcomeModel::Exited { success: false },
        ) ==> startup_next(s, event).stage == Stage::ReportInitdbFailure,
        s.stage == Stage::ReportInitdbFailure && event == EventModel::Ack ==> startup_next(
            s,
            event,
        ).stage == Stage::Failed,
        s.stage == Stage::ReportTimeout && event == EventModel::Ack ==> startup_next(
            s,
            event,
        ).stage == Stage::StopPostgres,
        !aborting(s.stage) && aborting(startup_next(s, event).stage) ==> (reports_fatal_failure(
            s.stage,
            event,
        ) || (event == EventModel::Ack && (s.stage == Stage::ReportInitdbFailure || s.stage
            == Stage::ReportTimeout))),
{
}

/// Stopping after a failure: the server sidecar is stopped before the
/// database server, and the sequence fails once both are stopped; the
/// message of the failure is kept meanwhile.
pub proof fn lemma_failure_stops_started_processes(s: StartupModel)
    ensures
        s.stage == Stage::StopServer ==> startup_action(s) == (ActionModel::Stop {
            service: Service::Server,
        }),
        s.stage == Stage::StopServer ==> startup_next(s, EventModel::Ack) == (StartupModel {
            stage: Stage::StopPostgres,
            ..s
        }),
        s.stage == Stage::StopPostgres ==> startup_action(s) == (ActionModel::Stop {
            service: Service::Postgres,
        }),
        s.stage == Stage::StopPostgres ==> startup_next(s, EventModel::Ack) == (StartupModel {
            stage: Stage::Failed,
            ..s
        }),
{
}

/// The states of a sequence that has started the database server: it runs,
/// or the sequence is stopping what it started, or has failed after that.
pub open spec fn started_postgres(stage: Stage) -> bool {
    postgres_running(stage) || aborting(stage)
}

/// A run that started the database server and then failed asked the host
/// to stop the database server before failing; and one that started the
/// server sidecar and then failed asked to stop it too.
pub proof fn lemma_failure_after_start_stops_postgres(s0: StartupModel, events: Seq<EventModel>)
    requires
        postgres_running(s0.stage),
        run_events(s0, events).stage == Stage::Failed,
    ensures
        exists|i: int|
            0 <= i < events.len() && run_events(s0, events.take(i)).stage == Stage::StopPostgres
                && #[trigger] events[i] == EventModel::Ack,
    decreases events.len(),
{
    let prefix = events.drop_last();
    let last = events.len() - 1;
    assert(events.take(last) == prefix);
    lemma_stays_started(s0, prefix);
    let before = run_events(s0, prefix);
    if before.stage == Stage::Failed {
        lemma_failure_after_start_stops_postgres(s0, prefix);
        let i = choose|i: int|
            0 <= i < prefix.len() && run_events(s0, prefix.take(i)).stage == Stage::StopPostgres
                && #[trigger] prefix[i] == EventModel::Ack;
        assert(prefix.take(i) == events.take(i));
        assert(prefix[i] == events[i]);
    } else {
        assert(events[last] == events.last());
    }
}

proof fn lemma_stays_started(s0: StartupModel, events: Seq<EventModel>)
    requires
        postgres_running(s0.stage),
    ensures
        started_postgres(run_events(s0, events).stage),
    decreases events.len(),
{
    if events.len() > 0 {
        lemma_stays_started(s0, events.drop_last());
    }
}

/// The steps that look for and restore a pending migration.
pub open spec fn in_restore(stage: Stage) -> bool {
    match stage {
        Stage::ResolveMigration | Stage::CheckPending | Stage::ReadPending | Stage::PrintRestore
        | Stage::EmitRestore | Stage::RunRestore | Stage::PrintRestored | Stage::EmitRestored
        | Stage::RemovePending | Stage::RemoveDump | Stage::PrintRestoreFailed
        | Stage::EmitRestoreFailed => true,
        _ => false,
    }
}

/// Restoring a migration never makes startup fail: an unreadable flag file,
/// a `psql` that cannot be launched or that fails, all lead on to starting
/// the sidecars.
pub proof fn lemma_restore_never_fails_startup(s: StartupModel, event: EventModel)
    requires
        in_restore(s.stage),
    ensures
        startup_next(s, event).stage != Stage::Failed,
        in_restore(startup_next(s, event).stage) || startup_next(s, event).stage
            == Stage::AnnounceServer,
{
}

/// The position of a step in the sequence; the probe and its pause share
/// one, as does the timeout report. The steps that stop started processes
/// after a failure come last.
pub open spec fn stage_rank(stage: Stage) -> int {
    match stage {
        Stage::Start => 0,
        Stage::ResolveBase => 1,
        Stage::CheckBinary(PgTool::Initdb) => 2,
        Stage::CheckBinary(PgTool::Postgres) => 3,
        Stage::CheckBinary(PgTool::Psql) => 4,
        Stage::AnnounceBinaries => 5,
        Stage::LocateAppData => 6,
        Stage::CheckInitialized => 7,
        Stage::AnnounceInit => 8,
        Stage::CheckDataDir => 9,
        Stage::CreateDataDir => 10,
        Stage::RunInitdb => 11,
        Stage::ReportInitdbFailure => 12,
        Stage::AnnounceInitialized => 12,
        Stage::AnnouncePostgres => 13,
        Stage::StartPostgres => 14,
        Stage::StartClock => 15,
        Stage::AnnounceWait => 16,
        Stage::Probe => 17,
        Stage::Pause => 17,
        Stage::ReportTimeout => 17,
        Stage::PrintReady => 18,
        Stage::EmitReady => 19,
        Stage::ResolveMigration => 20,
        Stage::CheckPending => 21,
        Stage::ReadPending => 22,
        Stage::PrintRestore => 23,
        Stage::EmitRestore => 24,
        Stage::RunRestore => 25,
        Stage::PrintRestored => 26,
        Stage::EmitRestored => 27,
        Stage::RemovePending => 28,
        Stage::RemoveDump => 29,
        Stage::PrintRestoreFailed => 26,
        Stage::EmitRestoreFailed => 27,
        Stage::AnnounceServer => 30,
        Stage::StartServer => 31,
        Stage::AnnounceWorker => 32,
        Stage::StartWorker => 33,
        Stage::Done => 34,
        Stage::StopServer => 35,
        Stage::StopPostgres => 36,
        Stage::Failed => -1,
    }
}

/// Startup only moves forward: a step that does not fail never returns to
/// an earlier position, except that a refused connection attempt is
/// followed by a pause and another attempt.
pub proof fn lemma_progress_is_monotone(s: StartupModel, event: EventModel)
    requires
        s.stage != Stage::Failed,
        startup_next(s, event).stage != Stage::Failed,
    ensures
        stage_rank(startup_next(s, event).stage) >= stage_rank(s.stage),
{
}

/// `stage` ends startup with a failure: it stops started processes, or has
/// failed.
pub open spec fn aborting(stage: Stage) -> bool {
    stage == Stage::Failed || stage == Stage::StopServer || stage == Stage::StopPostgres
}

/// `stage` is at or past position `rank` and startup is not failing.
pub open spec fn reached(stage: Stage, rank: int) -> bool {
    !aborting(stage) && stage_rank(stage) >= rank
}

/// A run that ends in a state inside `phase`, having started outside it,
/// passed through the only entrance into `phase`: some event answered the
/// step `gate` with an event that satisfies `opens`.
pub proof fn lemma_gate_passed(
    s0: StartupModel,
    events: Seq<EventModel>,
    phase: spec_fn(Stage) -> bool,
    gate: Stage,
    opens: spec_fn(EventModel) -> bool,
)
    requires
        !phase(s0.stage),
        phase(run_events(s0, events).stage),
        forall|s: StartupModel, e: EventModel|
            !phase(s.stage) && #[trigger] phase(startup_next(s, e).stage) ==> s.stage == gate
                && opens(e),
    ensures
        exists|i: int|
            0 <= i < events.len() && run_events(s0, events.take(i)).stage == gate && opens(
                #[trigger] events[i],
            ),
    decreases events.len(),
{
    let prefix = events.drop_last();
    let last = events.len() - 1;
    assert(events.take(last) == prefix);
    if phase(run_events(s0, prefix).stage) {
        lemma_gate_passed(s0, prefix, phase, gate, opens);
        let i = choose|i: int|
            0 <= i < prefix.len() && run_events(s0, prefix.take(i)).stage == gate && opens(
                #[trigger] prefix[i],
            );
        assert(prefix.take(i) == events.take(i));
        assert(prefix[i] == events[i]);
    } else {
        assert(events[last] == events.last());
    }
}

/// The database server is started only after all three binaries were
/// found: a run that reaches the start of the server (or any later step)
/// answered the check of each binary with "exists".
pub proof fn lemma_binaries_checked_before_start(s0: StartupModel, events: Seq<EventModel>, tool: PgTool)
    requires
        stage_rank(s0.stage) <= stage_rank(Stage::CheckBinary(tool)),
        reached(run_events(s0, events).stage, stage_rank(Stage::StartPostgres)),
    ensures
        exists|i: int|
            0 <= i < events.len() && run_events(s0, events.take(i)).stage == Stage::CheckBinary(tool)
                && #[trigger] events[i] == EventModel::Exists(true),
{
    let k = stage_rank(Stage::CheckBinary(tool)) + 1;
    let phase = |st: Stage| reached(st, k);
    let opens = |e: EventModel| e == EventModel::Exists(true);
    assert forall|s: StartupModel, e: EventModel|
        !phase(s.stage) && #[trigger] phase(startup_next(s, e).stage) implies s.stage
        == Stage::CheckBinary(tool) && opens(e) by {}
    lemma_gate_passed(s0, events, phase, Stage::CheckBinary(tool), opens);
}

/// The sidecars are started only after the database accepted a
/// connection: a run that reaches the start of the server answered a
/// connection attempt with a successful connection.
pub proof fn lemma_sidecars_wait_for_database(s0: StartupModel, events: Seq<EventModel>)
    requires
        stage_rank(s0.stage) <= stage_rank(Stage::Probe),
        reached(run_events(s0, events).stage, stage_rank(Stage::StartServer)),
    ensures
        exists|i: int|
            0 <= i < events.len() && run_events(s0, events.take(i)).stage == Stage::Probe && (
            #[trigger] events[i] matches EventModel::Probed { connected, .. } && connected),
{
    let phase = |st: Stage| reached(st, stage_rank(Stage::PrintReady));
    let opens = |e: EventModel| e matches EventModel::Probed { connected, .. } && connected;
    assert forall|s: StartupModel, e: EventModel|
        !phase(s.stage) && #[trigger] phase(startup_next(s, e).stage) implies s.stage
        == Stage::Probe && opens(e) by {}
    lemma_gate_passed(s0, events, phase, Stage::Probe, opens);
}

/// The steps that follow a successful restore.
pub open spec fn after_successful_restore(stage: Stage) -> bool {
    match stage {
        Stage::PrintRestored | Stage::EmitRestored | Stage::RemovePending | Stage::RemoveDump => true,
        _ => false,
    }
}

/// The migration flag and dump are removed only after `psql` restored the
/// dump successfully.
pub proof fn lemma_flag_removed_only_after_restore(s0: StartupModel, events: Seq<EventModel>)
    requires
        !after_successful_restore(s0.stage),
        run_events(s0, events).stage == Stage::RemovePending || run_events(s0, events).stage == Stage::RemoveDump,
    ensures
        exists|i: int|
            0 <= i < events.len() && run_events(s0, events.take(i)).stage == Stage::RunRestore
                && #[trigger] events[i] == EventModel::Command(
                OutcomeModel::Exited { success: true },
            ),
{
    let phase = |st: Stage| after_successful_restore(st);
    let opens = |e: EventModel| e == EventModel::Command(OutcomeModel::Exited { success: true });
    assert forall|s: StartupModel, e: EventModel|
        !phase(s.stage) && #[trigger] phase(startup_next(s, e).stage) implies s.stage
        == Stage::RunRestore && opens(e) by {}
    lemma_gate_passed(s0, events, phase, Stage::RunRestore, opens);
}

/// The steps that initialise a database cluster.
pub open spec fn in_initialisation(stage: Stage) -> bool {
    match stage {
        Stage::AnnounceInit | Stage::CheckDataDir | Stage::CreateDataDir | Stage::RunInitdb
        | Stage::ReportInitdbFailure | Stage::AnnounceInitialized => true,
        _ => false,
    }
}

/// `initdb` runs only on a data directory that has no `PG_VERSION`: a run
/// that reaches it found `PG_VERSION` missing.
pub proof fn lemma_initdb_only_without_cluster(s0: StartupModel, events: Seq<EventModel>)
    requires
        !in_initialisation(s0.stage),
        run_events(s0, events).stage == Stage::RunInitdb,
    ensures
        exists|i: int|
            0 <= i < events.len() && run_events(s0, events.take(i)).stage == Stage::CheckInitialized
                && #[trigger] events[i] == EventModel::Exists(false),
{
    let phase = |st: Stage| in_initialisation(st);
    let opens = |e: EventModel| e == EventModel::Exists(false);
    assert forall|s: StartupModel, e: EventModel|
        !phase(s.stage) && #[trigger] phase(startup_next(s, e).stage) implies s.stage
        == Stage::CheckInitialized && opens(e) by {}
    lemma_gate_passed(s0, events, phase, Stage::CheckInitialized, opens);
}

} // verus!
