//! The startup sequence of the services, as a state machine.
//!
//! The host performs each action that [`Startup::action`] names and answers
//! it with an event, which [`Startup::advance`] turns into the next state:
//! resolve the base directory and check the three PostgreSQL binaries,
//! initialise the database cluster when it has no `PG_VERSION`, start the
//! database server and wait until it accepts connections, restore a pending
//! migration dump if one is announced, then start the Windmill server and
//! worker sidecars. Any failure of those steps ends the sequence with an
//! error message, after stopping what this sequence already started (the
//! server sidecar, then the database server); a failed restore does not
//! fail the sequence.

use vstd::prelude::*;
use crate::paths::BaseDirOrigin;
use crate::paths::LaunchPath;
use crate::paths::PathModel;
use crate::paths::PgTool;
use crate::paths::Platform;
use crate::paths::binary_path;
use crate::paths::executable_file;
use crate::paths::pg_binary;
use crate::paths::pg_resource_dir;
use crate::paths::pg_tool_name;
use crate::paths::resource_dir_of;
use crate::paths::tool_name;
use crate::readiness::PgReadiness;
use crate::readiness::ReadinessKind;
use crate::readiness::ReadinessStep;
use crate::readiness::PROBE_INTERVAL_MILLIS;
use crate::readiness::probe_address;
use crate::readiness::readiness_decision;
use crate::readiness::ready_message;
use crate::readiness::timeout_message;
use crate::readiness::waiting_note;
use crate::sidecar_log::SidecarRole;
use crate::text::trim_text;
use crate::text::trimmed;

verus! {

/// The port the database server listens on.
pub const PG_PORT: u16 = 5432;

/// How long the database server is given to accept connections.
pub const PG_READY_TIMEOUT_NANOS: u64 = 30_000_000_000;

/// The wait for the database server.
pub open spec fn pg_wait() -> PgReadiness {
    PgReadiness { port: PG_PORT, timeout_nanos: PG_READY_TIMEOUT_NANOS }
}

/// The connection string the Windmill sidecars are given.
pub open spec fn database_url() -> Seq<char> {
    "postgres://postgres@localhost:5432/postgres"@
}

/// A message, optionally followed by a path rendered as `{:?}` renders it.
pub struct Message {
    pub text: String,
    pub path: Option<LaunchPath>,
}

/// Model of a [`Message`].
pub struct MessageModel {
    pub text: Seq<char>,
    pub path: Option<PathModel>,
}

impl View for Message {
    type V = MessageModel;

    open spec fn view(&self) -> MessageModel {
        MessageModel {
            text: self.text@,
            path: match self.path {
                Some(p) => Some(p@),
                None => None,
            },
        }
    }
}

/// A message of text alone.
pub open spec fn plain(text: Seq<char>) -> MessageModel {
    MessageModel { text, path: None }
}

/// A command-line argument: text, or a path passed as the OS renders it.
pub enum CommandArg {
    Text(String),
    Path(LaunchPath),
}

/// Model of a [`CommandArg`].
pub enum ArgModel {
    Text(Seq<char>),
    Path(PathModel),
}

impl View for CommandArg {
    type V = ArgModel;

    open spec fn view(&self) -> ArgModel {
        match self {
            CommandArg::Text(t) => ArgModel::Text(t@),
            CommandArg::Path(p) => ArgModel::Path(p@),
        }
    }
}

/// The program a command runs.
pub enum Program {
    /// An executable file.
    Executable(LaunchPath),
    /// A sidecar binary bundled with the application, in the given role.
    Sidecar { name: String, role: SidecarRole },
}

/// Model of a [`Program`].
pub enum ProgramModel {
    Executable(PathModel),
    Sidecar { name: Seq<char>, role: SidecarRole },
}

impl View for Program {
    type V = ProgramModel;

    open spec fn view(&self) -> ProgramModel {
        match self {
            Program::Executable(p) => ProgramModel::Executable(p@),
            Program::Sidecar { name, role } => ProgramModel::Sidecar { name: name@, role: *role },
        }
    }
}

/// Whether a command is waited for or left running.
#[derive(Clone, Copy, PartialEq, Eq, Structural, Debug)]
pub enum RunMode {
    /// Run to completion; the outcome is its exit status.
    Wait,
    /// Start it and keep it running.
    Spawn,
}

/// A command to run.
pub struct CommandSpec {
    pub program: Program,
    pub args: Vec<CommandArg>,
    pub envs: Vec<(String, String)>,
    pub mode: RunMode,
}

/// Model of a [`CommandSpec`].
pub struct CommandModel {
    pub program: ProgramModel,
    pub args: Seq<ArgModel>,
    pub envs: Seq<(Seq<char>, Seq<char>)>,
    pub mode: RunMode,
}

/// The models of command-line arguments.
pub open spec fn arg_models(args: Seq<CommandArg>) -> Seq<ArgModel> {
    args.map_values(|a: CommandArg| a@)
}

/// The models of environment variables.
pub open spec fn env_models(envs: Seq<(String, String)>) -> Seq<(Seq<char>, Seq<char>)> {
    envs.map_values(|e: (String, String)| (e.0@, e.1@))
}

impl View for CommandSpec {
    type V = CommandModel;

    open spec fn view(&self) -> CommandModel {
        CommandModel {
            program: self.program@,
            args: arg_models(self.args@),
            envs: env_models(self.envs@),
            mode: self.mode,
        }
    }
}

/// A file to remove: a path, or a path given as text.
pub enum FileTarget {
    Path(LaunchPath),
    Text(String),
}

/// Model of a [`FileTarget`].
pub enum FileModel {
    Path(PathModel),
    Text(Seq<char>),
}

impl View for FileTarget {
    type V = FileModel;

    open spec fn view(&self) -> FileModel {
        match self {
            FileTarget::Path(p) => FileModel::Path(p@),
            FileTarget::Text(t) => FileModel::Text(t@),
        }
    }
}

/// A process that the startup sequence launches and keeps running.
#[derive(Clone, Copy, PartialEq, Eq, Structural, Debug)]
pub enum Service {
    /// The database server.
    Postgres,
    /// The Windmill server sidecar.
    Server,
}

/// What the host is asked to do next, and the event that answers it.
pub enum StartupAction {
    /// Emit `message` on the UI channel `channel`; answered by `Ack`.
    Emit { channel: String, message: Message },
    /// Print `line` on standard output; answered by `Ack`.
    Print { line: String },
    /// Resolve the base directory; answered by `BaseDir`.
    ResolveBaseDir,
    /// Tell whether `path` exists; answered by `Exists`.
    CheckExists { path: LaunchPath },
    /// Find the application data directory; answered by `AppDataDir`.
    LocateAppDataDir,
    /// Create `path` and its parents; answered by `Created`.
    CreateDirAll { path: LaunchPath },
    /// Run a command; answered by `Command`.
    Run { command: CommandSpec },
    /// Start measuring the wait for the database; answered by `Ack`.
    StartTimer,
    /// Try to connect to `address` within `timeout_millis`; answered by
    /// `Probed` (or `ProbeFailed` when the address does not parse).
    Connect { address: String, timeout_millis: u64 },
    /// Sleep `millis`; answered by `Ack`.
    Sleep { millis: u64 },
    /// Resolve the migration folder for `base`; answered by `MigrationDir`.
    ResolveMigrationDir { base: LaunchPath },
    /// Read the file at `path` as text; answered by `Text`.
    ReadText { path: LaunchPath },
    /// Remove a file, ignoring failure; answered by `Ack`.
    RemoveFile { target: FileTarget },
    /// Stop the process this sequence started as `service`; answered by
    /// `Ack`.
    Stop { service: Service },
    /// Startup is complete: the three processes run.
    Finish,
    /// Startup failed with this message.
    Fail { message: Message },
}

/// Model of a [`StartupAction`].
pub enum ActionModel {
    Emit { channel: Seq<char>, message: MessageModel },
    Print { line: Seq<char> },
    ResolveBaseDir,
    CheckExists { path: PathModel },
    LocateAppDataDir,
    CreateDirAll { path: PathModel },
    Run { command: CommandModel },
    StartTimer,
    Connect { address: Seq<char>, timeout_millis: u64 },
    Sleep { millis: u64 },
    ResolveMigrationDir { base: PathModel },
    ReadText { path: PathModel },
    RemoveFile { target: FileModel },
    Stop { service: Service },
    Finish,
    Fail { message: MessageModel },
}

impl View for StartupAction {
    type V = ActionModel;

    open spec fn view(&self) -> ActionModel {
        match self {
            StartupAction::Emit { channel, message } => ActionModel::Emit {
                channel: channel@,
                message: message@,
            },
            StartupAction::Print { line } => ActionModel::Print { line: line@ },
            StartupAction::ResolveBaseDir => ActionModel::ResolveBaseDir,
            StartupAction::CheckExists { path } => ActionModel::CheckExists { path: path@ },
            StartupAction::LocateAppDataDir => ActionModel::LocateAppDataDir,
            StartupAction::CreateDirAll { path } => ActionModel::CreateDirAll { path: path@ },
            StartupAction::Run { command } => ActionModel::Run { command: command@ },
            StartupAction::StartTimer => ActionModel::StartTimer,
            StartupAction::Connect { address, timeout_millis } => ActionModel::Connect {
                address: address@,
                timeout_millis: *timeout_millis,
            },
            StartupAction::Sleep { millis } => ActionModel::Sleep { millis: *millis },
            StartupAction::ResolveMigrationDir { base } => ActionModel::ResolveMigrationDir {
                base: base@,
            },
            StartupAction::ReadText { path } => ActionModel::ReadText { path: path@ },
            StartupAction::RemoveFile { target } => ActionModel::RemoveFile { target: target@ },
            StartupAction::Stop { service } => ActionModel::Stop { service: *service },
            StartupAction::Finish => ActionModel::Finish,
            StartupAction::Fail { message } => ActionModel::Fail { message: message@ },
        }
    }
}

/// How a command ended.
pub enum CommandOutcome {
    /// A waited-for command exited, successfully or not.
    Exited { success: bool },
    /// A spawned command is running.
    Started,
    /// The sidecar binary could not be resolved; the error's text.
    Unavailable(String),
    /// The command could not be launched; the error's text.
    LaunchFailed(String),
}

/// Model of a [`CommandOutcome`].
pub enum OutcomeModel {
    Exited { success: bool },
    Started,
    Unavailable(Seq<char>),
    LaunchFailed(Seq<char>),
}

impl View for CommandOutcome {
    type V = OutcomeModel;

    open spec fn view(&self) -> OutcomeModel {
        match self {
            CommandOutcome::Exited { success } => OutcomeModel::Exited { success: *success },
            CommandOutcome::Started => OutcomeModel::Started,
            CommandOutcome::Unavailable(e) => OutcomeModel::Unavailable(e@),
            CommandOutcome::LaunchFailed(e) => OutcomeModel::LaunchFailed(e@),
        }
    }
}

/// The host's answer to an action.
pub enum StartupEvent {
    /// The action was performed.
    Ack,
    /// The base directory, or the error that explains why none was found.
    BaseDir(Result<LaunchPath, String>),
    /// Whether the path exists.
    Exists(bool),
    /// The application data directory, or the error's text.
    AppDataDir(Result<LaunchPath, String>),
    /// The directory was created, or the error's text.
    Created(Result<(), String>),
    /// How the command ended.
    Command(CommandOutcome),
    /// Whether the connection succeeded, and the time since the timer started.
    Probed { connected: bool, elapsed_nanos: u64 },
    /// The probe address did not parse; the error's text.
    ProbeFailed(String),
    /// The migration folder.
    MigrationDir(LaunchPath),
    /// The file's text, if it could be read.
    Text(Option<String>),
}

/// Model of a [`StartupEvent`].
pub enum EventModel {
    Ack,
    BaseDir(Result<PathModel, Seq<char>>),
    Exists(bool),
    AppDataDir(Result<PathModel, Seq<char>>),
    Created(Result<(), Seq<char>>),
    Command(OutcomeModel),
    Probed { connected: bool, elapsed_nanos: u64 },
    ProbeFailed(Seq<char>),
    MigrationDir(PathModel),
    Text(Option<Seq<char>>),
}

impl View for StartupEvent {
    type V = EventModel;

    open spec fn view(&self) -> EventModel {
        match self {
            StartupEvent::Ack => EventModel::Ack,
            StartupEvent::BaseDir(r) => EventModel::BaseDir(
                match r {
                    Ok(p) => Ok(p@),
                    Err(e) => Err(e@),
                },
            ),
            StartupEvent::Exists(b) => EventModel::Exists(*b),
            StartupEvent::AppDataDir(r) => EventModel::AppDataDir(
                match r {
                    Ok(p) => Ok(p@),
                    Err(e) => Err(e@),
                },
            ),
            StartupEvent::Created(r) => EventModel::Created(
                match r {
                    Ok(()) => Ok(()),
                    Err(e) => Err(e@),
                },
            ),
            StartupEvent::Command(o) => EventModel::Command(o@),
            StartupEvent::Probed { connected, elapsed_nanos } => EventModel::Probed {
                connected: *connected,
                elapsed_nanos: *elapsed_nanos,
            },
            StartupEvent::ProbeFailed(e) => EventModel::ProbeFailed(e@),
            StartupEvent::MigrationDir(p) => EventModel::MigrationDir(p@),
            StartupEvent::Text(t) => EventModel::Text(
                match t {
                    Some(s) => Some(s@),
                    None => None,
                },
            ),
        }
    }
}

/// The steps of the startup sequence; each names one action.
#[derive(Clone, Copy, PartialEq, Eq, Structural, Debug)]
pub enum Stage {
    Start,
    ResolveBase,
    CheckBinary(PgTool),
    AnnounceBinaries,
    LocateAppData,
    CheckInitialized,
    AnnounceInit,
    CheckDataDir,
    CreateDataDir,
    RunInitdb,
    ReportInitdbFailure,
    AnnounceInitialized,
    AnnouncePostgres,
    StartPostgres,
    StartClock,
    AnnounceWait,
    Probe,
    Pause,
    PrintReady,
    EmitReady,
    ReportTimeout,
    ResolveMigration,
    CheckPending,
    ReadPending,
    PrintRestore,
    EmitRestore,
    RunRestore,
    PrintRestored,
    EmitRestored,
    RemovePending,
    RemoveDump,
    PrintRestoreFailed,
    EmitRestoreFailed,
    AnnounceServer,
    StartServer,
    AnnounceWorker,
    StartWorker,
    StopServer,
    StopPostgres,
    Done,
    Failed,
}

/// The state of the startup sequence. The directories and the dump path are
/// meaningful once the step that learns them has passed: `base_dir` after
/// `ResolveBase`, `data_dir` (the cluster directory) after `LocateAppData`,
/// `pending_file` after `ResolveMigration`, `dump_path` after `ReadPending`.
/// `note` holds the readiness report, or the failure once a failure has
/// happened (while the started processes are stopped, and once `Failed`).
pub struct Startup {
    pub platform: Platform,
    pub stage: Stage,
    pub base_dir: LaunchPath,
    pub data_dir: LaunchPath,
    pub pending_file: LaunchPath,
    pub dump_path: String,
    pub note: Message,
}

/// Model of a [`Startup`].
pub struct StartupModel {
    pub platform: Platform,
    pub stage: Stage,
    pub base_dir: PathModel,
    pub data_dir: PathModel,
    pub pending_file: PathModel,
    pub dump_path: Seq<char>,
    pub note: MessageModel,
}

impl View for Startup {
    type V = StartupModel;

    open spec fn view(&self) -> StartupModel {
        StartupModel {
            platform: self.platform,
            stage: self.stage,
            base_dir: self.base_dir@,
            data_dir: self.data_dir@,
            pending_file: self.pending_file@,
            dump_path: self.dump_path@,
            note: self.note@,
        }
    }
}

/// The empty path, standing for a directory not learnt yet.
pub open spec fn unknown_path() -> PathModel {
    PathModel { root: Seq::empty(), parts: Seq::empty() }
}

/// The state before the first step.
pub open spec fn initial_startup(platform: Platform) -> StartupModel {
    StartupModel {
        platform,
        stage: Stage::Start,
        base_dir: unknown_path(),
        data_dir: unknown_path(),
        pending_file: unknown_path(),
        dump_path: Seq::empty(),
        note: plain(Seq::empty()),
    }
}

/// Emit plain `text` on the `log-app` channel.
pub open spec fn app_log(text: Seq<char>) -> ActionModel {
    ActionModel::Emit { channel: "log-app"@, message: plain(text) }
}

/// The text of an argument.
pub open spec fn text_arg(t: Seq<char>) -> ArgModel {
    ArgModel::Text(t)
}

/// The arguments of `initdb`: cluster in `data_dir`, superuser `postgres`,
/// UTF-8 encoding, no locale, trust authentication.
pub open spec fn initdb_args(data_dir: PathModel) -> Seq<ArgModel> {
    seq![
        text_arg("-D"@),
        ArgModel::Path(data_dir),
        text_arg("-U"@),
        text_arg("postgres"@),
        text_arg("-E"@),
        text_arg("UTF8"@),
        text_arg("--no-locale"@),
        text_arg("--auth=trust"@),
    ]
}

/// The arguments of `postgres`: cluster in `data_dir`, port 5432.
pub open spec fn postgres_args(data_dir: PathModel) -> Seq<ArgModel> {
    seq![text_arg("-D"@), ArgModel::Path(data_dir), text_arg("-p"@), text_arg("5432"@)]
}

/// The arguments of `psql` to run the dump file at `dump` against the local
/// server.
pub open spec fn psql_args(dump: Seq<char>) -> Seq<ArgModel> {
    seq![
        text_arg("-h"@),
        text_arg("localhost"@),
        text_arg("-p"@),
        text_arg("5432"@),
        text_arg("-U"@),
        text_arg("postgres"@),
        text_arg("-d"@),
        text_arg("postgres"@),
        text_arg("-f"@),
        text_arg(dump),
    ]
}

/// The executable of `tool` under the base directory of `s`.
pub open spec fn tool_path(s: StartupModel, tool: PgTool) -> PathModel {
    pg_binary(pg_resource_dir(s.base_dir), tool, s.platform)
}

/// The command that runs a PostgreSQL tool.
pub open spec fn tool_command(s: StartupModel, tool: PgTool, args: Seq<ArgModel>, mode: RunMode) -> CommandModel {
    CommandModel {
        program: ProgramModel::Executable(tool_path(s, tool)),
        args,
        envs: Seq::empty(),
        mode,
    }
}

/// The command that starts a Windmill sidecar: the server with no
/// arguments, the worker with `worker` and a metrics address.
pub open spec fn sidecar_command(role: SidecarRole) -> CommandModel {
    CommandModel {
        program: ProgramModel::Sidecar { name: "windmill"@, role },
        args: match role {
            SidecarRole::Server => Seq::empty(),
            SidecarRole::Worker => seq![text_arg("worker"@)],
        },
        envs: match role {
            SidecarRole::Server => seq![("DATABASE_URL"@, database_url())],
            SidecarRole::Worker => seq![
                ("DATABASE_URL"@, database_url()),
                ("METRICS_ADDR"@, "0.0.0.0:8002"@),
            ],
        },
        mode: RunMode::Spawn,
    }
}

/// The announcement of a restore.
pub open spec fn restore_note(dump: Seq<char>) -> Seq<char> {
    "Restoring database from "@ + dump + "..."@
}

/// The action each step asks for.
pub open spec fn startup_action(s: StartupModel) -> ActionModel {
    match s.stage {
        Stage::Start => app_log("[Setup] Resolving paths..."@),
        Stage::ResolveBase => ActionModel::ResolveBaseDir,
        Stage::CheckBinary(tool) => ActionModel::CheckExists { path: tool_path(s, tool) },
        Stage::AnnounceBinaries => ActionModel::Emit {
            channel: "log-app"@,
            message: MessageModel {
                text: "[Setup] PostgreSQL binaries found at "@,
                path: Some(pg_resource_dir(s.base_dir)),
            },
        },
        Stage::LocateAppData => ActionModel::LocateAppDataDir,
        Stage::CheckInitialized => ActionModel::CheckExists { path: s.data_dir.join("PG_VERSION"@) },
        Stage::AnnounceInit => app_log("[PostgreSQL] Initializing database cluster..."@),
        Stage::CheckDataDir => ActionModel::CheckExists { path: s.data_dir },
        Stage::CreateDataDir => ActionModel::CreateDirAll { path: s.data_dir },
        Stage::RunInitdb => ActionModel::Run {
            command: tool_command(s, PgTool::Initdb, initdb_args(s.data_dir), RunMode::Wait),
        },
        Stage::ReportInitdbFailure => app_log(
            "[PostgreSQL ERR] initdb failed to initialize the database cluster"@,
        ),
        Stage::AnnounceInitialized => app_log("[PostgreSQL] Database cluster initialized."@),
        Stage::AnnouncePostgres => app_log("[PostgreSQL] Starting server on port 5432..."@),
        Stage::StartPostgres => ActionModel::Run {
            command: tool_command(s, PgTool::Postgres, postgres_args(s.data_dir), RunMode::Spawn),
        },
        Stage::StartClock => ActionModel::StartTimer,
        Stage::AnnounceWait => app_log(waiting_note()),
        Stage::Probe => ActionModel::Connect {
            address: probe_address(PG_PORT),
            timeout_millis: PROBE_INTERVAL_MILLIS,
        },
        Stage::Pause => ActionModel::Sleep { millis: PROBE_INTERVAL_MILLIS },
        Stage::PrintReady => ActionModel::Print { line: s.note.text },
        Stage::EmitReady => ActionModel::Emit { channel: "log-app"@, message: s.note },
        Stage::ReportTimeout => ActionModel::Emit { channel: "log-app"@, message: s.note },
        Stage::ResolveMigration => ActionModel::ResolveMigrationDir { base: s.base_dir },
        Stage::CheckPending => ActionModel::CheckExists { path: s.pending_file },
        Stage::ReadPending => ActionModel::ReadText { path: s.pending_file },
        Stage::PrintRestore => ActionModel::Print { line: restore_note(s.dump_path) },
        Stage::EmitRestore => ActionModel::Emit {
            channel: "log-migration"@,
            message: plain(restore_note(s.dump_path)),
        },
        Stage::RunRestore => ActionModel::Run {
            command: tool_command(s, PgTool::Psql, psql_args(s.dump_path), RunMode::Wait),
        },
        Stage::PrintRestored => ActionModel::Print { line: "Migration restored successfully."@ },
        Stage::EmitRestored => ActionModel::Emit {
            channel: "log-migration"@,
            message: plain("Migration restored successfully."@),
        },
        Stage::RemovePending => ActionModel::RemoveFile { target: FileModel::Path(s.pending_file) },
        Stage::RemoveDump => ActionModel::RemoveFile { target: FileModel::Text(s.dump_path) },
        Stage::PrintRestoreFailed => ActionModel::Print { line: "Failed to restore migration."@ },
        Stage::EmitRestoreFailed => ActionModel::Emit {
            channel: "log-migration"@,
            message: plain("Failed to restore migration."@),
        },
        Stage::AnnounceServer => app_log("[Windmill] Starting server..."@),
        Stage::StartServer => ActionModel::Run { command: sidecar_command(SidecarRole::Server) },
        Stage::AnnounceWorker => app_log("[Windmill] Starting worker..."@),
        Stage::StartWorker => ActionModel::Run { command: sidecar_command(SidecarRole::Worker) },
        Stage::StopServer => ActionModel::Stop { service: Service::Server },
        Stage::StopPostgres => ActionModel::Stop { service: Service::Postgres },
        Stage::Done => ActionModel::Finish,
        Stage::Failed => ActionModel::Fail { message: s.note },
    }
}

/// The step after a successful `Ack`, for the steps that `Ack` answers.
pub open spec fn after_ack(stage: Stage) -> Option<Stage> {
    match stage {
        Stage::Start => Some(Stage::ResolveBase),
        Stage::AnnounceBinaries => Some(Stage::LocateAppData),
        Stage::AnnounceInit => Some(Stage::CheckDataDir),
        Stage::AnnounceInitialized => Some(Stage::AnnouncePostgres),
        Stage::AnnouncePostgres => Some(Stage::StartPostgres),
        Stage::StartClock => Some(Stage::AnnounceWait),
        Stage::AnnounceWait => Some(Stage::Probe),
        Stage::Pause => Some(Stage::Probe),
        Stage::PrintReady => Some(Stage::EmitReady),
        Stage::EmitReady => Some(Stage::ResolveMigration),
        Stage::ReportTimeout => Some(Stage::StopPostgres),
        Stage::PrintRestore => Some(Stage::EmitRestore),
        Stage::EmitRestore => Some(Stage::RunRestore),
        Stage::PrintRestored => Some(Stage::EmitRestored),
        Stage::EmitRestored => Some(Stage::RemovePending),
        Stage::RemovePending => Some(Stage::RemoveDump),
        Stage::RemoveDump => Some(Stage::AnnounceServer),
        Stage::PrintRestoreFailed => Some(Stage::EmitRestoreFailed),
        Stage::EmitRestoreFailed => Some(Stage::AnnounceServer),
        Stage::AnnounceServer => Some(Stage::StartServer),
        Stage::AnnounceWorker => Some(Stage::StartWorker),
        Stage::StopServer => Some(Stage::StopPostgres),
        Stage::StopPostgres => Some(Stage::Failed),
        _ => None,
    }
}

/// The binary checked after `tool`, if any.
pub open spec fn next_tool(tool: PgTool) -> Option<PgTool> {
    match tool {
        PgTool::Initdb => Some(PgTool::Postgres),
        PgTool::Postgres => Some(PgTool::Psql),
        PgTool::Psql => None,
    }
}

/// `s` at step `stage`.
pub open spec fn at(s: StartupModel, stage: Stage) -> StartupModel {
    StartupModel { stage, ..s }
}

/// `s` failed with `message`.
pub open spec fn failing(s: StartupModel, message: MessageModel) -> StartupModel {
    StartupModel { stage: Stage::Failed, note: message, ..s }
}

/// `s` failed with `message` after this sequence started the database
/// server (and, when `server_started`, the server sidecar): those are
/// stopped first, the server sidecar before the database.
pub open spec fn failing_stopping(s: StartupModel, message: MessageModel, server_started: bool) -> StartupModel {
    StartupModel {
        stage: if server_started {
            Stage::StopServer
        } else {
            Stage::StopPostgres
        },
        note: message,
        ..s
    }
}

/// The state after `event` answers the action of `s`. An event that does
/// not answer that action leaves the state as it is.
pub open spec fn startup_next(s: StartupModel, event: EventModel) -> StartupModel {
    match (s.stage, event) {
        (Stage::ResolveBase, EventModel::BaseDir(Ok(base))) => StartupModel {
            stage: Stage::CheckBinary(PgTool::Initdb),
            base_dir: base,
            ..s
        },
        (Stage::ResolveBase, EventModel::BaseDir(Err(e))) => failing(s, plain(e)),
        (Stage::CheckBinary(tool), EventModel::Exists(true)) => match next_tool(tool) {
            Some(t) => at(s, Stage::CheckBinary(t)),
            None => at(s, Stage::AnnounceBinaries),
        },
        (Stage::CheckBinary(tool), EventModel::Exists(false)) => failing(
            s,
            MessageModel {
                text: tool_name(tool) + " binary not found at "@,
                path: Some(tool_path(s, tool)),
            },
        ),
        (Stage::LocateAppData, EventModel::AppDataDir(Ok(dir))) => StartupModel {
            stage: Stage::CheckInitialized,
            data_dir: dir.join("pgdata"@),
            ..s
        },
        (Stage::LocateAppData, EventModel::AppDataDir(Err(e))) => failing(
            s,
            plain("Could not find app_data_dir: "@ + e),
        ),
        (Stage::CheckInitialized, EventModel::Exists(found)) => if found {
            at(s, Stage::AnnouncePostgres)
        } else {
            at(s, Stage::AnnounceInit)
        },
        (Stage::CheckDataDir, EventModel::Exists(found)) => if found {
            at(s, Stage::RunInitdb)
        } else {
            at(s, Stage::CreateDataDir)
        },
        (Stage::CreateDataDir, EventModel::Created(Ok(()))) => at(s, Stage::RunInitdb),
        (Stage::CreateDataDir, EventModel::Created(Err(e))) => failing(s, plain(e)),
        (Stage::RunInitdb, EventModel::Command(OutcomeModel::Exited { success })) => if success {
            at(s, Stage::AnnounceInitialized)
        } else {
            at(s, Stage::ReportInitdbFailure)
        },
        (Stage::RunInitdb, EventModel::Command(OutcomeModel::LaunchFailed(e))) => failing(
            s,
            plain("Failed to run initdb: "@ + e),
        ),
        (Stage::ReportInitdbFailure, EventModel::Ack) => failing(
            s,
            plain("initdb failed to initialize the database cluster"@),
        ),
        (Stage::StartPostgres, EventModel::Command(OutcomeModel::Started)) => at(s, Stage::StartClock),
        (Stage::StartPostgres, EventModel::Command(OutcomeModel::LaunchFailed(e))) => failing(
            s,
            plain("Failed to start PostgreSQL: "@ + e),
        ),
        (Stage::Probe, EventModel::Probed { connected, elapsed_nanos }) => match readiness_decision(
            pg_wait(),
            connected,
            elapsed_nanos,
        ) {
            ReadinessKind::Ready => StartupModel {
                stage: Stage::PrintReady,
                note: plain(ready_message(elapsed_nanos)),
                ..s
            },
            ReadinessKind::TimedOut => StartupModel {
                stage: Stage::ReportTimeout,
                note: plain(timeout_message(PG_READY_TIMEOUT_NANOS, PG_PORT)),
                ..s
            },
            ReadinessKind::Retry => at(s, Stage::Pause),
        },
        (Stage::Probe, EventModel::ProbeFailed(e)) => failing_stopping(
            s,
            plain("Bad address: "@ + e),
            false,
        ),
        (Stage::ResolveMigration, EventModel::MigrationDir(dir)) => StartupModel {
            stage: Stage::CheckPending,
            pending_file: dir.join("PENDING_MIGRATION"@),
            ..s
        },
        (Stage::CheckPending, EventModel::Exists(found)) => if found {
            at(s, Stage::ReadPending)
        } else {
            at(s, Stage::AnnounceServer)
        },
        (Stage::ReadPending, EventModel::Text(Some(text))) => StartupModel {
            stage: Stage::PrintRestore,
            dump_path: trimmed(text),
            ..s
        },
        (Stage::ReadPending, EventModel::Text(None)) => at(s, Stage::AnnounceServer),
        (Stage::RunRestore, EventModel::Command(OutcomeModel::Exited { success })) => if success {
            at(s, Stage::PrintRestored)
        } else {
            at(s, Stage::PrintRestoreFailed)
        },
        (Stage::RunRestore, EventModel::Command(OutcomeModel::LaunchFailed(_))) => at(
            s,
            Stage::AnnounceServer,
        ),
        (Stage::StartServer, EventModel::Command(OutcomeModel::Started)) => at(
            s,
            Stage::AnnounceWorker,
        ),
        (Stage::StartServer, EventModel::Command(OutcomeModel::Unavailable(e))) => failing_stopping(
            s,
            plain(e),
            false,
        ),
        (Stage::StartServer, EventModel::Command(OutcomeModel::LaunchFailed(e))) => failing_stopping(
            s,
            plain("Failed to start Windmill server sidecar: "@ + e),
            false,
        ),
        (Stage::StartWorker, EventModel::Command(OutcomeModel::Started)) => at(s, Stage::Done),
        (Stage::StartWorker, EventModel::Command(OutcomeModel::Unavailable(e))) => failing_stopping(
            s,
            plain(e),
            true,
        ),
        (Stage::StartWorker, EventModel::Command(OutcomeModel::LaunchFailed(e))) => failing_stopping(
            s,
            plain("Failed to start Windmill worker sidecar: "@ + e),
            true,
        ),
        (stage, EventModel::Ack) => match after_ack(stage) {
            Some(next) => at(s, next),
            None => s,
        },
        _ => s,
    }
}


fn text_of(t: &str) -> (r: String)
    ensures
        r@ == t@,
{
    String::from_str(t)
}

fn plain_message(text: String) -> (m: Message)
    ensures
        m@ == plain(text@),
{
    Message { text, path: None }
}

fn copy_message(m: &Message) -> (r: Message)
    ensures
        r@ == m@,
{
    Message {
        text: m.text.clone(),
        path: match &m.path {
            Some(p) => Some(p.duplicate()),
            None => None,
        },
    }
}

fn app_log_action(t: &str) -> (a: StartupAction)
    ensures
        a@ == app_log(t@),
{
    StartupAction::Emit { channel: text_of("log-app"), message: plain_message(text_of(t)) }
}

fn push_text_arg(v: &mut Vec<CommandArg>, t: &str)
    ensures
        arg_models(final(v)@) == arg_models(old(v)@).push(text_arg(t@)),
{
    let ghost before = v@;
    v.push(CommandArg::Text(text_of(t)));
    assert(arg_models(v@) == arg_models(before).push(text_arg(t@)));
}

fn push_path_arg(v: &mut Vec<CommandArg>, p: &LaunchPath)
    ensures
        arg_models(final(v)@) == arg_models(old(v)@).push(ArgModel::Path(p@)),
{
    let ghost before = v@;
    v.push(CommandArg::Path(p.duplicate()));
    assert(arg_models(v@) == arg_models(before).push(ArgModel::Path(p@)));
}

fn no_args() -> (v: Vec<CommandArg>)
    ensures
        arg_models(v@) == Seq::<ArgModel>::empty(),
{
    let v: Vec<CommandArg> = Vec::new();
    assert(arg_models(v@) == Seq::<ArgModel>::empty());
    v
}

fn initdb_arg_list(data_dir: &LaunchPath) -> (v: Vec<CommandArg>)
    ensures
        arg_models(v@) == initdb_args(data_dir@),
{
    let mut v = no_args();
    push_text_arg(&mut v, "-D");
    push_path_arg(&mut v, data_dir);
    push_text_arg(&mut v, "-U");
    push_text_arg(&mut v, "postgres");
    push_text_arg(&mut v, "-E");
    push_text_arg(&mut v, "UTF8");
    push_text_arg(&mut v, "--no-locale");
    push_text_arg(&mut v, "--auth=trust");
    assert(arg_models(v@) == initdb_args(data_dir@));
    v
}

fn postgres_arg_list(data_dir: &LaunchPath) -> (v: Vec<CommandArg>)
    ensures
        arg_models(v@) == postgres_args(data_dir@),
{
    let mut v = no_args();
    push_text_arg(&mut v, "-D");
    push_path_arg(&mut v, data_dir);
    push_text_arg(&mut v, "-p");
    push_text_arg(&mut v, "5432");
    assert(arg_models(v@) == postgres_args(data_dir@));
    v
}

fn psql_arg_list(dump: &String) -> (v: Vec<CommandArg>)
    ensures
        arg_models(v@) == psql_args(dump@),
{
    let mut v = no_args();
    push_text_arg(&mut v, "-h");
    push_text_arg(&mut v, "localhost");
    push_text_arg(&mut v, "-p");
    push_text_arg(&mut v, "5432");
    push_text_arg(&mut v, "-U");
    push_text_arg(&mut v, "postgres");
    push_text_arg(&mut v, "-d");
    push_text_arg(&mut v, "postgres");
    push_text_arg(&mut v, "-f");
    push_text_arg(&mut v, dump.as_str());
    assert(arg_models(v@) == psql_args(dump@));
    v
}

fn push_env(v: &mut Vec<(String, String)>, key: &str, value: &str)
    ensures
        env_models(final(v)@) == env_models(old(v)@).push((key@, value@)),
{
    let ghost before = v@;
    v.push((text_of(key), text_of(value)));
    assert(env_models(v@) == env_models(before).push((key@, value@)));
}

/// The command that starts the Windmill sidecar in `role`.
pub fn sidecar_command_spec(role: SidecarRole) -> (c: CommandSpec)
    ensures
        c@ == sidecar_command(role),
{
    let mut args = no_args();
    let mut envs: Vec<(String, String)> = Vec::new();
    assert(env_models(envs@) == Seq::<(Seq<char>, Seq<char>)>::empty());
    push_env(&mut envs, "DATABASE_URL", "postgres://postgres@localhost:5432/postgres");
    match role {
        SidecarRole::Server => {},
        SidecarRole::Worker => {
            push_text_arg(&mut args, "worker");
            push_env(&mut envs, "METRICS_ADDR", "0.0.0.0:8002");
        },
    }
    let c = CommandSpec {
        program: Program::Sidecar { name: text_of("windmill"), role },
        args,
        envs,
        mode: RunMode::Spawn,
    };
    assert(c@.args == sidecar_command(role).args);
    assert(c@.envs == sidecar_command(role).envs);
    c
}

fn restore_line(dump: &String) -> (r: String)
    ensures
        r@ == restore_note(dump@),
{
    let mut r = text_of("Restoring database from ");
    r.append(dump.as_str());
    r.append("...");
    r
}

/// The wait for the database server.
pub fn pg_wait_spec() -> (w: PgReadiness)
    ensures
        w == pg_wait(),
{
    PgReadiness { port: PG_PORT, timeout_nanos: PG_READY_TIMEOUT_NANOS }
}

fn next_after_ack(stage: Stage) -> (r: Option<Stage>)
    ensures
        r == after_ack(stage),
{
    match stage {
        Stage::Start => Some(Stage::ResolveBase),
        Stage::AnnounceBinaries => Some(Stage::LocateAppData),
        Stage::AnnounceInit => Some(Stage::CheckDataDir),
        Stage::AnnounceInitialized => Some(Stage::AnnouncePostgres),
        Stage::AnnouncePostgres => Some(Stage::StartPostgres),
        Stage::StartClock => Some(Stage::AnnounceWait),
        Stage::AnnounceWait => Some(Stage::Probe),
        Stage::Pause => Some(Stage::Probe),
        Stage::PrintReady => Some(Stage::EmitReady),
        Stage::EmitReady => Some(Stage::ResolveMigration),
        Stage::ReportTimeout => Some(Stage::StopPostgres),
        Stage::PrintRestore => Some(Stage::EmitRestore),
        Stage::EmitRestore => Some(Stage::RunRestore),
        Stage::PrintRestored => Some(Stage::EmitRestored),
        Stage::EmitRestored => Some(Stage::RemovePending),
        Stage::RemovePending => Some(Stage::RemoveDump),
        Stage::RemoveDump => Some(Stage::AnnounceServer),
        Stage::PrintRestoreFailed => Some(Stage::EmitRestoreFailed),
        Stage::EmitRestoreFailed => Some(Stage::AnnounceServer),
        Stage::AnnounceServer => Some(Stage::StartServer),
        Stage::AnnounceWorker => Some(Stage::StartWorker),
        Stage::StopServer => Some(Stage::StopPostgres),
        Stage::StopPostgres => Some(Stage::Failed),
        _ => None,
    }
}

impl Startup {
    /// The state before the first step.
    pub fn new(platform: Platform) -> (s: Startup)
        ensures
            s@ == initial_startup(platform),
    {
        Startup {
            platform,
            stage: Stage::Start,
            base_dir: LaunchPath::new(String::new()),
            data_dir: LaunchPath::new(String::new()),
            pending_file: LaunchPath::new(String::new()),
            dump_path: String::new(),
            note: plain_message(String::new()),
        }
    }

    fn tool_path(&self, tool: PgTool) -> (p: LaunchPath)
        ensures
            p@ == tool_path(self@, tool),
    {
        binary_path(&resource_dir_of(&self.base_dir), tool, self.platform)
    }

    fn tool_command(&self, tool: PgTool, args: Vec<CommandArg>, mode: RunMode) -> (c: CommandSpec)
        ensures
            c@ == tool_command(self@, tool, arg_models(args@), mode),
    {
        let envs: Vec<(String, String)> = Vec::new();
        assert(env_models(envs@) == Seq::<(Seq<char>, Seq<char>)>::empty());
        CommandSpec { program: Program::Executable(self.tool_path(tool)), args, envs, mode }
    }

    /// The action the current step asks for.
    pub fn action(&self) -> (a: StartupAction)
        ensures
            a@ == startup_action(self@),
    {
        match self.stage {
            Stage::Start => app_log_action("[Setup] Resolving paths..."),
            Stage::ResolveBase => StartupAction::ResolveBaseDir,
            Stage::CheckBinary(tool) => StartupAction::CheckExists { path: self.tool_path(tool) },
            Stage::AnnounceBinaries => StartupAction::Emit {
                channel: text_of("log-app"),
                message: Message {
                    text: text_of("[Setup] PostgreSQL binaries found at "),
                    path: Some(resource_dir_of(&self.base_dir)),
                },
            },
            Stage::LocateAppData => StartupAction::LocateAppDataDir,
            Stage::CheckInitialized => StartupAction::CheckExists {
                path: self.data_dir.join("PG_VERSION"),
            },
            Stage::AnnounceInit => app_log_action("[PostgreSQL] Initializing database cluster..."),
            Stage::CheckDataDir => StartupAction::CheckExists { path: self.data_dir.duplicate() },
            Stage::CreateDataDir => StartupAction::CreateDirAll { path: self.data_dir.duplicate() },
            Stage::RunInitdb => StartupAction::Run {
                command: self.tool_command(
                    PgTool::Initdb,
                    initdb_arg_list(&self.data_dir),
                    RunMode::Wait,
                ),
            },
            Stage::ReportInitdbFailure => app_log_action(
                "[PostgreSQL ERR] initdb failed to initialize the database cluster",
            ),
            Stage::AnnounceInitialized => app_log_action(
                "[PostgreSQL] Database cluster initialized.",
            ),
            Stage::AnnouncePostgres => app_log_action(
                "[PostgreSQL] Starting server on port 5432...",
            ),
            Stage::StartPostgres => StartupAction::Run {
                command: self.tool_command(
                    PgTool::Postgres,
                    postgres_arg_list(&self.data_dir),
                    RunMode::Spawn,
                ),
            },
            Stage::StartClock => StartupAction::StartTimer,
            Stage::AnnounceWait => StartupAction::Emit {
                channel: text_of("log-app"),
                message: plain_message(PgReadiness::waiting_note()),
            },
            Stage::Probe => StartupAction::Connect {
                address: pg_wait_spec().address(),
                timeout_millis: PROBE_INTERVAL_MILLIS,
            },
            Stage::Pause => StartupAction::Sleep { millis: PROBE_INTERVAL_MILLIS },
            Stage::PrintReady => StartupAction::Print { line: self.note.text.clone() },
            Stage::EmitReady => StartupAction::Emit {
                channel: text_of("log-app"),
                message: copy_message(&self.note),
            },
            Stage::ReportTimeout => StartupAction::Emit {
                channel: text_of("log-app"),
                message: copy_message(&self.note),
            },
            Stage::ResolveMigration => StartupAction::ResolveMigrationDir {
                base: self.base_dir.duplicate(),
            },
            Stage::CheckPending => StartupAction::CheckExists { path: self.pending_file.duplicate() },
            Stage::ReadPending => StartupAction::ReadText { path: self.pending_file.duplicate() },
            Stage::PrintRestore => StartupAction::Print { line: restore_line(&self.dump_path) },
            Stage::EmitRestore => StartupAction::Emit {
                channel: text_of("log-migration"),
                message: plain_message(restore_line(&self.dump_path)),
            },
            Stage::RunRestore => StartupAction::Run {
                command: self.tool_command(
                    PgTool::Psql,
                    psql_arg_list(&self.dump_path),
                    RunMode::Wait,
                ),
            },
            Stage::PrintRestored => StartupAction::Print {
                line: text_of("Migration restored successfully."),
            },
            Stage::EmitRestored => StartupAction::Emit {
                channel: text_of("log-migration"),
                message: plain_message(text_of("Migration restored successfully.")),
            },
            Stage::RemovePending => StartupAction::RemoveFile {
                target: FileTarget::Path(self.pending_file.duplicate()),
            },
            Stage::RemoveDump => StartupAction::RemoveFile {
                target: FileTarget::Text(self.dump_path.clone()),
            },
            Stage::PrintRestoreFailed => StartupAction::Print {
                line: text_of("Failed to restore migration."),
            },
            Stage::EmitRestoreFailed => StartupAction::Emit {
                channel: text_of("log-migration"),
                message: plain_message(text_of("Failed to restore migration.")),
            },
            Stage::AnnounceServer => app_log_action("[Windmill] Starting server..."),
            Stage::StartServer => StartupAction::Run {
                command: sidecar_command_spec(SidecarRole::Server),
            },
            Stage::AnnounceWorker => app_log_action("[Windmill] Starting worker..."),
            Stage::StartWorker => StartupAction::Run {
                command: sidecar_command_spec(SidecarRole::Worker),
            },
            Stage::StopServer => StartupAction::Stop { service: Service::Server },
            Stage::StopPostgres => StartupAction::Stop { service: Service::Postgres },
            Stage::Done => StartupAction::Finish,
            Stage::Failed => StartupAction::Fail { message: copy_message(&self.note) },
        }
    }

    fn fail_with(&mut self, message: Message)
        ensures
            final(self)@ == failing(old(self)@, message@),
    {
        self.stage = Stage::Failed;
        self.note = message;
    }

    fn fail_stopping(&mut self, message: Message, server_started: bool)
        ensures
            final(self)@ == failing_stopping(old(self)@, message@, server_started),
    {
        self.stage = if server_started {
            Stage::StopServer
        } else {
            Stage::StopPostgres
        };
        self.note = message;
    }

    /// Takes in the host's answer to the current action.
    pub fn advance(&mut self, event: StartupEvent)
        ensures
            final(self)@ == startup_next(old(self)@, event@),
    {
        let stage = self.stage;
        match event {
            StartupEvent::Ack => {
                if stage == Stage::ReportInitdbFailure {
                    self.fail_with(plain_message(text_of("initdb failed to initialize the database cluster")));
                } else {
                    match next_after_ack(stage) {
                        Some(next) => self.stage = next,
                        None => {},
                    }
                }
            },
            StartupEvent::BaseDir(r) => {
                if stage == Stage::ResolveBase {
                    match r {
                        Ok(base) => {
                            self.base_dir = base;
                            self.stage = Stage::CheckBinary(PgTool::Initdb);
                        },
                        Err(e) => self.fail_with(plain_message(e)),
                    }
                }
            },
            StartupEvent::Exists(found) => {
                match stage {
                    Stage::CheckBinary(tool) => {
                        if found {
                            self.stage = match tool {
                                PgTool::Initdb => Stage::CheckBinary(PgTool::Postgres),
                                PgTool::Postgres => Stage::CheckBinary(PgTool::Psql),
                                PgTool::Psql => Stage::AnnounceBinaries,
                            };
                        } else {
                            let mut text = pg_tool_name(tool);
                            text.append(" binary not found at ");
                            let path = self.tool_path(tool);
                            self.fail_with(Message { text, path: Some(path) });
                        }
                    },
                    Stage::CheckInitialized => {
                        self.stage = if found {
                            Stage::AnnouncePostgres
                        } else {
                            Stage::AnnounceInit
                        };
                    },
                    Stage::CheckDataDir => {
                        self.stage = if found {
                            Stage::RunInitdb
                        } else {
                            Stage::CreateDataDir
                        };
                    },
                    Stage::CheckPending => {
                        self.stage = if found {
                            Stage::ReadPending
                        } else {
                            Stage::AnnounceServer
                        };
                    },
                    _ => {},
                }
            },
            StartupEvent::AppDataDir(r) => {
                if stage == Stage::LocateAppData {
                    match r {
                        Ok(dir) => {
                            self.data_dir = dir.join("pgdata");
                            self.stage = Stage::CheckInitialized;
                        },
                        Err(e) => {
                            let mut text = text_of("Could not find app_data_dir: ");
                            text.append(e.as_str());
                            self.fail_with(plain_message(text));
                        },
                    }
                }
            },
            StartupEvent::Created(r) => {
                if stage == Stage::CreateDataDir {
                    match r {
                        Ok(()) => self.stage = Stage::RunInitdb,
                        Err(e) => self.fail_with(plain_message(e)),
                    }
                }
            },
            StartupEvent::Command(outcome) => self.take_outcome(outcome),
            StartupEvent::Probed { connected, elapsed_nanos } => {
                if stage == Stage::Probe {
                    match pg_wait_spec().step(connected, elapsed_nanos) {
                        ReadinessStep::Ready { message } => {
                            self.note = plain_message(message);
                            self.stage = Stage::PrintReady;
                        },
                        ReadinessStep::TimedOut { message } => {
                            self.note = plain_message(message);
                            self.stage = Stage::ReportTimeout;
                        },
                        ReadinessStep::Retry { pause_millis: _ } => self.stage = Stage::Pause,
                    }
                }
            },
            StartupEvent::ProbeFailed(e) => {
                if stage == Stage::Probe {
                    let mut text = text_of("Bad address: ");
                    text.append(e.as_str());
                    self.fail_stopping(plain_message(text), false);
                }
            },
            StartupEvent::MigrationDir(dir) => {
                if stage == Stage::ResolveMigration {
                    self.pending_file = dir.join("PENDING_MIGRATION");
                    self.stage = Stage::CheckPending;
                }
            },
            StartupEvent::Text(t) => {
                if stage == Stage::ReadPending {
                    match t {
                        Some(text) => {
                            self.dump_path = trim_text(text.as_str());
                            self.stage = Stage::PrintRestore;
                        },
                        None => self.stage = Stage::AnnounceServer,
                    }
                }
            },
        }
    }

    fn take_outcome(&mut self, outcome: CommandOutcome)
        ensures
            final(self)@ == startup_next(old(self)@, EventModel::Command(outcome@)),
    {
        let stage = self.stage;
        match stage {
            Stage::RunInitdb => match outcome {
                CommandOutcome::Exited { success } => {
                    self.stage = if success {
                        Stage::AnnounceInitialized
                    } else {
                        Stage::ReportInitdbFailure
                    };
                },
                CommandOutcome::LaunchFailed(e) => {
                    let mut text = text_of("Failed to run initdb: ");
                    text.append(e.as_str());
                    self.fail_with(plain_message(text));
                },
                _ => {},
            },
            Stage::StartPostgres => match outcome {
                CommandOutcome::Started => self.stage = Stage::StartClock,
                CommandOutcome::LaunchFailed(e) => {
                    let mut text = text_of("Failed to start PostgreSQL: ");
                    text.append(e.as_str());
                    self.fail_with(plain_message(text));
                },
                _ => {},
            },
            Stage::RunRestore => match outcome {
                CommandOutcome::Exited { success } => {
                    self.stage = if success {
                        Stage::PrintRestored
                    } else {
                        Stage::PrintRestoreFailed
                    };
                },
                CommandOutcome::LaunchFailed(_) => self.stage = Stage::AnnounceServer,
                _ => {},
            },
            Stage::StartServer => match outcome {
                CommandOutcome::Started => self.stage = Stage::AnnounceWorker,
                CommandOutcome::Unavailable(e) => self.fail_stopping(plain_message(e), false),
                CommandOutcome::LaunchFailed(e) => {
                    let mut text = text_of("Failed to start Windmill server sidecar: ");
                    text.append(e.as_str());
                    self.fail_stopping(plain_message(text), false);
                },
                _ => {},
            },
            Stage::StartWorker => match outcome {
                CommandOutcome::Started => self.stage = Stage::Done,
                CommandOutcome::Unavailable(e) => self.fail_stopping(plain_message(e), true),
                CommandOutcome::LaunchFailed(e) => {
                    let mut text = text_of("Failed to start Windmill worker sidecar: ");
                    text.append(e.as_str());
                    self.fail_stopping(plain_message(text), true);
                },
                _ => {},
            },
            _ => {},
        }
    }
}

} // verus!
