//! Routing of the Windmill sidecars' output: what is echoed on the console
//! and which UI channel receives each line, exit report or failure.

use vstd::prelude::*;
use crate::text::append_signed_decimal;
use crate::text::contains_text;
use crate::text::decode_lossy;
use crate::text::signed_decimal;
use crate::text::text_contains;
use crate::text::utf8_lossy;

verus! {

/// The two sidecar processes.
#[derive(Clone, Copy, PartialEq, Eq, Structural, Debug)]
pub enum SidecarRole {
    Server,
    Worker,
}

/// What a sidecar process reports.
pub enum SidecarEvent {
    /// A line on its standard output.
    Stdout(Vec<u8>),
    /// A line on its standard error.
    Stderr(Vec<u8>),
    /// An error of the process runner.
    Error(String),
    /// The process ended with an exit code and a signal, each if known.
    Terminated { code: Option<i32>, signal: Option<i32> },
    /// Anything else, which is ignored.
    Other,
}

/// Model of a [`SidecarEvent`].
pub enum SidecarEventModel {
    Stdout(Seq<u8>),
    Stderr(Seq<u8>),
    Error(Seq<char>),
    Terminated { code: Option<i32>, signal: Option<i32> },
    Other,
}

impl View for SidecarEvent {
    type V = SidecarEventModel;

    open spec fn view(&self) -> SidecarEventModel {
        match self {
            SidecarEvent::Stdout(b) => SidecarEventModel::Stdout(b@),
            SidecarEvent::Stderr(b) => SidecarEventModel::Stderr(b@),
            SidecarEvent::Error(e) => SidecarEventModel::Error(e@),
            SidecarEvent::Terminated { code, signal } => SidecarEventModel::Terminated {
                code: *code,
                signal: *signal,
            },
            SidecarEvent::Other => SidecarEventModel::Other,
        }
    }
}

/// The console stream a line is written to.
#[derive(Clone, Copy, PartialEq, Eq, Structural, Debug)]
pub enum ConsoleStream {
    /// Standard output.
    Standard,
    /// Standard error.
    Error,
}

/// A line for the console.
pub struct ConsoleLine {
    pub stream: ConsoleStream,
    pub text: String,
}

/// A payload for a UI channel.
pub struct Emission {
    pub channel: String,
    pub payload: String,
}

/// What one sidecar event causes: at most one console line, then the
/// emissions in order.
pub struct LogEffects {
    pub console: Option<ConsoleLine>,
    pub emissions: Vec<Emission>,
}

/// Model of [`LogEffects`].
pub struct LogEffectsModel {
    pub console: Option<(ConsoleStream, Seq<char>)>,
    pub emissions: Seq<(Seq<char>, Seq<char>)>,
}

/// The model of an emission: channel and payload.
pub open spec fn emission_model(e: Emission) -> (Seq<char>, Seq<char>) {
    (e.channel@, e.payload@)
}

impl View for LogEffects {
    type V = LogEffectsModel;

    open spec fn view(&self) -> LogEffectsModel {
        LogEffectsModel {
            console: match self.console {
                Some(l) => Some((l.stream, l.text@)),
                None => None,
            },
            emissions: self.emissions@.map_values(|e: Emission| emission_model(e)),
        }
    }
}

/// The console label of a sidecar.
pub open spec fn console_label(role: SidecarRole) -> Seq<char> {
    match role {
        SidecarRole::Server => "Windmill Server"@,
        SidecarRole::Worker => "Windmill Worker"@,
    }
}

/// The tag that starts a sidecar's UI messages.
pub open spec fn ui_tag(role: SidecarRole) -> Seq<char> {
    match role {
        SidecarRole::Server => "Server"@,
        SidecarRole::Worker => "Worker"@,
    }
}

/// The name a sidecar is reported under on the `service-error` channel.
pub open spec fn service_name(role: SidecarRole) -> Seq<char> {
    match role {
        SidecarRole::Server => "windmill-server"@,
        SidecarRole::Worker => "windmill-worker"@,
    }
}

/// `{:?}` of an optional signal number: `None` or `Some(n)`.
pub open spec fn signal_debug(signal: Option<i32>) -> Seq<char> {
    match signal {
        Some(n) => "Some("@ + signed_decimal(n as int) + ")"@,
        None => "None"@,
    }
}

/// The channel a line of standard output goes to: the server's lines that
/// mention a migration go to `log-migration`, all others to `log-app`.
pub open spec fn stdout_channel(role: SidecarRole, text: Seq<char>) -> Seq<char> {
    if role == SidecarRole::Server && (contains_text(text, "migration"@) || contains_text(
        text,
        "migrating"@,
    )) {
        "log-migration"@
    } else {
        "log-app"@
    }
}

/// The exit report of a sidecar; a missing exit code counts as `-1`.
pub open spec fn exit_report(role: SidecarRole, code: Option<i32>, signal: Option<i32>) -> Seq<char> {
    let c: int = match code {
        Some(c) => c as int,
        None => -1,
    };
    "["@ + ui_tag(role) + " EXIT] code="@ + signed_decimal(c) + ", signal="@ + signal_debug(signal)
}

/// What an event of the sidecar `role` causes.
pub open spec fn sidecar_effects(role: SidecarRole, event: SidecarEventModel) -> LogEffectsModel {
    match event {
        SidecarEventModel::Stdout(bytes) => {
            let text = utf8_lossy(bytes);
            LogEffectsModel {
                console: Some((ConsoleStream::Standard, console_label(role) + " [OUT]: "@ + text)),
                emissions: seq![
                    (stdout_channel(role, text), "["@ + ui_tag(role) + "] "@ + text),
                ],
            }
        },
        SidecarEventModel::Stderr(bytes) => {
            let text = utf8_lossy(bytes);
            LogEffectsModel {
                console: Some((ConsoleStream::Error, console_label(role) + " [ERR]: "@ + text)),
                emissions: seq![("log-app"@, "["@ + ui_tag(role) + " ERR] "@ + text)],
            }
        },
        SidecarEventModel::Error(err) => {
            let msg = "["@ + ui_tag(role) + " CRITICAL] "@ + err;
            LogEffectsModel {
                console: Some((ConsoleStream::Error, msg)),
                emissions: seq![("log-app"@, msg), ("service-error"@, service_name(role))],
            }
        },
        SidecarEventModel::Terminated { code, signal } => {
            let msg = exit_report(role, code, signal);
            let failed = match code {
                Some(c) => c != 0,
                None => true,
            };
            LogEffectsModel {
                console: Some((ConsoleStream::Standard, msg)),
                emissions: if failed {
                    seq![("log-app"@, msg), ("service-error"@, service_name(role))]
                } else {
                    seq![("log-app"@, msg)]
                },
            }
        },
        SidecarEventModel::Other => LogEffectsModel { console: None, emissions: Seq::empty() },
    }
}

fn label_of(role: SidecarRole) -> (s: String)
    ensures
        s@ == console_label(role),
{
    match role {
        SidecarRole::Server => String::from_str("Windmill Server"),
        SidecarRole::Worker => String::from_str("Windmill Worker"),
    }
}

fn tagged(role: SidecarRole, suffix: &str) -> (s: String)
    ensures
        s@ == "["@ + ui_tag(role) + suffix@,
{
    let mut s = String::from_str("[");
    match role {
        SidecarRole::Server => s.append("Server"),
        SidecarRole::Worker => s.append("Worker"),
    }
    s.append(suffix);
    s
}

fn service_of(role: SidecarRole) -> (s: String)
    ensures
        s@ == service_name(role),
{
    match role {
        SidecarRole::Server => String::from_str("windmill-server"),
        SidecarRole::Worker => String::from_str("windmill-worker"),
    }
}

fn emission(channel: &str, payload: String) -> (e: Emission)
    ensures
        emission_model(e) == (channel@, payload@),
{
    Emission { channel: String::from_str(channel), payload }
}

fn effects(console: ConsoleLine, emissions: Vec<Emission>) -> (r: LogEffects)
    ensures
        r@.console == Some((console.stream, console.text@)),
        r@.emissions == emissions@.map_values(|e: Emission| emission_model(e)),
{
    LogEffects { console: Some(console), emissions }
}

/// Decides what an event of the sidecar `role` causes.
pub fn handle_sidecar_event(role: SidecarRole, event: &SidecarEvent) -> (r: LogEffects)
    ensures
        r@ == sidecar_effects(role, event@),
        forall|k: int|
            0 <= k < r@.emissions.len() && (#[trigger] r@.emissions[k]).0 == "service-error"@
                ==> r@.emissions[k].1 == own_service(role),
        event is Error ==> r@.emissions.len() == 2 && r@.emissions[1] == ("service-error"@,
            own_service(role)),
        event is Stderr ==> r@.emissions.len() == 1 && r@.emissions[0].0 == "log-app"@,
        event is Stdout && role == SidecarRole::Worker ==> r@.emissions.len() == 1
            && r@.emissions[0].0 == "log-app"@,
{
    proof {
        lemma_service_errors_name_the_sidecar(role, event@);
        lemma_only_server_output_is_routed_by_text(role, event@);
    }
    match event {
        SidecarEvent::Stdout(bytes) => {
            let text = decode_lossy(bytes.as_slice());
            let mut line = label_of(role);
            line.append(" [OUT]: ");
            line.append(text.as_str());
            let migration = match role {
                SidecarRole::Server => text_contains(text.as_str(), "migration") || text_contains(
                    text.as_str(),
                    "migrating",
                ),
                SidecarRole::Worker => false,
            };
            let channel = if migration {
                "log-migration"
            } else {
                "log-app"
            };
            let mut payload = tagged(role, "] ");
            payload.append(text.as_str());
            assert(channel@ == stdout_channel(role, text@));
            let mut v: Vec<Emission> = Vec::new();
            v.push(emission(channel, payload));
            assert(v@.map_values(|e: Emission| emission_model(e)) =~= seq![
                (stdout_channel(role, text@), "["@ + ui_tag(role) + "] "@ + text@),
            ]);
            let r = effects(ConsoleLine { stream: ConsoleStream::Standard, text: line }, v);
            assert(r@.console == sidecar_effects(role, event@).console);
            assert(r@.emissions == sidecar_effects(role, event@).emissions);
            r
        },
        SidecarEvent::Stderr(bytes) => {
            let text = decode_lossy(bytes.as_slice());
            let mut line = label_of(role);
            line.append(" [ERR]: ");
            line.append(text.as_str());
            let mut payload = tagged(role, " ERR] ");
            payload.append(text.as_str());
            let mut v: Vec<Emission> = Vec::new();
            v.push(emission("log-app", payload));
            let r = effects(ConsoleLine { stream: ConsoleStream::Error, text: line }, v);
            assert(r@.emissions == sidecar_effects(role, event@).emissions);
            r
        },
        SidecarEvent::Error(err) => {
            let mut msg = tagged(role, " CRITICAL] ");
            msg.append(err.as_str());
            let mut v: Vec<Emission> = Vec::new();
            v.push(emission("log-app", msg.clone()));
            v.push(emission("service-error", service_of(role)));
            let r = effects(ConsoleLine { stream: ConsoleStream::Error, text: msg }, v);
            assert(r@.emissions == sidecar_effects(role, event@).emissions);
            r
        },
        SidecarEvent::Terminated { code, signal } => {
            let c: i32 = match code {
                Some(c) => *c,
                None => -1,
            };
            let mut msg = tagged(role, " EXIT] code=");
            append_signed_decimal(&mut msg, c as i64);
            msg.append(", signal=");
            match signal {
                Some(n) => {
                    msg.append("Some(");
                    append_signed_decimal(&mut msg, *n as i64);
                    msg.append(")");
                },
                None => msg.append("None"),
            }
            let mut v: Vec<Emission> = Vec::new();
            v.push(emission("log-app", msg.clone()));
            assert(msg@ == exit_report(role, *code, *signal));
            if c != 0 {
                v.push(emission("service-error", service_of(role)));
                assert(v@.map_values(|e: Emission| emission_model(e)) =~= seq![
                    ("log-app"@, msg@), ("service-error"@, service_name(role)),
                ]);
            } else {
                assert(v@.map_values(|e: Emission| emission_model(e)) =~= seq![("log-app"@, msg@)]);
            }
            let r = effects(ConsoleLine { stream: ConsoleStream::Standard, text: msg }, v);
            assert(r@.emissions == sidecar_effects(role, event@).emissions);
            r
        },
        SidecarEvent::Other => {
            let r = LogEffects { console: None, emissions: Vec::new() };
            assert(r@.emissions == sidecar_effects(role, event@).emissions);
            r
        },
    }
}


/// The service a sidecar is reported as, written out for each role.
pub open spec fn own_service(role: SidecarRole) -> Seq<char> {
    if role == SidecarRole::Server {
        "windmill-server"@
    } else {
        "windmill-worker"@
    }
}

proof fn lemma_channels_differ()
    ensures
        "service-error"@ != "log-app"@,
        "service-error"@ != "log-migration"@,
        "log-app"@ != "log-migration"@,
{
    reveal_strlit("service-error");
    reveal_strlit("log-app");
    reveal_strlit("log-migration");
    assert("service-error"@[0] != "log-app"@[0]);
    assert("service-error"@[0] != "log-migration"@[0]);
    assert("log-app"@.len() != "log-migration"@.len());
}

/// A sidecar's failures are reported as its own: every `service-error`
/// emission names the sidecar the event came from; a runner error always
/// raises one, after the `log-app` report; an exit raises one exactly when
/// its code is missing or not zero; output lines never raise one.
pub proof fn lemma_service_errors_name_the_sidecar(role: SidecarRole, event: SidecarEventModel)
    ensures
        ({
            let fx = sidecar_effects(role, event);
            &&& forall|k: int|
                0 <= k < fx.emissions.len() && (#[trigger] fx.emissions[k]).0 == "service-error"@
                    ==> fx.emissions[k].1 == own_service(role)
            &&& event is Error ==> fx.emissions.len() == 2 && fx.emissions[0].0 == "log-app"@
                && fx.emissions[1] == ("service-error"@, own_service(role))
            &&& (event matches SidecarEventModel::Terminated { code, .. } ==> (fx.emissions.len()
                == 2 <==> code != Some(0i32)) && fx.emissions[0].0 == "log-app"@ && (
            fx.emissions.len() == 2 ==> fx.emissions[1] == ("service-error"@, own_service(role))))
            &&& (event is Stdout || event is Stderr) ==> fx.emissions.len() == 1
        }),
{
    lemma_channels_differ();
}

/// Only the server's standard output is routed by its text: every line on
/// a sidecar's standard error, and every line of the worker's standard
/// output, goes to `log-app` whatever it says; a server output line goes to
/// `log-migration` exactly when it mentions `migration` or `migrating`.
pub proof fn lemma_only_server_output_is_routed_by_text(role: SidecarRole, event: SidecarEventModel)
    ensures
        ({
            let fx = sidecar_effects(role, event);
            &&& event is Stderr ==> fx.emissions.len() == 1 && fx.emissions[0].0 == "log-app"@
                && (fx.console matches Some((stream, _)) && stream == ConsoleStream::Error)
            &&& event is Stdout && role == SidecarRole::Worker ==> fx.emissions.len() == 1
                && fx.emissions[0].0 == "log-app"@
            &&& event is Stdout && role == SidecarRole::Server ==> fx.emissions.len() == 1 && (
            fx.emissions[0].0 == "log-migration"@ <==> (contains_text(
                utf8_lossy(event->Stdout_0),
                "migration"@,
            ) || contains_text(utf8_lossy(event->Stdout_0), "migrating"@)))
        }),
{
    lemma_channels_differ();
}

} // verus!
