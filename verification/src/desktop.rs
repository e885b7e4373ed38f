//! The desktop front-end's reporting: the payloads it sends, the ERROR_UX
//! codes it maps controller errors to, and the decisions of its relay
//! commands.

use vstd::prelude::*;
use crate::command_error::opt_str;
use crate::controller_error::ControllerError;
use crate::devices::{opt_chars, AdbDevice};
use crate::relay::DEFAULT_RELAY_PORT;
use crate::session::{effective, listen_port, SessionController};
use crate::text::{decimal, owned, push_decimal, push_str, string_from_chars};

verus! {

/// ERROR_UX fallback when `ControllerError::ux_code()` is None.
pub const CODE_INTERNAL: &'static str = "INTERNAL";

/// ERROR_UX code of a relay that could not be started.
pub const CODE_RELAY_START_FAILED: &'static str = "RELAY_START_FAILED";

/// ERROR_UX code of a stop that failed.
pub const CODE_STOP_FAILED: &'static str = "STOP_FAILED";

/// ERROR_UX code of a relay that exited on its own.
pub const CODE_RELAY_CRASHED: &'static str = "RELAY_CRASHED";

/// ERROR_UX fallback of a failed client install.
pub const CODE_INSTALL_FAILED: &'static str = "INSTALL_FAILED";

/// ERROR_UX fallback of a failed client start (also in a one-click run).
pub const CODE_CLIENT_START_FAILED: &'static str = "CLIENT_START_FAILED";

/// ERROR_UX fallback of a failed tunnel reset.
pub const CODE_TUNNEL_FAILED: &'static str = "TUNNEL_FAILED";

/// The adb found by `ensure_adb`.
#[derive(Debug, Clone)]
pub struct AdbInfo {
    pub path: String,
    pub version: String,
    pub available: bool,
}

/// A device, as the front-end lists it.
#[derive(Debug, Clone)]
pub struct DeviceInfo {
    pub serial: String,
    pub adb_state: String,
    pub model: Option<String>,
    pub product: Option<String>,
}

/// The relay's state, as the front-end shows it.
#[derive(Debug, Clone)]
pub struct RelayStatePayload {
    /// relay_stopped | relay_starting | relay_running | relay_error | relay_exited
    pub state: String,
    pub port: Option<u16>,
    pub pid: Option<u32>,
    pub owned_by_session: bool,
    pub message: Option<String>,
}

/// A log line for the front-end.
#[derive(Debug, Clone)]
pub struct LogLine {
    pub timestamp_ms: u64,
    pub level: String,
    pub source: String,
    pub message: String,
}

/// App `Error` event — codes must be ERROR_UX / ERROR_CODE_MAP canonical.
#[derive(Debug, Clone)]
pub struct AppError {
    pub code: String,
    pub message: String,
    pub serial: Option<String>,
}

/// Snapshot of resolved paths for diagnostics / lab notes.
#[derive(Debug, Clone)]
pub struct ResolvedPaths {
    pub gnirehtet_bin: String,
    pub apk_path: String,
    pub apk_present: bool,
    pub bin_present: bool,
}

/// An error a front-end command answers with: an ERROR_UX code and a
/// message.
#[derive(Debug, Clone)]
pub enum OrchError {
    Message { code: String, message: String },
}

/// The plain contents of a [`RelayStatePayload`].
pub struct PayloadView {
    pub state: Seq<char>,
    pub port: Option<u16>,
    pub pid: Option<u32>,
    pub owned_by_session: bool,
    pub message: Option<Seq<char>>,
}

impl View for RelayStatePayload {
    type V = PayloadView;

    open spec fn view(&self) -> PayloadView {
        PayloadView {
            state: self.state@,
            port: self.port,
            pid: self.pid,
            owned_by_session: self.owned_by_session,
            message: opt_chars(self.message),
        }
    }
}

impl OrchError {
    /// The error's code.
    pub open spec fn code_view(&self) -> Seq<char> {
        match self {
            OrchError::Message { code, .. } => code@,
        }
    }

    /// The error's message (what it displays as).
    pub open spec fn message_view(&self) -> Seq<char> {
        match self {
            OrchError::Message { message, .. } => message@,
        }
    }

    pub fn coded(code: &str, message: &str) -> (e: OrchError)
        ensures
            e.code_view() == code@,
            e.message_view() == message@,
    {
        OrchError::Message { code: owned(code), message: owned(message) }
    }

    /// The error a controller error is answered with (see [`map_controller_err`]).
    pub fn from_controller(e: ControllerError) -> (r: OrchError)
        ensures
            r.code_view() == code_or(e.ux(), "INTERNAL"@),
            r.message_view() == e.text(),
    {
        let (code, message) = map_controller_err(&e);
        OrchError::Message { code, message }
    }

    /// The message (the `Display` of the error).
    pub fn to_string(&self) -> (s: String)
        ensures
            s@ == self.message_view(),
    {
        match self {
            OrchError::Message { message, .. } => message.clone(),
        }
    }
}

/// The code, else the fallback.
pub open spec fn code_or(code: Option<Seq<char>>, fallback: Seq<char>) -> Seq<char> {
    match code {
        Some(c) => c,
        None => fallback,
    }
}

/// The ERROR_UX code (`INTERNAL` when the error has none) and the message of
/// a controller error.
pub fn map_controller_err(e: &ControllerError) -> (r: (String, String))
    ensures
        r.0@ == code_or(e.ux(), "INTERNAL"@),
        r.1@ == e.text(),
{
    map_controller_err_stage(e, CODE_INTERNAL)
}

/// Prefer the controller's `ux_code()`; else the stage-specific ERROR_UX
/// fallback (never invent codes).
pub fn map_controller_err_stage(e: &ControllerError, stage_fallback: &str) -> (r: (String, String))
    ensures
        r.0@ == code_or(e.ux(), stage_fallback@),
        r.1@ == e.text(),
{
    let code = match e.ux_code() {
        Some(c) => owned(c),
        None => owned(stage_fallback),
    };
    (code, e.to_string())
}

/// The front-end's list of the devices.
pub fn map_devices(devices: Vec<AdbDevice>) -> (r: Vec<DeviceInfo>)
    ensures
        r.len() == devices.len(),
        forall|i: int|
            0 <= i < r.len() ==> {
                &&& (#[trigger] r@[i]).serial@ == devices@[i].serial@
                &&& r@[i].adb_state@ == devices@[i].state@
                &&& opt_chars(r@[i].model) == opt_chars(devices@[i].model)
                &&& opt_chars(r@[i].product) == opt_chars(devices@[i].product)
            },
{
    let mut r: Vec<DeviceInfo> = Vec::new();
    let mut k: usize = 0;
    while k < devices.len()
        invariant
            k <= devices.len(),
            r.len() == k,
            forall|i: int|
                0 <= i < k ==> {
                    &&& (#[trigger] r@[i]).serial@ == devices@[i].serial@
                    &&& r@[i].adb_state@ == devices@[i].state@
                    &&& opt_chars(r@[i].model) == opt_chars(devices@[i].model)
                    &&& opt_chars(r@[i].product) == opt_chars(devices@[i].product)
                },
        decreases devices.len() - k,
    {
        let d = &devices[k];
        let model = match &d.model {
            Some(m) => Some(m.clone()),
            None => None,
        };
        let product = match &d.product {
            Some(p) => Some(p.clone()),
            None => None,
        };
        r.push(DeviceInfo { serial: d.serial.clone(), adb_state: d.state.clone(), model, product });
        k = k + 1;
    }
    r
}

/// A relay state payload.
pub fn relay_payload(state: &str, port: Option<u16>, pid: Option<u32>, owned_by_session: bool, message: Option<&str>) -> (p: RelayStatePayload)
    ensures
        p@ == (PayloadView {
            state: state@,
            port,
            pid,
            owned_by_session,
            message: opt_str(message),
        }),
{
    RelayStatePayload {
        state: owned(state),
        port,
        pid,
        owned_by_session,
        message: match message {
            Some(m) => Some(owned(m)),
            None => None,
        },
    }
}

/// The relay state of a session: `relay_running` with the relay's pid when
/// it owns one, else `relay_stopped`; the port is the session's (the default
/// port when none is agreed).
pub open spec fn snapshot<H>(v: crate::session::SessionView<H>) -> PayloadView {
    match v.owned {
        Some(o) => PayloadView {
            state: "relay_running"@,
            port: Some(effective(v.session_port)),
            pid: Some(o.pid),
            owned_by_session: true,
            message: None,
        },
        None => PayloadView {
            state: "relay_stopped"@,
            port: Some(effective(v.session_port)),
            pid: None,
            owned_by_session: false,
            message: None,
        },
    }
}

/// The relay state of a session.
pub fn snapshot_relay<H>(session: &SessionController<H>) -> (p: RelayStatePayload)
    ensures
        p@ == snapshot(session@),
{
    let port = Some(session.effective_port());
    if session.owns_relay() {
        relay_payload("relay_running", port, session.owned_relay_pid(), true, None)
    } else {
        relay_payload("relay_stopped", port, None, false, None)
    }
}

/// The port a relay start will listen on (for the "starting" report): the
/// requested one, else the session's, else the default.
pub fn listen_hint(port: Option<u16>, session_port: Option<u16>) -> (r: u16)
    ensures
        r == listen_port(port, session_port),
{
    match port {
        Some(p) => p,
        None => match session_port {
            Some(p) => p,
            None => DEFAULT_RELAY_PORT,
        },
    }
}

/// How a failed relay start is reported: the ERROR_UX code (a port in use
/// keeps its `PORT_IN_USE`; an error without a code is `RELAY_START_FAILED`),
/// the message, and the `relay_error` payload (whose message is the code for
/// a port in use, else the error message).
pub fn start_relay_failure(e: &ControllerError, listen: u16) -> (r: (OrchError, RelayStatePayload))
    ensures
        r.0.code_view() == code_or(e.ux(), "RELAY_START_FAILED"@),
        r.0.message_view() == e.text(),
        r.1@ == (PayloadView {
            state: "relay_error"@,
            port: Some(listen),
            pid: None,
            owned_by_session: false,
            message: Some(
                if e@ is PortInUse {
                    code_or(e.ux(), "RELAY_START_FAILED"@)
                } else {
                    e.text()
                },
            ),
        }),
{
    let (code, message) = map_controller_err_stage(e, CODE_RELAY_START_FAILED);
    let shown = match e {
        ControllerError::PortInUse { .. } => code.clone(),
        _ => message.clone(),
    };
    let payload = RelayStatePayload {
        state: owned("relay_error"),
        port: Some(listen),
        pid: None,
        owned_by_session: false,
        message: Some(shown),
    };
    (OrchError::Message { code, message }, payload)
}

/// How `stop_relay` answers the controller's result: success is
/// `Relay stopped`; `NoOwnedRelay` is also success (`Relay already stopped`,
/// no foreign kill); any other error is answered with its code, else
/// `STOP_FAILED`.
pub fn stop_relay_answer(result: Result<(), ControllerError>, port: u16) -> (r: Result<RelayStatePayload, OrchError>)
    ensures
        match result {
            Ok(()) => r is Ok && r->Ok_0@ == (PayloadView {
                state: "relay_stopped"@,
                port: Some(port),
                pid: None,
                owned_by_session: false,
                message: Some("Relay stopped"@),
            }),
            Err(e) => if e@ is NoOwnedRelay {
                r is Ok && r->Ok_0@ == (PayloadView {
                    state: "relay_stopped"@,
                    port: Some(port),
                    pid: None,
                    owned_by_session: false,
                    message: Some("Relay already stopped"@),
                })
            } else {
                r is Err && r->Err_0.code_view() == code_or(e.ux(), "STOP_FAILED"@)
                    && r->Err_0.message_view() == e.text()
            },
        },
{
    match result {
        Ok(()) => Ok(relay_payload("relay_stopped", Some(port), None, false, Some("Relay stopped"))),
        Err(ControllerError::NoOwnedRelay) => Ok(
            relay_payload("relay_stopped", Some(port), None, false, Some("Relay already stopped")),
        ),
        Err(e) => {
            let (code, message) = map_controller_err_stage(&e, CODE_STOP_FAILED);
            Err(OrchError::Message { code, message })
        },
    }
}

/// The answer of `stop_relay` when the session owns no relay: stopped, any
/// foreign listener on the port left untouched.
pub fn stop_relay_not_owned(port: u16) -> (p: RelayStatePayload)
    ensures
        p@ == (PayloadView {
            state: "relay_stopped"@,
            port: Some(port),
            pid: None,
            owned_by_session: false,
            message: Some("No session-owned relay; left any foreign listener untouched"@),
        }),
{
    relay_payload(
        "relay_stopped",
        Some(port),
        None,
        false,
        Some("No session-owned relay; left any foreign listener untouched"),
    )
}

/// The serial remembered for the best-effort client stop at quit, after a
/// client command on `serial`: that serial once the command succeeded (none
/// for the default device), else the one remembered before.
pub fn remembered_serial(previous: Option<String>, serial: Option<&str>, succeeded: bool) -> (r: Option<String>)
    ensures
        opt_chars(r) == (if succeeded {
            opt_str(serial)
        } else {
            opt_chars(previous)
        }),
{
    if succeeded {
        match serial {
            Some(s) => Some(owned(s)),
            None => None,
        }
    } else {
        previous
    }
}

/// The payload after a quit teardown at `stage`.
pub fn teardown_payload(port: u16, stage: &str, had_owned: bool) -> (p: RelayStatePayload)
    ensures
        p@ == (PayloadView {
            state: "relay_stopped"@,
            port: Some(port),
            pid: None,
            owned_by_session: false,
            message: Some(
                if had_owned {
                    "Teardown complete ("@ + stage@ + ")"@
                } else {
                    "Teardown complete ("@ + stage@ + ", no owned relay)"@
                },
            ),
        }),
{
    let mut m: Vec<char> = Vec::new();
    push_str(&mut m, "Teardown complete (");
    push_str(&mut m, stage);
    if had_owned {
        push_str(&mut m, ")");
        assert(m@ =~= "Teardown complete ("@ + stage@ + ")"@);
    } else {
        push_str(&mut m, ", no owned relay)");
        assert(m@ =~= "Teardown complete ("@ + stage@ + ", no owned relay)"@);
    }
    RelayStatePayload {
        state: owned("relay_stopped"),
        port: Some(port),
        pid: None,
        owned_by_session: false,
        message: Some(string_from_chars(m.as_slice())),
    }
}

/// What the crash watcher of relay `watched_pid` does once that relay's
/// output has ended or a poll saw it exit.
#[derive(Clone, Copy, Debug, PartialEq, Eq)]
pub enum CrashVerdict {
    /// An intentional stop or a newer start took over: report nothing.
    Ignore,
    /// The watched relay is still recorded as owned: clear it, then report.
    ClearAndReport,
    /// Ownership is already cleared: report the crash.
    Report,
}

/// The crash watcher's decision: ignore when the relay epoch moved on (an
/// intentional stop or a new start) or when the session owns a different
/// relay; clear the watched relay's ownership when it is still recorded;
/// report a crash otherwise.
pub open spec fn crash_decision(current_epoch: u64, watched_epoch: u64, owned_pid: Option<u32>, watched_pid: u32) -> CrashVerdict {
    if current_epoch != watched_epoch {
        CrashVerdict::Ignore
    } else if owned_pid == Some(watched_pid) {
        CrashVerdict::ClearAndReport
    } else if owned_pid is Some {
        CrashVerdict::Ignore
    } else {
        CrashVerdict::Report
    }
}

/// The crash watcher's decision (see [`crash_decision`]).
pub fn crash_verdict(current_epoch: u64, watched_epoch: u64, owned_pid: Option<u32>, watched_pid: u32) -> (v: CrashVerdict)
    ensures
        v == crash_decision(current_epoch, watched_epoch, owned_pid, watched_pid),
{
    if current_epoch != watched_epoch {
        CrashVerdict::Ignore
    } else {
        match owned_pid {
            Some(p) => if p == watched_pid {
                CrashVerdict::ClearAndReport
            } else {
                CrashVerdict::Ignore
            },
            None => CrashVerdict::Report,
        }
    }
}

/// The message of a crash report: `Relay process exited unexpectedly (pid=<pid>)`.
pub open spec fn crash_message(pid: u32) -> Seq<char> {
    "Relay process exited unexpectedly (pid="@ + decimal(pid as nat) + ")"@
}

/// The crash report for relay `pid` listening on `port`: the
/// `RELAY_CRASHED` error and the `relay_exited` payload.
pub fn crash_report(pid: u32, port: u16) -> (r: (AppError, RelayStatePayload))
    ensures
        r.0.code@ == "RELAY_CRASHED"@,
        r.0.message@ == crash_message(pid),
        r.0.serial is None,
        r.1@ == (PayloadView {
            state: "relay_exited"@,
            port: Some(port),
            pid: None,
            owned_by_session: false,
            message: Some("RELAY_CRASHED"@),
        }),
{
    let mut m: Vec<char> = Vec::new();
    push_str(&mut m, "Relay process exited unexpectedly (pid=");
    push_decimal(pid as u64, &mut m);
    push_str(&mut m, ")");
    assert(m@ =~= crash_message(pid));
    let err = AppError { code: owned(CODE_RELAY_CRASHED), message: string_from_chars(m.as_slice()), serial: None };
    (err, relay_payload("relay_exited", Some(port), None, false, Some(CODE_RELAY_CRASHED)))
}

/// Whether `run_session` must start a relay: not when the session already
/// owns one, and then a requested port other than the session's is refused
/// with `RelayAlreadyRunning` on the session's port (no hot-swap).
pub fn run_session_relay_check(owns_relay: bool, session_port: Option<u16>, port: Option<u16>) -> (r: Result<bool, OrchError>)
    ensures
        if owns_relay {
            match port {
                Some(p) => if session_port != Some(p) {
                    r is Err && r->Err_0.code_view() == code_or(
                        ControllerError::RelayAlreadyRunning { port: effective(session_port) }.ux(),
                        "INTERNAL"@,
                    ) && r->Err_0.message_view() == (ControllerError::RelayAlreadyRunning {
                        port: effective(session_port),
                    }).text()
                } else {
                    r == Ok::<bool, OrchError>(false)
                },
                None => r == Ok::<bool, OrchError>(false),
            }
        } else {
            r == Ok::<bool, OrchError>(true)
        },
{
    if owns_relay {
        let listen = match session_port {
            Some(p) => p,
            None => DEFAULT_RELAY_PORT,
        };
        if let Some(p) = port {
            let same = match session_port {
                Some(s) => s == p,
                None => false,
            };
            if !same {
                return Err(OrchError::from_controller(ControllerError::RelayAlreadyRunning { port: listen }));
            }
        }
        Ok(false)
    } else {
        Ok(true)
    }
}

} // verus!
