//! Controller-level errors. ADB failures reuse [`CommandExecutionError`].
//! `PortInUse` maps to ERROR_UX `PORT_IN_USE`.

use vstd::prelude::*;
use crate::command_error::{opt_str, CommandExecutionError, ErrorView, IoError};
use crate::text::{decimal, push_decimal, push_str, string_from_chars};

verus! {

/// Errors from session / relay child orchestration.
#[derive(Clone, Debug)]
pub enum ControllerError {
    /// Listen port is already occupied — do **not** claim relay ownership.
    PortInUse { port: u16 },
    /// Failed to spawn the stock `gnirehtet` binary.
    RelaySpawn { path: String, source: IoError },
    /// Child exited immediately after spawn (often bind failure).
    RelayStartFailed { port: u16, detail: String },
    /// A session-owned relay is already running; stop first (no hot-swap).
    RelayAlreadyRunning { port: u16 },
    /// Caller asked to stop but we do not own a relay.
    NoOwnedRelay,
    /// Stock gnirehtet binary path missing / not a file when absolute.
    GnirehtetNotFound { path: String },
    /// Wrapped ADB / process execution error.
    Adb(CommandExecutionError),
    Io(IoError),
}

impl ControllerError {
    /// The canonical ERROR_UX code of an error, when it has one.
    pub open spec fn ux(&self) -> Option<Seq<char>> {
        match self {
            ControllerError::PortInUse { .. } => Some("PORT_IN_USE"@),
            ControllerError::RelaySpawn { .. } => Some("RELAY_START_FAILED"@),
            ControllerError::RelayStartFailed { .. } => Some("RELAY_START_FAILED"@),
            ControllerError::GnirehtetNotFound { .. } => Some("RELAY_START_FAILED"@),
            ControllerError::Adb(e) => e.ux_hint(),
            ControllerError::RelayAlreadyRunning { .. } => None,
            ControllerError::NoOwnedRelay => None,
            ControllerError::Io(_) => None,
        }
    }

    /// ERROR_UX canonical code when applicable.
    pub fn ux_code(&self) -> (r: Option<&'static str>)
        ensures
            opt_str(r) == self.ux(),
    {
        match self {
            ControllerError::PortInUse { .. } => Some("PORT_IN_USE"),
            ControllerError::RelaySpawn { .. } => Some("RELAY_START_FAILED"),
            ControllerError::RelayStartFailed { .. } => Some("RELAY_START_FAILED"),
            ControllerError::GnirehtetNotFound { .. } => Some("RELAY_START_FAILED"),
            ControllerError::Adb(e) => e.adb_ux_code_hint(),
            ControllerError::RelayAlreadyRunning { .. } => None,
            ControllerError::NoOwnedRelay => None,
            ControllerError::Io(_) => None,
        }
    }

    /// The text the error displays as.
    pub open spec fn text(&self) -> Seq<char> {
        match self {
            ControllerError::PortInUse { port } => "Relay listen port "@ + decimal(*port as nat)
                + " is already in use (PORT_IN_USE); not claiming ownership"@,
            ControllerError::RelaySpawn { path, source } => "Failed to spawn gnirehtet at '"@
                + path@ + "': "@ + source.message@,
            ControllerError::RelayStartFailed { port, detail } => "Relay on port "@ + decimal(
                *port as nat,
            ) + " exited before listen was confirmed: "@ + detail@,
            ControllerError::RelayAlreadyRunning { port } => "Session already owns a relay on port "@
                + decimal(*port as nat) + "; stop it before changing port"@,
            ControllerError::NoOwnedRelay => "No session-owned relay to stop"@,
            ControllerError::GnirehtetNotFound { path } => "gnirehtet binary not found: "@ + path@,
            ControllerError::Adb(e) => e.text(),
            ControllerError::Io(e) => "IO error: "@ + e.message@,
        }
    }

    pub fn push_text(&self, out: &mut Vec<char>)
        ensures
            final(out)@ == old(out)@ + self.text(),
    {
        match self {
            ControllerError::PortInUse { port } => {
                push_str(out, "Relay listen port ");
                push_decimal(*port as u64, out);
                push_str(out, " is already in use (PORT_IN_USE); not claiming ownership");
            },
            ControllerError::RelaySpawn { path, source } => {
                push_str(out, "Failed to spawn gnirehtet at '");
                push_str(out, path.as_str());
                push_str(out, "': ");
                push_str(out, source.message.as_str());
            },
            ControllerError::RelayStartFailed { port, detail } => {
                push_str(out, "Relay on port ");
                push_decimal(*port as u64, out);
                push_str(out, " exited before listen was confirmed: ");
                push_str(out, detail.as_str());
            },
            ControllerError::RelayAlreadyRunning { port } => {
                push_str(out, "Session already owns a relay on port ");
                push_decimal(*port as u64, out);
                push_str(out, "; stop it before changing port");
            },
            ControllerError::NoOwnedRelay => {
                push_str(out, "No session-owned relay to stop");
            },
            ControllerError::GnirehtetNotFound { path } => {
                push_str(out, "gnirehtet binary not found: ");
                push_str(out, path.as_str());
            },
            ControllerError::Adb(e) => {
                e.push_text(out);
            },
            ControllerError::Io(e) => {
                push_str(out, "IO error: ");
                push_str(out, e.message.as_str());
            },
        }
        assert(final(out)@ =~= old(out)@ + self.text());
    }

    /// [`Self::text`] as a string (the `Display` of the error).
    pub fn to_string(&self) -> (s: String)
        ensures
            s@ == self.text(),
    {
        let mut out: Vec<char> = Vec::new();
        self.push_text(&mut out);
        assert(out@ =~= self.text());
        string_from_chars(out.as_slice())
    }
}

/// The plain contents of a [`ControllerError`].
pub enum ControllerErrorView {
    PortInUse(u16),
    RelaySpawn(Seq<char>, IoError),
    RelayStartFailed(u16, Seq<char>),
    RelayAlreadyRunning(u16),
    NoOwnedRelay,
    GnirehtetNotFound(Seq<char>),
    Adb(ErrorView),
    Io(IoError),
}

impl View for ControllerError {
    type V = ControllerErrorView;

    open spec fn view(&self) -> ControllerErrorView {
        match self {
            ControllerError::PortInUse { port } => ControllerErrorView::PortInUse(*port),
            ControllerError::RelaySpawn { path, source } => ControllerErrorView::RelaySpawn(
                path@,
                *source,
            ),
            ControllerError::RelayStartFailed { port, detail } =>
                ControllerErrorView::RelayStartFailed(*port, detail@),
            ControllerError::RelayAlreadyRunning { port } => ControllerErrorView::RelayAlreadyRunning(
                *port,
            ),
            ControllerError::NoOwnedRelay => ControllerErrorView::NoOwnedRelay,
            ControllerError::GnirehtetNotFound { path } => ControllerErrorView::GnirehtetNotFound(
                path@,
            ),
            ControllerError::Adb(e) => ControllerErrorView::Adb(e@),
            ControllerError::Io(e) => ControllerErrorView::Io(*e),
        }
    }
}

impl From<CommandExecutionError> for ControllerError {
    fn from(value: CommandExecutionError) -> (r: ControllerError) {
        ControllerError::Adb(value)
    }
}

impl vstd::std_specs::convert::FromSpecImpl<CommandExecutionError> for ControllerError {
    open spec fn obeys_from_spec() -> bool {
        true
    }

    open spec fn from_spec(v: CommandExecutionError) -> ControllerError {
        ControllerError::Adb(v)
    }
}

impl From<IoError> for ControllerError {
    fn from(value: IoError) -> (r: ControllerError) {
        ControllerError::Io(value)
    }
}

impl vstd::std_specs::convert::FromSpecImpl<IoError> for ControllerError {
    open spec fn obeys_from_spec() -> bool {
        true
    }

    open spec fn from_spec(v: IoError) -> ControllerError {
        ControllerError::Io(v)
    }
}

} // verus!
