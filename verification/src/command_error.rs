//! Errors from running `adb` (or another command): what was run, how it
//! ended, and the ERROR_UX hint the desktop maps them to.

use vstd::prelude::*;
use crate::text::{
    push_debug_list, push_signed_decimal, push_str, debug_list, signed_decimal, string_from_chars,
};

verus! {

/// The kind of an I/O failure, as far as the session logic tells kinds apart.
#[derive(Clone, Copy, Debug, PartialEq, Eq)]
pub enum IoErrorKind {
    NotFound,
    PermissionDenied,
    AddrInUse,
    Other,
}

/// An I/O failure: its kind and the text it displays as.
#[derive(Clone, Debug)]
pub struct IoError {
    pub kind: IoErrorKind,
    pub message: String,
}

impl IoError {
    pub fn new(kind: IoErrorKind, message: String) -> (e: IoError)
        ensures
            e.kind == kind,
            e.message@ == message@,
    {
        IoError { kind, message }
    }
}

/// A command line: the program and its arguments.
#[derive(Clone, Debug)]
pub struct Cmd {
    command: String,
    args: Vec<String>,
}

/// The arguments of a command, as plain strings.
pub open spec fn arg_strings(args: Seq<String>) -> Seq<Seq<char>> {
    args.map_values(|s: String| s@)
}

impl Cmd {
    /// The program that was run.
    pub closed spec fn command_view(&self) -> Seq<char> {
        self.command@
    }

    /// The arguments it was run with.
    pub closed spec fn args_view(&self) -> Seq<Seq<char>> {
        arg_strings(self.args@)
    }

    pub fn new(command: String, args: Vec<String>) -> (c: Cmd)
        ensures
            c.command_view() == command@,
            c.args_view() == arg_strings(args@),
    {
        Cmd { command, args }
    }

    pub fn command(&self) -> (r: &str)
        ensures
            r@ == self.command_view(),
    {
        self.command.as_str()
    }

    pub fn args(&self) -> (r: &[String])
        ensures
            arg_strings(r@) == self.args_view(),
    {
        self.args.as_slice()
    }

    /// The text a command displays as: the program, a space, then the
    /// arguments as a `Debug` list (`adb ["devices", "-l"]`).
    pub open spec fn text(&self) -> Seq<char> {
        self.command_view() + " "@ + debug_list(self.args_view())
    }

    /// Appends [`Self::text`] to `out`.
    pub fn push_text(&self, out: &mut Vec<char>)
        ensures
            final(out)@ == old(out)@ + self.text(),
    {
        push_str(out, self.command.as_str());
        push_str(out, " ");
        push_debug_list(out, &self.args);
        assert(final(out)@ =~= old(out)@ + self.text());
    }

    /// [`Self::text`] as a string (the `Display` of the command).
    pub fn to_string(&self) -> (s: String)
        ensures
            s@ == self.text(),
    {
        let mut out: Vec<char> = Vec::new();
        self.push_text(&mut out);
        assert(out@ =~= self.text());
        string_from_chars(out.as_slice())
    }
}

/// How a finished process ended: with an exit code, or killed by a signal.
#[derive(Clone, Copy, Debug, PartialEq, Eq)]
pub enum Termination {
    Value(i32),
    Signal(i32),
}

impl Termination {
    /// The termination of a process from its wait status: the exit code when
    /// there is one, else the signal that ended it.
    pub fn from_parts(code: Option<i32>, signal: Option<i32>) -> (t: Termination)
        requires
            code is Some || signal is Some,
        ensures
            t == (match code {
                Some(c) => Termination::Value(c),
                None => Termination::Signal(signal->0),
            }),
    {
        match code {
            Some(c) => Termination::Value(c),
            None => Termination::Signal(signal.unwrap()),
        }
    }
}

/// A command that ran but did not exit successfully.
#[derive(Clone, Debug)]
pub struct ProcessStatusError {
    cmd: Cmd,
    termination: Termination,
}

impl ProcessStatusError {
    pub closed spec fn cmd_view(&self) -> Cmd {
        self.cmd
    }

    pub closed spec fn termination_view(&self) -> Termination {
        self.termination
    }

    pub fn new(cmd: Cmd, termination: Termination) -> (e: ProcessStatusError)
        ensures
            e.cmd_view() == cmd,
            e.termination_view() == termination,
    {
        ProcessStatusError { cmd, termination }
    }

    pub fn cmd(&self) -> (r: &Cmd)
        ensures
            *r == self.cmd_view(),
    {
        &self.cmd
    }

    pub fn termination(&self) -> (r: &Termination)
        ensures
            *r == self.termination_view(),
    {
        &self.termination
    }

    /// `Command <cmd> returned with value <code>`, or
    /// `Command <cmd> terminated by signal <sig>`.
    pub open spec fn text(&self) -> Seq<char> {
        match self.termination_view() {
            Termination::Value(code) => "Command "@ + self.cmd_view().text()
                + " returned with value "@ + signed_decimal(code as int),
            Termination::Signal(sig) => "Command "@ + self.cmd_view().text()
                + " terminated by signal "@ + signed_decimal(sig as int),
        }
    }

    pub fn push_text(&self, out: &mut Vec<char>)
        ensures
            final(out)@ == old(out)@ + self.text(),
    {
        push_str(out, "Command ");
        self.cmd.push_text(out);
        match self.termination {
            Termination::Value(code) => {
                push_str(out, " returned with value ");
                push_signed_decimal(code as i64, out);
            },
            Termination::Signal(sig) => {
                push_str(out, " terminated by signal ");
                push_signed_decimal(sig as i64, out);
            },
        }
        assert(final(out)@ =~= old(out)@ + self.text());
    }

    /// [`Self::text`] as a string (the `Display` of the error).
    pub fn to_string(&self) -> (s: String)
        ensures
            s@ == self.text(),
    {
        let mut out: Vec<char> = Vec::new();
        self.push_text(&mut out);
        assert(out@ =~= self.text());
        string_from_chars(out.as_slice())
    }
}

/// A command that could not be run at all.
#[derive(Clone, Debug)]
pub struct ProcessIoError {
    cmd: Cmd,
    error: IoError,
}

impl ProcessIoError {
    pub closed spec fn cmd_view(&self) -> Cmd {
        self.cmd
    }

    pub closed spec fn error_view(&self) -> IoError {
        self.error
    }

    pub fn new(cmd: Cmd, error: IoError) -> (e: ProcessIoError)
        ensures
            e.cmd_view() == cmd,
            e.error_view() == error,
    {
        ProcessIoError { cmd, error }
    }

    pub fn cmd(&self) -> (r: &Cmd)
        ensures
            *r == self.cmd_view(),
    {
        &self.cmd
    }

    pub fn io_error(&self) -> (r: &IoError)
        ensures
            *r == self.error_view(),
    {
        &self.error
    }

    /// `true` when the program could not be found (typical `ADB_MISSING` /
    /// `ADB_PATH_INVALID` mapping at the UI boundary).
    pub fn is_not_found(&self) -> (r: bool)
        ensures
            r == (self.error_view().kind == IoErrorKind::NotFound),
    {
        match self.error.kind {
            IoErrorKind::NotFound => true,
            _ => false,
        }
    }

    /// `Command <cmd> failed: <io error>`.
    pub open spec fn text(&self) -> Seq<char> {
        "Command "@ + self.cmd_view().text() + " failed: "@ + self.error_view().message@
    }

    pub fn push_text(&self, out: &mut Vec<char>)
        ensures
            final(out)@ == old(out)@ + self.text(),
    {
        push_str(out, "Command ");
        self.cmd.push_text(out);
        push_str(out, " failed: ");
        push_str(out, self.error.message.as_str());
        assert(final(out)@ =~= old(out)@ + self.text());
    }

    /// [`Self::text`] as a string (the `Display` of the error).
    pub fn to_string(&self) -> (s: String)
        ensures
            s@ == self.text(),
    {
        let mut out: Vec<char> = Vec::new();
        self.push_text(&mut out);
        assert(out@ =~= self.text());
        string_from_chars(out.as_slice())
    }
}

/// Why an adb operation failed.
#[derive(Clone, Debug)]
pub enum CommandExecutionError {
    ProcessIo(ProcessIoError),
    ProcessStatus(ProcessStatusError),
    Io(IoError),
    /// Local helper APK path missing or not a file (ERROR_UX `APK_MISSING`).
    ApkMissing { path: String },
}

/// The characters of an optional string slice.
pub open spec fn opt_str(s: Option<&str>) -> Option<Seq<char>> {
    match s {
        Some(v) => Some(v@),
        None => None,
    }
}

impl CommandExecutionError {
    /// The ERROR_UX code hinted by an error: `ADB_MISSING` when the program
    /// was not found, `ADB_PATH_INVALID` when it could not be run for another
    /// reason, `APK_MISSING` for a missing APK, none otherwise.
    pub open spec fn ux_hint(&self) -> Option<Seq<char>> {
        match self {
            CommandExecutionError::ProcessIo(e) => if e.error_view().kind == IoErrorKind::NotFound {
                Some("ADB_MISSING"@)
            } else {
                Some("ADB_PATH_INVALID"@)
            },
            CommandExecutionError::ApkMissing { .. } => Some("APK_MISSING"@),
            CommandExecutionError::ProcessStatus(_) => None,
            CommandExecutionError::Io(_) => None,
        }
    }

    /// Best-effort ERROR_UX hint for Desktop mapping (not a full taxonomy).
    ///
    /// - `ProcessIo` + `NotFound` → `ADB_MISSING`
    /// - other `ProcessIo` spawn failures → `ADB_PATH_INVALID`
    /// - non-zero exit / signal → `None` (caller uses stage context)
    /// - bare `Io` → `None`
    pub fn adb_ux_code_hint(&self) -> (r: Option<&'static str>)
        ensures
            opt_str(r) == self.ux_hint(),
    {
        match self {
            CommandExecutionError::ProcessIo(err) => {
                if err.is_not_found() {
                    Some("ADB_MISSING")
                } else {
                    Some("ADB_PATH_INVALID")
                }
            },
            CommandExecutionError::ApkMissing { .. } => Some("APK_MISSING"),
            CommandExecutionError::ProcessStatus(_) => None,
            CommandExecutionError::Io(_) => None,
        }
    }

    pub fn as_process_io(&self) -> (r: Option<&ProcessIoError>)
        ensures
            match self {
                CommandExecutionError::ProcessIo(e) => r == Some(e),
                _ => r is None,
            },
    {
        match self {
            CommandExecutionError::ProcessIo(e) => Some(e),
            _ => None,
        }
    }

    pub fn as_process_status(&self) -> (r: Option<&ProcessStatusError>)
        ensures
            match self {
                CommandExecutionError::ProcessStatus(e) => r == Some(e),
                _ => r is None,
            },
    {
        match self {
            CommandExecutionError::ProcessStatus(e) => Some(e),
            _ => None,
        }
    }

    /// The text the error displays as.
    pub open spec fn text(&self) -> Seq<char> {
        match self {
            CommandExecutionError::ProcessIo(e) => e.text(),
            CommandExecutionError::ProcessStatus(e) => e.text(),
            CommandExecutionError::Io(e) => "IO error: "@ + e.message@,
            CommandExecutionError::ApkMissing { path } => "gnirehtet APK not found at '"@ + path@
                + "' (APK_MISSING); set GNIREHTET_APK or place resources/gnirehtet.apk"@,
        }
    }

    pub fn push_text(&self, out: &mut Vec<char>)
        ensures
            final(out)@ == old(out)@ + self.text(),
    {
        match self {
            CommandExecutionError::ProcessIo(e) => e.push_text(out),
            CommandExecutionError::ProcessStatus(e) => e.push_text(out),
            CommandExecutionError::Io(e) => {
                push_str(out, "IO error: ");
                push_str(out, e.message.as_str());
                assert(final(out)@ =~= old(out)@ + self.text());
            },
            CommandExecutionError::ApkMissing { path } => {
                push_str(out, "gnirehtet APK not found at '");
                push_str(out, path.as_str());
                push_str(
                    out,
                    "' (APK_MISSING); set GNIREHTET_APK or place resources/gnirehtet.apk",
                );
                assert(final(out)@ =~= old(out)@ + self.text());
            },
        }
    }

    /// [`Self::text`] as a string (the `Display` of the error).
    pub fn to_string(&self) -> (s: String)
        ensures
            s@ == self.text(),
    {
        let mut out: Vec<char> = Vec::new();
        self.push_text(&mut out);
        assert(out@ =~= self.text());
        string_from_chars(out.as_slice())
    }
}

/// The plain contents of a [`CommandExecutionError`]: the program and
/// arguments of the command it names, and how it failed.
pub enum ErrorView {
    ProcessIo(Seq<char>, Seq<Seq<char>>, IoError),
    ProcessStatus(Seq<char>, Seq<Seq<char>>, Termination),
    Io(IoError),
    ApkMissing(Seq<char>),
}

impl View for CommandExecutionError {
    type V = ErrorView;

    open spec fn view(&self) -> ErrorView {
        match self {
            CommandExecutionError::ProcessIo(e) => ErrorView::ProcessIo(
                e.cmd_view().command_view(),
                e.cmd_view().args_view(),
                e.error_view(),
            ),
            CommandExecutionError::ProcessStatus(e) => ErrorView::ProcessStatus(
                e.cmd_view().command_view(),
                e.cmd_view().args_view(),
                e.termination_view(),
            ),
            CommandExecutionError::Io(e) => ErrorView::Io(*e),
            CommandExecutionError::ApkMissing { path } => ErrorView::ApkMissing(path@),
        }
    }
}

impl From<ProcessIoError> for CommandExecutionError {
    fn from(error: ProcessIoError) -> (r: CommandExecutionError) {
        CommandExecutionError::ProcessIo(error)
    }
}

impl vstd::std_specs::convert::FromSpecImpl<ProcessIoError> for CommandExecutionError {
    open spec fn obeys_from_spec() -> bool {
        true
    }

    open spec fn from_spec(v: ProcessIoError) -> CommandExecutionError {
        CommandExecutionError::ProcessIo(v)
    }
}

impl From<ProcessStatusError> for CommandExecutionError {
    fn from(error: ProcessStatusError) -> (r: CommandExecutionError) {
        CommandExecutionError::ProcessStatus(error)
    }
}

impl vstd::std_specs::convert::FromSpecImpl<ProcessStatusError> for CommandExecutionError {
    open spec fn obeys_from_spec() -> bool {
        true
    }

    open spec fn from_spec(v: ProcessStatusError) -> CommandExecutionError {
        CommandExecutionError::ProcessStatus(v)
    }
}

impl From<IoError> for CommandExecutionError {
    fn from(error: IoError) -> (r: CommandExecutionError) {
        CommandExecutionError::Io(error)
    }
}

impl vstd::std_specs::convert::FromSpecImpl<IoError> for CommandExecutionError {
    open spec fn obeys_from_spec() -> bool {
        true
    }

    open spec fn from_spec(v: IoError) -> CommandExecutionError {
        CommandExecutionError::Io(v)
    }
}

} // verus!
