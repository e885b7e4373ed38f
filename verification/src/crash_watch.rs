//! Watching a session-owned relay started with piped stdio: the log lines
//! its output becomes, and the watcher that reports `RELAY_CRASHED` when the
//! relay dies on its own. The caller performs each request (reading the
//! relay epoch, polling, sleeping, joining the readers, taking the session
//! lock) and reports what happened.

use vstd::prelude::*;
use crate::desktop::{
    crash_decision, crash_message, crash_report, crash_verdict, AppError, CrashVerdict, LogLine,
    PayloadView, RelayStatePayload,
};
use crate::text::{decimal, owned, push_decimal, push_str, string_from_chars};

verus! {

/// The log line a line of the relay's output becomes: source `relay`,
/// level `info` for stdout and `warn` for stderr, the line as message.
pub fn relay_log_line(timestamp_ms: u64, from_stderr: bool, line: String) -> (l: LogLine)
    ensures
        l.timestamp_ms == timestamp_ms,
        l.level@ == (if from_stderr {
            "warn"@
        } else {
            "info"@
        }),
        l.source@ == "relay"@,
        l.message@ == line@,
{
    let level = if from_stderr {
        owned("warn")
    } else {
        owned("info")
    };
    LogLine { timestamp_ms, level, source: owned("relay"), message: line }
}

/// The watcher's wait between two polls, in milliseconds.
pub const WATCH_INTERVAL_MS: u64 = 500;

/// Where a crash watcher stands.
#[derive(Clone, Copy, Debug, PartialEq, Eq)]
pub enum WatchPhase {
    /// Not begun.
    Idle,
    /// Waiting for the relay epoch, in the polling loop.
    Looping,
    /// Waiting for a poll of the watched relay.
    Polling,
    /// Waiting out the interval.
    Sleeping,
    /// Waiting for the output readers to be joined.
    Joining,
    /// Waiting for the epoch and the session's ownership.
    Inspecting,
    /// Waiting for the watched relay's ownership to be cleared.
    Clearing,
    /// Waiting for the relay epoch once more before reporting.
    Rechecking,
    /// Finished.
    Done,
}

/// What the caller reports back after performing a request.
#[derive(Clone, Copy, Debug, PartialEq, Eq)]
pub enum WatchEvent {
    /// The watch is to begin.
    Begin,
    /// The relay epoch now; `None` when the application state is gone.
    Epoch(Option<u64>),
    /// Whether a poll saw the watched relay exit (which clears its
    /// ownership), and whether both output readers have finished.
    Polled { exited: bool, pipes_done: bool },
    /// The interval is over.
    Slept,
    /// Both output readers are joined.
    Joined,
    /// The relay epoch now (`None` when the application state is gone) and,
    /// when the session lock could be taken, the pid of the relay the session
    /// owns and the session port. The lock stays held for a `Clear`.
    Inspected { epoch: Option<u64>, session: Option<(Option<u32>, Option<u16>)> },
    /// The watched relay's ownership is cleared and the lock released.
    Cleared,
}

/// What the watcher asks the caller to do next.
pub enum WatchRequest {
    /// Read the relay epoch.
    CheckEpoch,
    /// Poll the watched relay if the session still owns it (`Polled`).
    Poll { pid: u32 },
    /// Sleep.
    Sleep { millis: u64 },
    /// Join both output readers.
    Join,
    /// Read the relay epoch, then take the session lock and read its owned
    /// relay's pid and the session port.
    Inspect,
    /// Clear the session's ownership (of the watched relay, under the lock
    /// taken for `Inspect`), then release the lock.
    Clear,
    /// Report the crash: the error event, the relay state, the log line.
    Report { error: AppError, payload: RelayStatePayload, log: String },
    /// Stop watching, silently; join the output readers first when `join`.
    Finish { join: bool },
}

/// The plain contents of a [`WatchRequest`]; a report is given by its
/// error's code, message and serial, its payload and its log message.
pub enum WatchRequestView {
    CheckEpoch,
    Poll(u32),
    Sleep(nat),
    Join,
    Inspect,
    Clear,
    Report(Seq<char>, Seq<char>, Option<Seq<char>>, PayloadView, Seq<char>),
    Finish(bool),
}

impl View for WatchRequest {
    type V = WatchRequestView;

    open spec fn view(&self) -> WatchRequestView {
        match self {
            WatchRequest::CheckEpoch => WatchRequestView::CheckEpoch,
            WatchRequest::Poll { pid } => WatchRequestView::Poll(*pid),
            WatchRequest::Sleep { millis } => WatchRequestView::Sleep(*millis as nat),
            WatchRequest::Join => WatchRequestView::Join,
            WatchRequest::Inspect => WatchRequestView::Inspect,
            WatchRequest::Clear => WatchRequestView::Clear,
            WatchRequest::Report { error, payload, log } => WatchRequestView::Report(
                error.code@,
                error.message@,
                match error.serial {
                    Some(s) => Some(s@),
                    None => None,
                },
                payload@,
                log@,
            ),
            WatchRequest::Finish { join } => WatchRequestView::Finish(*join),
        }
    }
}

/// The plain state of a [`CrashWatch`].
pub struct WatchView {
    /// The relay epoch of the start that is watched.
    pub epoch: u64,
    pub pid: u32,
    /// The port the relay was started on.
    pub port: u16,
    pub phase: WatchPhase,
    /// The port a crash is reported on (once inspected).
    pub listen: u16,
}

/// The log message of a crash report.
pub open spec fn crash_log(port: u16, pid: u32) -> Seq<char> {
    "stage=relay_crash port="@ + decimal(port as nat) + " pid="@ + decimal(pid as nat)
        + " error_code=RELAY_CRASHED"@
}

/// The crash report of relay `pid` on `port`: `RELAY_CRASHED` with the
/// crash message, the `relay_exited` state, and the log message.
pub open spec fn crash_request(pid: u32, port: u16) -> WatchRequestView {
    WatchRequestView::Report(
        "RELAY_CRASHED"@,
        crash_message(pid),
        None,
        PayloadView {
            state: "relay_exited"@,
            port: Some(port),
            pid: None,
            owned_by_session: false,
            message: Some("RELAY_CRASHED"@),
        },
        crash_log(port, pid),
    )
}

/// Whether `e` is what the watcher waits for.
pub open spec fn watch_accepts(w: WatchView, e: WatchEvent) -> bool {
    match (w.phase, e) {
        (WatchPhase::Idle, WatchEvent::Begin) => true,
        (WatchPhase::Looping, WatchEvent::Epoch(_)) => true,
        (WatchPhase::Polling, WatchEvent::Polled { .. }) => true,
        (WatchPhase::Sleeping, WatchEvent::Slept) => true,
        (WatchPhase::Joining, WatchEvent::Joined) => true,
        (WatchPhase::Inspecting, WatchEvent::Inspected { .. }) => true,
        (WatchPhase::Clearing, WatchEvent::Cleared) => true,
        (WatchPhase::Rechecking, WatchEvent::Epoch(_)) => true,
        _ => false,
    }
}

/// Finish silently.
pub open spec fn watch_finish(w: WatchView, join: bool) -> (WatchView, WatchRequestView) {
    (WatchView { phase: WatchPhase::Done, ..w }, WatchRequestView::Finish(join))
}

/// The watcher's next state and request after event `e`. While the relay
/// epoch is the watched one, poll the relay, then wait 500 ms, until a poll
/// sees it exit or both readers finish; a moved epoch (a stop, a teardown or
/// a new start) ends the watch silently, joining the readers. Then join the
/// readers, read the epoch and the session: a moved epoch, a lost state or
/// lock, or another owned relay ends the watch silently; the watched relay
/// still owned has its ownership cleared. The crash is reported, on the
/// session port (else the start port), only if the epoch is still the
/// watched one after that.
pub open spec fn watch_step(w: WatchView, e: WatchEvent) -> (WatchView, WatchRequestView) {
    match e {
        WatchEvent::Begin => (WatchView { phase: WatchPhase::Looping, ..w }, WatchRequestView::CheckEpoch),
        WatchEvent::Epoch(cur) => if w.phase == WatchPhase::Looping {
            if cur == Some(w.epoch) {
                (WatchView { phase: WatchPhase::Polling, ..w }, WatchRequestView::Poll(w.pid))
            } else {
                watch_finish(w, true)
            }
        } else {
            if cur == Some(w.epoch) {
                (WatchView { phase: WatchPhase::Done, ..w }, crash_request(w.pid, w.listen))
            } else {
                watch_finish(w, false)
            }
        },
        WatchEvent::Polled { exited, pipes_done } => if exited || pipes_done {
            (WatchView { phase: WatchPhase::Joining, ..w }, WatchRequestView::Join)
        } else {
            (
                WatchView { phase: WatchPhase::Sleeping, ..w },
                WatchRequestView::Sleep(WATCH_INTERVAL_MS as nat),
            )
        },
        WatchEvent::Slept => (WatchView { phase: WatchPhase::Looping, ..w }, WatchRequestView::CheckEpoch),
        WatchEvent::Joined => (WatchView { phase: WatchPhase::Inspecting, ..w }, WatchRequestView::Inspect),
        WatchEvent::Inspected { epoch, session } => match (epoch, session) {
            (Some(cur), Some((owned_pid, session_port))) => {
                let listen = match session_port {
                    Some(p) => p,
                    None => w.port,
                };
                match crash_decision(cur, w.epoch, owned_pid, w.pid) {
                    CrashVerdict::Ignore => watch_finish(w, false),
                    CrashVerdict::ClearAndReport => (
                        WatchView { phase: WatchPhase::Clearing, listen, ..w },
                        WatchRequestView::Clear,
                    ),
                    CrashVerdict::Report => (
                        WatchView { phase: WatchPhase::Rechecking, listen, ..w },
                        WatchRequestView::CheckEpoch,
                    ),
                }
            },
            _ => watch_finish(w, false),
        },
        WatchEvent::Cleared => (
            WatchView { phase: WatchPhase::Rechecking, ..w },
            WatchRequestView::CheckEpoch,
        ),
    }
}

/// A crash watcher of the relay `pid`, started on `port` at relay epoch
/// `epoch`.
pub struct CrashWatch {
    epoch: u64,
    pid: u32,
    port: u16,
    phase: WatchPhase,
    listen: u16,
}

impl View for CrashWatch {
    type V = WatchView;

    closed spec fn view(&self) -> WatchView {
        WatchView {
            epoch: self.epoch,
            pid: self.pid,
            port: self.port,
            phase: self.phase,
            listen: self.listen,
        }
    }
}

/// The log message of a crash report (see [`crash_log`]).
fn crash_log_text(port: u16, pid: u32) -> (s: String)
    ensures
        s@ == crash_log(port, pid),
{
    let mut m: Vec<char> = Vec::new();
    push_str(&mut m, "stage=relay_crash port=");
    push_decimal(port as u64, &mut m);
    push_str(&mut m, " pid=");
    push_decimal(pid as u64, &mut m);
    push_str(&mut m, " error_code=RELAY_CRASHED");
    assert(m@ =~= crash_log(port, pid));
    string_from_chars(m.as_slice())
}

impl CrashWatch {
    pub fn new(epoch: u64, pid: u32, port: u16) -> (w: CrashWatch)
        ensures
            w@ == (WatchView { epoch, pid, port, phase: WatchPhase::Idle, listen: port }),
    {
        CrashWatch { epoch, pid, port, phase: WatchPhase::Idle, listen: port }
    }

    /// Whether the watch has finished.
    pub fn is_done(&self) -> (r: bool)
        ensures
            r == (self@.phase == WatchPhase::Done),
    {
        match self.phase {
            WatchPhase::Done => true,
            _ => false,
        }
    }

    /// Whether `e` is what the watcher waits for.
    pub fn accepts(&self, e: WatchEvent) -> (r: bool)
        ensures
            r == watch_accepts(self@, e),
    {
        match (self.phase, e) {
            (WatchPhase::Idle, WatchEvent::Begin) => true,
            (WatchPhase::Looping, WatchEvent::Epoch(_)) => true,
            (WatchPhase::Polling, WatchEvent::Polled { .. }) => true,
            (WatchPhase::Sleeping, WatchEvent::Slept) => true,
            (WatchPhase::Joining, WatchEvent::Joined) => true,
            (WatchPhase::Inspecting, WatchEvent::Inspected { .. }) => true,
            (WatchPhase::Clearing, WatchEvent::Cleared) => true,
            (WatchPhase::Rechecking, WatchEvent::Epoch(_)) => true,
            _ => false,
        }
    }

    fn finish(&mut self, join: bool) -> (r: WatchRequest)
        ensures
            (final(self)@, r@) == watch_finish(old(self)@, join),
    {
        self.phase = WatchPhase::Done;
        WatchRequest::Finish { join }
    }

    /// Feed back what happened to the last request; returns the next one.
    pub fn advance(&mut self, e: WatchEvent) -> (r: WatchRequest)
        requires
            watch_accepts(old(self)@, e),
        ensures
            (final(self)@, r@) == watch_step(old(self)@, e),
    {
        match e {
            WatchEvent::Begin => {
                self.phase = WatchPhase::Looping;
                WatchRequest::CheckEpoch
            },
            WatchEvent::Epoch(cur) => {
                let live = match cur {
                    Some(c) => c == self.epoch,
                    None => false,
                };
                let looping = match self.phase {
                    WatchPhase::Looping => true,
                    _ => false,
                };
                if looping {
                    if live {
                        self.phase = WatchPhase::Polling;
                        WatchRequest::Poll { pid: self.pid }
                    } else {
                        self.finish(true)
                    }
                } else if live {
                    self.phase = WatchPhase::Done;
                    let (error, payload) = crash_report(self.pid, self.listen);
                    let log = crash_log_text(self.listen, self.pid);
                    let r = WatchRequest::Report { error, payload, log };
                    assert(r@ == crash_request(self.pid, self.listen));
                    r
                } else {
                    self.finish(false)
                }
            },
            WatchEvent::Polled { exited, pipes_done } => {
                if exited || pipes_done {
                    self.phase = WatchPhase::Joining;
                    WatchRequest::Join
                } else {
                    self.phase = WatchPhase::Sleeping;
                    WatchRequest::Sleep { millis: WATCH_INTERVAL_MS }
                }
            },
            WatchEvent::Slept => {
                self.phase = WatchPhase::Looping;
                WatchRequest::CheckEpoch
            },
            WatchEvent::Joined => {
                self.phase = WatchPhase::Inspecting;
                WatchRequest::Inspect
            },
            WatchEvent::Inspected { epoch, session } => match (epoch, session) {
                (Some(cur), Some((owned_pid, session_port))) => {
                    let listen = match session_port {
                        Some(p) => p,
                        None => self.port,
                    };
                    match crash_verdict(cur, self.epoch, owned_pid, self.pid) {
                        CrashVerdict::Ignore => self.finish(false),
                        CrashVerdict::ClearAndReport => {
                            self.phase = WatchPhase::Clearing;
                            self.listen = listen;
                            WatchRequest::Clear
                        },
                        CrashVerdict::Report => {
                            self.phase = WatchPhase::Rechecking;
                            self.listen = listen;
                            WatchRequest::CheckEpoch
                        },
                    }
                },
                _ => self.finish(false),
            },
            WatchEvent::Cleared => {
                self.phase = WatchPhase::Rechecking;
                WatchRequest::CheckEpoch
            },
        }
    }
}

} // verus!
