//! Starting the stock `gnirehtet relay` child: the port probe, the binary
//! check, the spawn and the settle check that decide whether a relay was
//! started. The caller performs each request and reports what happened.

use vstd::prelude::*;
use crate::command_error::{IoError, IoErrorKind};
use crate::controller_error::{ControllerError, ControllerErrorView};
use crate::text::{decimal, owned, push_decimal, push_str, string_from_chars};
use crate::adb_client::{strings_of, strings_view};

verus! {

/// Upstream / CLI default relay listen port.
pub const DEFAULT_RELAY_PORT: u16 = 31416;

/// A relay child this session started, with the handle `H` that controls
/// the process.
pub struct RelayProcess<H> {
    child: H,
    pid: u32,
    port: u16,
    path: String,
}

impl<H> RelayProcess<H> {
    pub closed spec fn child_view(&self) -> H {
        self.child
    }

    pub closed spec fn pid_view(&self) -> u32 {
        self.pid
    }

    pub closed spec fn port_view(&self) -> u16 {
        self.port
    }

    pub closed spec fn path_view(&self) -> Seq<char> {
        self.path@
    }

    pub fn new(child: H, pid: u32, port: u16, path: String) -> (r: RelayProcess<H>)
        ensures
            r.child_view() == child,
            r.pid_view() == pid,
            r.port_view() == port,
            r.path_view() == path@,
    {
        RelayProcess { child, pid, port, path }
    }

    pub fn port(&self) -> (r: u16)
        ensures
            r == self.port_view(),
    {
        self.port
    }

    pub fn pid(&self) -> (r: u32)
        ensures
            r == self.pid_view(),
    {
        self.pid
    }

    pub fn path(&self) -> (r: &str)
        ensures
            r@ == self.path_view(),
    {
        self.path.as_str()
    }

    pub fn child_mut(&mut self) -> (r: &mut H)
        ensures
            *r == old(self).child_view(),
            final(self).child_view() == *final(r),
            final(self).pid_view() == old(self).pid_view(),
            final(self).port_view() == old(self).port_view(),
            final(self).path_view() == old(self).path_view(),
    {
        &mut self.child
    }

    /// The process handle, giving up the rest.
    pub fn into_child(self) -> (r: H)
        ensures
            r == self.child_view(),
    {
        self.child
    }
}

/// What a bind probe of `127.0.0.1:port` means for a relay start: a free
/// port is fine; a port in use is `PortInUse`, so no ownership is claimed;
/// any other failure is `Io`.
pub open spec fn probe_verdict(port: u16, bind: Result<(), IoError>) -> Result<(), ControllerErrorView> {
    match bind {
        Ok(()) => Ok(()),
        Err(e) => if e.kind == IoErrorKind::AddrInUse {
            Err(ControllerErrorView::PortInUse(port))
        } else {
            Err(ControllerErrorView::Io(e))
        },
    }
}

/// The outcome of probing `127.0.0.1:port` by binding it.
pub fn probe_outcome(port: u16, bind: Result<(), IoError>) -> (r: Result<(), ControllerError>)
    ensures
        match (r, probe_verdict(port, bind)) {
            (Ok(()), Ok(())) => true,
            (Err(e), Err(v)) => e@ == v,
            _ => false,
        },
{
    match bind {
        Ok(()) => Ok(()),
        Err(e) => match e.kind {
            IoErrorKind::AddrInUse => Err(ControllerError::PortInUse { port }),
            _ => Err(ControllerError::Io(e)),
        },
    }
}

/// The arguments the relay is started with: `relay -p <port>`.
pub open spec fn relay_args(port: u16) -> Seq<Seq<char>> {
    seq!["relay"@, "-p"@, decimal(port as nat)]
}

/// A spawned relay child.
pub struct SpawnedRelay<H> {
    pub child: H,
    pub pid: u32,
    /// Whether the child's stdout pipe was taken (always true when not piped).
    pub stdout_ok: bool,
    /// Whether the child's stderr pipe was taken (always true when not piped).
    pub stderr_ok: bool,
}

/// What the caller reports back after performing a request.
pub enum LaunchEvent<H> {
    /// The start is to begin.
    Begin,
    /// The result of binding `127.0.0.1:port` (the listener is dropped at once).
    Probed(Result<(), IoError>),
    /// Whether the relay binary's path is absolute, and whether it is a file.
    Inspected { absolute: bool, is_file: bool },
    /// The result of spawning the relay.
    Spawned(Result<SpawnedRelay<H>, IoError>),
    /// The settle wait is over.
    Settled,
    /// The polled child handed back, with `Some(status)` (its display text)
    /// when it has exited, `None` while it runs.
    Polled(H, Result<Option<String>, IoError>),
}

/// What the launch asks the caller to do next.
pub enum LaunchRequest<H> {
    /// Bind and drop `127.0.0.1:port`.
    Probe { port: u16 },
    /// Report whether `path` is absolute and whether it is a file.
    Inspect { path: String },
    /// Spawn `path args`, with stdout/stderr piped or inherited.
    Spawn { path: String, args: Vec<String>, piped: bool },
    /// Sleep.
    Sleep { millis: u64 },
    /// Poll the child without blocking, then hand it back (`Polled`).
    Poll(H),
    /// The start failed; the child, when there is one, is handed back, to be
    /// killed and waited for when `kill` holds.
    Fail { error: ControllerError, child: Option<H>, kill: bool },
    /// The relay is running.
    Started(RelayProcess<H>),
    /// The relay is running and the session now owns it.
    Claimed { pid: u32, port: u16 },
}

/// Where a launch stands.
#[derive(Clone, Copy, Debug, PartialEq, Eq)]
pub enum LaunchPhase {
    Idle,
    Probing,
    Inspecting,
    Spawning,
    Settling,
    Polling,
    Done,
}

/// The plain state of a [`RelayLaunch`].
pub struct LaunchView<H> {
    pub path: Seq<char>,
    pub port: u16,
    pub piped: bool,
    pub phase: LaunchPhase,
    pub child: Option<H>,
    pub pid: u32,
}

/// The plain contents of a [`LaunchEvent`].
pub enum LaunchEventView<H> {
    Begin,
    Probed(Result<(), IoError>),
    Inspected(bool, bool),
    Spawned(Result<(H, u32, bool, bool), IoError>),
    Settled,
    Polled(H, Result<Option<Seq<char>>, IoError>),
}

/// The plain contents of a [`LaunchRequest`].
pub enum LaunchRequestView<H> {
    Probe(u16),
    Inspect(Seq<char>),
    Spawn(Seq<char>, Seq<Seq<char>>, bool),
    Sleep(nat),
    Poll(H),
    Fail(ControllerErrorView, Option<H>, bool),
    Started(H, u32, u16, Seq<char>),
    Claimed(u32, u16),
}

impl<H> View for LaunchEvent<H> {
    type V = LaunchEventView<H>;

    open spec fn view(&self) -> LaunchEventView<H> {
        match self {
            LaunchEvent::Begin => LaunchEventView::Begin,
            LaunchEvent::Probed(r) => LaunchEventView::Probed(*r),
            LaunchEvent::Inspected { absolute, is_file } => LaunchEventView::Inspected(*absolute, *is_file),
            LaunchEvent::Spawned(r) => LaunchEventView::Spawned(
                match r {
                    Ok(s) => Ok((s.child, s.pid, s.stdout_ok, s.stderr_ok)),
                    Err(e) => Err(*e),
                },
            ),
            LaunchEvent::Settled => LaunchEventView::Settled,
            LaunchEvent::Polled(c, r) => LaunchEventView::Polled(
                *c,
                match r {
                    Ok(Some(s)) => Ok(Some(s@)),
                    Ok(None) => Ok(None),
                    Err(e) => Err(*e),
                },
            ),
        }
    }
}

impl<H> View for LaunchRequest<H> {
    type V = LaunchRequestView<H>;

    open spec fn view(&self) -> LaunchRequestView<H> {
        match self {
            LaunchRequest::Probe { port } => LaunchRequestView::Probe(*port),
            LaunchRequest::Inspect { path } => LaunchRequestView::Inspect(path@),
            LaunchRequest::Spawn { path, args, piped } => LaunchRequestView::Spawn(
                path@,
                strings_view(args@),
                *piped,
            ),
            LaunchRequest::Sleep { millis } => LaunchRequestView::Sleep(*millis as nat),
            LaunchRequest::Poll(c) => LaunchRequestView::Poll(*c),
            LaunchRequest::Fail { error, child, kill } => LaunchRequestView::Fail(error@, *child, *kill),
            LaunchRequest::Started(r) => LaunchRequestView::Started(
                r.child_view(),
                r.pid_view(),
                r.port_view(),
                r.path_view(),
            ),
            LaunchRequest::Claimed { pid, port } => LaunchRequestView::Claimed(*pid, *port),
        }
    }
}

/// Whether `e` is what the launch waits for.
pub open spec fn launch_accepts<H>(l: LaunchView<H>, e: LaunchEventView<H>) -> bool {
    match (l.phase, e) {
        (LaunchPhase::Idle, LaunchEventView::Begin) => true,
        (LaunchPhase::Probing, LaunchEventView::Probed(_)) => true,
        (LaunchPhase::Inspecting, LaunchEventView::Inspected(_, _)) => true,
        (LaunchPhase::Spawning, LaunchEventView::Spawned(_)) => true,
        (LaunchPhase::Settling, LaunchEventView::Settled) => l.child is Some,
        (LaunchPhase::Polling, LaunchEventView::Polled(_, _)) => true,
        _ => false,
    }
}

/// Fail with `error`, handing back `child`.
pub open spec fn launch_fail<H>(l: LaunchView<H>, error: ControllerErrorView, child: Option<H>, kill: bool) -> (LaunchView<H>, LaunchRequestView<H>) {
    (LaunchView { phase: LaunchPhase::Done, child: None, ..l }, LaunchRequestView::Fail(error, child, kill))
}

/// The launch's next state and request after event `e`:
/// probe the port; a port in use fails with `PortInUse` and any other bind
/// failure with `Io`; an absolute binary path that is not a file fails with
/// `GnirehtetNotFound`; spawn `path relay -p <port>`, a spawn failure being
/// `RelaySpawn`; with piped stdio, a missing pipe fails with
/// `RelayStartFailed`; wait 150 ms, then poll the child: one that has exited
/// fails with `RelayStartFailed` (`exited immediately: <status>`), a failed
/// poll with `Io` after killing the child, and a running child is started.
pub open spec fn launch_step<H>(l: LaunchView<H>, e: LaunchEventView<H>) -> (LaunchView<H>, LaunchRequestView<H>) {
    match e {
        LaunchEventView::Begin => (LaunchView { phase: LaunchPhase::Probing, ..l }, LaunchRequestView::Probe(l.port)),
        LaunchEventView::Probed(bind) => match probe_verdict(l.port, bind) {
            Ok(()) => (LaunchView { phase: LaunchPhase::Inspecting, ..l }, LaunchRequestView::Inspect(l.path)),
            Err(v) => launch_fail(l, v, None, false),
        },
        LaunchEventView::Inspected(absolute, is_file) => if absolute && !is_file {
            launch_fail(l, ControllerErrorView::GnirehtetNotFound(l.path), None, false)
        } else {
            (
                LaunchView { phase: LaunchPhase::Spawning, ..l },
                LaunchRequestView::Spawn(l.path, relay_args(l.port), l.piped),
            )
        },
        LaunchEventView::Spawned(Err(io)) => launch_fail(l, ControllerErrorView::RelaySpawn(l.path, io), None, false),
        LaunchEventView::Spawned(Ok((child, pid, stdout_ok, stderr_ok))) => if l.piped && !stdout_ok {
            launch_fail(
                l,
                ControllerErrorView::RelayStartFailed(l.port, "stdout pipe missing after piped spawn"@),
                Some(child),
                false,
            )
        } else if l.piped && !stderr_ok {
            launch_fail(
                l,
                ControllerErrorView::RelayStartFailed(l.port, "stderr pipe missing after piped spawn"@),
                Some(child),
                false,
            )
        } else {
            (
                LaunchView { phase: LaunchPhase::Settling, child: Some(child), pid, ..l },
                LaunchRequestView::Sleep(150),
            )
        },
        LaunchEventView::Settled => (
            LaunchView { phase: LaunchPhase::Polling, child: None, ..l },
            LaunchRequestView::Poll(l.child->0),
        ),
        LaunchEventView::Polled(child, Ok(Some(status))) => launch_fail(
            l,
            ControllerErrorView::RelayStartFailed(l.port, "exited immediately: "@ + status),
            Some(child),
            false,
        ),
        LaunchEventView::Polled(child, Ok(None)) => (
            LaunchView { phase: LaunchPhase::Done, child: None, ..l },
            LaunchRequestView::Started(child, l.pid, l.port, l.path),
        ),
        LaunchEventView::Polled(child, Err(io)) => launch_fail(l, ControllerErrorView::Io(io), Some(child), true),
    }
}

/// Starting a relay child on a port.
pub struct RelayLaunch<H> {
    path: String,
    port: u16,
    piped: bool,
    phase: LaunchPhase,
    child: Option<H>,
    pid: u32,
}

impl<H> View for RelayLaunch<H> {
    type V = LaunchView<H>;

    closed spec fn view(&self) -> LaunchView<H> {
        LaunchView {
            path: self.path@,
            port: self.port,
            piped: self.piped,
            phase: self.phase,
            child: self.child,
            pid: self.pid,
        }
    }
}

/// The arguments of [`relay_args`].
fn relay_args_vec(port: u16) -> (r: Vec<String>)
    ensures
        strings_view(r@) == relay_args(port),
{
    let mut r = strings_of(&["relay", "-p"]);
    let ghost before = r@;
    assert(strings_view(before) =~= seq!["relay"@, "-p"@]);
    let mut p: Vec<char> = Vec::new();
    push_decimal(port as u64, &mut p);
    let ps = string_from_chars(p.as_slice());
    r.push(ps);
    assert(strings_view(r@) =~= strings_view(before).push(ps@));
    assert(strings_view(r@) =~= relay_args(port));
    r
}

impl<H> RelayLaunch<H> {
    /// A launch of the relay at `path` on `port`, not yet begun.
    pub fn new(path: String, port: u16, piped: bool) -> (l: RelayLaunch<H>)
        ensures
            l@ == (LaunchView::<H> { path: path@, port, piped, phase: LaunchPhase::Idle, child: None, pid: 0 }),
    {
        RelayLaunch { path, port, piped, phase: LaunchPhase::Idle, child: None, pid: 0 }
    }

    /// The child held by the launch, if any, giving up the rest.
    pub fn into_child(self) -> (r: Option<H>)
        ensures
            r == self@.child,
    {
        self.child
    }

    /// Whether the launch is over.
    pub fn is_done(&self) -> (r: bool)
        ensures
            r == (self@.phase == LaunchPhase::Done),
    {
        match self.phase {
            LaunchPhase::Done => true,
            _ => false,
        }
    }

    /// Whether `event` is what the launch waits for.
    pub fn accepts(&self, event: &LaunchEvent<H>) -> (r: bool)
        ensures
            r == launch_accepts(self@, event@),
    {
        match (self.phase, event) {
            (LaunchPhase::Idle, LaunchEvent::Begin) => true,
            (LaunchPhase::Probing, LaunchEvent::Probed(_)) => true,
            (LaunchPhase::Inspecting, LaunchEvent::Inspected { .. }) => true,
            (LaunchPhase::Spawning, LaunchEvent::Spawned(_)) => true,
            (LaunchPhase::Settling, LaunchEvent::Settled) => self.child.is_some(),
            (LaunchPhase::Polling, LaunchEvent::Polled(_, _)) => true,
            _ => false,
        }
    }

    fn fail(&mut self, error: ControllerError, child: Option<H>, kill: bool) -> (r: LaunchRequest<H>)
        ensures
            (final(self)@, r@) == launch_fail(old(self)@, error@, child, kill),
    {
        self.phase = LaunchPhase::Done;
        self.child = None;
        LaunchRequest::Fail { error, child, kill }
    }

    /// Feed back what happened to the last request; returns the next one.
    pub fn advance(&mut self, event: LaunchEvent<H>) -> (r: LaunchRequest<H>)
        requires
            launch_accepts(old(self)@, event@),
        ensures
            (final(self)@, r@) == launch_step(old(self)@, event@),
    {
        match event {
            LaunchEvent::Begin => {
                self.phase = LaunchPhase::Probing;
                LaunchRequest::Probe { port: self.port }
            },
            LaunchEvent::Probed(bind) => match probe_outcome(self.port, bind) {
                Ok(()) => {
                    self.phase = LaunchPhase::Inspecting;
                    LaunchRequest::Inspect { path: self.path.clone() }
                },
                Err(e) => self.fail(e, None, false),
            },
            LaunchEvent::Inspected { absolute, is_file } => {
                if absolute && !is_file {
                    let path = self.path.clone();
                    self.fail(ControllerError::GnirehtetNotFound { path }, None, false)
                } else {
                    self.phase = LaunchPhase::Spawning;
                    LaunchRequest::Spawn {
                        path: self.path.clone(),
                        args: relay_args_vec(self.port),
                        piped: self.piped,
                    }
                }
            },
            LaunchEvent::Spawned(Err(io)) => {
                let path = self.path.clone();
                self.fail(ControllerError::RelaySpawn { path, source: io }, None, false)
            },
            LaunchEvent::Spawned(Ok(spawned)) => {
                let SpawnedRelay { child, pid, stdout_ok, stderr_ok } = spawned;
                if self.piped && !stdout_ok {
                    let detail = owned("stdout pipe missing after piped spawn");
                    self.fail(ControllerError::RelayStartFailed { port: self.port, detail }, Some(child), false)
                } else if self.piped && !stderr_ok {
                    let detail = owned("stderr pipe missing after piped spawn");
                    self.fail(ControllerError::RelayStartFailed { port: self.port, detail }, Some(child), false)
                } else {
                    self.phase = LaunchPhase::Settling;
                    self.child = Some(child);
                    self.pid = pid;
                    LaunchRequest::Sleep { millis: 150 }
                }
            },
            LaunchEvent::Settled => {
                self.phase = LaunchPhase::Polling;
                let child = self.child.take();
                LaunchRequest::Poll(child.unwrap())
            },
            LaunchEvent::Polled(child, Ok(Some(status))) => {
                let mut d: Vec<char> = Vec::new();
                push_str(&mut d, "exited immediately: ");
                push_str(&mut d, status.as_str());
                assert(d@ =~= "exited immediately: "@ + status@);
                let detail = string_from_chars(d.as_slice());
                self.fail(ControllerError::RelayStartFailed { port: self.port, detail }, Some(child), false)
            },
            LaunchEvent::Polled(child, Ok(None)) => {
                self.phase = LaunchPhase::Done;
                self.child = None;
                LaunchRequest::Started(RelayProcess::new(child, self.pid, self.port, self.path.clone()))
            },
            LaunchEvent::Polled(child, Err(io)) => self.fail(ControllerError::Io(io), Some(child), true),
        }
    }
}

} // verus!
