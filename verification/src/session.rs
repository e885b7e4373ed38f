//! The session: which relay child it owns, the listen port it agreed on,
//! and the adb verbs it runs for the device.

use vstd::prelude::*;
use crate::adb_client::{AdbClient, AdbConfig, VpnOptions};
use crate::adb_task::{
    exec_plan, fresh, install_plan, list_devices_plan, ensure_adb_plan, start_plan, AdbTask,
    TaskView,
};
use crate::adb_client::{opt_view, stop_args, tunnel_args};
use crate::controller_error::{ControllerError, ControllerErrorView};
use crate::relay::{
    launch_accepts, launch_step, LaunchEvent, LaunchPhase, LaunchRequest, LaunchRequestView,
    LaunchView, RelayLaunch, RelayProcess, DEFAULT_RELAY_PORT,
};

verus! {

/// Configuration for the controller (adb + stock gnirehtet binary path).
#[derive(Clone, Debug)]
pub struct ControllerConfig {
    pub adb: AdbConfig,
    /// Stock `gnirehtet` binary (PATH name or absolute). Default: `gnirehtet`.
    pub gnirehtet_path: String,
}

/// The stock relay binary: the `GNIREHTET_BIN` environment value when set,
/// else `gnirehtet` (looked up on `PATH`).
pub fn gnirehtet_path_from_env(env_bin: Option<&str>) -> (r: String)
    ensures
        r@ == (match env_bin {
            Some(v) => v@,
            None => "gnirehtet"@,
        }),
{
    match env_bin {
        Some(v) => crate::text::owned(v),
        None => crate::text::owned("gnirehtet"),
    }
}

/// Optional overrides for `run` / `start` (DNS, routes, port).
#[derive(Clone, Debug, Default)]
pub struct RunOptions<'a> {
    pub dns_servers: Option<&'a str>,
    pub routes: Option<&'a str>,
    pub port: Option<u16>,
}

/// The plain contents of an owned relay.
pub struct OwnedView<H> {
    pub child: H,
    pub pid: u32,
    pub port: u16,
    pub path: Seq<char>,
}

/// The plain state of a session.
pub struct SessionView<H> {
    /// The port agreed for this session, if any.
    pub session_port: Option<u16>,
    /// The relay this session started and owns, if any.
    pub owned: Option<OwnedView<H>>,
    /// A relay start in progress, if any.
    pub starting: Option<LaunchView<H>>,
}

/// The plain contents of a relay process.
pub open spec fn owned_view<H>(r: RelayProcess<H>) -> OwnedView<H> {
    OwnedView { child: r.child_view(), pid: r.pid_view(), port: r.port_view(), path: r.path_view() }
}

/// The port a relay start listens on: the requested one, else the session
/// port, else [`DEFAULT_RELAY_PORT`].
pub open spec fn listen_port(requested: Option<u16>, session_port: Option<u16>) -> u16 {
    match requested {
        Some(p) => p,
        None => match session_port {
            Some(p) => p,
            None => 31416,
        },
    }
}

/// The session port, else [`DEFAULT_RELAY_PORT`].
pub open spec fn effective(session_port: Option<u16>) -> u16 {
    match session_port {
        Some(p) => p,
        None => 31416,
    }
}

/// Agreeing on `port` for the session: refused with `RelayAlreadyRunning`
/// while an owned relay listens on another port (no hot-swap); otherwise
/// the session port becomes `port`.
pub open spec fn remember<H>(v: SessionView<H>, port: u16) -> (SessionView<H>, Result<(), ControllerErrorView>) {
    match v.owned {
        Some(o) => if o.port != port {
            (v, Err(ControllerErrorView::RelayAlreadyRunning(o.port)))
        } else {
            (SessionView { session_port: Some(port), ..v }, Ok(()))
        },
        None => (SessionView { session_port: Some(port), ..v }, Ok(())),
    }
}

/// The session after the owned relay (if any) is given up.
pub open spec fn cleared<H>(v: SessionView<H>) -> SessionView<H> {
    SessionView { owned: None, ..v }
}

/// What a relay-start step does to the session: a started relay becomes the
/// owned relay and its port the session port; a failure ends the start and
/// leaves ownership and the session port as they were; any other step only
/// moves the start on.
pub open spec fn start_step<H>(v: SessionView<H>, e: crate::relay::LaunchEventView<H>) -> (SessionView<H>, LaunchRequestView<H>) {
    let (l2, rv) = launch_step(v.starting->0, e);
    match rv {
        LaunchRequestView::Started(child, pid, port, path) => (
            SessionView {
                session_port: Some(port),
                owned: Some(OwnedView { child, pid, port, path }),
                starting: None,
            },
            LaunchRequestView::Claimed(pid, port),
        ),
        LaunchRequestView::Fail(_, _, _) => (SessionView { starting: None, ..v }, rv),
        _ => (SessionView { starting: Some(l2), ..v }, rv),
    }
}

/// Session-scoped orchestrator: ADB verbs + an owned relay child, whose
/// process handle is `H`.
pub struct SessionController<H> {
    adb: AdbClient,
    gnirehtet_path: String,
    session_port: Option<u16>,
    owned_relay: Option<RelayProcess<H>>,
    starting: Option<RelayLaunch<H>>,
}

impl<H> View for SessionController<H> {
    type V = SessionView<H>;

    closed spec fn view(&self) -> SessionView<H> {
        SessionView {
            session_port: self.session_port,
            owned: match self.owned_relay {
                Some(r) => Some(owned_view(r)),
                None => None,
            },
            starting: match self.starting {
                Some(l) => Some(l@),
                None => None,
            },
        }
    }
}

impl<H> SessionController<H> {
    /// The session's state is consistent: an owned relay listens on the
    /// session port, and a relay start is only under way while none is owned.
    pub open spec fn wf(&self) -> bool {
        &&& (self@.owned matches Some(o) ==> self@.session_port == Some(o.port))
        &&& (self@.starting matches Some(l) ==> self@.owned is None && l.phase != LaunchPhase::Done)
    }

    pub closed spec fn adb_view(&self) -> AdbClient {
        self.adb
    }

    pub closed spec fn gnirehtet_path_view(&self) -> Seq<char> {
        self.gnirehtet_path@
    }

    pub fn new(config: ControllerConfig) -> (s: SessionController<H>)
        ensures
            s.wf(),
            s@ == (SessionView::<H> { session_port: None, owned: None, starting: None }),
            s.adb_view().config_view() == config.adb,
            s.gnirehtet_path_view() == config.gnirehtet_path@,
    {
        SessionController {
            adb: AdbClient::new(config.adb),
            gnirehtet_path: config.gnirehtet_path,
            session_port: None,
            owned_relay: None,
            starting: None,
        }
    }

    pub fn adb(&self) -> (r: &AdbClient)
        ensures
            *r == self.adb_view(),
    {
        &self.adb
    }

    pub fn gnirehtet_path(&self) -> (r: &str)
        ensures
            r@ == self.gnirehtet_path_view(),
    {
        self.gnirehtet_path.as_str()
    }

    pub fn session_port(&self) -> (r: Option<u16>)
        ensures
            r == self@.session_port,
    {
        self.session_port
    }

    pub fn owns_relay(&self) -> (r: bool)
        ensures
            r == self@.owned is Some,
    {
        self.owned_relay.is_some()
    }

    pub fn owned_relay_pid(&self) -> (r: Option<u32>)
        ensures
            r == (match self@.owned {
                Some(o) => Some(o.pid),
                None => None,
            }),
    {
        match &self.owned_relay {
            Some(r) => Some(r.pid()),
            None => None,
        }
    }

    /// The relay this session owns, if any.
    pub fn owned_relay(&self) -> (r: Option<&RelayProcess<H>>)
        ensures
            match r {
                Some(x) => self@.owned == Some(owned_view(*x)),
                None => self@.owned is None,
            },
    {
        match &self.owned_relay {
            Some(x) => Some(x),
            None => None,
        }
    }

    /// Whether a relay start is under way.
    pub fn relay_start_pending(&self) -> (r: bool)
        ensures
            r == self@.starting is Some,
    {
        self.starting.is_some()
    }

    /// The session port, else the default relay port.
    pub fn effective_port(&self) -> (r: u16)
        ensures
            r == effective(self@.session_port),
    {
        match self.session_port {
            Some(p) => p,
            None => DEFAULT_RELAY_PORT,
        }
    }

    fn remember_port(&mut self, port: u16) -> (r: Result<(), ControllerError>)
        requires
            old(self).wf(),
        ensures
            final(self).wf(),
            final(self)@ == remember(old(self)@, port).0,
            match (r, remember(old(self)@, port).1) {
                (Ok(()), Ok(())) => true,
                (Err(e), Err(v)) => e@ == v,
                _ => false,
            },
            final(self).adb_view() == old(self).adb_view(),
            final(self).gnirehtet_path_view() == old(self).gnirehtet_path_view(),
    {
        if let Some(owned) = &self.owned_relay {
            if owned.port() != port {
                return Err(ControllerError::RelayAlreadyRunning { port: owned.port() });
            }
        }
        self.session_port = Some(port);
        Ok(())
    }

    /// Install the client on the device.
    pub fn install(&self, serial: Option<&str>) -> (t: AdbTask)
        ensures
            t.wf(),
            t@ == fresh(self.adb_view(), install_plan(self.adb_view().config_view().apk_path@, opt_view(serial))),
    {
        self.adb.install(serial)
    }

    /// Ensure adb is available (see [`AdbClient::ensure_adb`]).
    pub fn ensure_adb(&self) -> (t: AdbTask)
        ensures
            t.wf(),
            t@ == fresh(self.adb_view(), ensure_adb_plan()),
    {
        self.adb.ensure_adb()
    }

    /// List the devices (see [`AdbClient::list_devices`]).
    pub fn list_devices(&self) -> (t: AdbTask)
        ensures
            t.wf(),
            t@ == fresh(self.adb_view(), list_devices_plan()),
    {
        self.adb.list_devices()
    }

    /// Stop the client's VPN.
    pub fn stop(&self, serial: Option<&str>) -> (t: AdbTask)
        ensures
            t.wf(),
            t@ == fresh(self.adb_view(), exec_plan(opt_view(serial), stop_args())),
    {
        self.adb.stop(serial)
    }

    /// Agree the session port with the client's, then start the client.
    pub fn start(&mut self, serial: Option<&str>, opts: &VpnOptions<'_>) -> (r: Result<AdbTask, ControllerError>)
        requires
            old(self).wf(),
        ensures
            final(self).wf(),
            final(self)@ == remember(old(self)@, opts.port).0,
            final(self).adb_view() == old(self).adb_view(),
            match (r, remember(old(self)@, opts.port).1) {
                (Ok(t), Ok(())) => t.wf() && t@ == fresh(
                    old(self).adb_view(),
                    start_plan(
                        old(self).adb_view().config_view().apk_path@,
                        opt_view(serial),
                        opt_view(opts.dns_servers),
                        opt_view(opts.routes),
                        opts.port,
                    ),
                ),
                (Err(e), Err(v)) => e@ == v,
                _ => false,
            },
    {
        self.remember_port(opts.port)?;
        Ok(self.adb.start(serial, opts))
    }

    /// Tunnel to `port` (the session's port when none is given), agreeing it
    /// as the session port.
    pub fn reset_tunnel(&mut self, serial: Option<&str>, port: Option<u16>) -> (r: Result<AdbTask, ControllerError>)
        requires
            old(self).wf(),
        ensures
            final(self).wf(),
            ({
                let p = match port {
                    Some(p) => p,
                    None => effective(old(self)@.session_port),
                };
                &&& final(self)@ == remember(old(self)@, p).0
                &&& match (r, remember(old(self)@, p).1) {
                    (Ok(t), Ok(())) => t.wf() && t@ == fresh(
                        old(self).adb_view(),
                        exec_plan(opt_view(serial), tunnel_args(p)),
                    ),
                    (Err(e), Err(v)) => e@ == v,
                    _ => false,
                }
            }),
            final(self).adb_view() == old(self).adb_view(),
    {
        let p = match port {
            Some(p) => p,
            None => self.effective_port(),
        };
        self.remember_port(p)?;
        Ok(self.adb.tunnel(serial, p))
    }

    /// Begin starting the stock `gnirehtet relay -p <port>` as a
    /// session-owned child, its stdio piped or inherited.
    ///
    /// Port policy: explicit `port` > existing session port > `31416`.
    /// Refused with `RelayAlreadyRunning` while a relay is owned (no
    /// double start, no listen-port hot-swap). Returns the listen port; the
    /// start then proceeds through [`Self::advance_relay_start`].
    pub fn begin_relay_start(&mut self, port: Option<u16>, piped: bool) -> (r: Result<u16, ControllerError>)
        requires
            old(self).wf(),
            old(self)@.starting is None,
        ensures
            final(self).wf(),
            final(self).adb_view() == old(self).adb_view(),
            final(self).gnirehtet_path_view() == old(self).gnirehtet_path_view(),
            match old(self)@.owned {
                Some(o) => final(self)@ == old(self)@ && r is Err
                    && r->Err_0@ == ControllerErrorView::RelayAlreadyRunning(o.port),
                None => {
                    let listen = listen_port(port, old(self)@.session_port);
                    &&& r == Ok::<u16, ControllerError>(listen)
                    &&& final(self)@ == (SessionView {
                        starting: Some(LaunchView::<H> {
                            path: old(self).gnirehtet_path_view(),
                            port: listen,
                            piped,
                            phase: LaunchPhase::Idle,
                            child: None,
                            pid: 0,
                        }),
                        ..old(self)@
                    })
                },
            },
    {
        if let Some(owned) = &self.owned_relay {
            return Err(ControllerError::RelayAlreadyRunning { port: owned.port() });
        }
        let listen = match port {
            Some(p) => p,
            None => match self.session_port {
                Some(p) => p,
                None => DEFAULT_RELAY_PORT,
            },
        };
        self.starting = Some(RelayLaunch::new(self.gnirehtet_path.clone(), listen, piped));
        Ok(listen)
    }

    /// Whether `event` is what the relay start under way waits for.
    pub fn relay_start_accepts(&self, event: &LaunchEvent<H>) -> (r: bool)
        ensures
            r == (match self@.starting {
                Some(l) => launch_accepts(l, event@),
                None => false,
            }),
    {
        match &self.starting {
            Some(l) => l.accepts(event),
            None => false,
        }
    }

    /// Feed back what happened to the relay start's last request; returns
    /// the next one. A start that succeeds makes the relay the owned relay
    /// and freezes its port as the session port (`Claimed`); one that fails
    /// claims nothing.
    pub fn advance_relay_start(&mut self, event: LaunchEvent<H>) -> (r: LaunchRequest<H>)
        requires
            old(self).wf(),
            old(self)@.starting matches Some(l) && launch_accepts(l, event@),
        ensures
            final(self).wf(),
            (final(self)@, r@) == start_step(old(self)@, event@),
            final(self).adb_view() == old(self).adb_view(),
            final(self).gnirehtet_path_view() == old(self).gnirehtet_path_view(),
    {
        let mut launch = self.starting.take().unwrap();
        let req = launch.advance(event);
        match req {
            LaunchRequest::Started(relay) => {
                let pid = relay.pid();
                let port = relay.port();
                self.session_port = Some(port);
                self.owned_relay = Some(relay);
                LaunchRequest::Claimed { pid, port }
            },
            LaunchRequest::Fail { error, child, kill } => LaunchRequest::Fail { error, child, kill },
            other => {
                self.starting = Some(launch);
                other
            },
        }
    }

    /// Give up a relay start under way (its child, if any, is returned).
    pub fn abandon_relay_start(&mut self) -> (r: Option<H>)
        requires
            old(self).wf(),
        ensures
            final(self).wf(),
            final(self)@ == (SessionView { starting: None, ..old(self)@ }),
            r == (match old(self)@.starting {
                Some(l) => l.child,
                None => None,
            }),
            final(self).adb_view() == old(self).adb_view(),
            final(self).gnirehtet_path_view() == old(self).gnirehtet_path_view(),
    {
        match self.starting.take() {
            Some(l) => l.into_child(),
            None => None,
        }
    }

    /// Take the relay this session owns, to be killed; `NoOwnedRelay` when
    /// there is none. Never touches a relay the session did not start.
    pub fn stop_relay(&mut self) -> (r: Result<RelayProcess<H>, ControllerError>)
        requires
            old(self).wf(),
        ensures
            final(self).wf(),
            final(self)@ == cleared(old(self)@),
            match old(self)@.owned {
                Some(o) => r is Ok && owned_view(r->Ok_0) == o,
                None => r is Err && r->Err_0@ == ControllerErrorView::NoOwnedRelay,
            },
            final(self).adb_view() == old(self).adb_view(),
            final(self).gnirehtet_path_view() == old(self).gnirehtet_path_view(),
    {
        match self.owned_relay.take() {
            Some(relay) => Ok(relay),
            None => Err(ControllerError::NoOwnedRelay),
        }
    }

    /// Quit / Drop helper: give up the owned relay (to be killed) so its port
    /// can free. Never a foreign process. Idempotent.
    pub fn clear_owned_relay(&mut self) -> (r: Option<RelayProcess<H>>)
        requires
            old(self).wf(),
        ensures
            final(self).wf(),
            final(self)@ == cleared(old(self)@),
            match old(self)@.owned {
                Some(o) => r is Some && owned_view(r->0) == o,
                None => r is None,
            },
            final(self).adb_view() == old(self).adb_view(),
            final(self).gnirehtet_path_view() == old(self).gnirehtet_path_view(),
    {
        self.owned_relay.take()
    }

    /// The handle of the owned relay's process, to poll it.
    pub fn owned_child_mut(&mut self) -> (r: &mut H)
        requires
            old(self).wf(),
            old(self)@.owned is Some,
        ensures
            *r == old(self)@.owned->0.child,
            final(self)@ == (SessionView {
                owned: Some(OwnedView { child: *final(r), ..old(self)@.owned->0 }),
                ..old(self)@
            }),
            final(self).adb_view() == old(self).adb_view(),
            final(self).gnirehtet_path_view() == old(self).gnirehtet_path_view(),
    {
        let relay = self.owned_relay.as_mut().unwrap();
        relay.child_mut()
    }

    /// Record a non-blocking poll of the owned relay (`None` when there is
    /// no owned relay to poll):
    /// - `Ok(None)` — no owned relay, or child still running
    /// - `Ok(Some(status))` — child exited; **ownership cleared**
    /// - `Err(_)` — the poll failed; ownership left unchanged
    pub fn poll_owned_relay<S, E>(&mut self, polled: Option<Result<Option<S>, E>>) -> (r: Result<Option<S>, E>)
        requires
            old(self).wf(),
            (polled is Some) == (old(self)@.owned is Some),
        ensures
            final(self).wf(),
            r == (match polled {
                Some(p) => p,
                None => Ok(None),
            }),
            final(self)@ == (match polled {
                Some(Ok(Some(_))) => cleared(old(self)@),
                _ => old(self)@,
            }),
            final(self).adb_view() == old(self).adb_view(),
            final(self).gnirehtet_path_view() == old(self).gnirehtet_path_view(),
    {
        match polled {
            None => Ok(None),
            Some(Ok(Some(status))) => {
                self.owned_relay = None;
                Ok(Some(status))
            },
            Some(other) => other,
        }
    }

    /// The crash watcher's poll of relay `watched_pid`: `polled` is the poll
    /// of the owned relay when it is the watched one (`None` otherwise, and
    /// nothing is polled). True only when that poll saw it exit, which clears
    /// the ownership; a poll error, a running relay, or another (or no) owned
    /// relay leaves the session as it was.
    pub fn poll_watched<S, E>(&mut self, watched_pid: u32, polled: Option<Result<Option<S>, E>>) -> (r: bool)
        requires
            old(self).wf(),
            (polled is Some) == (old(self)@.owned matches Some(o) && o.pid == watched_pid),
        ensures
            final(self).wf(),
            r == (polled matches Some(Ok(Some(_)))),
            final(self)@ == (if r {
                cleared(old(self)@)
            } else {
                old(self)@
            }),
            final(self).adb_view() == old(self).adb_view(),
            final(self).gnirehtet_path_view() == old(self).gnirehtet_path_view(),
    {
        let watched = match self.owned_relay_pid() {
            Some(p) => p == watched_pid,
            None => false,
        };
        if !watched {
            return false;
        }
        match self.poll_owned_relay(polled) {
            Ok(Some(_)) => true,
            _ => false,
        }
    }

    /// One-click ≈ upstream `run`: agree the port (the given one, else the
    /// session's, else `31416`), then, unless the session already owns the
    /// relay, start the relay on it first; the client start task (install
    /// when needed, tunnel, start with the given DNS servers and routes) is
    /// handed out only once the relay is owned. Returns the run and its first
    /// request; the run goes on through [`Self::run_advance`].
    pub fn run(&mut self, serial: Option<&str>, opts: &RunOptions<'_>) -> (r: Result<(RunSession, RunRequest<H>), ControllerError>)
        requires
            old(self).wf(),
            old(self)@.starting is None,
        ensures
            final(self).wf(),
            final(self).adb_view() == old(self).adb_view(),
            final(self).gnirehtet_path_view() == old(self).gnirehtet_path_view(),
            ({
                let p = run_port(opts.port, old(self)@.session_port);
                let client = fresh(
                    old(self).adb_view(),
                    start_plan(
                        old(self).adb_view().config_view().apk_path@,
                        opt_view(serial),
                        opt_view(opts.dns_servers),
                        opt_view(opts.routes),
                        p,
                    ),
                );
                match (r, remember(old(self)@, p).1) {
                    (Err(e), Err(v)) => e@ == v && final(self)@ == old(self)@,
                    (Ok((run, req)), Ok(())) => {
                        &&& run.wf()
                        &&& run@.port == p
                        &&& match old(self)@.owned {
                            Some(_) => {
                                &&& final(self)@ == remember(old(self)@, p).0
                                &&& run@.phase == RunPhase::Done
                                &&& match req {
                                    RunRequest::Client(t) => t.wf() && t@ == client,
                                    RunRequest::Launch(_) => false,
                                }
                            },
                            None => {
                                &&& final(self)@ == (SessionView {
                                    session_port: Some(p),
                                    owned: None,
                                    starting: Some(LaunchView::<H> {
                                        path: old(self).gnirehtet_path_view(),
                                        port: p,
                                        piped: false,
                                        phase: LaunchPhase::Probing,
                                        child: None,
                                        pid: 0,
                                    }),
                                })
                                &&& run@.phase == RunPhase::Launching
                                &&& run@.client == Some(client)
                                &&& match req {
                                    RunRequest::Launch(l) => l@ == LaunchRequestView::<H>::Probe(p),
                                    RunRequest::Client(_) => false,
                                }
                            },
                        }
                    },
                    _ => false,
                }
            }),
    {
        let port = match opts.port {
            Some(p) => p,
            None => self.effective_port(),
        };
        self.remember_port(port)?;
        let vpn = VpnOptions { dns_servers: opts.dns_servers, routes: opts.routes, port };
        let client = self.adb.start(serial, &vpn);
        if self.owns_relay() {
            return Ok((RunSession { port, phase: RunPhase::Done, client: None }, RunRequest::Client(client)));
        }
        let listen = self.begin_relay_start(Some(port), false);
        assert(listen == Ok::<u16, ControllerError>(port));
        let first = self.advance_relay_start(LaunchEvent::Begin);
        Ok((RunSession { port, phase: RunPhase::Launching, client: Some(client) }, RunRequest::Launch(first)))
    }

    /// Feed back what happened to the run's relay-start request. A start
    /// that fails ends the run with that failure, before any adb command; one
    /// that succeeds makes the relay owned, with the run's port as the
    /// session port, and only then hands out the client start task.
    pub fn run_advance(&mut self, run: &mut RunSession, event: LaunchEvent<H>) -> (r: RunRequest<H>)
        requires
            old(self).wf(),
            old(run).wf(),
            old(run)@.phase == RunPhase::Launching,
            old(self)@.starting matches Some(l) && launch_accepts(l, event@) && l.port == old(run)@.port,
        ensures
            final(self).wf(),
            final(run).wf(),
            final(self).adb_view() == old(self).adb_view(),
            final(self).gnirehtet_path_view() == old(self).gnirehtet_path_view(),
            final(self)@ == start_step(old(self)@, event@).0,
            final(run)@.port == old(run)@.port,
            match start_step(old(self)@, event@).1 {
                LaunchRequestView::Claimed(_, _) => {
                    &&& final(run)@.phase == RunPhase::Done
                    &&& final(self)@.session_port == Some(old(run)@.port)
                    &&& (final(self)@.owned matches Some(o) && o.port == old(run)@.port)
                    &&& match r {
                        RunRequest::Client(t) => t.wf() && old(run)@.client == Some(t@),
                        RunRequest::Launch(_) => false,
                    }
                },
                LaunchRequestView::Fail(_, _, _) => {
                    &&& final(run)@.phase == RunPhase::Done
                    &&& match r {
                        RunRequest::Launch(l) => l@ == start_step(old(self)@, event@).1,
                        RunRequest::Client(_) => false,
                    }
                },
                q => {
                    &&& final(run)@ == old(run)@
                    &&& (final(self)@.starting matches Some(l) && l.port == old(run)@.port)
                    &&& match r {
                        RunRequest::Launch(l) => l@ == q,
                        RunRequest::Client(_) => false,
                    }
                },
            },
    {
        let req = self.advance_relay_start(event);
        match req {
            LaunchRequest::Claimed { .. } => {
                run.phase = RunPhase::Done;
                let client = run.client.take().unwrap();
                RunRequest::Client(client)
            },
            LaunchRequest::Fail { error, child, kill } => {
                run.phase = RunPhase::Done;
                run.client = None;
                RunRequest::Launch(LaunchRequest::Fail { error, child, kill })
            },
            other => RunRequest::Launch(other),
        }
    }
}

/// The port a run agrees on: the requested one, else the session port,
/// else `31416`.
pub open spec fn run_port(requested: Option<u16>, session_port: Option<u16>) -> u16 {
    match requested {
        Some(p) => p,
        None => effective(session_port),
    }
}

/// Where a one-click run stands.
#[derive(Clone, Copy, Debug, PartialEq, Eq)]
pub enum RunPhase {
    /// Waiting on the relay start.
    Launching,
    /// Over: the client task was handed out, or the relay start failed.
    Done,
}

/// A one-click run under way: the port it agreed on, and the client start
/// task it hands out once the relay is owned.
pub struct RunSession {
    port: u16,
    phase: RunPhase,
    client: Option<AdbTask>,
}

/// The plain state of a [`RunSession`].
pub struct RunView {
    pub port: u16,
    pub phase: RunPhase,
    pub client: Option<TaskView>,
}

impl View for RunSession {
    type V = RunView;

    closed spec fn view(&self) -> RunView {
        RunView {
            port: self.port,
            phase: self.phase,
            client: match self.client {
                Some(t) => Some(t@),
                None => None,
            },
        }
    }
}

impl RunSession {
    /// A run waiting on its relay start holds the client task, and the
    /// held task is consistent.
    pub closed spec fn wf(&self) -> bool {
        &&& (self.phase == RunPhase::Launching ==> self.client is Some)
        &&& match self.client {
            Some(t) => t.wf(),
            None => true,
        }
    }

    /// The port the run agreed on.
    pub fn port(&self) -> (r: u16)
        ensures
            r == self@.port,
    {
        self.port
    }

    /// Whether the run is over.
    pub fn is_done(&self) -> (r: bool)
        ensures
            r == (self@.phase == RunPhase::Done),
    {
        match self.phase {
            RunPhase::Done => true,
            RunPhase::Launching => false,
        }
    }
}

/// What a run asks for next.
pub enum RunRequest<H> {
    /// Perform the relay start's request and report back through
    /// [`SessionController::run_advance`]; a `Fail` ends the run.
    Launch(LaunchRequest<H>),
    /// The relay is owned: run the client start task; the run is over.
    Client(AdbTask),
}

} // verus!
