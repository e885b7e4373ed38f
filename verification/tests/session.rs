use gnirehtet_gui::adb_client::{AdbConfig, VpnOptions};
use gnirehtet_gui::adb_task::AdbRequest;
use gnirehtet_gui::adb_task::AdbEvent;
use gnirehtet_gui::command_error::{IoError, IoErrorKind};
use gnirehtet_gui::controller_error::ControllerError;
use gnirehtet_gui::relay::{
    probe_outcome, LaunchEvent, LaunchRequest, SpawnedRelay, DEFAULT_RELAY_PORT,
};
use gnirehtet_gui::session::{ControllerConfig, RunOptions, RunRequest, SessionController};

/// A stand-in process handle.
#[derive(Debug, PartialEq)]
struct FakeChild(u32);

fn controller() -> SessionController<FakeChild> {
    SessionController::new(ControllerConfig {
        adb: AdbConfig::with_paths("adb".to_string(), "gnirehtet.apk".to_string()),
        gnirehtet_path: "gnirehtet".to_string(),
    })
}

/// Drive a relay start where every check passes and the child keeps running.
fn start_ok(c: &mut SessionController<FakeChild>, port: Option<u16>, pid: u32) -> u16 {
    let listen = c.begin_relay_start(port, false).expect("begin");
    assert!(matches!(c.advance_relay_start(LaunchEvent::Begin), LaunchRequest::Probe { .. }));
    assert!(matches!(c.advance_relay_start(LaunchEvent::Probed(Ok(()))), LaunchRequest::Inspect { .. }));
    match c.advance_relay_start(LaunchEvent::Inspected { absolute: false, is_file: false }) {
        LaunchRequest::Spawn { args, .. } => {
            assert_eq!(args, vec!["relay".to_string(), "-p".to_string(), listen.to_string()])
        }
        _ => panic!("expected spawn"),
    }
    let spawned = SpawnedRelay { child: FakeChild(pid), pid, stdout_ok: true, stderr_ok: true };
    assert!(matches!(
        c.advance_relay_start(LaunchEvent::Spawned(Ok(spawned))),
        LaunchRequest::Sleep { millis: 150 }
    ));
    let child = match c.advance_relay_start(LaunchEvent::Settled) {
        LaunchRequest::Poll(child) => child,
        _ => panic!("expected poll"),
    };
    match c.advance_relay_start(LaunchEvent::Polled(child, Ok(None))) {
        LaunchRequest::Claimed { pid: p, port: q } => {
            assert_eq!(p, pid);
            assert_eq!(q, listen);
        }
        _ => panic!("expected claim"),
    }
    listen
}

#[test]
fn default_port_is_31416() {
    let c = controller();
    assert_eq!(c.effective_port(), DEFAULT_RELAY_PORT);
    assert_eq!(DEFAULT_RELAY_PORT, 31416);
    assert!(!c.owns_relay());
}

#[test]
fn clear_owned_relay_idempotent_without_child() {
    let mut c = controller();
    assert!(c.clear_owned_relay().is_none());
    assert!(c.clear_owned_relay().is_none());
    assert!(c.stop_relay().is_err());
}

#[test]
fn poll_owned_relay_none_without_child() {
    let mut c = controller();
    assert!(c.poll_owned_relay::<i32, ()>(None).unwrap().is_none());
}

#[test]
fn port_in_use_claims_no_ownership() {
    let mut c = controller();
    c.begin_relay_start(Some(4000), true).unwrap();
    c.advance_relay_start(LaunchEvent::Begin);
    let busy = IoError::new(IoErrorKind::AddrInUse, "Address already in use".to_string());
    match c.advance_relay_start(LaunchEvent::Probed(Err(busy))) {
        LaunchRequest::Fail { error, child, kill } => {
            assert!(matches!(error, ControllerError::PortInUse { port: 4000 }));
            assert_eq!(error.ux_code(), Some("PORT_IN_USE"));
            assert!(child.is_none());
            assert!(!kill);
        }
        _ => panic!("expected failure"),
    }
    assert!(!c.owns_relay());
    assert!(!c.relay_start_pending());
    assert_eq!(c.session_port(), None);
}

#[test]
fn started_relay_is_owned_and_freezes_port() {
    let mut c = controller();
    let listen = start_ok(&mut c, None, 77);
    assert_eq!(listen, 31416);
    assert!(c.owns_relay());
    assert_eq!(c.owned_relay_pid(), Some(77));
    assert_eq!(c.session_port(), Some(31416));
    let err = c.begin_relay_start(Some(5000), false).unwrap_err();
    assert!(matches!(err, ControllerError::RelayAlreadyRunning { port: 31416 }));
    let relay = c.stop_relay().expect("stop owned");
    assert_eq!(relay.pid(), 77);
    assert_eq!(relay.port(), 31416);
    assert_eq!(relay.path(), "gnirehtet");
    assert_eq!(relay.into_child(), FakeChild(77));
    assert!(!c.owns_relay());
    assert!(matches!(c.stop_relay(), Err(ControllerError::NoOwnedRelay)));
    assert_eq!(c.session_port(), Some(31416));
}

#[test]
fn early_exit_and_missing_binary_fail_the_start() {
    let mut c = controller();
    c.begin_relay_start(Some(6000), false).unwrap();
    c.advance_relay_start(LaunchEvent::Begin);
    c.advance_relay_start(LaunchEvent::Probed(Ok(())));
    match c.advance_relay_start(LaunchEvent::Inspected { absolute: true, is_file: false }) {
        LaunchRequest::Fail { error, .. } => {
            assert_eq!(error.to_string(), "gnirehtet binary not found: gnirehtet")
        }
        _ => panic!("expected failure"),
    }
    c.begin_relay_start(Some(6000), false).unwrap();
    c.advance_relay_start(LaunchEvent::Begin);
    c.advance_relay_start(LaunchEvent::Probed(Ok(())));
    c.advance_relay_start(LaunchEvent::Inspected { absolute: false, is_file: false });
    let spawned = SpawnedRelay { child: FakeChild(5), pid: 5, stdout_ok: true, stderr_ok: true };
    c.advance_relay_start(LaunchEvent::Spawned(Ok(spawned)));
    let child = match c.advance_relay_start(LaunchEvent::Settled) {
        LaunchRequest::Poll(ch) => ch,
        _ => panic!(),
    };
    match c.advance_relay_start(LaunchEvent::Polled(child, Ok(Some("exit status: 1".to_string())))) {
        LaunchRequest::Fail { error, child, kill } => {
            assert_eq!(
                error.to_string(),
                "Relay on port 6000 exited before listen was confirmed: exited immediately: exit status: 1"
            );
            assert_eq!(child, Some(FakeChild(5)));
            assert!(!kill);
        }
        _ => panic!(),
    }
    assert!(!c.owns_relay());
    assert_eq!(c.session_port(), None);
}

#[test]
fn failed_poll_during_start_kills_child() {
    let mut c = controller();
    c.begin_relay_start(None, true).unwrap();
    c.advance_relay_start(LaunchEvent::Begin);
    c.advance_relay_start(LaunchEvent::Probed(Ok(())));
    c.advance_relay_start(LaunchEvent::Inspected { absolute: false, is_file: false });
    let spawned = SpawnedRelay { child: FakeChild(9), pid: 9, stdout_ok: true, stderr_ok: false };
    match c.advance_relay_start(LaunchEvent::Spawned(Ok(spawned))) {
        LaunchRequest::Fail { error, child, kill } => {
            assert!(error.to_string().contains("stderr pipe missing after piped spawn"));
            assert_eq!(child, Some(FakeChild(9)));
            assert!(!kill);
        }
        _ => panic!(),
    }
    c.begin_relay_start(None, false).unwrap();
    c.advance_relay_start(LaunchEvent::Begin);
    c.advance_relay_start(LaunchEvent::Probed(Ok(())));
    c.advance_relay_start(LaunchEvent::Inspected { absolute: false, is_file: false });
    let spawned = SpawnedRelay { child: FakeChild(9), pid: 9, stdout_ok: false, stderr_ok: false };
    c.advance_relay_start(LaunchEvent::Spawned(Ok(spawned)));
    let child = match c.advance_relay_start(LaunchEvent::Settled) {
        LaunchRequest::Poll(ch) => ch,
        _ => panic!(),
    };
    let io = IoError::new(IoErrorKind::Other, "wait failed".to_string());
    match c.advance_relay_start(LaunchEvent::Polled(child, Err(io))) {
        LaunchRequest::Fail { error, child, kill } => {
            assert!(matches!(error, ControllerError::Io(_)));
            assert_eq!(child, Some(FakeChild(9)));
            assert!(kill);
        }
        _ => panic!(),
    }
    assert!(!c.owns_relay());
}

#[test]
fn poll_exit_clears_ownership_and_error_keeps_it() {
    let mut c = controller();
    start_ok(&mut c, Some(7000), 3);
    assert_eq!(c.owned_child_mut(), &mut FakeChild(3));
    let r: Result<Option<i32>, &str> = c.poll_owned_relay(Some(Err("poll failed")));
    assert!(r.is_err());
    assert!(c.owns_relay());
    let r: Result<Option<i32>, &str> = c.poll_owned_relay(Some(Ok(None)));
    assert_eq!(r, Ok(None));
    assert!(c.owns_relay());
    let r: Result<Option<i32>, &str> = c.poll_owned_relay(Some(Ok(Some(42))));
    assert_eq!(r, Ok(Some(42)));
    assert!(!c.owns_relay());
    assert!(c.poll_owned_relay::<i32, &str>(None).unwrap().is_none());
}

#[test]
fn port_agreement_refuses_hot_swap() {
    let mut c = controller();
    let t = c.reset_tunnel(None, None).expect("tunnel");
    drop(t);
    assert_eq!(c.session_port(), Some(31416));
    c.start(None, &VpnOptions::new(9000)).expect("start agrees new port");
    assert_eq!(c.session_port(), Some(9000));
    start_ok(&mut c, None, 11);
    assert_eq!(c.session_port(), Some(9000));
    let err = c.start(None, &VpnOptions::new(9001)).err().expect("hot swap refused");
    assert!(matches!(err, ControllerError::RelayAlreadyRunning { port: 9000 }));
    let err = c.reset_tunnel(None, Some(1)).err().expect("hot swap refused");
    assert!(matches!(err, ControllerError::RelayAlreadyRunning { port: 9000 }));
    assert!(c.reset_tunnel(Some("S"), None).is_ok());
    assert_eq!(c.session_port(), Some(9000));
}

#[test]
fn run_starts_the_relay_before_any_adb_command() {
    let mut c = controller();
    let opts = RunOptions { dns_servers: Some("8.8.8.8"), routes: None, port: Some(8000) };
    let (mut run, req) = c.run(Some("S"), &opts).expect("run");
    assert_eq!(run.port(), 8000);
    assert!(!run.is_done());
    assert!(matches!(req, RunRequest::Launch(LaunchRequest::Probe { port: 8000 })));
    assert_eq!(c.session_port(), Some(8000));
    assert!(!c.owns_relay());
    assert!(matches!(
        c.run_advance(&mut run, LaunchEvent::Probed(Ok(()))),
        RunRequest::Launch(LaunchRequest::Inspect { .. })
    ));
    assert!(matches!(
        c.run_advance(&mut run, LaunchEvent::Inspected { absolute: false, is_file: false }),
        RunRequest::Launch(LaunchRequest::Spawn { piped: false, .. })
    ));
    let spawned = SpawnedRelay { child: FakeChild(12), pid: 12, stdout_ok: true, stderr_ok: true };
    assert!(matches!(
        c.run_advance(&mut run, LaunchEvent::Spawned(Ok(spawned))),
        RunRequest::Launch(LaunchRequest::Sleep { millis: 150 })
    ));
    let child = match c.run_advance(&mut run, LaunchEvent::Settled) {
        RunRequest::Launch(LaunchRequest::Poll(child)) => child,
        _ => panic!("expected poll"),
    };
    let mut task = match c.run_advance(&mut run, LaunchEvent::Polled(child, Ok(None))) {
        RunRequest::Client(task) => task,
        _ => panic!("expected the client task once the relay is owned"),
    };
    assert!(run.is_done());
    assert!(c.owns_relay());
    assert_eq!(c.owned_relay_pid(), Some(12));
    assert_eq!(c.session_port(), Some(8000));
    assert!(matches!(task.advance(AdbEvent::Begin), AdbRequest::Capture { .. }));
}

#[test]
fn run_with_an_owned_relay_goes_straight_to_the_client() {
    let mut c = controller();
    start_ok(&mut c, Some(8000), 12);
    let (run, req) = c.run(None, &RunOptions::default()).expect("run again");
    assert_eq!(run.port(), 8000);
    assert!(run.is_done());
    assert!(matches!(req, RunRequest::Client(_)));
    let err = c.run(None, &opts_port(8001)).err().expect("refused");
    assert!(matches!(err, ControllerError::RelayAlreadyRunning { port: 8000 }));
    assert_eq!(c.session_port(), Some(8000));
}

#[test]
fn run_with_a_busy_port_runs_no_adb_command() {
    let mut c = controller();
    let (mut run, _) = c.run(None, &opts_port(8002)).expect("run");
    let busy = IoError::new(IoErrorKind::AddrInUse, "Address already in use".to_string());
    match c.run_advance(&mut run, LaunchEvent::Probed(Err(busy))) {
        RunRequest::Launch(LaunchRequest::Fail { error, child, kill }) => {
            assert!(matches!(error, ControllerError::PortInUse { port: 8002 }));
            assert!(child.is_none());
            assert!(!kill);
        }
        _ => panic!("expected the run to fail"),
    }
    assert!(run.is_done());
    assert!(!c.owns_relay());
    assert!(!c.relay_start_pending());
}

fn opts_port(p: u16) -> RunOptions<'static> {
    RunOptions { dns_servers: None, routes: None, port: Some(p) }
}

#[test]
fn abandon_relay_start_hands_back_child() {
    let mut c = controller();
    c.begin_relay_start(None, false).unwrap();
    c.advance_relay_start(LaunchEvent::Begin);
    c.advance_relay_start(LaunchEvent::Probed(Ok(())));
    c.advance_relay_start(LaunchEvent::Inspected { absolute: false, is_file: true });
    let spawned = SpawnedRelay { child: FakeChild(1), pid: 1, stdout_ok: true, stderr_ok: true };
    c.advance_relay_start(LaunchEvent::Spawned(Ok(spawned)));
    assert!(c.relay_start_pending());
    assert_eq!(c.abandon_relay_start(), Some(FakeChild(1)));
    assert!(!c.relay_start_pending());
    assert!(!c.owns_relay());
}

#[test]
fn probe_outcome_maps_addr_in_use() {
    let port = 40123;
    let busy = Err(IoError::new(IoErrorKind::AddrInUse, "Address already in use".to_string()));
    let err = probe_outcome(port, busy).expect_err("port should be busy");
    match err {
        ControllerError::PortInUse { port: p } => assert_eq!(p, port),
        ref other => panic!("expected PortInUse, got {}", other.to_string()),
    }
    assert_eq!(err.ux_code(), Some("PORT_IN_USE"));
    probe_outcome(port, Ok(())).expect("port free");
    let other = probe_outcome(port, Err(IoError::new(IoErrorKind::PermissionDenied, "d".to_string())));
    assert!(matches!(other, Err(ControllerError::Io(_))));
}

#[test]
fn poll_watched_clears_only_on_exit_of_the_watched_relay() {
    let mut c = controller();
    assert!(!c.poll_watched::<i32, ()>(7, None));
    start_ok(&mut c, Some(5000), 7);
    // Another pid is not polled and nothing changes.
    assert!(!c.poll_watched::<i32, ()>(8, None));
    assert_eq!(c.owned_relay_pid(), Some(7));
    // Still running.
    assert!(!c.poll_watched::<i32, ()>(7, Some(Ok(None))));
    assert_eq!(c.owned_relay_pid(), Some(7));
    // A failed poll leaves ownership.
    assert!(!c.poll_watched::<i32, &str>(7, Some(Err("poll failed"))));
    assert!(c.owns_relay());
    // An exit clears ownership; the session port stays.
    assert!(c.poll_watched::<i32, ()>(7, Some(Ok(Some(42)))));
    assert!(!c.owns_relay());
    assert_eq!(c.session_port(), Some(5000));
}
