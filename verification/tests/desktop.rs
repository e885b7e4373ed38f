use gnirehtet_gui::adb_client::AdbConfig;
use gnirehtet_gui::command_error::{CommandExecutionError, IoError, IoErrorKind};
use gnirehtet_gui::controller_error::ControllerError;
use gnirehtet_gui::desktop::{
    crash_report, crash_verdict, listen_hint, map_controller_err, map_controller_err_stage,
    map_devices, run_session_relay_check, snapshot_relay, start_relay_failure,
    remembered_serial, stop_relay_answer, stop_relay_not_owned, teardown_payload, CrashVerdict,
    OrchError, CODE_CLIENT_START_FAILED, CODE_INSTALL_FAILED, CODE_TUNNEL_FAILED,
};
use gnirehtet_gui::devices::parse_adb_devices_l;
use gnirehtet_gui::session::{ControllerConfig, SessionController};

fn controller() -> SessionController<()> {
    SessionController::new(ControllerConfig {
        adb: AdbConfig::with_paths("adb".to_string(), "gnirehtet.apk".to_string()),
        gnirehtet_path: "gnirehtet".to_string(),
    })
}

#[test]
fn controller_errors_map_to_codes_with_fallbacks() {
    let (code, message) = map_controller_err(&ControllerError::PortInUse { port: 1 });
    assert_eq!(code, "PORT_IN_USE");
    assert!(message.contains("PORT_IN_USE"));
    let (code, _) = map_controller_err(&ControllerError::NoOwnedRelay);
    assert_eq!(code, "INTERNAL");
    let status_err = ControllerError::Io(IoError::new(IoErrorKind::Other, "x".to_string()));
    let (code, message) = map_controller_err_stage(&status_err, "TUNNEL_FAILED");
    assert_eq!(code, "TUNNEL_FAILED");
    assert_eq!(message, "IO error: x");
    let apk = ControllerError::Adb(CommandExecutionError::ApkMissing { path: "p".to_string() });
    let (code, _) = map_controller_err_stage(&apk, "INSTALL_FAILED");
    assert_eq!(code, "APK_MISSING");
}

#[test]
fn orch_error_from_controller_and_coded() {
    let OrchError::Message { code, message } = OrchError::from_controller(ControllerError::NoOwnedRelay);
    assert_eq!(code, "INTERNAL");
    assert_eq!(message, "No session-owned relay to stop");
    let e = OrchError::coded("INTERNAL", "session lock poisoned");
    assert_eq!(e.to_string(), "session lock poisoned");
}

#[test]
fn devices_map_field_by_field() {
    let devices = parse_adb_devices_l("A device model:m\nB offline\n");
    let infos = map_devices(devices);
    assert_eq!(infos.len(), 2);
    assert_eq!(infos[0].serial, "A");
    assert_eq!(infos[0].adb_state, "device");
    assert_eq!(infos[0].model.as_deref(), Some("m"));
    assert!(infos[1].product.is_none());
}

#[test]
fn snapshot_of_idle_session_is_stopped_on_default_port() {
    let c = controller();
    let p = snapshot_relay(&c);
    assert_eq!(p.state, "relay_stopped");
    assert_eq!(p.port, Some(31416));
    assert_eq!(p.pid, None);
    assert!(!p.owned_by_session);
    assert!(p.message.is_none());
}

#[test]
fn listen_hint_policy() {
    assert_eq!(listen_hint(Some(5), Some(6)), 5);
    assert_eq!(listen_hint(None, Some(6)), 6);
    assert_eq!(listen_hint(None, None), 31416);
}

#[test]
fn start_failure_reports() {
    let (err, payload) = start_relay_failure(&ControllerError::PortInUse { port: 9 }, 9);
    let OrchError::Message { code, .. } = err;
    assert_eq!(code, "PORT_IN_USE");
    assert_eq!(payload.state, "relay_error");
    assert_eq!(payload.message.as_deref(), Some("PORT_IN_USE"));
    let e = ControllerError::Io(IoError::new(IoErrorKind::Other, "bad".to_string()));
    let (err, payload) = start_relay_failure(&e, 10);
    let OrchError::Message { code, message } = err;
    assert_eq!(code, "RELAY_START_FAILED");
    assert_eq!(message, "IO error: bad");
    assert_eq!(payload.message.as_deref(), Some("IO error: bad"));
    assert_eq!(payload.port, Some(10));
}

#[test]
fn stop_answers() {
    let p = stop_relay_answer(Ok(()), 5).ok().unwrap();
    assert_eq!(p.message.as_deref(), Some("Relay stopped"));
    let p = stop_relay_answer(Err(ControllerError::NoOwnedRelay), 5).ok().unwrap();
    assert_eq!(p.message.as_deref(), Some("Relay already stopped"));
    assert_eq!(p.state, "relay_stopped");
    let e = stop_relay_answer(Err(ControllerError::Io(IoError::new(IoErrorKind::Other, "k".to_string()))), 5)
        .err()
        .unwrap();
    let OrchError::Message { code, .. } = e;
    assert_eq!(code, "STOP_FAILED");
}

#[test]
fn teardown_messages() {
    let p = teardown_payload(31416, "shutdown", true);
    assert_eq!(p.message.as_deref(), Some("Teardown complete (shutdown)"));
    let p = teardown_payload(31416, "prepare_quit", false);
    assert_eq!(p.message.as_deref(), Some("Teardown complete (prepare_quit, no owned relay)"));
}

#[test]
fn crash_watcher_decisions() {
    assert_eq!(crash_verdict(2, 1, Some(5), 5), CrashVerdict::Ignore);
    assert_eq!(crash_verdict(1, 1, Some(5), 5), CrashVerdict::ClearAndReport);
    assert_eq!(crash_verdict(1, 1, Some(6), 5), CrashVerdict::Ignore);
    assert_eq!(crash_verdict(1, 1, None, 5), CrashVerdict::Report);
    let (err, payload) = crash_report(1234, 31416);
    assert_eq!(err.code, "RELAY_CRASHED");
    assert_eq!(err.message, "Relay process exited unexpectedly (pid=1234)");
    assert_eq!(payload.state, "relay_exited");
    assert_eq!(payload.message.as_deref(), Some("RELAY_CRASHED"));
}

#[test]
fn run_session_check() {
    assert!(matches!(run_session_relay_check(false, None, Some(3)), Ok(true)));
    assert!(matches!(run_session_relay_check(true, Some(3), Some(3)), Ok(false)));
    assert!(matches!(run_session_relay_check(true, Some(3), None), Ok(false)));
    let e = run_session_relay_check(true, Some(3), Some(4)).err().unwrap();
    assert_eq!(
        e.to_string(),
        "Session already owns a relay on port 3; stop it before changing port"
    );
}

#[test]
fn stop_without_owned_relay_leaves_foreign_listener() {
    let p = stop_relay_not_owned(31416);
    assert_eq!(p.state, "relay_stopped");
    assert_eq!(p.port, Some(31416));
    assert_eq!(p.pid, None);
    assert!(!p.owned_by_session);
    assert_eq!(
        p.message.as_deref(),
        Some("No session-owned relay; left any foreign listener untouched")
    );
}

#[test]
fn serial_is_remembered_only_after_success() {
    assert_eq!(remembered_serial(Some("old".to_string()), Some("new"), true), Some("new".to_string()));
    assert_eq!(remembered_serial(Some("old".to_string()), None, true), None);
    assert_eq!(remembered_serial(Some("old".to_string()), Some("new"), false), Some("old".to_string()));
    assert_eq!(remembered_serial(None, Some("new"), false), None);
}

#[test]
fn client_stage_fallbacks_apply_to_codeless_errors() {
    let e = ControllerError::RelayAlreadyRunning { port: 1 };
    let (code, _) = map_controller_err_stage(&e, CODE_CLIENT_START_FAILED);
    assert_eq!(code, "CLIENT_START_FAILED");
    assert_eq!(CODE_INSTALL_FAILED, "INSTALL_FAILED");
    assert_eq!(CODE_CLIENT_START_FAILED, "CLIENT_START_FAILED");
    assert_eq!(CODE_TUNNEL_FAILED, "TUNNEL_FAILED");
}
