use gnirehtet_gui::command_error::{
    Cmd, CommandExecutionError, IoError, IoErrorKind, ProcessIoError, ProcessStatusError,
    Termination,
};
use gnirehtet_gui::controller_error::ControllerError;

fn cmd(program: &str, args: &[&str]) -> Cmd {
    Cmd::new(program.to_string(), args.iter().map(|s| s.to_string()).collect())
}

#[test]
fn ux_hint_not_found_is_adb_missing() {
    let err = CommandExecutionError::from(ProcessIoError::new(
        cmd("adb", &["version"]),
        IoError::new(IoErrorKind::NotFound, "no such file".to_string()),
    ));
    assert_eq!(err.adb_ux_code_hint(), Some("ADB_MISSING"));
    assert!(err.as_process_io().unwrap().is_not_found());
}

#[test]
fn ux_hint_other_io_is_path_invalid() {
    let err = CommandExecutionError::from(ProcessIoError::new(
        cmd("/bad/adb", &["version"]),
        IoError::new(IoErrorKind::PermissionDenied, "denied".to_string()),
    ));
    assert_eq!(err.adb_ux_code_hint(), Some("ADB_PATH_INVALID"));
}

#[test]
fn ux_hint_apk_missing() {
    let err = CommandExecutionError::ApkMissing {
        path: "/no/such/gnirehtet.apk".into(),
    };
    assert_eq!(err.adb_ux_code_hint(), Some("APK_MISSING"));
    assert!(err.to_string().contains("APK_MISSING"));
}

#[test]
fn ux_hint_status_and_bare_io_have_none() {
    let status = CommandExecutionError::from(ProcessStatusError::new(
        cmd("adb", &["devices"]),
        Termination::Value(1),
    ));
    assert_eq!(status.adb_ux_code_hint(), None);
    assert!(status.as_process_status().is_some());
    assert!(status.as_process_io().is_none());
    let io = CommandExecutionError::from(IoError::new(IoErrorKind::Other, "boom".to_string()));
    assert_eq!(io.adb_ux_code_hint(), None);
    assert_eq!(io.to_string(), "IO error: boom");
}

#[test]
fn cmd_displays_program_and_debug_list() {
    let c = cmd("adb", &["devices", "-l"]);
    assert_eq!(c.command(), "adb");
    assert_eq!(c.args().len(), 2);
    assert_eq!(c.to_string(), "adb [\"devices\", \"-l\"]");
    assert_eq!(cmd("adb", &[]).to_string(), "adb []");
    assert_eq!(cmd("x", &["a\"b"]).to_string(), "x [\"a\\\"b\"]");
}

#[test]
fn status_error_messages() {
    let e = ProcessStatusError::new(cmd("adb", &["version"]), Termination::Value(1));
    assert_eq!(e.to_string(), "Command adb [\"version\"] returned with value 1");
    assert_eq!(*e.termination(), Termination::Value(1));
    assert_eq!(e.cmd().command(), "adb");
    let s = ProcessStatusError::new(cmd("adb", &[]), Termination::Signal(9));
    assert_eq!(s.to_string(), "Command adb [] terminated by signal 9");
    let n = ProcessStatusError::new(cmd("adb", &[]), Termination::Value(-2147483648));
    assert_eq!(n.to_string(), "Command adb [] returned with value -2147483648");
}

#[test]
fn io_error_message() {
    let e = ProcessIoError::new(
        cmd("adb", &["start-server"]),
        IoError::new(IoErrorKind::NotFound, "No such file or directory (os error 2)".to_string()),
    );
    assert_eq!(
        e.to_string(),
        "Command adb [\"start-server\"] failed: No such file or directory (os error 2)"
    );
    assert_eq!(e.io_error().kind, IoErrorKind::NotFound);
    assert_eq!(e.cmd().args()[0], "start-server");
    assert_eq!(
        CommandExecutionError::from(e).to_string(),
        "Command adb [\"start-server\"] failed: No such file or directory (os error 2)"
    );
}

#[test]
fn termination_prefers_exit_code() {
    assert_eq!(Termination::from_parts(Some(3), None), Termination::Value(3));
    assert_eq!(Termination::from_parts(Some(0), Some(9)), Termination::Value(0));
    assert_eq!(Termination::from_parts(None, Some(15)), Termination::Signal(15));
}

#[test]
fn controller_error_codes() {
    assert_eq!(ControllerError::PortInUse { port: 31416 }.ux_code(), Some("PORT_IN_USE"));
    let spawn = ControllerError::RelaySpawn {
        path: "gnirehtet".to_string(),
        source: IoError::new(IoErrorKind::NotFound, "not found".to_string()),
    };
    assert_eq!(spawn.ux_code(), Some("RELAY_START_FAILED"));
    assert_eq!(
        ControllerError::RelayStartFailed { port: 1, detail: "x".to_string() }.ux_code(),
        Some("RELAY_START_FAILED")
    );
    assert_eq!(
        ControllerError::GnirehtetNotFound { path: "/x".to_string() }.ux_code(),
        Some("RELAY_START_FAILED")
    );
    assert_eq!(ControllerError::RelayAlreadyRunning { port: 1 }.ux_code(), None);
    assert_eq!(ControllerError::NoOwnedRelay.ux_code(), None);
    assert_eq!(
        ControllerError::Io(IoError::new(IoErrorKind::Other, "e".to_string())).ux_code(),
        None
    );
    let adb = ControllerError::from(CommandExecutionError::ApkMissing { path: "a".to_string() });
    assert_eq!(adb.ux_code(), Some("APK_MISSING"));
}

#[test]
fn controller_error_messages() {
    assert_eq!(
        ControllerError::PortInUse { port: 31416 }.to_string(),
        "Relay listen port 31416 is already in use (PORT_IN_USE); not claiming ownership"
    );
    assert_eq!(
        ControllerError::RelayAlreadyRunning { port: 8080 }.to_string(),
        "Session already owns a relay on port 8080; stop it before changing port"
    );
    assert_eq!(ControllerError::NoOwnedRelay.to_string(), "No session-owned relay to stop");
    assert_eq!(
        ControllerError::GnirehtetNotFound { path: "/opt/g".to_string() }.to_string(),
        "gnirehtet binary not found: /opt/g"
    );
    assert_eq!(
        ControllerError::RelayStartFailed { port: 0, detail: "exited immediately: exit status: 1".to_string() }
            .to_string(),
        "Relay on port 0 exited before listen was confirmed: exited immediately: exit status: 1"
    );
    assert_eq!(
        ControllerError::RelaySpawn {
            path: "g".to_string(),
            source: IoError::new(IoErrorKind::PermissionDenied, "denied".to_string())
        }
        .to_string(),
        "Failed to spawn gnirehtet at 'g': denied"
    );
    assert_eq!(
        ControllerError::from(IoError::new(IoErrorKind::Other, "oops".to_string())).to_string(),
        "IO error: oops"
    );
    let apk = CommandExecutionError::ApkMissing { path: "/p.apk".to_string() };
    assert_eq!(
        ControllerError::Adb(apk).to_string(),
        "gnirehtet APK not found at '/p.apk' (APK_MISSING); set GNIREHTET_APK or place resources/gnirehtet.apk"
    );
}
