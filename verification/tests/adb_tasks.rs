use gnirehtet_gui::adb_client::{
    needs_install_from_dumpsys, resolve_apk_path, version_line, AdbClient, AdbConfig, IpAddress, VpnOptions,
    REQUIRED_APK_VERSION_CODE,
};
use gnirehtet_gui::adb_task::{
    AdbEvent, AdbOutcome, AdbRequest, AdbTask, CapturedOutput, ExitOutcome,
};
use gnirehtet_gui::command_error::{CommandExecutionError, IoError, IoErrorKind, Termination};

fn client(apk: &str) -> AdbClient {
    AdbClient::new(AdbConfig::with_paths("adb".to_string(), apk.to_string()))
}

fn run_args(r: &AdbRequest) -> Vec<String> {
    match r {
        AdbRequest::Run { program, args } => {
            assert_eq!(program, "adb");
            args.clone()
        }
        other => panic!("expected Run, got {:?}", other),
    }
}

fn capture_args(r: &AdbRequest) -> Vec<String> {
    match r {
        AdbRequest::Capture { program, args } => {
            assert_eq!(program, "adb");
            args.clone()
        }
        other => panic!("expected Capture, got {:?}", other),
    }
}

fn captured(stdout: &str) -> AdbEvent {
    AdbEvent::Captured(Ok(CapturedOutput { exit: ExitOutcome::Success, stdout: stdout.to_string() }))
}

fn ok() -> AdbEvent {
    AdbEvent::Ran(Ok(ExitOutcome::Success))
}

fn step(task: &mut AdbTask, event: AdbEvent) -> AdbRequest {
    assert!(task.accepts(&event));
    task.advance(event)
}

#[test]
fn install_missing_apk_returns_apk_missing() {
    let client = client("/no/such/gnirehtet.apk");
    let mut task = client.install(None);
    let r = step(&mut task, AdbEvent::Begin);
    let path = match r {
        AdbRequest::CheckApk { path } => path,
        other => panic!("expected CheckApk, got {:?}", other),
    };
    let exists = std::path::Path::new(&path).is_file();
    let err = match step(&mut task, AdbEvent::ApkChecked(exists)) {
        AdbRequest::Finish(Err(e)) => e,
        other => panic!("missing apk: {:?}", other),
    };
    assert!(matches!(err, CommandExecutionError::ApkMissing { .. }));
    assert_eq!(err.adb_ux_code_hint(), Some("APK_MISSING"));
    assert!(task.is_done());
}

#[test]
fn resolve_apk_path_honors_setting() {
    let p = "/custom/setting.apk";
    assert_eq!(resolve_apk_path(Some(p), "gnirehtet.apk"), p);
}

#[test]
fn resolve_apk_path_falls_back_on_empty_or_missing_setting() {
    assert_eq!(resolve_apk_path(Some(""), "resources/gnirehtet.apk"), "resources/gnirehtet.apk");
    assert_eq!(resolve_apk_path(None, "gnirehtet.apk"), "gnirehtet.apk");
}

#[test]
fn install_runs_adb_install_with_serial() {
    let client = client("/tmp/g.apk");
    let mut task = client.install(Some("SER"));
    assert!(matches!(step(&mut task, AdbEvent::Begin), AdbRequest::CheckApk { .. }));
    let r = step(&mut task, AdbEvent::ApkChecked(true));
    assert_eq!(run_args(&r), vec!["-s", "SER", "install", "-r", "/tmp/g.apk"]);
    assert!(matches!(step(&mut task, ok()), AdbRequest::Finish(Ok(AdbOutcome::Done))));
}

#[test]
fn failed_run_names_command_and_status() {
    let client = client("g.apk");
    let mut task = client.tunnel(None, 31416);
    let r = step(&mut task, AdbEvent::Begin);
    assert_eq!(run_args(&r), vec!["reverse", "localabstract:gnirehtet", "tcp:31416"]);
    match step(&mut task, AdbEvent::Ran(Ok(ExitOutcome::Failure(Termination::Value(1))))) {
        AdbRequest::Finish(Err(CommandExecutionError::ProcessStatus(e))) => {
            assert_eq!(e.cmd().command(), "adb");
            assert_eq!(e.cmd().args(), &["reverse", "localabstract:gnirehtet", "tcp:31416"]);
            assert_eq!(*e.termination(), Termination::Value(1));
        }
        other => panic!("expected status error, got {:?}", other),
    }
    assert!(task.is_done());
}

#[test]
fn spawn_failure_is_process_io() {
    let client = client("g.apk");
    let mut task = client.stop(Some("D"));
    let r = step(&mut task, AdbEvent::Begin);
    assert_eq!(
        run_args(&r),
        vec![
            "-s",
            "D",
            "shell",
            "am",
            "start",
            "-a",
            "com.genymobile.gnirehtet.STOP",
            "-n",
            "com.genymobile.gnirehtet/.GnirehtetActivity"
        ]
    );
    let e = match step(
        &mut task,
        AdbEvent::Ran(Err(IoError::new(IoErrorKind::NotFound, "nope".to_string()))),
    ) {
        AdbRequest::Finish(Err(e)) => e,
        other => panic!("{:?}", other),
    };
    assert_eq!(e.adb_ux_code_hint(), Some("ADB_MISSING"));
}

#[test]
fn start_skips_install_when_client_is_current() {
    let client = client("g.apk");
    let opts = VpnOptions { dns_servers: Some("8.8.8.8"), routes: None, port: 1234 };
    let mut task = client.start(None, &opts);
    let r = step(&mut task, AdbEvent::Begin);
    assert_eq!(capture_args(&r), vec!["shell", "dumpsys", "package", "com.genymobile.gnirehtet"]);
    let r = step(&mut task, captured("Packages:\n    versionCode=9 minSdk=21 targetSdk=33\n"));
    assert_eq!(run_args(&r), vec!["reverse", "localabstract:gnirehtet", "tcp:1234"]);
    let r = step(&mut task, ok());
    assert_eq!(
        run_args(&r),
        vec![
            "shell",
            "am",
            "start",
            "-a",
            "com.genymobile.gnirehtet.START",
            "-n",
            "com.genymobile.gnirehtet/.GnirehtetActivity",
            "--esa",
            "dnsServers",
            "8.8.8.8"
        ]
    );
    assert!(matches!(step(&mut task, ok()), AdbRequest::Finish(Ok(AdbOutcome::Done))));
}

#[test]
fn start_installs_outdated_client_then_settles() {
    let client = client("g.apk");
    let opts = VpnOptions { dns_servers: None, routes: Some("10.0.0.0/8"), port: 31416 };
    let mut task = client.start(Some("S"), &opts);
    step(&mut task, AdbEvent::Begin);
    let r = step(&mut task, captured("    versionCode=8 minSdk=21\n"));
    assert!(matches!(r, AdbRequest::CheckApk { .. }));
    let r = step(&mut task, AdbEvent::ApkChecked(true));
    assert_eq!(run_args(&r), vec!["-s", "S", "install", "-r", "g.apk"]);
    let r = step(&mut task, ok());
    assert!(matches!(r, AdbRequest::Sleep { millis: 500 }));
    let r = step(&mut task, AdbEvent::Settled);
    assert_eq!(run_args(&r), vec!["-s", "S", "reverse", "localabstract:gnirehtet", "tcp:31416"]);
    let r = step(&mut task, ok());
    let args = run_args(&r);
    assert_eq!(&args[args.len() - 3..], &["--esa", "routes", "10.0.0.0/8"]);
    assert!(matches!(step(&mut task, ok()), AdbRequest::Finish(Ok(AdbOutcome::Done))));
}

#[test]
fn must_install_client_reports_decision() {
    let client = client("g.apk");
    let mut task = client.must_install_client(None);
    step(&mut task, AdbEvent::Begin);
    match step(&mut task, captured("nothing here")) {
        AdbRequest::Finish(Ok(AdbOutcome::NeedsInstall(b))) => assert!(b),
        other => panic!("{:?}", other),
    }
    let mut task = client.must_install_client(None);
    step(&mut task, AdbEvent::Begin);
    match step(&mut task, captured("    versionCode=9 ")) {
        AdbRequest::Finish(Ok(AdbOutcome::NeedsInstall(b))) => assert!(!b),
        other => panic!("{:?}", other),
    }
}

#[test]
fn version_code_parsing() {
    assert_eq!(REQUIRED_APK_VERSION_CODE, "9");
    assert!(!needs_install_from_dumpsys("    versionCode=9 minSdk=21"));
    assert!(needs_install_from_dumpsys("    versionCode=10 minSdk=21"));
    assert!(needs_install_from_dumpsys("    versionCode=9"));
    assert!(needs_install_from_dumpsys("versionCode=9 minSdk"));
    assert!(needs_install_from_dumpsys(""));
}

#[test]
fn ensure_adb_starts_server_then_reads_version() {
    let client = client("g.apk");
    let mut task = client.ensure_adb();
    assert_eq!(run_args(&step(&mut task, AdbEvent::Begin)), vec!["start-server"]);
    assert_eq!(capture_args(&step(&mut task, ok())), vec!["version"]);
    match step(&mut task, captured("  Android Debug Bridge version 1.0.41\r\nVersion 34.0.5\n")) {
        AdbRequest::Finish(Ok(AdbOutcome::Status(s))) => {
            assert_eq!(s.path, "adb");
            assert_eq!(s.version, "Android Debug Bridge version 1.0.41");
        }
        other => panic!("{:?}", other),
    }
}

#[test]
fn version_line_of_empty_output_is_adb() {
    assert_eq!(version_line(""), "adb");
    assert_eq!(version_line("\nsecond"), "");
    assert_eq!(version_line("one line"), "one line");
}

#[test]
fn list_devices_parses_listing_and_reports_status_failure() {
    let client = client("g.apk");
    let mut task = client.list_devices();
    assert_eq!(capture_args(&step(&mut task, AdbEvent::Begin)), vec!["devices", "-l"]);
    match step(&mut task, captured("List of devices attached\nA device\n")) {
        AdbRequest::Finish(Ok(AdbOutcome::Devices(d))) => {
            assert_eq!(d.len(), 1);
            assert_eq!(d[0].serial, "A");
        }
        other => panic!("{:?}", other),
    }
    let mut task = client.list_devices();
    step(&mut task, AdbEvent::Begin);
    let ev = AdbEvent::Captured(Ok(CapturedOutput {
        exit: ExitOutcome::Failure(Termination::Signal(9)),
        stdout: String::new(),
    }));
    assert!(matches!(step(&mut task, ev), AdbRequest::Finish(Err(CommandExecutionError::ProcessStatus(_)))));
}

#[test]
fn reinstall_and_restart_sequences() {
    let client = client("g.apk");
    let mut task = client.reinstall(None);
    assert_eq!(run_args(&step(&mut task, AdbEvent::Begin)), vec!["uninstall", "com.genymobile.gnirehtet"]);
    assert!(matches!(step(&mut task, ok()), AdbRequest::CheckApk { .. }));
    assert_eq!(run_args(&step(&mut task, AdbEvent::ApkChecked(true))), vec!["install", "-r", "g.apk"]);
    assert!(matches!(step(&mut task, ok()), AdbRequest::Finish(Ok(AdbOutcome::Done))));

    let mut task = client.restart(None, &VpnOptions::new(5));
    let first = run_args(&step(&mut task, AdbEvent::Begin));
    assert_eq!(first[4], "com.genymobile.gnirehtet.STOP");
    assert!(matches!(step(&mut task, ok()), AdbRequest::Capture { .. }));
}

#[test]
fn task_rejects_unexpected_events() {
    let client = client("g.apk");
    let mut task = client.uninstall(None);
    assert!(!task.accepts(&AdbEvent::Settled));
    step(&mut task, AdbEvent::Begin);
    assert!(!task.accepts(&AdbEvent::Begin));
    assert!(task.accepts(&ok()));
    step(&mut task, ok());
    assert!(!task.accepts(&ok()));
}

#[test]
fn create_adb_args_prefixes_serial() {
    let client = client("g.apk");
    assert_eq!(
        client.create_adb_args(Some("X"), vec!["a".to_string(), "b".to_string()]),
        vec!["-s", "X", "a", "b"]
    );
    assert_eq!(client.create_adb_args(None, vec!["a".to_string()]), vec!["a"]);
    assert_eq!(client.adb_path(), "adb");
    assert_eq!(client.apk_path(), "g.apk");
    assert_eq!(client.config().adbd_addr.port, 5037);
    assert_eq!(client.config().adbd_addr.ip, IpAddress::V4([127, 0, 0, 1]));
}
