use gnirehtet_gui::crash_watch::{relay_log_line, CrashWatch, WatchEvent, WatchRequest};
use gnirehtet_gui::devices::parse_adb_devices_l;

#[test]
fn relay_output_lines_become_log_lines() {
    let out = relay_log_line(10, false, "relay-stdout-line".to_string());
    assert_eq!(out.timestamp_ms, 10);
    assert_eq!(out.level, "info");
    assert_eq!(out.source, "relay");
    assert_eq!(out.message, "relay-stdout-line");
    let err = relay_log_line(11, true, "relay-stderr-line".to_string());
    assert_eq!(err.level, "warn");
    assert_eq!(err.source, "relay");
    assert_eq!(err.message, "relay-stderr-line");
}

fn begun(epoch: u64, pid: u32, port: u16) -> CrashWatch {
    let mut w = CrashWatch::new(epoch, pid, port);
    assert!(matches!(w.advance(WatchEvent::Begin), WatchRequest::CheckEpoch));
    w
}

#[test]
fn watcher_polls_every_interval_while_the_relay_runs() {
    let mut w = begun(3, 99, 31416);
    for _ in 0..3 {
        assert!(matches!(w.advance(WatchEvent::Epoch(Some(3))), WatchRequest::Poll { pid: 99 }));
        assert!(matches!(
            w.advance(WatchEvent::Polled { exited: false, pipes_done: false }),
            WatchRequest::Sleep { millis: 500 }
        ));
        assert!(matches!(w.advance(WatchEvent::Slept), WatchRequest::CheckEpoch));
    }
    assert!(!w.is_done());
}

#[test]
fn watcher_reports_a_crash_once_and_clears_ownership() {
    let mut w = begun(3, 99, 31416);
    assert!(matches!(w.advance(WatchEvent::Epoch(Some(3))), WatchRequest::Poll { pid: 99 }));
    assert!(matches!(w.advance(WatchEvent::Polled { exited: false, pipes_done: true }), WatchRequest::Join));
    assert!(matches!(w.advance(WatchEvent::Joined), WatchRequest::Inspect));
    assert!(matches!(
        w.advance(WatchEvent::Inspected { epoch: Some(3), session: Some((Some(99), Some(4000))) }),
        WatchRequest::Clear
    ));
    assert!(matches!(w.advance(WatchEvent::Cleared), WatchRequest::CheckEpoch));
    match w.advance(WatchEvent::Epoch(Some(3))) {
        WatchRequest::Report { error, payload, log } => {
            assert_eq!(error.code, "RELAY_CRASHED");
            assert_eq!(error.message, "Relay process exited unexpectedly (pid=99)");
            assert_eq!(error.serial, None);
            assert_eq!(payload.state, "relay_exited");
            assert_eq!(payload.port, Some(4000));
            assert_eq!(payload.pid, None);
            assert!(!payload.owned_by_session);
            assert_eq!(payload.message.as_deref(), Some("RELAY_CRASHED"));
            assert_eq!(log, "stage=relay_crash port=4000 pid=99 error_code=RELAY_CRASHED");
        }
        _ => panic!("expected a crash report"),
    }
    assert!(w.is_done());
    assert!(!w.accepts(WatchEvent::Epoch(Some(3))));
}

#[test]
fn watcher_reports_on_start_port_when_ownership_already_cleared() {
    let mut w = begun(1, 5, 31416);
    w.advance(WatchEvent::Epoch(Some(1)));
    assert!(matches!(w.advance(WatchEvent::Polled { exited: true, pipes_done: false }), WatchRequest::Join));
    w.advance(WatchEvent::Joined);
    assert!(matches!(
        w.advance(WatchEvent::Inspected { epoch: Some(1), session: Some((None, None)) }),
        WatchRequest::CheckEpoch
    ));
    match w.advance(WatchEvent::Epoch(Some(1))) {
        WatchRequest::Report { payload, .. } => assert_eq!(payload.port, Some(31416)),
        _ => panic!("expected a crash report"),
    }
}

#[test]
fn watcher_is_silent_after_an_intentional_stop() {
    // The epoch moved while polling: join the readers, report nothing.
    let mut w = begun(2, 5, 31416);
    assert!(matches!(w.advance(WatchEvent::Epoch(Some(3))), WatchRequest::Finish { join: true }));
    assert!(w.is_done());
    // The epoch moved after the readers ended.
    let mut w = begun(2, 5, 31416);
    w.advance(WatchEvent::Epoch(Some(2)));
    w.advance(WatchEvent::Polled { exited: false, pipes_done: true });
    w.advance(WatchEvent::Joined);
    assert!(matches!(
        w.advance(WatchEvent::Inspected { epoch: Some(3), session: Some((None, None)) }),
        WatchRequest::Finish { join: false }
    ));
    // The epoch moved between clearing and reporting.
    let mut w = begun(2, 5, 31416);
    w.advance(WatchEvent::Epoch(Some(2)));
    w.advance(WatchEvent::Polled { exited: false, pipes_done: true });
    w.advance(WatchEvent::Joined);
    w.advance(WatchEvent::Inspected { epoch: Some(2), session: Some((Some(5), None)) });
    w.advance(WatchEvent::Cleared);
    assert!(matches!(w.advance(WatchEvent::Epoch(Some(3))), WatchRequest::Finish { join: false }));
    // The application state is gone.
    let mut w = begun(2, 5, 31416);
    assert!(matches!(w.advance(WatchEvent::Epoch(None)), WatchRequest::Finish { join: true }));
}

#[test]
fn watcher_ignores_a_newer_owned_relay() {
    let mut w = begun(2, 5, 31416);
    w.advance(WatchEvent::Epoch(Some(2)));
    w.advance(WatchEvent::Polled { exited: true, pipes_done: true });
    w.advance(WatchEvent::Joined);
    assert!(matches!(
        w.advance(WatchEvent::Inspected { epoch: Some(2), session: Some((Some(6), Some(31416))) }),
        WatchRequest::Finish { join: false }
    ));
    // The session lock could not be taken.
    let mut w = begun(2, 5, 31416);
    w.advance(WatchEvent::Epoch(Some(2)));
    w.advance(WatchEvent::Polled { exited: true, pipes_done: true });
    w.advance(WatchEvent::Joined);
    assert!(matches!(
        w.advance(WatchEvent::Inspected { epoch: Some(2), session: None }),
        WatchRequest::Finish { join: false }
    ));
}

#[test]
fn joined_listing_lists_both_parts_in_order() {
    let a = "List of devices attached\nA1\tdevice model:M1";
    let b = "B2\toffline\n";
    let joined = format!("{a}\n{b}");
    let mut expected = parse_adb_devices_l(a);
    expected.extend(parse_adb_devices_l(b));
    let got = parse_adb_devices_l(&joined);
    assert_eq!(got, expected);
    assert_eq!(got.len(), 2);
    assert_eq!(got[0].serial, "A1");
    assert_eq!(got[1].serial, "B2");
}

#[test]
fn inserted_blank_or_header_lines_change_nothing() {
    let plain = parse_adb_devices_l("A1\tdevice\nB2\tunauthorized");
    assert_eq!(parse_adb_devices_l("A1\tdevice\n   \nB2\tunauthorized"), plain);
    assert_eq!(parse_adb_devices_l("A1\tdevice\nList of devices attached\nB2\tunauthorized"), plain);
    assert_eq!(parse_adb_devices_l("A1\tdevice\nlonely\nB2\tunauthorized"), plain);
}
