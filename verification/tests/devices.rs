use gnirehtet_gui::devices::parse_adb_devices_l;

#[test]
fn parse_devices_l_empty() {
    let out = "List of devices attached\n\n";
    assert!(parse_adb_devices_l(out).is_empty());
}

#[test]
fn parse_devices_l_mixed_states() {
    let out = "\
List of devices attached
emulator-5554          device product:sdk_gphone model:sdk_gphone_x86 device:generic_x86
0123456789ABCDEF       unauthorized
deadbeef               offline transport_id:1
";
    let devices = parse_adb_devices_l(out);
    assert_eq!(devices.len(), 3);
    assert_eq!(devices[0].serial, "emulator-5554");
    assert_eq!(devices[0].state, "device");
    assert_eq!(devices[0].model.as_deref(), Some("sdk_gphone_x86"));
    assert_eq!(devices[0].product.as_deref(), Some("sdk_gphone"));
    assert_eq!(devices[1].serial, "0123456789ABCDEF");
    assert_eq!(devices[1].state, "unauthorized");
    assert!(devices[1].model.is_none());
    assert_eq!(devices[2].state, "offline");
}

#[test]
fn parse_devices_without_l_props() {
    let out = "List of devices attached\nABC\tdevice\n";
    let devices = parse_adb_devices_l(out);
    assert_eq!(devices.len(), 1);
    assert_eq!(devices[0].serial, "ABC");
    assert_eq!(devices[0].state, "device");
}

#[test]
fn parse_devices_handles_crlf_and_no_trailing_newline() {
    let out = "List of devices attached\r\nXYZ device model:Pixel_7\r\nQRS offline";
    let devices = parse_adb_devices_l(out);
    assert_eq!(devices.len(), 2);
    assert_eq!(devices[0].serial, "XYZ");
    assert_eq!(devices[0].model.as_deref(), Some("Pixel_7"));
    assert!(devices[0].product.is_none());
    assert_eq!(devices[1].serial, "QRS");
    assert_eq!(devices[1].state, "offline");
}

#[test]
fn parse_devices_skips_single_word_lines_and_keeps_first_prop() {
    let out = "* daemon started successfully\nlonely\n  S1  device  model:a model:b product:p\n";
    let devices = parse_adb_devices_l(out);
    assert_eq!(devices.len(), 2);
    assert_eq!(devices[0].serial, "*");
    assert_eq!(devices[0].state, "daemon");
    assert_eq!(devices[1].serial, "S1");
    assert_eq!(devices[1].model.as_deref(), Some("a"));
    assert_eq!(devices[1].product.as_deref(), Some("p"));
}

#[test]
fn parse_devices_of_empty_output_is_empty() {
    assert!(parse_adb_devices_l("").is_empty());
    assert!(parse_adb_devices_l("   \n\t\n").is_empty());
}

#[test]
fn parsed_devices_have_serial_and_state() {
    let out = "List of devices attached\n \u{3000}A\u{a0}device\n";
    let devices = parse_adb_devices_l(out);
    assert_eq!(devices.len(), 1);
    assert!(!devices[0].serial.is_empty());
    assert_eq!(devices[0].serial, "A");
    assert_eq!(devices[0].state, "device");
}
