//! Device-bridge logic: the hexadecimal length framing and the device
//! list parsing.

use vd_driver::adb::{format_hex_len, parse_hex_len, AdbClient, AdbError};

#[test]
fn hex_length_round_trip() {
    assert_eq!(format_hex_len(0x01AB), b"01AB".to_vec());
    assert_eq!(format_hex_len(0), b"0000".to_vec());
    assert_eq!(format_hex_len(0xFFFF), b"FFFF".to_vec());
    assert_eq!(parse_hex_len(b"01AB"), Some(0x01AB));
    assert_eq!(parse_hex_len(b"00ff"), Some(0x00FF));
    assert_eq!(parse_hex_len(b"00fg"), None);
    for len in [0u16, 1, 0x1234, 0xFFFF] {
        assert_eq!(parse_hex_len(&format_hex_len(len)), Some(len as u32));
    }
}

#[test]
fn device_list_parses_serial_and_state() {
    let devices =
        AdbClient::parse_devices("emulator-5554\tdevice\nR58M12ABCDE offline\n").expect("parse");
    assert_eq!(
        devices,
        vec![
            ("emulator-5554".to_string(), "device".to_string()),
            ("R58M12ABCDE".to_string(), "offline".to_string()),
        ]
    );
}

#[test]
fn device_list_ignores_surrounding_whitespace_and_extra_fields() {
    let devices =
        AdbClient::parse_devices("\n  serialA  device  extra junk \r\n").expect("parse");
    assert_eq!(devices, vec![("serialA".to_string(), "device".to_string())]);
}

#[test]
fn empty_device_list_is_empty() {
    assert_eq!(AdbClient::parse_devices("").expect("parse"), vec![]);
    assert_eq!(AdbClient::parse_devices("  \r\n  ").expect("parse"), vec![]);
}

#[test]
fn short_device_line_is_rejected()  {
    assert_eq!(
        AdbClient::parse_devices("serial-without-state\n"),
        Err(AdbError::MissingField)
    );
    assert_eq!(
        AdbClient::parse_devices("good device\n\nalso good device"),
        Err(AdbError::MissingField)
    );
}
