//! Wire-format behaviour: exact bytes, round trips, and rejections.

use vd_driver::wire::{
    encode_packet, parse_channel_kind, parse_handshake, parse_packet, read_configuration,
    read_cursor_image, read_cursor_position, ChannelKind, Packet, WireError,
};

fn cfg_packet() -> Packet {
    Packet::Configure {
        width: 1920,
        height: 1080,
        params: vec![b"A".to_vec(), b"BC".to_vec()],
    }
}

#[test]
fn configure_exact_bytes() {
    let bytes = encode_packet(&cfg_packet());
    let mut expected: Vec<u8> = Vec::new();
    expected.extend_from_slice(&[0, 0, 0, 3]); // packet type
    expected.extend_from_slice(&[0, 0, 0, 19]); // payload length: 4+4+(4+1)+(4+2)
    expected.extend_from_slice(&[0x00, 0x00, 0x07, 0x80]); // width 1920
    expected.extend_from_slice(&[0x00, 0x00, 0x04, 0x38]); // height 1080
    expected.extend_from_slice(&[0, 0, 0, 1, b'A']);
    expected.extend_from_slice(&[0, 0, 0, 2, b'B', b'C']);
    assert_eq!(bytes, expected);
}

#[test]
fn configure_round_trip() {
    let bytes = encode_packet(&cfg_packet());
    let (packet, used) = parse_packet(&bytes).expect("parse");
    assert_eq!(used, bytes.len());
    match packet {
        Packet::Configure { width, height, params } => {
            assert_eq!(width, 1920);
            assert_eq!(height, 1080);
            assert_eq!(params, vec![b"A".to_vec(), b"BC".to_vec()]);
        }
        other => panic!("wrong packet: {:?}", tag_of(&other)),
    }
}

fn tag_of(p: &Packet) -> u32 {
    match p {
        Packet::Video { .. } => 0,
        Packet::Audio { .. } => 1,
        Packet::Timestamp { .. } => 2,
        Packet::Configure { .. } => 3,
        Packet::CursorPosition { .. } => 4,
        Packet::CursorImage { .. } => 5,
        Packet::AudioConfigure { .. } => 6,
    }
}

#[test]
fn video_round_trip() {
    let p = Packet::Video { timestamp_ms: -22, data: vec![9, 8, 7] };
    let bytes = encode_packet(&p);
    let (parsed, used) = parse_packet(&bytes).expect("parse");
    assert_eq!(used, bytes.len());
    match parsed {
        Packet::Video { timestamp_ms, data } => {
            assert_eq!(timestamp_ms, -22);
            assert_eq!(data, vec![9, 8, 7]);
        }
        _ => panic!("wrong packet"),
    }
}

#[test]
fn audio_round_trip() {
    let p = Packet::Audio { timestamp_ms: 1234567, data: vec![] };
    let bytes = encode_packet(&p);
    match parse_packet(&bytes).expect("parse").0 {
        Packet::Audio { timestamp_ms, data } => {
            assert_eq!(timestamp_ms, 1234567);
            assert!(data.is_empty());
        }
        _ => panic!("wrong packet"),
    }
}

#[test]
fn timestamp_round_trip() {
    let p = Packet::Timestamp { timestamp_ms: i64::MIN };
    let bytes = encode_packet(&p);
    assert_eq!(bytes.len(), 16);
    match parse_packet(&bytes).expect("parse").0 {
        Packet::Timestamp { timestamp_ms } => assert_eq!(timestamp_ms, i64::MIN),
        _ => panic!("wrong packet"),
    }
}

#[test]
fn cursor_position_round_trip() {
    let p = Packet::CursorPosition { x: -5, y: 17, visible: true };
    let bytes = encode_packet(&p);
    match parse_packet(&bytes).expect("parse").0 {
        Packet::CursorPosition { x, y, visible } => {
            assert_eq!((x, y, visible), (-5, 17, true));
        }
        _ => panic!("wrong packet"),
    }
}

#[test]
fn cursor_image_round_trip() {
    let p = Packet::CursorImage { crc32: 0xDEADBEEF, data: vec![1, 2, 3, 4] };
    let bytes = encode_packet(&p);
    match parse_packet(&bytes).expect("parse").0 {
        Packet::CursorImage { crc32, data } => {
            assert_eq!(crc32, 0xDEADBEEF);
            assert_eq!(data, vec![1, 2, 3, 4]);
        }
        _ => panic!("wrong packet"),
    }
}

#[test]
fn audio_configure_round_trip() {
    let p = Packet::AudioConfigure {
        channels: 2,
        sample_rate: 48000,
        params: vec![vec![0x4F, 0x70], vec![]],
    };
    let bytes = encode_packet(&p);
    match parse_packet(&bytes).expect("parse").0 {
        Packet::AudioConfigure { channels, sample_rate, params } => {
            assert_eq!(channels, 2);
            assert_eq!(sample_rate, 48000);
            assert_eq!(params, vec![vec![0x4F, 0x70], vec![]]);
        }
        _ => panic!("wrong packet"),
    }
}

#[test]
fn parse_rejects_truncated_header() {
    assert!(matches!(parse_packet(&[0, 0, 0]), Err(WireError::Truncated)));
}

#[test]
fn parse_rejects_truncated_payload() {
    // Announces 4 payload bytes, carries 2.
    let bytes = [0, 0, 0, 2, 0, 0, 0, 4, 1, 2];
    assert!(matches!(parse_packet(&bytes), Err(WireError::Truncated)));
}

#[test]
fn parse_rejects_unknown_type() {
    let bytes = [0, 0, 0, 7, 0, 0, 0, 0];
    assert!(matches!(parse_packet(&bytes), Err(WireError::UnknownType)));
}

#[test]
fn parse_rejects_oversized_timestamp() {
    let mut bytes = vec![0, 0, 0, 2, 0, 0, 0, 9];
    bytes.extend_from_slice(&[0; 9]);
    assert!(matches!(parse_packet(&bytes), Err(WireError::Malformed)));
}

#[test]
fn parse_rejects_bad_visibility_word() {
    let mut bytes = vec![0, 0, 0, 4, 0, 0, 0, 12];
    bytes.extend_from_slice(&[0; 8]);
    bytes.extend_from_slice(&[0, 0, 0, 2]); // visible must be 0 or 1
    assert!(matches!(parse_packet(&bytes), Err(WireError::Malformed)));
}

#[test]
fn parse_rejects_ragged_parameter_blobs() {
    // Configure whose blob area ends mid-prefix.
    let bytes = [0, 0, 0, 3, 0, 0, 0, 11, 0, 0, 0, 1, 0, 0, 0, 2, 0, 0, 0];
    assert!(matches!(parse_packet(&bytes), Err(WireError::Malformed)));
}

#[test]
fn handshake_selects_channel() {
    let bytes = [0, 0, 0, 5, 0, 0, 0, 2];
    assert_eq!(parse_handshake(&bytes), Ok((5, ChannelKind::Control)));
    let bytes = [0, 0, 0, 0, 0, 0, 0, 0];
    assert_eq!(parse_handshake(&bytes), Ok((0, ChannelKind::Video)));
    let bytes = [0, 0, 0, 0, 0, 0, 0, 3];
    assert_eq!(parse_handshake(&bytes), Err(WireError::UnknownType));
    assert_eq!(parse_handshake(&[1, 2, 3]), Err(WireError::Truncated));
    assert_eq!(parse_channel_kind(1), Some(ChannelKind::Audio));
}

#[test]
fn configuration_record_reads_little_endian() {
    let mut buf = vec![1, 0, 0, 0]; // configured
    buf.extend_from_slice(&1920u32.to_le_bytes());
    buf.extend_from_slice(&1080u32.to_le_bytes());
    buf.extend_from_slice(&60u32.to_le_bytes());
    assert_eq!(read_configuration(&buf), Some((1920, 1080, 60)));

    let unconfigured = vec![0u8; 16];
    assert_eq!(read_configuration(&unconfigured), None);
    assert_eq!(read_configuration(&[1, 0, 0, 0, 9]), None);
    assert_eq!(read_configuration(&[]), None);
}

#[test]
fn cursor_records_read_from_shared_buffer() {
    let mut buf = Vec::new();
    buf.extend_from_slice(&5i32.to_le_bytes());
    buf.extend_from_slice(&(-7i32).to_le_bytes());
    buf.extend_from_slice(&1u32.to_le_bytes());
    assert_eq!(read_cursor_position(&buf), Some((5, -7, true)));
    assert!(read_cursor_position(&[0, 0]).is_none());

    // A 2x2 bitmap behind a 12-byte pitch: 8 pixel bytes per row.
    buf.extend_from_slice(&2u32.to_le_bytes());
    buf.extend_from_slice(&2u32.to_le_bytes());
    buf.extend_from_slice(&12u32.to_le_bytes());
    buf.extend_from_slice(&[1, 2, 3, 4, 5, 6, 7, 8, 0, 0, 0, 0]);
    buf.extend_from_slice(&[9, 10, 11, 12, 13, 14, 15, 16]);
    let (w, h, px) = read_cursor_image(&buf).expect("image");
    assert_eq!((w, h), (2, 2));
    assert_eq!(px, vec![1, 2, 3, 4, 5, 6, 7, 8, 9, 10, 11, 12, 13, 14, 15, 16]);

    // The last row is short of one byte: the record is rejected.
    buf.pop();
    assert!(read_cursor_image(&buf).is_none());
}
