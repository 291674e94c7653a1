//! Framer sessions: configure-before-video, clock packets, cursor pushes,
//! and the streaming-control session transitions.

use vd_driver::framer::{
    AudioSession, ControlSession, RtspMethod, RtspSession, RtspStatus, VideoSession,
};
use vd_driver::cursor::{CursorImage, CursorPosition};
use vd_driver::monitor::CodecParameters;
use vd_driver::utils::Sample;
use vd_driver::wire::Packet;

#[test]
fn video_channel_sends_no_sample_before_configure() {
    let mut session = VideoSession::new();
    let sample = Sample::new(&[1, 2, 3], 1_500, 33_000);
    assert!(session.on_sample(&sample, 1_000).is_none());

    let params = CodecParameters { params: vec![vec![0x67], vec![0x68]] };
    match session.on_codec_data(1920, 1080, &params) {
        Packet::Configure { width, height, params } => {
            assert_eq!((width, height), (1920, 1080));
            assert_eq!(params, vec![vec![0x67], vec![0x68]]);
        }
        _ => panic!("expected a configure packet"),
    }

    match session.on_sample(&sample, 1_000).expect("configured now") {
        Packet::Video { timestamp_ms, data } => {
            assert_eq!(timestamp_ms, 500); // rebased onto the session clock
            assert_eq!(data, vec![1, 2, 3]);
        }
        _ => panic!("expected a video packet"),
    }
}

#[test]
fn video_channel_clock_packets() {
    let session = VideoSession::new();
    assert!(matches!(
        session.connect_packet(77),
        Packet::Timestamp { timestamp_ms: 77 }
    ));
    assert!(matches!(
        session.on_tick(10_077),
        Packet::Timestamp { timestamp_ms: 10_077 }
    ));
}

#[test]
fn sample_before_session_start_clamps_to_zero() {
    let mut session = VideoSession::new();
    let params = CodecParameters { params: vec![] };
    session.on_codec_data(4, 2, &params);
    let sample = Sample::new(&[9], 100, 0);
    match session.on_sample(&sample, 400).expect("configured") {
        Packet::Video { timestamp_ms, .. } => assert_eq!(timestamp_ms, 0),
        _ => panic!("expected a video packet"),
    }
}

#[test]
fn audio_channel_mirrors_video_gating() {
    let mut session = AudioSession::new();
    let sample = Sample::new(&[5], 2_000, 20_000);
    assert!(session.on_sample(&sample, 0).is_none());

    let params = CodecParameters { params: vec![vec![0x4F]] };
    match session.on_codec_data(2, 48_000, &params) {
        Packet::AudioConfigure { channels, sample_rate, params } => {
            assert_eq!((channels, sample_rate), (2, 48_000));
            assert_eq!(params, vec![vec![0x4F]]);
        }
        _ => panic!("expected an audio configure packet"),
    }
    match session.on_sample(&sample, 0).expect("configured") {
        Packet::Audio { timestamp_ms, data } => {
            assert_eq!(timestamp_ms, 2_000);
            assert_eq!(data, vec![5]);
        }
        _ => panic!("expected an audio packet"),
    }
}

#[test]
fn control_channel_pushes_current_state_on_connect() {
    let session = ControlSession::new();
    let pos = CursorPosition { x: 3, y: 4, visible: true };
    let img = CursorImage {
        crc32: 0x1234,
        width: 1,
        height: 1,
        raw: vec![1, 2, 3, 4],
        encoded: vec![0x89, 0x50],
    };
    let packets = session.connect_packets(&Some(pos), &Some(img));
    assert_eq!(packets.len(), 2);
    assert!(matches!(
        packets[0],
        Packet::CursorPosition { x: 3, y: 4, visible: true }
    ));
    match &packets[1] {
        Packet::CursorImage { crc32, data } => {
            assert_eq!(*crc32, 0x1234);
            assert_eq!(data, &vec![0x89, 0x50]);
        }
        _ => panic!("expected a cursor image packet"),
    }

    // Nothing known yet: nothing pushed.
    assert!(session.connect_packets(&None, &None).is_empty());
}

#[test]
fn streaming_control_session_transitions() {
    let mut s = RtspSession::new();
    assert_eq!(s.on_request(RtspMethod::Options, true), RtspStatus::Okay);
    assert_eq!(s.on_request(RtspMethod::Describe, true), RtspStatus::Okay);

    // Play before setup is refused.
    assert_eq!(s.on_request(RtspMethod::Play, true), RtspStatus::BadRequest);
    assert!(!s.playing);

    // Setup against a missing monitor is not found.
    assert_eq!(s.on_request(RtspMethod::Setup, false), RtspStatus::NotFound);
    assert!(!s.setup);

    assert_eq!(s.on_request(RtspMethod::Setup, true), RtspStatus::Okay);
    assert_eq!(s.on_request(RtspMethod::Play, true), RtspStatus::Okay);
    assert!(s.playing);

    assert_eq!(s.on_request(RtspMethod::Pause, true), RtspStatus::Okay);
    assert!(!s.playing);

    assert_eq!(s.on_request(RtspMethod::Teardown, true), RtspStatus::Okay);
    assert!(!s.setup && !s.playing && !s.running);
}
