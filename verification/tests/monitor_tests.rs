//! Monitor actor behaviour: idempotent reconfiguration, keyframe on join,
//! zero-viewer backpressure, and frame-notification coalescing.

use vd_driver::monitor::{
    on_encoder_fault, EncoderEvent, EncoderFault, EncodingCommand, FaultAction, MockEncoder,
    Monitor, MonitorConfig, SkipReason, WorkerAction,
};

fn encoder_with_params() -> MockEncoder {
    let mut enc = MockEncoder::new();
    enc.script_param(vec![0x67, 1, 2]); // sequence parameter blob
    enc.script_param(vec![0x68, 3]); // picture parameter blob
    enc
}

#[test]
fn reconfigure_is_idempotent() {
    let mut m = Monitor::new(8, 60);
    let mut enc = encoder_with_params();

    m.configure(1920, 1080, 60);
    m.configure(1920, 1080, 60);
    m.drive_step(&mut enc);

    // One drain, one reconfiguration, one parameter publication.
    assert_eq!(
        enc.events,
        vec![
            EncoderEvent::Drained,
            EncoderEvent::Configured {
                config: MonitorConfig { width: 1920, height: 1080, framerate: 60 }
            },
        ]
    );
    assert_eq!(m.codec_data.version_word(), 1);
    let published = m.codec_data.get().as_ref().expect("params published");
    assert_eq!(published.params, vec![vec![0x67, 1, 2], vec![0x68, 3]]);

    // The second, identical command is a no-op: no encoder call, no
    // second publication.
    m.drive_step(&mut enc);
    assert_eq!(enc.events.len(), 2);
    assert_eq!(m.codec_data.version_word(), 1);
}

#[test]
fn geometry_is_visible_before_the_worker_runs() {
    let mut m = Monitor::new(8, 60);
    assert!(m.codec_data.get().is_none());
    assert!(m.cursor_position.get().is_none());
    assert!(m.cursor_image.get().is_none());
    m.configure(800, 600, 30);
    assert_eq!(m.width(), 800);
    assert_eq!(m.height(), 600);
    assert_eq!(m.framerate(), 30);
    assert!(m.applied.is_none());
}

#[test]
fn encoder_faults_follow_the_worker_policy() {
    assert_eq!(
        on_encoder_fault(EncoderFault::Reconfigure { recreated: false }),
        FaultAction::RecreateEncoder
    );
    assert_eq!(
        on_encoder_fault(EncoderFault::Reconfigure { recreated: true }),
        FaultAction::TerminateWorker
    );
    assert_eq!(on_encoder_fault(EncoderFault::Encode), FaultAction::TerminateWorker);
}

#[test]
fn keyframe_forced_when_a_viewer_joins() {
    let mut m = Monitor::new(8, 60);
    let mut enc = encoder_with_params();
    m.configure(4, 2, 30);
    m.drive_step(&mut enc);

    let _viewer = m.hub.subscribe();
    let frame = vec![7u8; 4 * 4 * 2];

    m.submit_frame(&frame, 100);
    m.drive_step(&mut enc);
    assert_eq!(
        enc.events.last(),
        Some(&EncoderEvent::Encoded { force_keyframe: true })
    );

    // Same viewer count on the next cycle: no forced keyframe.
    m.submit_frame(&frame, 133);
    m.drive_step(&mut enc);
    assert_eq!(
        enc.events.last(),
        Some(&EncoderEvent::Encoded { force_keyframe: false })
    );

    // Another viewer joins: forced again.
    let _viewer2 = m.hub.subscribe();
    m.submit_frame(&frame, 166);
    m.drive_step(&mut enc);
    assert_eq!(
        enc.events.last(),
        Some(&EncoderEvent::Encoded { force_keyframe: true })
    );
}

#[test]
fn zero_viewers_never_touch_the_encoder() {
    let mut m = Monitor::new(8, 60);
    let mut enc = encoder_with_params();
    m.configure(4, 2, 30);
    m.drive_step(&mut enc);
    let calls_after_configure = enc.events.len();

    let frame = vec![7u8; 4 * 4 * 2];
    for ts in 0..10u64 {
        m.submit_frame(&frame, ts);
        m.drive_step(&mut enc);
    }

    assert_eq!(enc.events.len(), calls_after_configure); // zero encode calls
    assert_eq!(m.hub.published_count(), 0);
}

#[test]
fn queued_frame_notifications_coalesce() {
    let mut m = Monitor::new(8, 60);
    m.configure(4, 2, 30);

    let first = vec![1u8; 4 * 4 * 2];
    let second = vec![2u8; 4 * 4 * 2];
    m.submit_frame(&first, 10);
    m.submit_frame(&second, 20);

    // One Configure plus exactly one NewFrame: the second notification was
    // dropped, but the buffer holds the later bytes.
    let frames: Vec<_> = m
        .cmds
        .iter()
        .filter(|c| matches!(c, EncodingCommand::NewFrame { .. }))
        .collect();
    assert_eq!(frames.len(), 1);
    assert!(matches!(frames[0], EncodingCommand::NewFrame { timestamp_ms: 10 }));
    assert_eq!(m.frame, second);

    // The worker sees the Configure, then the single NewFrame, and the
    // staged frame it reads is the latest write.
    let mut enc = encoder_with_params();
    m.drive_step(&mut enc);
    let action = m.worker_step();
    assert!(matches!(action, WorkerAction::Encode { timestamp_ms: 10, .. })
        || matches!(action, WorkerAction::Skip { reason: SkipReason::NoViewers, .. }));
    assert_eq!(m.frame, second);
    assert!(m.cmds.is_empty());
}

#[test]
fn mis_sized_frames_are_skipped_not_fatal() {
    let mut m = Monitor::new(8, 60);
    let mut enc = encoder_with_params();
    m.configure(4, 2, 30);
    m.drive_step(&mut enc);
    let _viewer = m.hub.subscribe();

    m.submit_frame(&[1, 2, 3], 50); // wrong size for 4x2 BGRA
    let action = m.worker_step();
    assert!(matches!(
        action,
        WorkerAction::Skip { reason: SkipReason::BadFrameSize, timestamp_ms: 50 }
    ));

    // The actor keeps going: a well-sized frame encodes.
    m.submit_frame(&vec![1u8; 4 * 4 * 2], 60);
    m.drive_step(&mut enc);
    assert_eq!(
        enc.events.last(),
        Some(&EncoderEvent::Encoded { force_keyframe: true })
    );
}

#[test]
fn frames_before_configuration_are_skipped() {
    let mut m = Monitor::new(8, 60);
    m.submit_frame(&[0u8; 8], 5);
    let action = m.worker_step();
    assert!(matches!(
        action,
        WorkerAction::Skip { reason: SkipReason::NotConfigured, timestamp_ms: 5 }
    ));
}

#[test]
fn encoded_output_reaches_consumers_with_timing() {
    let mut m = Monitor::new(8, 60);
    let mut enc = encoder_with_params();
    m.configure(4, 2, 30);
    m.drive_step(&mut enc);
    let mut viewer = m.hub.subscribe();

    enc.script_output(vec![0xAA, 0xBB]);
    m.submit_frame(&vec![9u8; 4 * 4 * 2], 500);
    m.drive_step(&mut enc);

    let got = m.hub.drain_available(&mut viewer);
    assert_eq!(got.len(), 1);
    assert_eq!(got[0].data, vec![0xAA, 0xBB]);
    assert_eq!(got[0].timestamp_ms, 500);
    assert_eq!(got[0].duration_us, 1_000_000 / 30);
}

#[test]
fn zero_framerate_falls_back_to_one_second_frames() {
    let mut m = Monitor::new(8, 60);
    let mut enc = encoder_with_params();
    m.configure(4, 2, 0);
    m.drive_step(&mut enc);
    assert_eq!(m.duration_us, 1_000_000);
}

#[test]
fn reconfiguration_drains_pending_output_first() {
    let mut m = Monitor::new(8, 60);
    let mut enc = encoder_with_params();
    m.configure(4, 2, 30);
    m.drive_step(&mut enc);
    let mut viewer = m.hub.subscribe();

    // Two output units still sit in the encoder when the geometry changes:
    // draining forwards them before the new configuration is published.
    enc.script_output(vec![0x11]);
    enc.script_output(vec![0x22]);
    m.configure(8, 4, 30);
    m.drive_step(&mut enc);

    let got = m.hub.drain_available(&mut viewer);
    assert_eq!(got.len(), 2);
    assert_eq!(got[0].data, vec![0x11]);
    assert_eq!(got[1].data, vec![0x22]);
    assert_eq!(
        enc.events.last(),
        Some(&EncoderEvent::Configured {
            config: MonitorConfig { width: 8, height: 4, framerate: 30 }
        })
    );
    assert_eq!(m.codec_data.version_word(), 2);
}
