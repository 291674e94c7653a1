//! Encoder-settings model: buffer sizing, alignment, enums, surface
//! planes, pictures, wait classification and wide-string layout.

use vd_driver::settings::{
    align32, BufferFormat, Channels, H264Profile, InputFormat, Picture, Plane, PlaneMut, Preset,
    RateControlMethod,
};
use vd_driver::win32::{classify_wait_result, convert_to_utf16, WaitState};

#[test]
fn buffer_sizes_match_the_layouts() {
    assert_eq!(InputFormat::NV12.buffer_size(1920, 1088), 1920 * 1088 * 3 / 2);
    assert_eq!(InputFormat::RGB3.buffer_size(640, 480), 640 * 480 * 3);
    assert_eq!(InputFormat::RGB4.buffer_size(640, 480), 640 * 480 * 4);
    assert_eq!(InputFormat::NV12.buffer_size(0, 0), 0);
}

#[test]
fn alignment_rounds_up_to_32() {
    assert_eq!(align32(0), 0);
    assert_eq!(align32(1), 32);
    assert_eq!(align32(32), 32);
    assert_eq!(align32(33), 64);
    assert_eq!(align32(1080), 1088);
    assert_eq!(align32(0xFFE0), 0xFFE0);
}

#[test]
fn rate_control_validity() {
    assert!(RateControlMethod::ConstantBitrate { target_bitrate: 8_000_000 }.is_valid());
    assert!(!RateControlMethod::ConstantBitrate { target_bitrate: 0 }.is_valid());
    assert!(RateControlMethod::IntelligentConstantQuality { quality: 25 }.is_valid());
    assert!(!RateControlMethod::IntelligentConstantQuality { quality: 0 }.is_valid());
    assert!(!RateControlMethod::IntelligentConstantQuality { quality: 52 }.is_valid());
}

#[test]
fn channel_counts() {
    assert_eq!(Channels::Mono.count(), 1);
    assert_eq!(Channels::Stereo.count(), 2);
}

#[test]
fn settings_enums_compare() {
    assert_ne!(H264Profile::Baseline, H264Profile::High);
    assert_ne!(Preset::P1, Preset::P7);
    assert_eq!(BufferFormat::NV12, BufferFormat::NV12);
}

#[test]
fn picture_reports_its_fields() {
    let blank = Picture::new();
    assert!(!blank.keyframe());
    assert_eq!(blank.pts(), 0);
    assert_eq!(blank.dts(), 0);

    let p = Picture { keyframe: true, pts: 90_000, dts: 89_000 };
    assert!(p.keyframe());
    assert_eq!(p.pts(), 90_000);
    assert_eq!(p.dts(), 89_000);
}

#[test]
fn planes_carry_bytes_and_stride() {
    let bytes = [1u8, 2, 3, 4, 5, 6];
    let plane = Plane::new(&bytes, 3);
    assert_eq!(plane.data(), &bytes);
    assert_eq!(plane.line_size(), 3);

    let mut w = PlaneMut::new(vec![0; 6], 3);
    assert_eq!(w.line_size(), 3);
    w.fill(vec![9; 6]);
    assert_eq!(w.data(), &vec![9u8; 6]);
}

#[test]
fn wait_results_classify() {
    assert!(matches!(classify_wait_result(0), Some(WaitState::Signaled(0))));
    assert!(matches!(classify_wait_result(2), Some(WaitState::Signaled(2))));
    assert!(matches!(classify_wait_result(128), Some(WaitState::Abandoned(0))));
    assert!(matches!(classify_wait_result(130), Some(WaitState::Abandoned(2))));
    assert!(matches!(classify_wait_result(0x102), Some(WaitState::TimedOut)));
    assert!(classify_wait_result(64).is_none());
    assert!(classify_wait_result(0xFFFF_FFFF).is_none());
}

#[test]
fn wide_strings_are_nul_terminated_utf16() {
    assert_eq!(convert_to_utf16("ab"), vec![97, 98, 0]);
    assert_eq!(convert_to_utf16(""), vec![0]);
    // One character beyond the basic plane becomes a surrogate pair.
    assert_eq!(convert_to_utf16("\u{10348}"), vec![0xD800, 0xDF48, 0]);
    assert_eq!(convert_to_utf16("\u{20AC}"), vec![0x20AC, 0]);
}
