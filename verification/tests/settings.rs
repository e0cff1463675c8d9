use pixelflux::float_bits::FloatBits;
use pixelflux::rate_control::vbv_multiplier;
use pixelflux::{LiveTunables, RustCaptureSettings};

fn encoded(value: f64) -> FloatBits {
    FloatBits {
        bits: value.to_bits(),
    }
}

#[test]
fn defaults_match_pixelflux_2_0_0() {
    let settings = RustCaptureSettings::default();
    assert_eq!((settings.width, settings.height), (1024, 768));
    assert_eq!(f64::from_bits(settings.target_fps.bits), 60.0);
    assert_eq!(settings.jpeg_quality, 75);
    assert_eq!(settings.video_crf, 25);
    assert_eq!(settings.video_bitrate_kbps, 4000);
    assert_eq!(settings.encode_node_index, -2);
    assert_eq!(settings.cursor_size_cap, 32);
}

#[test]
fn live_tunables_only_change_the_live_subset() {
    let mut settings = RustCaptureSettings {
        width: 1920,
        height: 1080,
        jpeg_quality: 60,
        video_crf: 31,
        capture_cursor: true,
        ..RustCaptureSettings::default()
    };
    let original_width = settings.width;
    let original_height = settings.height;
    let mut tunables = LiveTunables::from_settings(&settings);
    tunables.jpeg_quality = 88;
    tunables.video_crf = 19;
    tunables.capture_cursor = false;
    tunables.apply_to(&mut settings);

    assert_eq!(
        (settings.width, settings.height),
        (original_width, original_height)
    );
    assert_eq!(settings.jpeg_quality, 88);
    assert_eq!(settings.video_crf, 19);
    assert!(!settings.capture_cursor);
}

#[test]
fn remaining_defaults() {
    let settings = RustCaptureSettings::default();
    assert_eq!(f64::from_bits(settings.scale.bits), 1.0);
    assert_eq!(f64::from_bits(settings.video_vbv_multiplier.bits), 0.0);
    assert_eq!(f64::from_bits(settings.keyframe_interval_s.bits), 0.0);
    assert_eq!(settings.paint_over_jpeg_quality, 95);
    assert!(settings.use_paint_over_quality);
    assert_eq!(settings.paint_over_trigger_frames, 15);
    assert_eq!(settings.damage_block_threshold, 10);
    assert_eq!(settings.damage_block_duration, 30);
    assert_eq!(settings.video_paintover_crf, 18);
    assert_eq!(settings.video_paintover_burst_frames, 5);
    assert_eq!(settings.watermark_path, "");
    assert_eq!(settings.recording_socket, "");
    assert_eq!((settings.video_min_qp, settings.video_max_qp), (0, 0));
}

#[test]
fn snapshots_and_applications_undo_each_other() {
    let original = RustCaptureSettings {
        recording_socket: String::from("socket"),
        ..RustCaptureSettings::default()
    };
    let mut settings = original.clone();
    LiveTunables::from_settings(&original).apply_to(&mut settings);
    assert_eq!(settings, original);

    let tunables = LiveTunables {
        jpeg_quality: 1,
        paint_over_jpeg_quality: 2,
        use_paint_over_quality: false,
        paint_over_trigger_frames: 3,
        video_crf: 4,
        video_paintover_crf: 5,
        video_paintover_burst_frames: 6,
        video_streaming_mode: true,
        keyframe_interval_s: encoded(2.5),
        capture_cursor: true,
    };
    tunables.apply_to(&mut settings);
    assert_eq!(LiveTunables::from_settings(&settings), tunables);
    assert_eq!(settings.recording_socket, "socket");

    LiveTunables::from_settings(&original).apply_to(&mut settings);
    assert_eq!(settings, original);
}

#[test]
fn positive_numbers_are_told_apart() {
    for value in [f64::MIN_POSITIVE, 5e-324, 1.5, f64::MAX, f64::INFINITY] {
        assert!(encoded(value).is_positive());
    }
    for value in [0.0, -0.0, -1.0, f64::NEG_INFINITY, f64::NAN, -f64::NAN] {
        assert!(!encoded(value).is_positive());
    }
}

#[test]
fn vbv_multiples() {
    let selected = |multiplier: f64, interval: f64| {
        f64::from_bits(vbv_multiplier(encoded(multiplier), encoded(interval)).bits)
    };
    assert_eq!(selected(0.0, 0.0), 1.5);
    assert_eq!(selected(0.0, 2.0), 3.0);
    assert_eq!(selected(2.0, 2.0), 2.0);
    assert_eq!(selected(-1.0, f64::NAN), 1.5);
    assert_eq!(selected(f64::NAN, 1.0), 3.0);
    assert_eq!(selected(f64::MAX, 1.0), f64::MAX);
}

#[test]
fn float_settings_compare_as_numbers() {
    assert!(encoded(0.0) == encoded(-0.0));
    assert!(encoded(1.5) == encoded(1.5));
    assert!(encoded(1.5) != encoded(-1.5));
    assert!(encoded(f64::INFINITY) == encoded(f64::INFINITY));
    assert!(encoded(f64::INFINITY) != encoded(f64::NEG_INFINITY));
    assert!(encoded(f64::NAN) != encoded(f64::NAN));
    assert!(encoded(-f64::NAN) != encoded(0.0));

    let settings = RustCaptureSettings::default();
    let mut other = settings.clone();
    other.keyframe_interval_s = encoded(-0.0);
    assert_eq!(settings, other);
    assert_eq!(
        LiveTunables::from_settings(&settings),
        LiveTunables::from_settings(&other)
    );
    other.keyframe_interval_s = encoded(f64::NAN);
    assert!(other != other.clone());
    let tunables = LiveTunables::from_settings(&other);
    assert!(tunables != LiveTunables::from_settings(&other));
}
