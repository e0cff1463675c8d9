use pixelflux::vaapi::config::{align, validate_render_node, MAX_RAW_FRAME_BYTES};
use pixelflux::{H264Gop, HostPixelFormat, VaapiErrorKind, VaapiHostConfiguration};

fn configuration() -> VaapiHostConfiguration {
    VaapiHostConfiguration {
        device: b"<gpu-render-node>".to_vec(),
        width: 320,
        height: 240,
        refresh_hz: 30,
        bitrate_bps: 1_000_000,
        pixel_format: HostPixelFormat::Rgba,
        gop: H264Gop::AllIntra,
    }
}

fn rejection(configuration: &VaapiHostConfiguration) -> String {
    let error = configuration.validate().expect_err("must be rejected");
    assert_eq!(error.kind(), VaapiErrorKind::InvalidConfiguration);
    error.message()
}

#[test]
fn dimensions_must_be_even_and_bounded() {
    assert_eq!(configuration().validate(), Ok((320, 240, 30)));
    let mut invalid = configuration();
    invalid.width = 319;
    assert_eq!(
        invalid.validate().expect_err("odd width must fail").kind(),
        VaapiErrorKind::InvalidConfiguration,
    );
}

#[test]
fn surface_alignment_matches_vaapi_pool_contract() {
    assert_eq!(align(320, 16), Ok(320));
    assert_eq!(align(241, 32), Ok(256));
}

#[test]
fn production_gop_requires_a_bounded_nonzero_interval() {
    let mut invalid = configuration();
    invalid.gop = H264Gop::LowLatency {
        keyframe_interval_frames: 0,
    };
    assert_eq!(
        invalid
            .validate()
            .expect_err("zero GOP interval must fail")
            .kind(),
        VaapiErrorKind::InvalidConfiguration,
    );
    let mut production = configuration();
    production.gop = H264Gop::LowLatency {
        keyframe_interval_frames: 60,
    };
    assert_eq!(production.validate(), Ok((320, 240, 30)));
}

#[test]
fn each_unusable_value_is_rejected() {
    let expected = "validate configuration: dimensions, refresh rate, bitrate, or render node are invalid";
    let mut cases: Vec<VaapiHostConfiguration> = Vec::new();
    for index in 0..7 {
        let mut case = configuration();
        match index {
            0 => case.device = Vec::new(),
            1 => case.width = 0,
            2 => case.height = 0,
            3 => case.height = 241,
            4 => case.refresh_hz = 0,
            5 => case.refresh_hz = 1_001,
            _ => case.bitrate_bps = 0,
        }
        cases.push(case);
    }
    for case in &cases {
        assert_eq!(rejection(case), expected);
    }
}

#[test]
fn the_gop_is_checked_first() {
    let mut invalid = configuration();
    invalid.width = 0;
    invalid.gop = H264Gop::LowLatency {
        keyframe_interval_frames: 0,
    };
    assert_eq!(
        rejection(&invalid),
        "validate GOP configuration: keyframe interval must contain at least one frame"
    );
}

#[test]
fn oversized_frames_are_rejected() {
    let mut largest = configuration();
    largest.width = 16_384;
    largest.height = 8_192;
    assert_eq!(16_384 * 8_192 * 4, MAX_RAW_FRAME_BYTES);
    assert_eq!(largest.validate(), Ok((16_384, 8_192, 30)));
    largest.height = 8_194;
    assert_eq!(
        rejection(&largest),
        "validate configuration: frame exceeds the bounded host-frame size"
    );
    largest.width = u32::MAX - 1;
    largest.height = u32::MAX - 1;
    assert_eq!(
        rejection(&largest),
        "validate configuration: frame byte size overflowed"
    );
}

#[test]
fn refresh_rate_bounds_are_inclusive() {
    let mut edge = configuration();
    edge.refresh_hz = 1_000;
    assert_eq!(edge.validate(), Ok((320, 240, 1_000)));
    edge.refresh_hz = 1;
    assert_eq!(edge.validate(), Ok((320, 240, 1)));
}

#[test]
fn render_node_must_not_hold_a_nul_byte() {
    assert_eq!(validate_render_node(b"/dev/dri/renderD128"), Ok(()));
    let error = validate_render_node(b"/dev\0dri").expect_err("NUL byte");
    assert_eq!(error.kind(), VaapiErrorKind::InvalidConfiguration);
    assert_eq!(
        error.message(),
        "validate render node: render node contains an interior NUL byte"
    );
}

#[test]
fn alignment_rounds_up_or_overflows() {
    assert_eq!(align(1, 16), Ok(16));
    assert_eq!(align(0, 32), Ok(0));
    assert_eq!(align(-1, 32), Ok(0));
    assert_eq!(align(2_147_483_616, 32), Ok(2_147_483_616));
    let error = align(2_147_483_617, 32).expect_err("overflow");
    assert_eq!(error.kind(), VaapiErrorKind::InvalidConfiguration);
    assert_eq!(
        error.message(),
        "align VA-API surface dimensions: surface dimension overflowed"
    );
}

#[test]
fn gop_policies() {
    let periodic = H264Gop::LowLatency {
        keyframe_interval_frames: 60,
    };
    assert!(H264Gop::AllIntra.forces_every_frame());
    assert!(!periodic.forces_every_frame());
    assert_eq!(H264Gop::AllIntra.keyframe_interval_frames(), 1);
    assert_eq!(periodic.keyframe_interval_frames(), 60);
}
