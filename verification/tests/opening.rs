use pixelflux::status::Status;
use pixelflux::vaapi::opening::{
    filter_description, source_arguments, takes_device, Answer, CodecOption, CodecParameters,
    EncoderSettings, FramePool, InputMode, NativeName, OpenCall, OpenReply, PixelFormat, Ratio,
    SourceParameters,
};
use pixelflux::vaapi::protocol::NativeCodes;
use pixelflux::{
    H264Gop, HostPixelFormat, VaapiErrorKind, VaapiHostConfiguration, VaapiHostEncoder,
};

const CODES: NativeCodes = NativeCodes {
    again: -11,
    end_of_file: -541_478_725,
    key_flag: 1,
};

fn configuration() -> VaapiHostConfiguration {
    VaapiHostConfiguration {
        device: b"/dev/dri/renderD128".to_vec(),
        width: 322,
        height: 242,
        refresh_hz: 30,
        bitrate_bps: 1_000_000,
        pixel_format: HostPixelFormat::Bgra,
        gop: H264Gop::LowLatency {
            keyframe_interval_frames: 60,
        },
    }
}

fn accepting(call: OpenCall) -> OpenReply {
    match call.row().answer {
        Answer::Nothing => OpenReply::Done,
        Answer::Pointers(count) => OpenReply::Pointers(vec![true; count]),
        Answer::Status => OpenReply::Status(Status {
            code: 0,
            description: None,
        }),
    }
}

fn run(encoder: &mut VaapiHostEncoder) -> Vec<OpenCall> {
    let mut calls = Vec::new();
    while let Some(call) = encoder.opening_call() {
        assert!(!encoder.ready());
        let reply = accepting(call);
        assert!(reply.fits(call));
        encoder.opening_reply(reply).expect("accepted");
        calls.push(call);
    }
    assert!(encoder.ready());
    calls
}

fn common_graph(calls: &[OpenCall], source: SourceParameters) {
    assert_eq!(
        calls,
        [
            OpenCall::AllocateGraph,
            OpenCall::FindBufferFilters {
                source: NativeName::SourceFilter,
                sink: NativeName::SinkFilter,
            },
            OpenCall::AllocateSource(NativeName::Source),
            OpenCall::AllocateSourceParameters,
            OpenCall::ConfigureSource(source),
            OpenCall::InitializeSource,
            OpenCall::CreateSink(NativeName::Sink),
            OpenCall::ParseGraph,
            OpenCall::CreateFilters,
            OpenCall::AttachDevice,
            OpenCall::ApplySegment,
            OpenCall::ReadSegmentEnds,
            OpenCall::LinkSource,
            OpenCall::LinkSink,
            OpenCall::ConfigureGraph,
            OpenCall::AllocateMediaObjects,
            OpenCall::AllocatePreflightFrame,
            OpenCall::Preflight,
        ]
    );
}

#[test]
fn host_encoders_open_in_order() {
    let mut encoder = VaapiHostEncoder::open(&configuration(), CODES).expect("valid");
    assert_eq!(encoder.render_node(), b"/dev/dri/renderD128");
    let calls = run(&mut encoder);
    assert_eq!(encoder.render_node(), b"/dev/dri/renderD128");
    assert_eq!(
        calls[..14],
        [
            OpenCall::CreateDrmDevice,
            OpenCall::DeriveVaapiDevice,
            OpenCall::AllocateSurfacePool,
            OpenCall::ReadSurfacePool,
            OpenCall::InitializeSurfacePool(FramePool {
                format: PixelFormat::Vaapi,
                sw_format: PixelFormat::Nv12,
                width: 336,
                height: 256,
                initial_pool_size: 20,
            }),
            OpenCall::FindEncoder(NativeName::Encoder),
            OpenCall::AllocateEncoder,
            OpenCall::ConfigureEncoder(CodecParameters {
                width: 322,
                height: 242,
                time_base: Ratio { num: 1, den: 30 },
                framerate: Ratio { num: 30, den: 1 },
                format: PixelFormat::Vaapi,
                max_b_frames: 0,
                gop_size: i32::MAX,
                slices: 4,
                compression_level: 6,
                low_delay: true,
                bit_rate: 1_000_000,
            }),
            OpenCall::SetOption(CodecOption::AccessUnitDelimiter),
            OpenCall::SetOption(CodecOption::BFrames),
            OpenCall::SetOption(CodecOption::Profile),
            OpenCall::SetOption(CodecOption::Level),
            OpenCall::SetOption(CodecOption::AsyncDepth),
            OpenCall::OpenEncoder,
        ]
    );
    common_graph(
        &calls[14..],
        SourceParameters {
            format: PixelFormat::Bgra,
            drm_frames: false,
            width: 322,
            height: 242,
            time_base: Ratio { num: 1, den: 30 },
        },
    );
}

#[test]
fn import_encoders_open_a_frames_context() {
    let mut all_intra = configuration();
    all_intra.gop = H264Gop::AllIntra;
    let mut encoder = VaapiHostEncoder::open_dmabuf(&all_intra, CODES).expect("valid");
    let calls = run(&mut encoder);
    assert_eq!(
        calls[2..5],
        [
            OpenCall::AllocateDrmFrames,
            OpenCall::ReadDrmFrames,
            OpenCall::InitializeDrmFrames(FramePool {
                format: PixelFormat::DrmPrime,
                sw_format: PixelFormat::Bgra,
                width: 322,
                height: 242,
                initial_pool_size: 0,
            }),
        ]
    );
    assert_eq!(
        calls[15..19],
        [
            OpenCall::SetOption(CodecOption::GopSize),
            OpenCall::SetOption(CodecOption::IdrInterval),
            OpenCall::SetOption(CodecOption::AsyncDepth),
            OpenCall::OpenEncoder,
        ]
    );
    assert!(matches!(
        calls[10],
        OpenCall::ConfigureEncoder(CodecParameters { gop_size: 1, .. })
    ));
    common_graph(
        &calls[19..],
        SourceParameters {
            format: PixelFormat::DrmPrime,
            drm_frames: true,
            width: 322,
            height: 242,
            time_base: Ratio { num: 1, den: 30 },
        },
    );
}

#[test]
fn the_first_failed_call_is_reported() {
    let mut encoder = VaapiHostEncoder::open_dmabuf(&configuration(), CODES).expect("valid");
    let total = run(&mut encoder).len();
    for failed in 0..total {
        let mut encoder = VaapiHostEncoder::open_dmabuf(&configuration(), CODES).expect("valid");
        for _ in 0..failed {
            let call = encoder.opening_call().expect("pending");
            encoder.opening_reply(accepting(call)).expect("accepted");
        }
        let call = encoder.opening_call().expect("pending");
        let row = call.row();
        let (reply, detail) = match row.answer {
            Answer::Nothing => continue,
            Answer::Pointers(count) => {
                let mut present = vec![true; count];
                present[count - 1] = false;
                (OpenReply::Pointers(present), String::from(row.missing))
            }
            Answer::Status => (
                OpenReply::Status(Status {
                    code: -5,
                    description: Some(String::from("Input/output error")),
                }),
                String::from("Input/output error"),
            ),
        };
        let error = encoder.opening_reply(reply).expect_err("rejected");
        assert_eq!(error.kind(), VaapiErrorKind::Unavailable);
        assert_eq!(error.message(), format!("{}: {detail}", row.operation));
        assert_eq!(encoder.opening_call(), Some(call));
        assert!(!encoder.ready());
    }
}

#[test]
fn opening_failures_name_their_operation() {
    let expected = [
        (
            OpenCall::CreateDrmDevice,
            "create DRM render-node device",
            "",
        ),
        (
            OpenCall::AllocateDrmFrames,
            "allocate DRM-PRIME frames context",
            "FFmpeg returned a null frames context",
        ),
        (
            OpenCall::ReadSurfacePool,
            "allocate VA-API surface pool",
            "FFmpeg returned an empty frames context",
        ),
        (
            OpenCall::FindEncoder(NativeName::Encoder),
            "find VA-API H.264 encoder",
            "system FFmpeg does not expose h264_vaapi",
        ),
        (
            OpenCall::FindBufferFilters {
                source: NativeName::SourceFilter,
                sink: NativeName::SinkFilter,
            },
            "find FFmpeg buffer filters",
            "system FFmpeg does not expose buffer and buffersink",
        ),
        (
            OpenCall::ReadSegmentEnds,
            "link VA-API filter graph",
            "filter chain did not expose one input and one output",
        ),
        (
            OpenCall::AllocateMediaObjects,
            "allocate reusable FFmpeg media objects",
            "FFmpeg returned a null frame or packet",
        ),
        (
            OpenCall::Preflight,
            "preflight VA-API surface pool",
            "",
        ),
    ];
    for (call, operation, missing) in expected {
        assert_eq!(call.row().operation, operation);
        assert_eq!(call.row().missing, missing);
    }
}

#[test]
fn invalid_configurations_open_nothing() {
    let mut invalid = configuration();
    invalid.width = 319;
    assert_eq!(
        VaapiHostEncoder::open(&invalid, CODES)
            .err()
            .expect("odd width")
            .kind(),
        VaapiErrorKind::InvalidConfiguration
    );
    let mut invalid = configuration();
    invalid.device = b"/dev\0".to_vec();
    assert_eq!(
        VaapiHostEncoder::open_dmabuf(&invalid, CODES)
            .err()
            .expect("NUL byte")
            .message(),
        "validate render node: render node contains an interior NUL byte"
    );
}

#[test]
fn filter_texts() {
    let mut settings = EncoderSettings {
        width: 320,
        height: 240,
        refresh_hz: 30,
        bitrate_bps: 1,
        pixel_format: HostPixelFormat::Rgba,
        input_mode: InputMode::Host,
        gop: H264Gop::AllIntra,
    };
    assert_eq!(
        source_arguments(settings),
        "video_size=320x240:time_base=1/30:pixel_aspect=1/1"
    );
    assert_eq!(
        filter_description(settings),
        "hwupload,scale_vaapi=w=320:h=240:format=nv12:out_color_matrix=bt709:out_range=tv"
    );
    settings.input_mode = InputMode::DrmPrime;
    assert_eq!(
        filter_description(settings),
        "hwmap,scale_vaapi=w=320:h=240:format=nv12:out_color_matrix=bt709:out_range=tv"
    );
}

#[test]
fn codec_options() {
    let expected = [
        (CodecOption::AccessUnitDelimiter, ("aud", "0")),
        (CodecOption::BFrames, ("bf", "0")),
        (CodecOption::Profile, ("profile", "high")),
        (CodecOption::Level, ("level", "4.1")),
        (CodecOption::GopSize, ("g", "1")),
        (CodecOption::IdrInterval, ("idr_interval", "1")),
        (CodecOption::AsyncDepth, ("async_depth", "1")),
    ];
    for (option, pair) in expected {
        assert_eq!(option.key_value(), pair);
    }
}

#[test]
fn devices_go_to_filters_without_one() {
    assert!(takes_device(true, false));
    assert!(!takes_device(true, true));
    assert!(!takes_device(false, false));
}

#[test]
fn replies_must_have_the_form_of_the_call() {
    assert!(!OpenReply::Done.fits(OpenCall::CreateDrmDevice));
    let find = OpenCall::FindBufferFilters {
        source: NativeName::SourceFilter,
        sink: NativeName::SinkFilter,
    };
    assert!(!OpenReply::Pointers(vec![true]).fits(find));
    assert!(OpenReply::Pointers(vec![false, true]).fits(find));
    assert!(OpenReply::Done.fits(OpenCall::AttachDevice));
}

#[test]
fn native_names() {
    let expected = [
        (NativeName::Encoder, "h264_vaapi"),
        (NativeName::SourceFilter, "buffer"),
        (NativeName::SinkFilter, "buffersink"),
        (NativeName::Source, "in"),
        (NativeName::Sink, "out"),
    ];
    for (name, text) in expected {
        assert_eq!(name.text(), text);
    }
}
