use pixelflux::status::Status;
use pixelflux::vaapi::drm::{DescriptorHead, DrmObject, DrmPlaneLayout};
use pixelflux::vaapi::opening::{Answer, OpenReply, PixelFormat};
use pixelflux::vaapi::protocol::{Call, NativeCodes, PacketHeader, Reply};
use pixelflux::{
    DrmPrimeFrame, DrmPrimePlane, EncodedPacket, H264Gop, HostPixelFormat, VaapiError,
    VaapiErrorKind, VaapiHostConfiguration, VaapiHostEncoder,
};

const AGAIN: i32 = -11;
const END: i32 = -541_478_725;

const CODES: NativeCodes = NativeCodes {
    again: AGAIN,
    end_of_file: END,
    key_flag: 1,
};

fn configuration(gop: H264Gop) -> VaapiHostConfiguration {
    VaapiHostConfiguration {
        device: b"/dev/dri/renderD128".to_vec(),
        width: 2,
        height: 2,
        refresh_hz: 30,
        bitrate_bps: 1_000_000,
        pixel_format: HostPixelFormat::Rgba,
        gop,
    }
}

fn periodic(keyframe_interval_frames: u32) -> H264Gop {
    H264Gop::LowLatency {
        keyframe_interval_frames,
    }
}

fn opened(mut encoder: VaapiHostEncoder) -> VaapiHostEncoder {
    while let Some(call) = encoder.opening_call() {
        let reply = match call.row().answer {
            Answer::Nothing => OpenReply::Done,
            Answer::Pointers(count) => OpenReply::Pointers(vec![true; count]),
            Answer::Status => OpenReply::Status(Status {
                code: 0,
                description: None,
            }),
        };
        encoder.opening_reply(reply).expect("accepted");
    }
    encoder
}

fn host(gop: H264Gop) -> VaapiHostEncoder {
    opened(VaapiHostEncoder::open(&configuration(gop), CODES).expect("valid"))
}

fn import(gop: H264Gop) -> VaapiHostEncoder {
    opened(VaapiHostEncoder::open_dmabuf(&configuration(gop), CODES).expect("valid"))
}

fn status(code: i32) -> Reply {
    Reply::Status(Status {
        code,
        description: None,
    })
}

fn duplicate(fd: i32) -> Reply {
    Reply::Duplicate {
        fd,
        os_error: String::from("Too many open files"),
    }
}

fn answer(encoder: &mut VaapiHostEncoder, call: Call, reply: Reply) {
    assert_eq!(encoder.call(), Some(call));
    assert!(encoder.expects(&reply));
    encoder.advance(reply);
}

fn header(pts: i64) -> PacketHeader {
    PacketHeader {
        pts,
        size: 3,
        present: true,
        flags: 0,
    }
}

fn upload(encoder: &mut VaapiHostEncoder, pts: i64) {
    let allocate = Call::AllocateHostFrame {
        format: PixelFormat::Rgba,
        width: 2,
        height: 2,
        pts,
        alignment: 32,
    };
    answer(encoder, allocate, status(0));
    answer(encoder, Call::MakeHostFrameWritable, status(0));
    answer(encoder, Call::ReadLinesize, Reply::Linesize(32));
    let copy = Call::CopyHostRows {
        destination_stride: 32,
    };
    answer(encoder, copy, Reply::Done);
    answer(encoder, Call::UploadHostFrame, status(0));
}

fn receive(encoder: &mut VaapiHostEncoder, pts: i64, intra: bool, flags: i32) {
    answer(encoder, Call::ReceiveFiltered, status(0));
    answer(encoder, Call::SendFiltered { intra, pts }, status(0));
    answer(encoder, Call::ReceivePacket, status(0));
    answer(
        encoder,
        Call::InspectPacket,
        Reply::Packet(PacketHeader {
            flags,
            ..header(pts)
        }),
    );
    answer(
        encoder,
        Call::CopyPacket { size: 3 },
        Reply::Bytes(vec![0, 0, 1]),
    );
    answer(encoder, Call::DrainPacket, status(AGAIN));
}

fn encode(encoder: &mut VaapiHostEncoder, pts: i64, force: bool, intra: bool) -> EncodedPacket {
    encoder.encode(&[0; 16], 8, pts, force).expect("valid");
    upload(encoder, pts);
    receive(encoder, pts, intra, i32::from(intra));
    assert_eq!(encoder.call(), None);
    encoder.finish().expect("encoded")
}

fn planes() -> [DrmPrimePlane; 2] {
    [
        DrmPrimePlane {
            fd: 5,
            offset: 0,
            stride: 64,
        },
        DrmPrimePlane {
            fd: 6,
            offset: 4_096,
            stride: 32,
        },
    ]
}

fn frame(planes: &[DrmPrimePlane]) -> DrmPrimeFrame<'_> {
    DrmPrimeFrame {
        width: 2,
        height: 2,
        fourcc: u32::from_le_bytes(*b"AR24"),
        modifier: 9,
        planes,
    }
}

fn map(encoder: &mut VaapiHostEncoder, pts: i64) {
    encoder
        .encode_dmabuf(frame(&planes()), pts, false)
        .expect("valid");
    answer(encoder, Call::AllocateDescriptor, Reply::Pointer(true));
    answer(encoder, Call::DuplicatePlane { fd: 5 }, duplicate(15));
    answer(encoder, Call::DuplicatePlane { fd: 6 }, duplicate(16));
    let wrap = Call::WrapDescriptor {
        format: PixelFormat::DrmPrime,
        width: 2,
        height: 2,
        pts,
    };
    answer(encoder, wrap, Reply::Pointer(true));
    answer(encoder, Call::RetainFrames, Reply::Pointer(true));
    answer(encoder, Call::MapFrame, status(0));
}

fn failure(encoder: &mut VaapiHostEncoder, kind: VaapiErrorKind) -> String {
    assert_eq!(encoder.call(), None);
    assert!(encoder.finished());
    let error: VaapiError = encoder.finish().expect_err("must fail");
    assert_eq!(error.kind(), kind);
    error.message()
}

#[test]
fn a_host_frame_gives_one_packet() {
    let mut encoder = host(periodic(60));
    assert_eq!(
        encode(&mut encoder, 42, false, true),
        EncodedPacket {
            annex_b: vec![0, 0, 1],
            keyframe: true,
            pts: 42,
            input_released: true,
        }
    );
    assert!(encoder.ready());
}

#[test]
fn keyframes_come_on_request_and_periodically() {
    let mut encoder = host(periodic(2));
    let intra: Vec<bool> = [
        (false, true),
        (false, false),
        (false, false),
        (false, true),
        (false, false),
        (true, true),
        (false, false),
        (false, false),
        (false, true),
    ]
    .iter()
    .enumerate()
    .map(|(pts, (force, intra))| encode(&mut encoder, pts as i64, *force, *intra).keyframe)
    .collect();
    assert_eq!(
        intra,
        [true, false, false, true, false, true, false, false, true]
    );
}

#[test]
fn the_all_intra_policy_asks_for_keyframes_only() {
    let mut encoder = host(H264Gop::AllIntra);
    for pts in 0..4 {
        assert!(encode(&mut encoder, pts, false, true).keyframe);
    }
}

#[test]
fn an_ignored_keyframe_request_is_repeated() {
    let mut encoder = host(periodic(60));
    for pts in 0..3 {
        encoder.encode(&[0; 16], 8, pts, false).expect("valid");
        upload(&mut encoder, pts);
        receive(&mut encoder, pts, true, 0);
        assert!(!encoder.finish().expect("encoded").keyframe);
    }
}

#[test]
fn host_rows_are_copied_into_the_native_buffer() {
    let mut encoder = host(H264Gop::AllIntra);
    let pixels: Vec<u8> = (0..24).collect();
    encoder.encode(&pixels, 12, 0, false).expect("valid");
    encoder.advance(status(0));
    encoder.advance(status(0));
    encoder.advance(Reply::Linesize(10));
    assert_eq!(encoder.host_buffer_length(), 18);
    let mut buffer = vec![0xff; 18];
    encoder.copy_host_rows(&pixels, &mut buffer);
    assert_eq!(
        buffer,
        [0, 1, 2, 3, 4, 5, 6, 7, 0xff, 0xff, 12, 13, 14, 15, 16, 17, 18, 19]
    );
}

#[test]
fn frames_of_the_other_mode_are_rejected() {
    let mut encoder = host(H264Gop::AllIntra);
    let error = encoder
        .encode_dmabuf(frame(&planes()), 0, false)
        .expect_err("host input");
    assert_eq!(error.kind(), VaapiErrorKind::InvalidConfiguration);
    assert_eq!(
        error.message(),
        "validate DRM-PRIME frame: encoder was opened for host input"
    );
    let mut encoder = import(H264Gop::AllIntra);
    let error = encoder
        .encode(&[0; 16], 8, 0, false)
        .expect_err("imported input");
    assert_eq!(error.kind(), VaapiErrorKind::InvalidConfiguration);
    assert_eq!(
        error.message(),
        "validate host frame: encoder was opened for DRM-PRIME input"
    );
    assert!(encoder.ready());
}

#[test]
fn frames_of_the_wrong_shape_are_rejected() {
    let mut encoder = host(H264Gop::AllIntra);
    assert_eq!(
        encoder
            .encode(&[0; 15], 8, 0, false)
            .expect_err("too short")
            .detail(),
        "frame bytes do not match dimensions and stride"
    );
    assert_eq!(
        encoder
            .encode(&[0; 16], usize::MAX, 0, false)
            .expect_err("overflow")
            .detail(),
        "frame byte size overflowed"
    );
    assert!(encoder.ready());
    let mut encoder = import(H264Gop::AllIntra);
    assert_eq!(
        encoder
            .encode_dmabuf(frame(&[]), 0, false)
            .expect_err("no planes")
            .detail(),
        "dimensions, format, plane count, or stride are invalid"
    );
    assert!(encoder.ready());
}

#[test]
fn failed_uploads_are_reported() {
    let steps = [
        (status(0), status(-5), "allocate host-frame buffer: FFmpeg error -5"),
        (
            status(0),
            status(-5),
            "make host-frame buffer writable: FFmpeg error -5",
        ),
        (
            Reply::Linesize(8),
            Reply::Linesize(-8),
            "copy host frame: FFmpeg returned a negative destination stride",
        ),
        (Reply::Done, Reply::Done, ""),
        (status(0), status(-5), "upload host frame: FFmpeg error -5"),
        (
            status(0),
            status(-5),
            "receive converted VA-API frame: FFmpeg error -5",
        ),
        (status(0), status(-5), "submit VA-API frame: FFmpeg error -5"),
        (status(0), status(-5), "receive VA-API packet: FFmpeg error -5"),
    ];
    for failed in 0..steps.len() {
        if steps[failed].2.is_empty() {
            continue;
        }
        let mut encoder = host(H264Gop::AllIntra);
        encoder.encode(&[0; 16], 8, 0, false).expect("valid");
        for (good, _, _) in steps.iter().take(failed) {
            encoder.advance(good.clone());
        }
        encoder.advance(steps[failed].1.clone());
        assert_eq!(
            failure(&mut encoder, VaapiErrorKind::EncodeFailed),
            steps[failed].2
        );
        assert!(encoder.ready());
    }
}

fn at_packet(encoder: &mut VaapiHostEncoder) {
    encoder.encode(&[0; 16], 8, 7, false).expect("valid");
    upload(encoder, 7);
    encoder.advance(status(0));
    encoder.advance(status(0));
}

#[test]
fn a_missing_packet_is_reported() {
    let mut encoder = host(H264Gop::AllIntra);
    at_packet(&mut encoder);
    answer(&mut encoder, Call::ReceivePacket, status(AGAIN));
    assert_eq!(
        failure(&mut encoder, VaapiErrorKind::EncodeFailed),
        "receive VA-API packet: low-latency encoder produced no packet for the submitted frame"
    );
}

#[test]
fn packets_that_are_not_owed_are_reported() {
    let cases = [
        (header(8), "packet PTS does not match the submitted frame"),
        (
            PacketHeader {
                size: -1,
                ..header(7)
            },
            "packet size is negative",
        ),
        (
            PacketHeader {
                size: 0,
                ..header(7)
            },
            "encoder returned an empty packet",
        ),
        (
            PacketHeader {
                present: false,
                ..header(7)
            },
            "encoder returned an empty packet",
        ),
    ];
    for (case, detail) in cases {
        let mut encoder = host(H264Gop::AllIntra);
        at_packet(&mut encoder);
        answer(&mut encoder, Call::ReceivePacket, status(0));
        answer(&mut encoder, Call::InspectPacket, Reply::Packet(case));
        assert_eq!(
            failure(&mut encoder, VaapiErrorKind::InvalidOutput),
            format!("validate VA-API packet: {detail}")
        );
    }
}

#[test]
fn one_frame_must_not_give_two_packets() {
    for (code, expected) in [
        (
            0,
            Err((
                VaapiErrorKind::InvalidOutput,
                "validate VA-API packet count: one submitted frame produced more than one packet",
            )),
        ),
        (
            -5,
            Err((
                VaapiErrorKind::EncodeFailed,
                "drain VA-API encoder: FFmpeg error -5",
            )),
        ),
        (
            1,
            Err((
                VaapiErrorKind::EncodeFailed,
                "drain VA-API encoder: FFmpeg error 1",
            )),
        ),
        (AGAIN, Ok(())),
        (END, Ok(())),
    ] {
        let mut encoder = host(H264Gop::AllIntra);
        at_packet(&mut encoder);
        encoder.advance(status(0));
        encoder.advance(Reply::Packet(header(7)));
        assert!(!encoder.expects(&Reply::Bytes(vec![1, 2])));
        encoder.advance(Reply::Bytes(vec![1, 2, 3]));
        answer(&mut encoder, Call::DrainPacket, status(code));
        match expected {
            Ok(()) => assert_eq!(encoder.finish().expect("encoded").annex_b, [1, 2, 3]),
            Err((kind, message)) => assert_eq!(failure(&mut encoder, kind), message),
        }
    }
}

#[test]
fn an_imported_frame_gives_one_packet_after_its_release() {
    let mut encoder = import(periodic(60));
    map(&mut encoder, 3);
    receive(&mut encoder, 3, true, 1);
    answer(&mut encoder, Call::ReleaseInput, Reply::Released(true));
    assert_eq!(
        encoder.finish(),
        Ok(EncodedPacket {
            annex_b: vec![0, 0, 1],
            keyframe: true,
            pts: 3,
            input_released: true,
        })
    );
    assert!(encoder.ready());
}

#[test]
fn the_descriptor_describes_the_planes() {
    let mut encoder = import(periodic(60));
    encoder
        .encode_dmabuf(frame(&planes()), 0, false)
        .expect("valid");
    encoder.advance(Reply::Pointer(true));
    encoder.advance(duplicate(15));
    encoder.advance(duplicate(16));
    assert_eq!(encoder.duplicated(), [15, 16]);
    assert_eq!(
        encoder.descriptor_head(),
        DescriptorHead {
            nb_objects: 2,
            nb_layers: 1,
            format: u32::from_le_bytes(*b"AR24"),
            nb_planes: 2,
        }
    );
    assert_eq!(
        encoder.objects(),
        [
            DrmObject {
                fd: 15,
                size: 64 * 32,
                format_modifier: 9,
            },
            DrmObject {
                fd: 16,
                size: 4_096 + 32 * 32,
                format_modifier: 9,
            },
        ]
    );
    assert_eq!(
        encoder.layouts(),
        [
            DrmPlaneLayout {
                object_index: 0,
                offset: 0,
                pitch: 64,
            },
            DrmPlaneLayout {
                object_index: 1,
                offset: 4_096,
                pitch: 32,
            },
        ]
    );
}

#[test]
fn failed_imports_close_their_duplicates() {
    let mut encoder = import(periodic(60));
    encoder
        .encode_dmabuf(frame(&planes()), 0, false)
        .expect("valid");
    answer(&mut encoder, Call::AllocateDescriptor, Reply::Pointer(false));
    assert_eq!(
        failure(&mut encoder, VaapiErrorKind::EncodeFailed),
        "allocate DRM-PRIME descriptor: FFmpeg returned a null allocation"
    );

    encoder
        .encode_dmabuf(frame(&planes()), 0, false)
        .expect("valid");
    encoder.advance(Reply::Pointer(true));
    encoder.advance(duplicate(15));
    encoder.advance(duplicate(-1));
    assert_eq!(encoder.duplicated(), [15]);
    answer(&mut encoder, Call::Discard, Reply::Done);
    assert_eq!(
        failure(&mut encoder, VaapiErrorKind::EncodeFailed),
        "duplicate DRM-PRIME file descriptor: Too many open files"
    );

    encoder
        .encode_dmabuf(frame(&planes()), 0, false)
        .expect("valid");
    encoder.advance(Reply::Pointer(true));
    encoder.advance(duplicate(15));
    encoder.advance(duplicate(16));
    encoder.advance(Reply::Pointer(false));
    assert_eq!(encoder.duplicated(), [15, 16]);
    answer(&mut encoder, Call::Discard, Reply::Done);
    assert_eq!(
        failure(&mut encoder, VaapiErrorKind::EncodeFailed),
        "wrap DRM-PRIME descriptor: FFmpeg returned a null buffer reference"
    );
    assert!(encoder.ready());
}

#[test]
fn wrapped_frames_are_dropped_on_failure() {
    let mut encoder = import(periodic(60));
    for (replies, message) in [
        (
            vec![Reply::Pointer(false)],
            "wrap DRM-PRIME frame: FFmpeg could not retain the DRM frames context",
        ),
        (
            vec![Reply::Pointer(true), status(-5)],
            "map DRM-PRIME frame: FFmpeg error -5",
        ),
    ] {
        encoder
            .encode_dmabuf(frame(&planes()), 0, false)
            .expect("valid");
        encoder.advance(Reply::Pointer(true));
        encoder.advance(duplicate(15));
        encoder.advance(duplicate(16));
        encoder.advance(Reply::Pointer(true));
        for reply in replies {
            encoder.advance(reply);
        }
        answer(&mut encoder, Call::DropFrame, Reply::Done);
        assert_eq!(failure(&mut encoder, VaapiErrorKind::EncodeFailed), message);
        assert!(encoder.ready());
    }
}

#[test]
fn a_failed_receipt_still_releases_the_import() {
    let mut encoder = import(periodic(60));
    map(&mut encoder, 0);
    answer(&mut encoder, Call::ReceiveFiltered, status(-5));
    answer(&mut encoder, Call::ReleaseInput, Reply::Released(true));
    assert_eq!(
        failure(&mut encoder, VaapiErrorKind::EncodeFailed),
        "receive converted VA-API frame: FFmpeg error -5"
    );
    assert!(encoder.ready());
}

#[test]
fn a_retained_import_retires_the_encoder() {
    for (released, message) in [
        (
            true,
            "release DRM-PRIME frame: FFmpeg retained the imported frame beyond one converted output",
        ),
        (
            false,
            "release DRM-PRIME frame: FFmpeg did not release the imported frame when its graph was destroyed",
        ),
    ] {
        let mut encoder = import(periodic(60));
        map(&mut encoder, 0);
        receive(&mut encoder, 0, true, 1);
        answer(&mut encoder, Call::ReleaseInput, Reply::Released(false));
        answer(&mut encoder, Call::DestroyGraph, Reply::Released(released));
        assert_eq!(failure(&mut encoder, VaapiErrorKind::EncodeFailed), message);
        assert!(!encoder.ready());
        assert!(encoder.idle());
        assert!(encoder.graph_lost());
        assert_eq!(
            encoder
                .encode_dmabuf(frame(&[]), 1, false)
                .expect_err("no planes")
                .detail(),
            "dimensions, format, plane count, or stride are invalid"
        );
        assert_eq!(
            encoder
                .encode(&[0; 16], 8, 1, false)
                .expect_err("imported input")
                .detail(),
            "encoder was opened for DRM-PRIME input"
        );
        assert!(encoder.idle());
    }
}

#[test]
fn native_codes_hold_the_systems_again() {
    let codes = NativeCodes::native(END, 1);
    assert_eq!(codes.again, -libc::EAGAIN);
    assert_eq!(codes.end_of_file, END);
    assert_eq!(codes.key_flag, 1);
}
