use pixelflux::decoder::{
    decoded_luma, validate_access_unit, LumaFormat, LumaPlane, MAX_ENCODED_BYTES,
};
use pixelflux::status::Status;
use pixelflux::stream::{decode_h264_luma_with, CodecId, DecoderCall, DecoderReply};
use pixelflux::{decode_h264_luma, DecodedFrame, H264StreamDecoder};

const AGAIN: i32 = -11;

fn status(code: i32) -> DecoderReply {
    DecoderReply::Status(Status {
        code,
        description: None,
    })
}

fn answer(decoder: &mut H264StreamDecoder, call: DecoderCall, reply: DecoderReply) {
    assert_eq!(decoder.call(), Some(call));
    assert!(decoder.expects(&reply));
    decoder.advance(reply);
}

fn open(decoder: &mut H264StreamDecoder) {
    answer(decoder, DecoderCall::FindDecoder { codec: CodecId::H264 }, DecoderReply::Found(true));
    answer(
        decoder,
        DecoderCall::AllocateObjects,
        DecoderReply::Allocated {
            context: true,
            packet: true,
            frame: true,
        },
    );
    answer(decoder, DecoderCall::OpenCodec { thread_count: 1 }, status(0));
}

fn opened() -> H264StreamDecoder {
    let mut decoder = H264StreamDecoder::open_with(AGAIN);
    open(&mut decoder);
    assert!(decoder.ready());
    decoder
}

fn plane() -> LumaPlane {
    LumaPlane {
        width: 2,
        height: 2,
        stride: 4,
        format: LumaFormat::Yuv420p,
        present: true,
    }
}

fn failure(decoder: &mut H264StreamDecoder) -> String {
    assert_eq!(decoder.call(), None);
    assert!(decoder.finished());
    decoder.finish().expect_err("must fail").message()
}

#[test]
fn empty_access_unit_is_rejected_without_opening_a_decoder() {
    assert!(decode_h264_luma(&[]).is_err());
}

#[test]
fn stream_decoder_rejects_an_empty_access_unit() {
    let mut decoder = H264StreamDecoder::open();
    open(&mut decoder);
    assert!(decoder.ready(), "software decoder");
    assert!(decoder.decode(&[]).is_err());
    assert!(decoder.ready());
}

#[test]
fn access_units_are_bounded() {
    assert_eq!(validate_access_unit(&[0]), Ok(()));
    let mut largest = vec![0; MAX_ENCODED_BYTES];
    assert_eq!(validate_access_unit(&largest), Ok(()));
    largest.push(0);
    assert_eq!(
        validate_access_unit(&largest)
            .expect_err("too large")
            .message(),
        "validate H.264 access unit: payload is empty or exceeds the decoder bound"
    );
    assert!(decode_h264_luma(&largest).is_err());
}

#[test]
fn a_single_access_unit_is_decoded_with_a_fresh_context() {
    let mut decoder = decode_h264_luma_with(&[0, 0, 1], AGAIN).expect("bounded");
    assert!(!decoder.ready());
    open(&mut decoder);
    answer(&mut decoder, DecoderCall::AllocatePacket { size: 3 }, status(0));
    answer(&mut decoder, DecoderCall::SubmitPacket, status(0));
    answer(&mut decoder, DecoderCall::ReceiveFrame, status(AGAIN));
    answer(&mut decoder, DecoderCall::Flush, status(0));
    answer(&mut decoder, DecoderCall::ReceiveFrame, status(0));
    assert_eq!(decoder.call(), Some(DecoderCall::ReadLuma));
    decoder.read_luma(plane(), &[1, 2, 99, 99, 3, 4]);
    assert_eq!(
        decoder.finish(),
        Ok(DecodedFrame {
            width: 2,
            height: 2,
            luma_sum: 10,
            luma_samples: 4,
        })
    );
    assert!(!decoder.ready());
    assert_eq!(decoder.call(), None);
}

#[test]
fn a_single_access_unit_is_flushed_once() {
    let mut decoder = decode_h264_luma_with(&[0], AGAIN).expect("bounded");
    open(&mut decoder);
    answer(&mut decoder, DecoderCall::AllocatePacket { size: 1 }, status(0));
    answer(&mut decoder, DecoderCall::SubmitPacket, status(0));
    answer(&mut decoder, DecoderCall::ReceiveFrame, status(AGAIN));
    answer(&mut decoder, DecoderCall::Flush, status(0));
    answer(&mut decoder, DecoderCall::ReceiveFrame, status(AGAIN));
    assert_eq!(
        failure(&mut decoder),
        "receive decoded H.264 frame: decoder produced no frame for the submitted access unit"
    );
}

#[test]
fn a_stream_is_never_flushed_and_goes_on() {
    let mut decoder = opened();
    decoder.decode(&[0]).expect("bounded");
    answer(&mut decoder, DecoderCall::AllocatePacket { size: 1 }, status(0));
    answer(&mut decoder, DecoderCall::SubmitPacket, status(0));
    answer(&mut decoder, DecoderCall::ReceiveFrame, status(AGAIN));
    assert_eq!(
        failure(&mut decoder),
        "receive decoded H.264 frame: decoder produced no frame for the submitted access unit"
    );
    assert!(decoder.ready());
    decoder.decode(&[0, 0]).expect("bounded");
    answer(&mut decoder, DecoderCall::AllocatePacket { size: 2 }, status(0));
    answer(&mut decoder, DecoderCall::SubmitPacket, status(0));
    answer(&mut decoder, DecoderCall::ReceiveFrame, status(0));
    decoder.read_luma(plane(), &[1, 1, 0, 0, 1, 1]);
    assert_eq!(decoder.finish().expect("decoded").luma_sum, 4);
    assert!(decoder.ready());
}

#[test]
fn each_failed_opening_is_reported() {
    let mut decoder = H264StreamDecoder::open_with(AGAIN);
    answer(&mut decoder, DecoderCall::FindDecoder { codec: CodecId::H264 }, DecoderReply::Found(false));
    assert_eq!(
        failure(&mut decoder),
        "find software H.264 decoder: system FFmpeg does not expose an H.264 decoder"
    );
    assert!(!decoder.ready());

    for missing in 0..3 {
        let mut decoder = H264StreamDecoder::open_with(AGAIN);
        answer(&mut decoder, DecoderCall::FindDecoder { codec: CodecId::H264 }, DecoderReply::Found(true));
        answer(
            &mut decoder,
            DecoderCall::AllocateObjects,
            DecoderReply::Allocated {
                context: missing != 0,
                packet: missing != 1,
                frame: missing != 2,
            },
        );
        answer(&mut decoder, DecoderCall::Cleanup, DecoderReply::Done);
        assert_eq!(
            failure(&mut decoder),
            "allocate H.264 decoder: FFmpeg returned a null context, packet, or frame"
        );
    }

    let mut decoder = H264StreamDecoder::open_with(AGAIN);
    answer(&mut decoder, DecoderCall::FindDecoder { codec: CodecId::H264 }, DecoderReply::Found(true));
    answer(
        &mut decoder,
        DecoderCall::AllocateObjects,
        DecoderReply::Allocated {
            context: true,
            packet: true,
            frame: true,
        },
    );
    answer(&mut decoder, DecoderCall::OpenCodec { thread_count: 1 }, status(-22));
    answer(&mut decoder, DecoderCall::Cleanup, DecoderReply::Done);
    assert_eq!(
        failure(&mut decoder),
        "open software H.264 decoder: FFmpeg error -22"
    );
}

#[test]
fn each_failed_decoding_call_is_reported() {
    let calls = [
        (DecoderCall::AllocatePacket { size: 1 }, "allocate decoder packet"),
        (DecoderCall::SubmitPacket, "submit H.264 access unit"),
        (DecoderCall::ReceiveFrame, "receive decoded H.264 frame"),
    ];
    for failed in 0..3 {
        let mut decoder = opened();
        decoder.decode(&[0]).expect("bounded");
        for (call, _) in calls.iter().take(failed) {
            answer(&mut decoder, *call, status(0));
        }
        answer(&mut decoder, calls[failed].0, status(-5));
        assert_eq!(
            failure(&mut decoder),
            format!("{}: FFmpeg error -5", calls[failed].1)
        );
    }
    let mut decoder = decode_h264_luma_with(&[0], AGAIN).expect("bounded");
    open(&mut decoder);
    answer(&mut decoder, DecoderCall::AllocatePacket { size: 1 }, status(0));
    answer(&mut decoder, DecoderCall::SubmitPacket, status(0));
    answer(&mut decoder, DecoderCall::ReceiveFrame, status(AGAIN));
    answer(&mut decoder, DecoderCall::Flush, status(-5));
    assert_eq!(
        failure(&mut decoder),
        "flush software H.264 decoder: FFmpeg error -5"
    );
}

#[test]
fn luma_sums_skip_padding() {
    let data = [255, 255, 7, 7, 255, 255];
    for format in [LumaFormat::Yuv420p, LumaFormat::Yuvj420p, LumaFormat::Nv12] {
        let frame = decoded_luma(LumaPlane { format, ..plane() }, &data).expect("usable");
        assert_eq!(frame.luma_sum, 4 * 255);
        assert_eq!(frame.luma_samples, 4);
    }
    assert_eq!(plane().byte_length(), Some(6));
}

#[test]
fn unusable_planes_are_rejected() {
    let rejected = [
        LumaPlane { width: 0, ..plane() },
        LumaPlane { width: -1, ..plane() },
        LumaPlane { height: 0, ..plane() },
        LumaPlane { stride: 1, ..plane() },
        LumaPlane { present: false, ..plane() },
        LumaPlane {
            format: LumaFormat::Other,
            ..plane()
        },
    ];
    for case in rejected {
        assert_eq!(case.byte_length(), None);
        assert_eq!(
            decoded_luma(case, &[]).expect_err("unusable").message(),
            "validate decoded H.264 frame: decoder returned an unsupported or invalid luma plane"
        );
        let mut decoder = opened();
        decoder.decode(&[0]).expect("bounded");
        for _ in 0..3 {
            decoder.advance(status(0));
        }
        decoder.read_luma(case, &[]);
        assert!(decoder.finish().is_err());
    }
}

#[test]
fn replies_of_another_form_are_not_expected() {
    let decoder = H264StreamDecoder::open_with(AGAIN);
    assert!(decoder.expects(&DecoderReply::Found(false)));
    assert!(!decoder.expects(&DecoderReply::Done));
    assert!(!decoder.expects(&status(0)));
}

#[test]
fn usable_planes_hold_one_luma_byte_per_sample() {
    assert!(plane().is_usable());
    assert!(!LumaPlane {
        stride: 1,
        ..plane()
    }
    .is_usable());
    assert!(!LumaPlane {
        format: LumaFormat::Other,
        ..plane()
    }
    .is_usable());
    assert!(!LumaPlane {
        present: false,
        ..plane()
    }
    .is_usable());
    assert!(!LumaPlane {
        width: 0,
        ..plane()
    }
    .is_usable());
}

#[test]
fn the_packet_holds_the_access_unit() {
    let mut decoder = opened();
    let unit = [0, 0, 1, 0x65, 7];
    decoder.decode(&unit).expect("bounded");
    answer(&mut decoder, DecoderCall::AllocatePacket { size: 5 }, status(0));
    assert_eq!(decoder.call(), Some(DecoderCall::SubmitPacket));
    let mut packet = [0xff; 5];
    decoder.fill_packet(&unit, &mut packet);
    assert_eq!(packet, unit);
}
