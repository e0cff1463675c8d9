//! What holds of every encoder and of every submission.

use vstd::prelude::*;

use crate::status::Status;
use crate::text;
use crate::vaapi::config::{self, H264Gop};
use crate::vaapi::drm::{DrmPrimeFrame, DrmPrimePlane};
use crate::vaapi::error::VaapiErrorView;
use crate::vaapi::host;
use crate::vaapi::opening::{CodecOption, EncoderSettings, NativeName, OpenCall, OpeningView};
use crate::vaapi::protocol::{
    self, Call, EncoderView, NativeCodes, PacketHeader, PacketView, Reply, Stage,
};

verus! {

/// The surfaces of the pool hold the whole picture, in blocks of 16 by 32.
pub proof fn law_surfaces_hold_the_picture(settings: EncoderSettings)
    requires
        settings.wf(),
    ensures
        settings.surface_pool().width % 16 == 0,
        settings.surface_pool().height % 32 == 0,
        settings.width <= settings.surface_pool().width < settings.width + 16,
        settings.height <= settings.surface_pool().height < settings.height + 32,
{
    config::law_valid_frame_is_bounded(settings.width as int, settings.height as int);
    assert(1i32 << 4u32 == 16) by (bit_vector);
    assert(1i32 << 5u32 == 32) by (bit_vector);
    config::law_align_rounds_up(settings.width, 4);
    config::law_align_rounds_up(settings.height, 5);
}

/// The codec is configured without B-frames, as a parameter and as an option, before it is opened.
pub proof fn law_codec_has_no_b_frames(settings: EncoderSettings)
    ensures
        settings.codec_parameters().max_b_frames == 0,
        exists|i: int, j: int, k: int|
            0 <= i < j < k < settings.codec_calls().len() && #[trigger] settings.codec_calls()[i]
                == OpenCall::ConfigureEncoder(settings.codec_parameters())
                && #[trigger] settings.codec_calls()[j] == OpenCall::SetOption(CodecOption::BFrames)
                && #[trigger] settings.codec_calls()[k] == OpenCall::OpenEncoder,
        CodecOption::BFrames.entry().1 == "0",
{
    let calls = settings.codec_calls();
    let last = calls.len() - 1;
    assert(calls[2] == OpenCall::ConfigureEncoder(settings.codec_parameters()));
    assert(calls[4] == OpenCall::SetOption(CodecOption::BFrames));
    assert(calls[last] == OpenCall::OpenEncoder);
}

/// Every text of the opening sequence can be handed to native code as a whole.
pub proof fn law_opening_texts_are_nul_free(
    settings: EncoderSettings,
    option: CodecOption,
    name: NativeName,
)
    ensures
        text::nul_free(settings.source_text()),
        text::nul_free(settings.filter_text()),
        text::nul_free(option.entry().0@),
        text::nul_free(option.entry().1@),
        text::nul_free(name.spelling()@),
{
    text::law_decimals_are_nul_free(settings.width as int);
    text::law_decimals_are_nul_free(settings.height as int);
    text::law_decimals_are_nul_free(settings.refresh_hz as int);
    reveal_strlit("video_size=");
    reveal_strlit("x");
    reveal_strlit(":time_base=1/");
    reveal_strlit(":pixel_aspect=1/1");
    reveal_strlit("hwupload");
    reveal_strlit("hwmap");
    reveal_strlit(",scale_vaapi=w=");
    reveal_strlit(":h=");
    reveal_strlit(":format=nv12:out_color_matrix=bt709:out_range=tv");
    reveal_strlit("aud");
    reveal_strlit("bf");
    reveal_strlit("profile");
    reveal_strlit("high");
    reveal_strlit("level");
    reveal_strlit("4.1");
    reveal_strlit("g");
    reveal_strlit("idr_interval");
    reveal_strlit("async_depth");
    reveal_strlit("h264_vaapi");
    reveal_strlit("buffer");
    reveal_strlit("buffersink");
    reveal_strlit("in");
    reveal_strlit("out");
    reveal_strlit("0");
    reveal_strlit("1");
}

/// What an encoder was opened with never changes.
pub proof fn law_settings_are_kept(encoder: EncoderView, reply: Reply)
    ensures
        encoder.next(reply).settings == encoder.settings,
        encoder.next(reply).device == encoder.device,
        encoder.next(reply).codes == encoder.codes,
        encoder.next(reply).opening == encoder.opening,
{
}

/// What was submitted is kept up to the end of its submission.
pub proof fn law_submitted_frame_is_kept(encoder: EncoderView, reply: Reply)
    ensures
        encoder.next(reply).job.pts == encoder.job.pts,
        encoder.next(reply).job.force_keyframe == encoder.job.force_keyframe,
        encoder.next(reply).job.pixels == encoder.job.pixels,
        encoder.next(reply).job.stride == encoder.job.stride,
        encoder.next(reply).job.fourcc == encoder.job.fourcc,
        encoder.next(reply).job.modifier == encoder.job.modifier,
        encoder.next(reply).job.planes == encoder.job.planes,
{
}

/// The first frame of an encoder is submitted as a keyframe, whether or not one was requested.
pub proof fn law_first_frame_is_a_keyframe(
    settings: EncoderSettings,
    device: Seq<u8>,
    codes: NativeCodes,
    opening: OpeningView,
    frame: DrmPrimeFrame,
    pixels: Seq<u8>,
    stride: usize,
    pts: i64,
    force_keyframe: bool,
)
    ensures
        ({
            let opened = EncoderView { opening, ..EncoderView::initial(settings, device, codes) };
            &&& opened.submitting_host(pixels, stride, pts, force_keyframe).intra()
            &&& opened.submitting_import(frame, pts, force_keyframe).intra()
        }),
{
}

/// With the all-intra policy every frame is submitted as a keyframe.
pub proof fn law_all_intra_submits_keyframes(encoder: EncoderView)
    requires
        encoder.settings.gop is AllIntra,
    ensures
        encoder.intra(),
{
}

/// A frame for which a keyframe was requested is submitted as one.
pub proof fn law_requested_keyframe_is_submitted(encoder: EncoderView)
    requires
        encoder.job.force_keyframe,
    ensures
        encoder.intra(),
{
}

/// The encoder after these replies, one by one.
pub open spec fn after_replies(encoder: EncoderView, replies: Seq<Reply>) -> EncoderView
    decreases replies.len(),
{
    if replies.len() == 0 {
        encoder
    } else {
        after_replies(encoder, replies.drop_last()).next(replies.last())
    }
}

/// Whether each of these replies has the form that the call before it is answered in.
pub open spec fn replies_expected(encoder: EncoderView, replies: Seq<Reply>) -> bool
    decreases replies.len(),
{
    replies.len() == 0 || {
        &&& replies_expected(encoder, replies.drop_last())
        &&& after_replies(encoder, replies.drop_last()).expects(replies.last())
    }
}

/// Whether a submission has not reached the codec yet.
pub open spec fn before_codec(encoder: EncoderView) -> bool {
    match encoder.stage {
        Stage::AllocateHostFrame => true,
        Stage::MakeHostFrameWritable => true,
        Stage::ReadLinesize => true,
        Stage::CopyHostRows { .. } => true,
        Stage::UploadHostFrame => true,
        Stage::AllocateDescriptor => true,
        Stage::DuplicatePlane { .. } => true,
        Stage::WrapDescriptor => true,
        Stage::RetainFrames => true,
        Stage::MapFrame => true,
        Stage::ReceiveFiltered => true,
        Stage::SendFiltered => true,
        _ => false,
    }
}

/// What the codec is told of a frame is settled when its submission starts: the timestamp, and
/// whether the frame is to be a keyframe.
pub proof fn law_codec_is_told_what_was_submitted(encoder: EncoderView, replies: Seq<Reply>)
    requires
        encoder.wf(),
        encoder.stage is AllocateHostFrame || encoder.stage is AllocateDescriptor,
        replies_expected(encoder, replies),
        after_replies(encoder, replies).stage is SendFiltered,
    ensures
        after_replies(encoder, replies).call() == Some(
            Call::SendFiltered { intra: encoder.intra(), pts: encoder.job.pts },
        ),
{
    lemma_frame_is_kept_up_to_the_codec(encoder, replies);
}

proof fn lemma_frame_is_kept_up_to_the_codec(encoder: EncoderView, replies: Seq<Reply>)
    requires
        encoder.wf(),
        before_codec(encoder),
        replies_expected(encoder, replies),
    ensures
        after_replies(encoder, replies).wf(),
        before_codec(after_replies(encoder, replies)) ==> {
            &&& after_replies(encoder, replies).intra() == encoder.intra()
            &&& after_replies(encoder, replies).job.pts == encoder.job.pts
        },
    decreases replies.len(),
{
    if replies.len() > 0 {
        lemma_frame_is_kept_up_to_the_codec(encoder, replies.drop_last());
        lemma_frame_is_kept(after_replies(encoder, replies.drop_last()), replies.last());
    }
}

proof fn lemma_frame_is_kept(encoder: EncoderView, reply: Reply)
    requires
        encoder.wf(),
        encoder.expects(reply),
    ensures
        encoder.next(reply).wf(),
        before_codec(encoder.next(reply)) ==> {
            &&& before_codec(encoder)
            &&& encoder.next(reply).intra() == encoder.intra()
            &&& encoder.next(reply).job.pts == encoder.job.pts
        },
{
    protocol::law_encoder_stays_wf(encoder, reply);
}

/// With the periodic policy, a frame for which no keyframe was requested is submitted as one
/// exactly when the period has passed since the last keyframe packet.
pub proof fn law_periodic_keyframes(encoder: EncoderView, interval: u32)
    requires
        encoder.settings.gop == (H264Gop::LowLatency { keyframe_interval_frames: interval }),
        !encoder.job.force_keyframe,
    ensures
        encoder.intra() <==> encoder.frames_since_keyframe >= interval,
{
}

/// While the codec gives a keyframe whenever one is submitted, no more packets than the period
/// ever come between two keyframes.
pub proof fn law_keyframes_are_periodic(encoder: EncoderView, reply: Reply)
    requires
        encoder.wf(),
        encoder.expects(reply),
        encoder.frames_since_keyframe <= encoder.settings.gop.interval(),
        encoder.stage matches Stage::CopyPacket { keyframe, .. } ==> (encoder.intra() ==> keyframe),
    ensures
        encoder.next(reply).frames_since_keyframe <= encoder.settings.gop.interval(),
{
}

/// Only a received packet changes how long ago the last keyframe was: a keyframe starts the count
/// again, and any other packet adds one to it.
pub proof fn law_only_packets_count(encoder: EncoderView, reply: Reply)
    requires
        encoder.wf(),
        encoder.expects(reply),
    ensures
        encoder.next(reply).frames_since_keyframe == match encoder.stage {
            Stage::CopyPacket { keyframe, .. } => if keyframe {
                0
            } else if encoder.frames_since_keyframe < u32::MAX {
                encoder.frames_since_keyframe + 1
            } else {
                u32::MAX as int
            },
            _ => encoder.frames_since_keyframe as int,
        },
{
}

/// The encoder after the replies to the calls that hand a CPU frame to the codec.
#[verifier::opaque]
pub open spec fn host_submitted(
    encoder: EncoderView,
    allocated: Status,
    writable: Status,
    linesize: i32,
    uploaded: Status,
    converted: Status,
    sent: Status,
) -> EncoderView {
    encoder.next(Reply::Status(allocated)).next(Reply::Status(writable)).next(
        Reply::Linesize(linesize),
    ).next(Reply::Done).next(Reply::Status(uploaded)).next(Reply::Status(converted)).next(
        Reply::Status(sent),
    )
}

/// A CPU frame reaches the codec exactly when its native buffer was allocated, was writable and
/// could take the rows, and the filter graph took and converted it. Otherwise the submission is
/// over.
pub proof fn law_host_frame_reaches_the_codec(
    encoder: EncoderView,
    allocated: Status,
    writable: Status,
    linesize: i32,
    uploaded: Status,
    converted: Status,
    sent: Status,
)
    requires
        encoder.wf(),
        encoder.stage is AllocateHostFrame,
    ensures
        ({
            let last = host_submitted(
                encoder,
                allocated,
                writable,
                linesize,
                uploaded,
                converted,
                sent,
            );
            let taken = {
                &&& !allocated.failed()
                &&& !writable.failed()
                &&& host::destination_usable(
                    linesize,
                    encoder.settings.height,
                    encoder.settings.row_bytes() as usize,
                )
                &&& !uploaded.failed()
                &&& !converted.failed()
                &&& !sent.failed()
            };
            &&& taken ==> last == encoder.at(Stage::ReceivePacket)
            &&& !taken ==> last.stage is Finished && last.outcome() is Err
        }),
{
    reveal(host_submitted);
}

/// The encoder after the replies to the calls that hand a described import to the codec.
#[verifier::opaque]
pub open spec fn import_submitted(
    encoder: EncoderView,
    wrapped: bool,
    retained: bool,
    mapped: Status,
    converted: Status,
    sent: Status,
) -> EncoderView {
    encoder.next(Reply::Pointer(wrapped)).next(Reply::Pointer(retained)).next(
        Reply::Status(mapped),
    ).next(Reply::Status(converted)).next(Reply::Status(sent))
}

/// An imported frame whose planes are described reaches the codec exactly when it was wrapped with
/// the frames context and the filter graph mapped and converted it. Otherwise the submission has
/// failed, and what was imported is given up.
pub proof fn law_import_reaches_the_codec(
    encoder: EncoderView,
    wrapped: bool,
    retained: bool,
    mapped: Status,
    converted: Status,
    sent: Status,
)
    requires
        encoder.wf(),
        encoder.stage is WrapDescriptor,
    ensures
        ({
            let last = import_submitted(encoder, wrapped, retained, mapped, converted, sent);
            let taken = {
                &&& wrapped
                &&& retained
                &&& !mapped.failed()
                &&& !converted.failed()
                &&& !sent.failed()
            };
            &&& taken ==> last == encoder.at(Stage::ReceivePacket)
            &&& !taken ==> {
                &&& last.job.failure is Some
                &&& last.stage is Discard || last.stage is DropFrame || last.stage is ReleaseInput
            }
        }),
{
    reveal(import_submitted);
}

/// The encoder after it was told of these duplicated descriptors, one by one.
pub open spec fn after_duplicates(encoder: EncoderView, fds: Seq<i32>, os_error: String) -> EncoderView
    decreases fds.len(),
{
    if fds.len() == 0 {
        encoder
    } else {
        after_duplicates(
            encoder.next(Reply::Duplicate { fd: fds[0], os_error }),
            fds.drop_first(),
            os_error,
        )
    }
}

/// Whether these descriptors were all duplicated, and the planes from `index` on that they belong
/// to all fit the machine.
pub open spec fn describable(
    planes: Seq<DrmPrimePlane>,
    index: int,
    fds: Seq<i32>,
    height: int,
) -> bool {
    forall|i: int|
        0 <= i < fds.len() ==> #[trigger] fds[i] >= 0 && planes[index + i].fits(height)
}

proof fn lemma_describable_one_by_one(
    planes: Seq<DrmPrimePlane>,
    index: int,
    fds: Seq<i32>,
    height: int,
)
    requires
        fds.len() > 0,
    ensures
        describable(planes, index, fds, height) <==> {
            &&& fds[0] >= 0
            &&& planes[index].fits(height)
            &&& describable(planes, index + 1, fds.drop_first(), height)
        },
{
    let rest = fds.drop_first();
    if describable(planes, index, fds, height) {
        assert(fds[0] >= 0);
        assert(planes[index + 0].fits(height));
        assert forall|i: int| 0 <= i < rest.len() implies #[trigger] rest[i] >= 0 && planes[index + 1
            + i].fits(height) by {
            assert(fds[i + 1] >= 0);
            assert(planes[index + (i + 1)].fits(height));
        }
    }
    if fds[0] >= 0 && planes[index].fits(height) && describable(planes, index + 1, rest, height) {
        assert forall|i: int| 0 <= i < fds.len() implies #[trigger] fds[i] >= 0 && planes[index
            + i].fits(height) by {
            if i > 0 {
                assert(rest[i - 1] >= 0);
                assert(planes[index + 1 + (i - 1)].fits(height));
            }
        }
    }
}

/// The planes of an imported frame are described exactly when every descriptor was duplicated and
/// every plane fits the machine; then all the duplicates are listed, in order. Otherwise the
/// descriptor is discarded.
pub proof fn law_planes_are_described_together(
    encoder: EncoderView,
    index: usize,
    fds: Seq<i32>,
    os_error: String,
)
    requires
        encoder.wf(),
        encoder.stage == (Stage::DuplicatePlane { index }),
        fds.len() == encoder.job.planes.len() - index,
    ensures
        ({
            let last = after_duplicates(encoder, fds, os_error);
            let described = describable(
                encoder.job.planes,
                index as int,
                fds,
                encoder.settings.object_height(),
            );
            &&& last.stage is WrapDescriptor <==> described
            &&& described ==> last.job.fds == encoder.job.fds + fds
            &&& !described ==> last.stage is Discard && last.job.failure is Some
        }),
    decreases fds.len(),
{
    let height = encoder.settings.object_height();
    let first = encoder.next(Reply::Duplicate { fd: fds[0], os_error });
    let rest = fds.drop_first();
    lemma_describable_one_by_one(encoder.job.planes, index as int, fds, height);
    protocol::law_encoder_stays_wf(encoder, Reply::Duplicate { fd: fds[0], os_error });
    assert(after_duplicates(encoder, fds, os_error) == after_duplicates(first, rest, os_error));
    if !(fds[0] >= 0 && encoder.job.planes[index as int].fits(height)) {
        lemma_discarding_ignores_duplicates(first, rest, os_error);
    } else if fds.len() == 1 {
        assert(after_duplicates(first, rest, os_error) == first);
        assert(first.job.fds =~= encoder.job.fds + fds);
    } else {
        law_planes_are_described_together(first, (index + 1) as usize, rest, os_error);
        assert(encoder.job.fds.push(fds[0]) + rest =~= encoder.job.fds + fds);
    }
}

proof fn lemma_discarding_ignores_duplicates(encoder: EncoderView, fds: Seq<i32>, os_error: String)
    requires
        encoder.stage is Discard,
    ensures
        after_duplicates(encoder, fds, os_error) == encoder,
    decreases fds.len(),
{
    if fds.len() > 0 {
        lemma_discarding_ignores_duplicates(encoder, fds.drop_first(), os_error);
    }
}

/// Whether the codec hands out exactly the one packet that it owes for the submitted frame.
pub open spec fn packet_received(
    encoder: EncoderView,
    receive: Status,
    header: PacketHeader,
    drain: Status,
) -> bool {
    &&& receive.code != encoder.codes.again
    &&& receive.code >= 0
    &&& header.pts == encoder.job.pts
    &&& header.size > 0
    &&& header.present
    &&& drain.code != 0
    &&& drain.code == encoder.codes.again || drain.code == encoder.codes.end_of_file
}

/// The encoder after the replies to the calls that take the packet of a submitted frame.
#[verifier::opaque]
pub open spec fn received(
    encoder: EncoderView,
    receive: Status,
    header: PacketHeader,
    bytes: Vec<u8>,
    drain: Status,
) -> EncoderView {
    encoder.next(Reply::Status(receive)).next(Reply::Packet(header)).next(
        Reply::Bytes(bytes),
    ).next(Reply::Status(drain))
}

/// A packet is kept for a submitted frame exactly when the codec hands out one, with the timestamp
/// of the frame and some bytes, and then has no other.
pub proof fn law_one_packet_per_frame(
    encoder: EncoderView,
    receive: Status,
    header: PacketHeader,
    bytes: Vec<u8>,
    drain: Status,
)
    requires
        encoder.stage is ReceivePacket,
        encoder.job.failure is None,
    ensures
        ({
            let last = received(encoder, receive, header, bytes, drain);
            let owed = packet_received(encoder, receive, header, drain);
            &&& last.stage == encoder.after_receipt()
            &&& last.job.failure is None <==> owed
            &&& last.job.packet == if owed {
                Some(
                    PacketView {
                        annex_b: bytes@,
                        keyframe: header.flags & encoder.codes.key_flag != 0,
                        pts: encoder.job.pts,
                        input_released: encoder.settings.input_mode is Host,
                    },
                )
            } else {
                None
            }
        }),
{
    reveal(received);
}

/// The submission of a CPU frame succeeds exactly when every native call does and the codec hands
/// out the one packet that it owes; the result is that packet.
pub proof fn law_host_submission_outcome(
    encoder: EncoderView,
    allocated: Status,
    writable: Status,
    linesize: i32,
    uploaded: Status,
    converted: Status,
    sent: Status,
    receive: Status,
    header: PacketHeader,
    bytes: Vec<u8>,
    drain: Status,
)
    requires
        encoder.wf(),
        encoder.stage is AllocateHostFrame,
    ensures
        ({
            let submitted = host_submitted(
                encoder,
                allocated,
                writable,
                linesize,
                uploaded,
                converted,
                sent,
            );
            let last = received(submitted, receive, header, bytes, drain);
            let succeeds = {
                &&& !allocated.failed()
                &&& !writable.failed()
                &&& host::destination_usable(
                    linesize,
                    encoder.settings.height,
                    encoder.settings.row_bytes() as usize,
                )
                &&& !uploaded.failed()
                &&& !converted.failed()
                &&& !sent.failed()
                &&& packet_received(encoder, receive, header, drain)
            };
            &&& last.stage is Finished
            &&& last.outcome() is Ok <==> succeeds
            &&& succeeds ==> last.outcome() == Ok::<PacketView, VaapiErrorView>(
                PacketView {
                    annex_b: bytes@,
                    keyframe: header.flags & encoder.codes.key_flag != 0,
                    pts: encoder.job.pts,
                    input_released: true,
                },
            )
        }),
{
    law_host_frame_reaches_the_codec(
        encoder,
        allocated,
        writable,
        linesize,
        uploaded,
        converted,
        sent,
    );
    let submitted = host_submitted(
        encoder,
        allocated,
        writable,
        linesize,
        uploaded,
        converted,
        sent,
    );
    if submitted.stage is Finished {
        reveal(received);
    } else {
        law_one_packet_per_frame(submitted, receive, header, bytes, drain);
    }
}

/// The submission of an imported frame whose planes are described succeeds exactly when every
/// native call does, the codec hands out the one packet that it owes, and the native side then
/// lets the frame go; the result is that packet.
pub proof fn law_import_submission_outcome(
    encoder: EncoderView,
    wrapped: bool,
    retained: bool,
    mapped: Status,
    converted: Status,
    sent: Status,
    receive: Status,
    header: PacketHeader,
    bytes: Vec<u8>,
    drain: Status,
    released: bool,
)
    requires
        encoder.wf(),
        encoder.stage is WrapDescriptor,
    ensures
        ({
            let submitted = import_submitted(encoder, wrapped, retained, mapped, converted, sent);
            let last = received(submitted, receive, header, bytes, drain).next(
                Reply::Released(released),
            );
            let succeeds = {
                &&& wrapped
                &&& retained
                &&& !mapped.failed()
                &&& !converted.failed()
                &&& !sent.failed()
                &&& packet_received(encoder, receive, header, drain)
                &&& released
            };
            &&& last.stage is Finished && last.outcome() is Ok <==> succeeds
            &&& succeeds ==> last.outcome() == Ok::<PacketView, VaapiErrorView>(
                PacketView {
                    annex_b: bytes@,
                    keyframe: header.flags & encoder.codes.key_flag != 0,
                    pts: encoder.job.pts,
                    input_released: true,
                },
            )
        }),
{
    let submitted = import_submitted(encoder, wrapped, retained, mapped, converted, sent);
    law_import_reaches_the_codec(encoder, wrapped, retained, mapped, converted, sent);
    if submitted.job.failure is Some {
        lemma_failed_import_stays_failed(submitted, receive, header, bytes, drain, released);
    } else {
        lemma_import_receipt(submitted, receive, header, bytes, drain, released);
    }
}

proof fn lemma_failed_import_stays_failed(
    encoder: EncoderView,
    receive: Status,
    header: PacketHeader,
    bytes: Vec<u8>,
    drain: Status,
    released: bool,
)
    requires
        encoder.job.failure is Some,
        encoder.stage is Discard || encoder.stage is DropFrame || encoder.stage is ReleaseInput,
    ensures
        received(encoder, receive, header, bytes, drain).next(
            Reply::Released(released),
        ).job.failure is Some,
{
    reveal(received);
}

proof fn lemma_import_receipt(
    encoder: EncoderView,
    receive: Status,
    header: PacketHeader,
    bytes: Vec<u8>,
    drain: Status,
    released: bool,
)
    requires
        encoder.stage is ReceivePacket,
        encoder.settings.input_mode is DrmPrime,
        encoder.job.failure is None,
    ensures
        ({
            let last = received(encoder, receive, header, bytes, drain).next(
                Reply::Released(released),
            );
            let succeeds = packet_received(encoder, receive, header, drain) && released;
            &&& last.stage is Finished && last.outcome() is Ok <==> succeeds
            &&& succeeds ==> last.outcome() == Ok::<PacketView, VaapiErrorView>(
                PacketView {
                    annex_b: bytes@,
                    keyframe: header.flags & encoder.codes.key_flag != 0,
                    pts: encoder.job.pts,
                    input_released: true,
                },
            )
        }),
{
    law_one_packet_per_frame(encoder, receive, header, bytes, drain);
}

/// A submission that succeeds gives a packet with the timestamp of the frame and some bytes, and
/// the memory of the frame has been released.
pub proof fn law_success_is_complete(encoder: EncoderView)
    requires
        encoder.wf(),
        encoder.stage is Finished,
    ensures
        match encoder.outcome() {
            Ok(packet) => {
                &&& packet.pts == encoder.job.pts
                &&& packet.annex_b.len() > 0
                &&& packet.input_released
            },
            Err(_) => true,
        },
{
}

/// An imported frame that the native side keeps costs the filter graph: whatever the packet, the
/// submission fails and the encoder takes no further frame.
pub proof fn law_retained_frame_retires_the_encoder(encoder: EncoderView, released: bool)
    requires
        encoder.wf(),
        encoder.stage is ReleaseInput,
    ensures
        ({
            let last = encoder.next(Reply::Released(false)).next(Reply::Released(released));
            &&& last.stage is Finished
            &&& last.outcome() is Err
            &&& last.graph_lost
            &&& !last.settled().ready()
        }),
{
}

/// The number of replies after which a submission is finished at the latest.
pub open spec fn calls_left(encoder: EncoderView) -> nat {
    match encoder.stage {
        Stage::Idle => 0,
        Stage::Finished => 0,
        Stage::Discard => 1,
        Stage::DropFrame => 1,
        Stage::DestroyGraph => 1,
        Stage::ReleaseInput => 2,
        Stage::DrainPacket => 3,
        Stage::CopyPacket { .. } => 4,
        Stage::InspectPacket => 5,
        Stage::ReceivePacket => 6,
        Stage::SendFiltered => 7,
        Stage::ReceiveFiltered => 8,
        Stage::UploadHostFrame => 9,
        Stage::CopyHostRows { .. } => 10,
        Stage::ReadLinesize => 11,
        Stage::MakeHostFrameWritable => 12,
        Stage::AllocateHostFrame => 13,
        Stage::MapFrame => 9,
        Stage::RetainFrames => 10,
        Stage::WrapDescriptor => 11,
        Stage::DuplicatePlane { index } => (11 + encoder.job.planes.len() - index) as nat,
        Stage::AllocateDescriptor => 12 + encoder.job.planes.len(),
    }
}

/// Each reply brings a submission closer to its end, which it reaches after at most sixteen.
pub proof fn law_submissions_end(encoder: EncoderView, reply: Reply)
    requires
        encoder.wf(),
        encoder.expects(reply),
    ensures
        calls_left(encoder.next(reply)) < calls_left(encoder) <= 16,
{
}

/// An encoder whose submission is over takes the next frame, unless it lost its filter graph.
pub proof fn law_ready_after_each_submission(encoder: EncoderView)
    requires
        encoder.wf(),
        encoder.stage is Finished,
    ensures
        encoder.settled().wf(),
        encoder.settled().ready() <==> !encoder.graph_lost,
        encoder.settled().frames_since_keyframe == encoder.frames_since_keyframe,
{
}

/// The filter graph is lost only by destroying it.
pub proof fn law_graph_is_kept(encoder: EncoderView, reply: Reply)
    requires
        encoder.wf(),
        encoder.expects(reply),
        !(encoder.stage is DestroyGraph),
    ensures
        encoder.next(reply).graph_lost == encoder.graph_lost,
{
}

/// Whether the duplicated descriptors of a submission still belong to the encoder: they have not
/// been wrapped for the native side.
pub open spec fn owns_duplicates(stage: Stage) -> bool {
    match stage {
        Stage::AllocateDescriptor => true,
        Stage::DuplicatePlane { .. } => true,
        Stage::WrapDescriptor => true,
        _ => false,
    }
}

/// No duplicated descriptor is lost or closed twice. Each successful duplication, and nothing
/// else, adds to the list. While the list belongs to the encoder, a failure after the first
/// allocation leads to the call that closes it, and only then; otherwise the whole list is handed
/// over with the wrapped descriptor.
pub proof fn law_duplicates_are_closed_once(encoder: EncoderView, reply: Reply)
    requires
        encoder.wf(),
        encoder.expects(reply),
    ensures
        encoder.next(reply).job.fds == match reply {
            Reply::Duplicate { fd, .. } if fd >= 0 => encoder.job.fds.push(fd),
            _ => encoder.job.fds,
        },
        owns_duplicates(encoder.stage) && encoder.next(reply).job.failure is Some ==> {
            ||| encoder.next(reply).stage is Discard
            ||| encoder.next(reply).stage is Finished && encoder.next(reply).job.fds.len() == 0
        },
        encoder.next(reply).stage is Discard ==> owns_duplicates(encoder.stage),
        owns_duplicates(encoder.stage) && !owns_duplicates(encoder.next(reply).stage) && encoder.next(
            reply,
        ).job.failure is None ==> {
            &&& encoder.stage is WrapDescriptor
            &&& encoder.next(reply).stage is RetainFrames
            &&& encoder.job.fds.len() == encoder.job.planes.len()
        },
{
}

/// The descriptor that is wrapped describes the planes of the submitted frame, in order, each over
/// its own duplicated descriptor.
pub proof fn law_descriptor_describes_the_frame(encoder: EncoderView, i: int)
    requires
        encoder.wf(),
        encoder.stage is WrapDescriptor,
        0 <= i < encoder.job.planes.len(),
    ensures
        encoder.job.objects.len() == encoder.job.planes.len(),
        encoder.job.layouts.len() == encoder.job.planes.len(),
        encoder.job.objects[i].fd == encoder.job.fds[i],
        encoder.job.objects[i].format_modifier == encoder.job.modifier,
        encoder.job.objects[i].size == encoder.job.planes[i].offset + encoder.job.planes[i].stride
            * encoder.settings.surface_pool().height,
        encoder.job.layouts[i].object_index == i,
        encoder.job.layouts[i].offset == encoder.job.planes[i].offset,
        encoder.job.layouts[i].pitch == encoder.job.planes[i].stride,
{
    assert(encoder.plane_described(i));
    law_surfaces_hold_the_picture(encoder.settings);
    let height = encoder.settings.object_height();
    let stride = encoder.job.planes[i].stride as int;
    assert(stride * height >= 0) by (nonlinear_arith)
        requires
            stride >= 0,
            height >= 0,
    ;
}

} // verus!
