//! What each operation of an encoder does with its arguments.

use vstd::prelude::*;

use crate::rows;
use crate::status::Status;
use crate::vaapi::config::{self, H264Gop, VaapiHostConfiguration};
use crate::vaapi::drm::{DescriptorHead, DrmObject, DrmPlaneLayout, DrmPrimeFrame};
use crate::vaapi::encoder::VaapiHostEncoder;
use crate::vaapi::error::VaapiError;
use crate::vaapi::laws;
use crate::vaapi::opening::{EncoderSettings, OpenCall, OpenReply};
use crate::vaapi::protocol::{
    Call, EncodedPacket, EncoderView, NativeCodes, PacketHeader, Reply, Stage,
};

verus! {

/// Whether an encoder can be opened: a named device that native code can read, even dimensions of
/// a frame of at most 512 MiB, a refresh rate of at most a thousand, a bitrate, and no empty period.
pub open spec fn can_open(configuration: VaapiHostConfiguration) -> bool {
    &&& configuration.gop != (H264Gop::LowLatency { keyframe_interval_frames: 0 })
    &&& configuration.device@.len() >= 1
    &&& forall|i: int|
        0 <= i < configuration.device@.len() ==> #[trigger] configuration.device@[i] != 0
    &&& configuration.width >= 2 && configuration.width % 2 == 0
    &&& configuration.height >= 2 && configuration.height % 2 == 0
    &&& 1 <= configuration.refresh_hz <= 1_000
    &&& configuration.bitrate_bps >= 1
    &&& configuration.width * configuration.height * 4 <= 536_870_912
}

/// Whether an encoder has the values of a configuration, each in its own place, and nothing has
/// been done with it, so that its first frame is due as a keyframe.
pub open spec fn opens_with(
    encoder: EncoderView,
    configuration: VaapiHostConfiguration,
    codes: NativeCodes,
) -> bool {
    &&& encoder.settings.width == configuration.width
    &&& encoder.settings.height == configuration.height
    &&& encoder.settings.refresh_hz == configuration.refresh_hz
    &&& encoder.settings.bitrate_bps == configuration.bitrate_bps
    &&& encoder.settings.pixel_format == configuration.pixel_format
    &&& encoder.settings.gop == configuration.gop
    &&& encoder.device == configuration.device@
    &&& encoder.codes.again == codes.again
    &&& encoder.codes.end_of_file == codes.end_of_file
    &&& encoder.codes.key_flag == codes.key_flag
    &&& encoder.opening.calls == encoder.settings.opening_calls()
    &&& encoder.opening.next == 0
    &&& encoder.stage is Idle
    &&& !encoder.graph_lost
    &&& due(encoder)
}

/// An encoder is opened with the values of its configuration, for CPU frames or for imports.
pub proof fn law_encoders_open_with_their_configuration(
    configuration: VaapiHostConfiguration,
    codes: NativeCodes,
    host: Result<VaapiHostEncoder, VaapiError>,
    import: Result<VaapiHostEncoder, VaapiError>,
)
    requires
        call_ensures(VaapiHostEncoder::open, (&configuration, codes), host),
        call_ensures(VaapiHostEncoder::open_dmabuf, (&configuration, codes), import),
    ensures
        host is Ok <==> can_open(configuration),
        import is Ok <==> can_open(configuration),
        host matches Ok(encoder) ==> {
            &&& encoder.wf()
            &&& encoder@.settings.input_mode is Host
            &&& opens_with(encoder@, configuration, codes)
        },
        import matches Ok(encoder) ==> {
            &&& encoder.wf()
            &&& encoder@.settings.input_mode is DrmPrime
            &&& opens_with(encoder@, configuration, codes)
        },
{
    if configuration.openable() {
        config::law_valid_frame_is_bounded(
            configuration.width as int,
            configuration.height as int,
        );
        assert forall|i: int| 0 <= i < configuration.device@.len() implies #[trigger]
            configuration.device@[i] != 0 by {
            assert(!config::has_interior_nul(configuration.device@));
        }
    } else if config::has_interior_nul(configuration.device@) {
        let i = choose|i: int|
            0 <= i < configuration.device@.len() && configuration.device@[i] == 0;
        assert(configuration.device@[i] == 0);
    }
}

/// Whether the picture of a frame is due as a keyframe: with the all-intra policy always, with a
/// periodic one when as many packets as its period came since the last keyframe.
pub open spec fn due(encoder: EncoderView) -> bool {
    match encoder.settings.gop {
        H264Gop::AllIntra => true,
        H264Gop::LowLatency { keyframe_interval_frames } => encoder.frames_since_keyframe
            >= keyframe_interval_frames,
    }
}

/// Whether an operation that starts a submission has left everything else of the encoder alone.
pub open spec fn only_submits(before: EncoderView, after: EncoderView) -> bool {
    &&& after.settings == before.settings
    &&& after.device == before.device
    &&& after.codes == before.codes
    &&& after.opening == before.opening
    &&& after.frames_since_keyframe == before.frames_since_keyframe
    &&& after.graph_lost == before.graph_lost
    &&& after.job.packet is None
    &&& after.job.failure is None
}

/// A CPU frame is accepted exactly when the encoder was opened for CPU frames, the rows hold four
/// bytes per pixel, and the frame is complete and takes at most 512 MiB. It is submitted with the
/// bytes, the row length, the timestamp and the request that were given.
pub proof fn law_host_frames_are_submitted_as_given(
    pixels: &[u8],
    stride: usize,
    pts: i64,
    force_keyframe: bool,
)
    ensures
        forall|encoder: &mut VaapiHostEncoder, started: Result<(), VaapiError>| #[trigger]
            call_ensures(
                VaapiHostEncoder::encode,
                (encoder, pixels, stride, pts, force_keyframe),
                started,
            ) ==> {
                &&& started is Ok <==> {
                    &&& encoder@.settings.input_mode is Host
                    &&& encoder@.settings.width * 4 <= stride
                    &&& stride * encoder@.settings.height <= 536_870_912
                    &&& stride * encoder@.settings.height <= pixels@.len()
                }
                &&& started is Ok ==> {
                    &&& only_submits(encoder@, final(encoder)@)
                    &&& final(encoder)@.stage is AllocateHostFrame
                    &&& final(encoder)@.job.pixels == pixels@
                    &&& final(encoder)@.job.stride == stride
                    &&& final(encoder)@.job.pts == pts
                    &&& final(encoder)@.job.force_keyframe == force_keyframe
                }
                &&& started matches Err(error) ==> {
                    &&& error@.kind is InvalidConfiguration
                    &&& final(encoder)@ == encoder@
                }
            },
{
}

/// An imported frame is accepted exactly when the encoder was opened for imports and the frame has
/// its dimensions, a pixel layout, and one to four planes with a row length each. It is submitted
/// with the layout, the modifier, the planes, the timestamp and the request that were given.
pub proof fn law_imports_are_submitted_as_given(
    frame: DrmPrimeFrame,
    pts: i64,
    force_keyframe: bool,
)
    ensures
        forall|encoder: &mut VaapiHostEncoder, started: Result<(), VaapiError>| #[trigger]
            call_ensures(
                VaapiHostEncoder::encode_dmabuf,
                (encoder, frame, pts, force_keyframe),
                started,
            ) ==> {
                &&& encoder.wf() ==> (started is Ok <==> {
                    &&& encoder@.settings.input_mode is DrmPrime
                    &&& frame.width == encoder@.settings.width
                    &&& frame.height == encoder@.settings.height
                    &&& frame.fourcc != 0
                    &&& 1 <= frame.planes@.len() <= 4
                    &&& forall|i: int|
                        0 <= i < frame.planes@.len() ==> #[trigger] frame.planes@[i].stride != 0
                })
                &&& started is Ok ==> {
                    &&& only_submits(encoder@, final(encoder)@)
                    &&& final(encoder)@.stage is AllocateDescriptor
                    &&& final(encoder)@.job.fourcc == frame.fourcc
                    &&& final(encoder)@.job.modifier == frame.modifier
                    &&& final(encoder)@.job.planes == frame.planes@
                    &&& final(encoder)@.job.pts == pts
                    &&& final(encoder)@.job.force_keyframe == force_keyframe
                }
                &&& started matches Err(error) ==> {
                    &&& error@.kind is InvalidConfiguration
                    &&& final(encoder)@ == encoder@
                }
            },
{
}

/// A CPU frame that reaches the codec is sent with the timestamp that it was submitted with, and as
/// a keyframe exactly when one was requested with it or is due.
pub proof fn law_host_requests_reach_the_codec(
    pixels: &[u8],
    stride: usize,
    pts: i64,
    force_keyframe: bool,
    replies: Seq<Reply>,
)
    ensures
        forall|encoder: &mut VaapiHostEncoder|
            {
                &&& #[trigger] call_ensures(
                    VaapiHostEncoder::encode,
                    (encoder, pixels, stride, pts, force_keyframe),
                    Ok::<(), VaapiError>(()),
                )
                &&& laws::replies_expected(final(encoder)@, replies)
                &&& laws::after_replies(final(encoder)@, replies).stage is SendFiltered
            } ==> laws::after_replies(final(encoder)@, replies).call() == Some(
                Call::SendFiltered { intra: force_keyframe || due(encoder@), pts },
            ),
{
    assert forall|encoder: &mut VaapiHostEncoder|
        {
            &&& #[trigger] call_ensures(
                VaapiHostEncoder::encode,
                (encoder, pixels, stride, pts, force_keyframe),
                Ok::<(), VaapiError>(()),
            )
            &&& laws::replies_expected(final(encoder)@, replies)
            &&& laws::after_replies(final(encoder)@, replies).stage is SendFiltered
        } implies laws::after_replies(final(encoder)@, replies).call() == Some(
        Call::SendFiltered { intra: force_keyframe || due(encoder@), pts },
    ) by {
        let submitted = final(encoder)@;
        assert(submitted.intra() == (force_keyframe || due(encoder@)));
        laws::law_codec_is_told_what_was_submitted(submitted, replies);
    }
}

/// An imported frame that reaches the codec is sent with the timestamp that it was submitted with,
/// and as a keyframe exactly when one was requested with it or is due.
pub proof fn law_import_requests_reach_the_codec(
    frame: DrmPrimeFrame,
    pts: i64,
    force_keyframe: bool,
    replies: Seq<Reply>,
)
    ensures
        forall|encoder: &mut VaapiHostEncoder|
            {
                &&& #[trigger] call_ensures(
                    VaapiHostEncoder::encode_dmabuf,
                    (encoder, frame, pts, force_keyframe),
                    Ok::<(), VaapiError>(()),
                )
                &&& laws::replies_expected(final(encoder)@, replies)
                &&& laws::after_replies(final(encoder)@, replies).stage is SendFiltered
            } ==> laws::after_replies(final(encoder)@, replies).call() == Some(
                Call::SendFiltered { intra: force_keyframe || due(encoder@), pts },
            ),
{
    assert forall|encoder: &mut VaapiHostEncoder|
        {
            &&& #[trigger] call_ensures(
                VaapiHostEncoder::encode_dmabuf,
                (encoder, frame, pts, force_keyframe),
                Ok::<(), VaapiError>(()),
            )
            &&& laws::replies_expected(final(encoder)@, replies)
            &&& laws::after_replies(final(encoder)@, replies).stage is SendFiltered
        } implies laws::after_replies(final(encoder)@, replies).call() == Some(
        Call::SendFiltered { intra: force_keyframe || due(encoder@), pts },
    ) by {
        let submitted = final(encoder)@;
        assert(submitted.intra() == (force_keyframe || due(encoder@)));
        laws::law_codec_is_told_what_was_submitted(submitted, replies);
    }
}

/// The native input frame is given the size that the encoder was opened with, the layout of its
/// pixels, or that of an import, and the timestamp of the submission.
pub proof fn law_input_frames_have_the_opened_size(
    encoder: VaapiHostEncoder,
    call: Option<Call>,
)
    requires
        encoder.wf(),
        call_ensures(VaapiHostEncoder::call, (&encoder,), call),
    ensures
        encoder@.stage is AllocateHostFrame ==> {
            &&& call matches Some(
                Call::AllocateHostFrame { format, width, height, pts, alignment },
            )
            &&& width == encoder@.settings.width
            &&& height == encoder@.settings.height
            &&& pts == encoder@.job.pts
            &&& alignment == 32
            &&& encoder@.settings.pixel_format is Rgba <==> format is Rgba
            &&& encoder@.settings.pixel_format is Bgra <==> format is Bgra
        },
        encoder@.stage is WrapDescriptor ==> {
            &&& call matches Some(Call::WrapDescriptor { format, width, height, pts })
            &&& format is DrmPrime
            &&& width == encoder@.settings.width
            &&& height == encoder@.settings.height
            &&& pts == encoder@.job.pts
        },
{
}

/// The native input frame of a CPU submission has the size and the layout that the source of the
/// filter graph was configured with.
pub proof fn law_input_frames_match_the_graph(encoder: VaapiHostEncoder, call: Option<Call>)
    requires
        encoder.wf(),
        encoder@.stage is AllocateHostFrame,
        call_ensures(VaapiHostEncoder::call, (&encoder,), call),
    ensures
        exists|i: int|
            {
                &&& 0 <= i < encoder@.opening.calls.len()
                &&& #[trigger] encoder@.opening.calls[i] matches OpenCall::ConfigureSource(source)
                &&& call matches Some(Call::AllocateHostFrame { format, width, height, .. })
                &&& format == source.format
                &&& width == source.width
                &&& height == source.height
            },
{
    let settings = encoder@.settings;
    reveal(EncoderSettings::opening_calls);
    let at = (settings.device_calls() + settings.codec_calls()).len() + 4;
    assert(settings.graph_calls()[4] == OpenCall::ConfigureSource(settings.source_parameters()));
    assert(encoder@.opening.calls[at as int] == OpenCall::ConfigureSource(
        settings.source_parameters(),
    ));
}

/// Each stage makes its own call: a plane is duplicated from its own descriptor, the copied bytes
/// are as many as the packet has, and the codec is told the submitted timestamp and whether the
/// frame is to be a keyframe.
pub proof fn law_encoder_calls(encoder: VaapiHostEncoder, call: Option<Call>)
    requires
        encoder.wf(),
        call_ensures(VaapiHostEncoder::call, (&encoder,), call),
    ensures
        call is None <==> encoder@.stage is Idle || encoder@.stage is Finished,
        encoder@.stage is MakeHostFrameWritable <==> call == Some(Call::MakeHostFrameWritable),
        encoder@.stage is ReadLinesize <==> call == Some(Call::ReadLinesize),
        encoder@.stage matches Stage::CopyHostRows { destination_stride } ==> call == Some(
            Call::CopyHostRows { destination_stride },
        ),
        encoder@.stage is UploadHostFrame <==> call == Some(Call::UploadHostFrame),
        encoder@.stage is AllocateDescriptor <==> call == Some(Call::AllocateDescriptor),
        encoder@.stage matches Stage::DuplicatePlane { index } ==> call == Some(
            Call::DuplicatePlane { fd: encoder@.job.planes[index as int].fd },
        ),
        encoder@.stage is RetainFrames <==> call == Some(Call::RetainFrames),
        encoder@.stage is MapFrame <==> call == Some(Call::MapFrame),
        encoder@.stage is ReceiveFiltered <==> call == Some(Call::ReceiveFiltered),
        encoder@.stage is SendFiltered ==> call == Some(
            Call::SendFiltered {
                intra: encoder@.job.force_keyframe || due(encoder@),
                pts: encoder@.job.pts,
            },
        ),
        encoder@.stage is ReceivePacket <==> call == Some(Call::ReceivePacket),
        encoder@.stage is InspectPacket <==> call == Some(Call::InspectPacket),
        encoder@.stage matches Stage::CopyPacket { size, .. } ==> call == Some(
            Call::CopyPacket { size },
        ),
        encoder@.stage is DrainPacket <==> call == Some(Call::DrainPacket),
        encoder@.stage is ReleaseInput <==> call == Some(Call::ReleaseInput),
        encoder@.stage is DestroyGraph <==> call == Some(Call::DestroyGraph),
        encoder@.stage is Discard <==> call == Some(Call::Discard),
        encoder@.stage is DropFrame <==> call == Some(Call::DropFrame),
{
}

/// The planes of an import are duplicated in order, starting with the first.
pub proof fn law_planes_are_duplicated_in_order(encoder: EncoderView, fd: i32, os_error: String)
    requires
        encoder.wf(),
    ensures
        encoder.stage is AllocateDescriptor ==> encoder.next(Reply::Pointer(true)).stage == (
        Stage::DuplicatePlane { index: 0 }),
        encoder.stage matches Stage::DuplicatePlane { index } ==> {
            let next = encoder.next(Reply::Duplicate { fd, os_error });
            &&& next.job.failure is None && index + 1 < encoder.job.planes.len() ==> next.stage
                == (Stage::DuplicatePlane { index: (index + 1) as usize })
            &&& next.job.failure is None && index + 1 == encoder.job.planes.len()
                ==> next.stage is WrapDescriptor
            &&& fd < 0 ==> (next.job.failure matches Some(error) && error.kind is EncodeFailed
                && error.operation == "duplicate DRM-PRIME file descriptor"@ && error.detail
                == os_error@)
        },
{
}

/// The copied bytes of a packet are as many as its head says, and it is a keyframe exactly when its
/// flags have the bit of one.
pub proof fn law_packets_are_copied_whole(encoder: EncoderView, header: PacketHeader)
    requires
        encoder.stage is InspectPacket,
    ensures
        ({
            let next = encoder.next(Reply::Packet(header));
            &&& next.stage is CopyPacket <==> {
                &&& header.pts == encoder.job.pts
                &&& header.size > 0
                &&& header.present
            }
            &&& next.stage matches Stage::CopyPacket { size, keyframe } ==> {
                &&& size == header.size
                &&& keyframe <==> header.flags & encoder.codes.key_flag != 0
            }
        }),
{
}

/// A native call of a submission that fails is reported with the operation that it stands for and
/// the description of its status.
pub proof fn law_failed_encoder_calls_are_reported(encoder: EncoderView, status: Status)
    requires
        encoder.wf(),
        encoder.expects(Reply::Status(status)),
        status.code < 0,
        encoder.stage is ReceivePacket ==> status.code != encoder.codes.again,
        encoder.stage is DrainPacket ==> status.code != encoder.codes.again && status.code
            != encoder.codes.end_of_file,
    ensures
        ({
            let next = encoder.next(Reply::Status(status));
            &&& next.job.failure matches Some(error)
            &&& error.kind is EncodeFailed
            &&& error.detail == status.detail()
            &&& encoder.stage is AllocateHostFrame ==> error.operation
                == "allocate host-frame buffer"@
            &&& encoder.stage is MakeHostFrameWritable ==> error.operation
                == "make host-frame buffer writable"@
            &&& encoder.stage is UploadHostFrame ==> error.operation == "upload host frame"@
            &&& encoder.stage is MapFrame ==> error.operation == "map DRM-PRIME frame"@
            &&& encoder.stage is ReceiveFiltered ==> error.operation
                == "receive converted VA-API frame"@
            &&& encoder.stage is SendFiltered ==> error.operation == "submit VA-API frame"@
            &&& encoder.stage is ReceivePacket ==> error.operation == "receive VA-API packet"@
            &&& encoder.stage is DrainPacket ==> error.operation == "drain VA-API encoder"@
            &&& next.job.packet is None
            &&& next.stage is DropFrame <==> encoder.stage is MapFrame
        }),
{
}

/// Where native rows do not overlap, each byte of each uploaded row is the byte of the submitted
/// picture, and every other byte of the native buffer is as it was.
pub proof fn law_uploaded_rows_are_the_submitted_rows(
    encoder: VaapiHostEncoder,
    pixels: &[u8],
    row: int,
    column: int,
)
    requires
        encoder.wf(),
        encoder@.stage is CopyHostRows,
        pixels@ == encoder@.job.pixels,
        encoder@.settings.width * 4 <= encoder@.stage->destination_stride,
        0 <= row < encoder@.settings.height,
        0 <= column < encoder@.stage->destination_stride,
    ensures
        forall|buffer: &mut [u8]|
            {
                &&& #[trigger] call_ensures(
                    VaapiHostEncoder::copy_host_rows,
                    (&encoder, pixels, buffer),
                    (),
                )
                &&& buffer@.len() >= (encoder@.settings.height - 1)
                    * encoder@.stage->destination_stride + encoder@.settings.width * 4
                &&& row * encoder@.stage->destination_stride + column < buffer@.len()
            } ==> final(buffer)@[row * encoder@.stage->destination_stride + column] == if column
                < encoder@.settings.width * 4 {
                pixels@[row * encoder@.job.stride + column]
            } else {
                buffer@[row * encoder@.stage->destination_stride + column]
            },
{
    let height = encoder@.settings.height as int;
    let stride = encoder@.job.stride as int;
    assert((height - 1) * stride + stride == stride * height) by (nonlinear_arith);
    assert forall|buffer: &mut [u8]|
        {
            &&& #[trigger] call_ensures(
                VaapiHostEncoder::copy_host_rows,
                (&encoder, pixels, buffer),
                (),
            )
            &&& buffer@.len() >= (encoder@.settings.height - 1) * encoder@.stage->destination_stride
                + encoder@.settings.width * 4
            &&& row * encoder@.stage->destination_stride + column < buffer@.len()
        } implies final(buffer)@[row * encoder@.stage->destination_stride + column] == if column
        < encoder@.settings.width * 4 {
        pixels@[row * encoder@.job.stride + column]
    } else {
        buffer@[row * encoder@.stage->destination_stride + column]
    } by {
        rows::law_copied_rows_read_back(
            buffer@,
            encoder@.stage->destination_stride as int,
            pixels@,
            stride,
            encoder@.settings.width * 4,
            height as nat,
            row,
            column,
        );
    }
}

/// The native row length is taken as it was answered.
pub proof fn law_row_lengths_are_taken_as_answered(encoder: EncoderView, linesize: i32)
    requires
        encoder.wf(),
        encoder.stage is ReadLinesize,
    ensures
        ({
            let next = encoder.next(Reply::Linesize(linesize));
            &&& next.stage matches Stage::CopyHostRows { destination_stride } ==> destination_stride
                == linesize
            &&& linesize < 0 ==> next.job.failure is Some && next.stage is Finished
        }),
{
}

/// The head of a descriptor counts the planes, in one layer with the submitted layout.
pub proof fn law_descriptor_heads_count_the_planes(
    encoder: VaapiHostEncoder,
    head: DescriptorHead,
)
    requires
        encoder.wf(),
        encoder@.stage is WrapDescriptor,
        call_ensures(VaapiHostEncoder::descriptor_head, (&encoder,), head),
    ensures
        head.nb_objects == encoder@.job.planes.len(),
        head.nb_layers == 1,
        head.format == encoder@.job.fourcc,
        head.nb_planes == encoder@.job.planes.len(),
{
}

/// The result of a finished submission is its failure, or else its packet; the encoder is then idle
/// and keeps everything that outlives a frame.
pub proof fn law_submissions_hand_out_their_results(outcome: Result<EncodedPacket, VaapiError>)
    ensures
        forall|encoder: &mut VaapiHostEncoder| #[trigger]
            call_ensures(VaapiHostEncoder::finish, (encoder,), outcome) ==> {
                &&& outcome matches Err(error) ==> encoder@.job.failure == Some(error@)
                &&& outcome matches Ok(packet) ==> {
                    &&& encoder@.job.failure is None
                    &&& encoder@.job.packet matches Some(read) ==> {
                        &&& packet.annex_b@ == read.annex_b
                        &&& packet.keyframe == read.keyframe
                        &&& packet.pts == read.pts
                        &&& packet.input_released == read.input_released
                    }
                }
                &&& final(encoder)@.stage is Idle
                &&& only_submits(encoder@, final(encoder)@)
            },
{
}

/// An encoder is idle when it is open and submits nothing, and takes a frame unless it also lost
/// its filter graph.
pub proof fn law_encoder_readiness(
    encoder: VaapiHostEncoder,
    idle: bool,
    ready: bool,
    lost: bool,
    finished: bool,
)
    requires
        call_ensures(VaapiHostEncoder::idle, (&encoder,), idle),
        call_ensures(VaapiHostEncoder::ready, (&encoder,), ready),
        call_ensures(VaapiHostEncoder::graph_lost, (&encoder,), lost),
        call_ensures(VaapiHostEncoder::finished, (&encoder,), finished),
    ensures
        idle <==> encoder@.opening.next == encoder@.opening.calls.len() && encoder@.stage is Idle,
        lost == encoder@.graph_lost,
        ready <==> idle && !lost,
        finished <==> encoder@.stage is Finished,
{
}

/// The opening goes one call further with each reply that is accepted, and stays where it is with
/// any other; the call that is pending is the next one of the sequence.
pub proof fn law_opening_goes_call_by_call(reply: OpenReply, advanced: Result<(), VaapiError>)
    ensures
        forall|encoder: &mut VaapiHostEncoder| #[trigger]
            call_ensures(VaapiHostEncoder::opening_reply, (encoder, reply), advanced) ==> {
                &&& advanced is Ok <==> reply.accepted()
                &&& final(encoder)@.opening.calls == encoder@.opening.calls
                &&& final(encoder)@.opening.next == encoder@.opening.next + if advanced is Ok {
                    1nat
                } else {
                    0
                }
                &&& final(encoder)@.settings == encoder@.settings
                &&& final(encoder)@.device == encoder@.device
                &&& final(encoder)@.stage == encoder@.stage
                &&& final(encoder)@.frames_since_keyframe == encoder@.frames_since_keyframe
            },
        forall|encoder: VaapiHostEncoder, call: Option<OpenCall>| #[trigger]
            call_ensures(VaapiHostEncoder::opening_call, (&encoder,), call) ==> {
                &&& call is None <==> encoder@.opening.next == encoder@.opening.calls.len()
                &&& call matches Some(call) ==> call
                    == encoder@.opening.calls[encoder@.opening.next as int]
            },
{
}

/// Native constants are taken as they were given.
pub proof fn law_native_constants_are_taken_as_given(
    end_of_file: i32,
    key_flag: i32,
    codes: NativeCodes,
)
    requires
        call_ensures(NativeCodes::native, (end_of_file, key_flag), codes),
    ensures
        codes.end_of_file == end_of_file,
        codes.key_flag == key_flag,
{
}

/// The adapter is shown the encoder's own descriptors, objects, planes and device, and a buffer
/// length that reaches to the end of the last row.
pub proof fn law_adapter_sees_the_submission(
    encoder: VaapiHostEncoder,
    fds: &[i32],
    objects: &[DrmObject],
    layouts: &[DrmPlaneLayout],
    path: &[u8],
    settings: EncoderSettings,
    length: usize,
)
    requires
        call_ensures(VaapiHostEncoder::duplicated, (&encoder,), fds),
        call_ensures(VaapiHostEncoder::objects, (&encoder,), objects),
        call_ensures(VaapiHostEncoder::layouts, (&encoder,), layouts),
        call_ensures(VaapiHostEncoder::render_node, (&encoder,), path),
        call_ensures(VaapiHostEncoder::settings, (&encoder,), settings),
        call_ensures(VaapiHostEncoder::host_buffer_length, (&encoder,), length),
    ensures
        fds@ == encoder@.job.fds,
        objects@ == encoder@.job.objects,
        layouts@ == encoder@.job.layouts,
        path@ == encoder@.device,
        settings == encoder@.settings,
        encoder@.stage matches Stage::CopyHostRows { destination_stride } ==> length == (
        encoder@.settings.height - 1) * destination_stride + encoder@.settings.width * 4,
{
}

} // verus!
