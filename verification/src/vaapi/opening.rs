//! The calls that open an encoder, in order, and what each answer means.

use vstd::prelude::*;

use crate::status::Status;
use crate::text;
use crate::vaapi::config::{self, align, H264Gop, HostPixelFormat};
use crate::vaapi::error::{check, VaapiError, VaapiErrorKind, VaapiErrorView};
use crate::vaapi::host;

verus! {

/// The number of surfaces in the encoder's pool.
pub const ENCODER_SURFACE_POOL_SIZE: i32 = 20;

/// Where the frames of an encoder come from.
#[derive(Clone, Copy, Debug, PartialEq, Eq, Structural)]
pub enum InputMode {
    Host,
    DrmPrime,
}

/// Pixel formats that native objects are configured with.
#[derive(Clone, Copy, Debug, PartialEq, Eq, Structural)]
pub enum PixelFormat {
    Rgba,
    Bgra,
    Nv12,
    DrmPrime,
    Vaapi,
}

impl HostPixelFormat {
    /// The native format of this CPU layout.
    pub open spec fn native(self) -> PixelFormat {
        match self {
            HostPixelFormat::Rgba => PixelFormat::Rgba,
            HostPixelFormat::Bgra => PixelFormat::Bgra,
        }
    }

    /// The native format of this CPU layout.
    pub fn ffmpeg(self) -> (format: PixelFormat)
        ensures
            format == self.native(),
    {
        match self {
            HostPixelFormat::Rgba => PixelFormat::Rgba,
            HostPixelFormat::Bgra => PixelFormat::Bgra,
        }
    }
}

/// What an encoder was configured with, after validation.
#[derive(Clone, Copy, Debug, PartialEq, Eq, Structural)]
pub struct EncoderSettings {
    pub width: i32,
    pub height: i32,
    pub refresh_hz: i32,
    pub bitrate_bps: u32,
    pub pixel_format: HostPixelFormat,
    pub input_mode: InputMode,
    pub gop: H264Gop,
}

impl EncoderSettings {
    /// Whether the settings come from a valid configuration.
    pub open spec fn wf(self) -> bool {
        &&& host::frame_dimensions(self.width, self.height)
        &&& self.width % 2 == 0
        &&& self.height % 2 == 0
        &&& 1 <= self.refresh_hz <= config::MAX_REFRESH_HZ
        &&& self.bitrate_bps > 0
        &&& self.gop.valid()
    }
}

/// Parameters of one native frame pool.
#[derive(Clone, Copy, Debug, PartialEq, Eq, Structural)]
pub struct FramePool {
    pub format: PixelFormat,
    pub sw_format: PixelFormat,
    pub width: i32,
    pub height: i32,
    pub initial_pool_size: i32,
}

/// A number given as a quotient.
#[derive(Clone, Copy, Debug, PartialEq, Eq, Structural)]
pub struct Ratio {
    pub num: i32,
    pub den: i32,
}

/// Parameters of the native codec context.
#[derive(Clone, Copy, Debug, PartialEq, Eq, Structural)]
pub struct CodecParameters {
    pub width: i32,
    pub height: i32,
    pub time_base: Ratio,
    pub framerate: Ratio,
    pub format: PixelFormat,
    pub max_b_frames: i32,
    pub gop_size: i32,
    pub slices: i32,
    pub compression_level: i32,
    pub low_delay: bool,
    pub bit_rate: i64,
}

/// Parameters of the source of the filter graph.
#[derive(Clone, Copy, Debug, PartialEq, Eq, Structural)]
pub struct SourceParameters {
    pub format: PixelFormat,
    /// Whether the source refers to the DRM-PRIME frames context.
    pub drm_frames: bool,
    pub width: i32,
    pub height: i32,
    pub time_base: Ratio,
}

/// One private option of the codec.
#[derive(Clone, Copy, Debug, PartialEq, Eq, Structural)]
pub enum CodecOption {
    AccessUnitDelimiter,
    BFrames,
    Profile,
    Level,
    GopSize,
    IdrInterval,
    AsyncDepth,
}

impl CodecOption {
    /// The key and the value of the option.
    pub open spec fn entry(self) -> (&'static str, &'static str) {
        match self {
            CodecOption::AccessUnitDelimiter => ("aud", "0"),
            CodecOption::BFrames => ("bf", "0"),
            CodecOption::Profile => ("profile", "high"),
            CodecOption::Level => ("level", "4.1"),
            CodecOption::GopSize => ("g", "1"),
            CodecOption::IdrInterval => ("idr_interval", "1"),
            CodecOption::AsyncDepth => ("async_depth", "1"),
        }
    }

    /// The key and the value of the option.
    pub fn key_value(self) -> (pair: (&'static str, &'static str))
        ensures
            pair.0@ == self.entry().0@,
            pair.1@ == self.entry().1@,
    {
        match self {
            CodecOption::AccessUnitDelimiter => ("aud", "0"),
            CodecOption::BFrames => ("bf", "0"),
            CodecOption::Profile => ("profile", "high"),
            CodecOption::Level => ("level", "4.1"),
            CodecOption::GopSize => ("g", "1"),
            CodecOption::IdrInterval => ("idr_interval", "1"),
            CodecOption::AsyncDepth => ("async_depth", "1"),
        }
    }
}

/// One name that the opening sequence looks up or gives.
#[derive(Clone, Copy, Debug, PartialEq, Eq, Structural)]
pub enum NativeName {
    /// The encoder.
    Encoder,
    /// The filter that the source of the graph is made of.
    SourceFilter,
    /// The filter that the sink of the graph is made of.
    SinkFilter,
    /// The name of the source in the graph.
    Source,
    /// The name of the sink in the graph.
    Sink,
}

impl NativeName {
    /// How the name is spelled.
    pub open spec fn spelling(self) -> &'static str {
        match self {
            NativeName::Encoder => "h264_vaapi",
            NativeName::SourceFilter => "buffer",
            NativeName::SinkFilter => "buffersink",
            NativeName::Source => "in",
            NativeName::Sink => "out",
        }
    }

    /// How the name is spelled.
    pub fn text(self) -> (text: &'static str)
        ensures
            text@ == self.spelling()@,
    {
        match self {
            NativeName::Encoder => "h264_vaapi",
            NativeName::SourceFilter => "buffer",
            NativeName::SinkFilter => "buffersink",
            NativeName::Source => "in",
            NativeName::Sink => "out",
        }
    }
}

/// One native call of the opening sequence.
#[derive(Clone, Copy, Debug, PartialEq, Eq, Structural)]
pub enum OpenCall {
    /// Create a DRM device on the render node of the encoder.
    CreateDrmDevice,
    DeriveVaapiDevice,
    AllocateDrmFrames,
    ReadDrmFrames,
    InitializeDrmFrames(FramePool),
    AllocateSurfacePool,
    ReadSurfacePool,
    InitializeSurfacePool(FramePool),
    /// Look the encoder of this name up.
    FindEncoder(NativeName),
    AllocateEncoder,
    ConfigureEncoder(CodecParameters),
    SetOption(CodecOption),
    OpenEncoder,
    AllocateGraph,
    /// Look the filters of these names up.
    FindBufferFilters { source: NativeName, sink: NativeName },
    /// Put a source of this name into the graph.
    AllocateSource(NativeName),
    AllocateSourceParameters,
    ConfigureSource(SourceParameters),
    /// Initialise the source from [`source_arguments`].
    InitializeSource,
    /// Put a sink of this name into the graph.
    CreateSink(NativeName),
    /// Parse the chain of [`filter_description`].
    ParseGraph,
    CreateFilters,
    /// Give the device to each filter for which [`takes_device`] says so.
    AttachDevice,
    ApplySegment,
    /// Read the open input and the open output of the applied chain.
    ReadSegmentEnds,
    LinkSource,
    LinkSink,
    ConfigureGraph,
    /// Allocate the reusable input frame, filtered frame and packet.
    AllocateMediaObjects,
    AllocatePreflightFrame,
    /// Take one surface from the pool.
    Preflight,
}

/// The form of the answer to a call.
#[derive(Clone, Copy, Debug, PartialEq, Eq, Structural)]
pub enum Answer {
    /// The call cannot fail.
    Nothing,
    /// The call hands out this many pointers.
    Pointers(usize),
    /// The call hands out a status.
    Status,
}

/// What is fixed about a call: its form of answer, the operation that it stands for, and why it
/// failed where a pointer is missing.
pub struct CallContract {
    pub answer: Answer,
    pub operation: &'static str,
    pub missing: &'static str,
}

impl CallContract {
    /// A call that answers with a status.
    pub open spec fn for_status(operation: &'static str) -> Self {
        CallContract { answer: Answer::Status, operation, missing: "" }
    }

    /// A call that hands out `count` pointers.
    pub open spec fn for_pointers(
        count: usize,
        operation: &'static str,
        missing: &'static str,
    ) -> Self {
        CallContract { answer: Answer::Pointers(count), operation, missing }
    }

    /// A call that cannot fail.
    pub open spec fn for_nothing() -> Self {
        CallContract { answer: Answer::Nothing, operation: "", missing: "" }
    }

    fn status(operation: &'static str) -> (row: Self)
        ensures
            row == Self::for_status(operation),
    {
        CallContract { answer: Answer::Status, operation, missing: "" }
    }

    fn pointers(count: usize, operation: &'static str, missing: &'static str) -> (row: Self)
        ensures
            row == Self::for_pointers(count, operation, missing),
    {
        CallContract { answer: Answer::Pointers(count), operation, missing }
    }

    fn nothing() -> (row: Self)
        ensures
            row == Self::for_nothing(),
    {
        CallContract { answer: Answer::Nothing, operation: "", missing: "" }
    }
}

impl OpenCall {
    /// What is fixed about this call.
    pub open spec fn contract(self) -> CallContract {
        match self {
            OpenCall::CreateDrmDevice => CallContract::for_status("create DRM render-node device"),
            OpenCall::DeriveVaapiDevice => CallContract::for_status("derive VA-API device"),
            OpenCall::AllocateDrmFrames => CallContract::for_pointers(
                1,
                "allocate DRM-PRIME frames context",
                "FFmpeg returned a null frames context",
            ),
            OpenCall::ReadDrmFrames => CallContract::for_pointers(
                1,
                "allocate DRM-PRIME frames context",
                "FFmpeg returned an empty frames context",
            ),
            OpenCall::InitializeDrmFrames(_) => CallContract::for_status("initialize DRM-PRIME frames context"),
            OpenCall::AllocateSurfacePool => CallContract::for_pointers(
                1,
                "allocate VA-API surface pool",
                "FFmpeg returned a null frames context",
            ),
            OpenCall::ReadSurfacePool => CallContract::for_pointers(
                1,
                "allocate VA-API surface pool",
                "FFmpeg returned an empty frames context",
            ),
            OpenCall::InitializeSurfacePool(_) => CallContract::for_status("initialize VA-API surface pool"),
            OpenCall::FindEncoder(_) => CallContract::for_pointers(
                1,
                "find VA-API H.264 encoder",
                "system FFmpeg does not expose h264_vaapi",
            ),
            OpenCall::AllocateEncoder => CallContract::for_pointers(
                1,
                "allocate VA-API encoder",
                "FFmpeg returned a null codec context",
            ),
            OpenCall::ConfigureEncoder(_) => CallContract::for_nothing(),
            OpenCall::SetOption(_) => CallContract::for_status("configure VA-API encoder"),
            OpenCall::OpenEncoder => CallContract::for_status("open VA-API H.264 encoder"),
            OpenCall::AllocateGraph => CallContract::for_pointers(
                1,
                "allocate VA-API filter graph",
                "FFmpeg returned a null filter graph",
            ),
            OpenCall::FindBufferFilters { .. } => CallContract::for_pointers(
                2,
                "find FFmpeg buffer filters",
                "system FFmpeg does not expose buffer and buffersink",
            ),
            OpenCall::AllocateSource(_) => CallContract::for_pointers(
                1,
                "allocate host-frame buffer source",
                "FFmpeg returned a null filter context",
            ),
            OpenCall::AllocateSourceParameters => CallContract::for_pointers(
                1,
                "allocate host-frame source parameters",
                "FFmpeg returned a null parameter block",
            ),
            OpenCall::ConfigureSource(_) => CallContract::for_status("configure host-frame buffer source"),
            OpenCall::InitializeSource => CallContract::for_status("initialize host-frame buffer source"),
            OpenCall::CreateSink(_) => CallContract::for_status("initialize VA-API buffer sink"),
            OpenCall::ParseGraph => CallContract::for_status("parse VA-API filter graph"),
            OpenCall::CreateFilters => CallContract::for_status("create VA-API filters"),
            OpenCall::AttachDevice => CallContract::for_nothing(),
            OpenCall::ApplySegment => CallContract::for_status("initialize VA-API filters"),
            OpenCall::ReadSegmentEnds => CallContract::for_pointers(
                2,
                "link VA-API filter graph",
                "filter chain did not expose one input and one output",
            ),
            OpenCall::LinkSource => CallContract::for_status("link VA-API input staging filter"),
            OpenCall::LinkSink => CallContract::for_status("link VA-API conversion sink"),
            OpenCall::ConfigureGraph => CallContract::for_status("configure VA-API filter graph"),
            OpenCall::AllocateMediaObjects => CallContract::for_pointers(
                3,
                "allocate reusable FFmpeg media objects",
                "FFmpeg returned a null frame or packet",
            ),
            OpenCall::AllocatePreflightFrame => CallContract::for_pointers(
                1,
                "preflight VA-API surface pool",
                "FFmpeg returned a null frame",
            ),
            OpenCall::Preflight => CallContract::for_status("preflight VA-API surface pool"),
        }
    }

    /// What is fixed about this call.
    pub fn row(self) -> (row: CallContract)
        ensures
            row == self.contract(),
    {
        match self {
            OpenCall::CreateDrmDevice => CallContract::status("create DRM render-node device"),
            OpenCall::DeriveVaapiDevice => CallContract::status("derive VA-API device"),
            OpenCall::AllocateDrmFrames => CallContract::pointers(
                1,
                "allocate DRM-PRIME frames context",
                "FFmpeg returned a null frames context",
            ),
            OpenCall::ReadDrmFrames => CallContract::pointers(
                1,
                "allocate DRM-PRIME frames context",
                "FFmpeg returned an empty frames context",
            ),
            OpenCall::InitializeDrmFrames(_) => CallContract::status("initialize DRM-PRIME frames context"),
            OpenCall::AllocateSurfacePool => CallContract::pointers(
                1,
                "allocate VA-API surface pool",
                "FFmpeg returned a null frames context",
            ),
            OpenCall::ReadSurfacePool => CallContract::pointers(
                1,
                "allocate VA-API surface pool",
                "FFmpeg returned an empty frames context",
            ),
            OpenCall::InitializeSurfacePool(_) => CallContract::status("initialize VA-API surface pool"),
            OpenCall::FindEncoder(_) => CallContract::pointers(
                1,
                "find VA-API H.264 encoder",
                "system FFmpeg does not expose h264_vaapi",
            ),
            OpenCall::AllocateEncoder => CallContract::pointers(
                1,
                "allocate VA-API encoder",
                "FFmpeg returned a null codec context",
            ),
            OpenCall::ConfigureEncoder(_) => CallContract::nothing(),
            OpenCall::SetOption(_) => CallContract::status("configure VA-API encoder"),
            OpenCall::OpenEncoder => CallContract::status("open VA-API H.264 encoder"),
            OpenCall::AllocateGraph => CallContract::pointers(
                1,
                "allocate VA-API filter graph",
                "FFmpeg returned a null filter graph",
            ),
            OpenCall::FindBufferFilters { .. } => CallContract::pointers(
                2,
                "find FFmpeg buffer filters",
                "system FFmpeg does not expose buffer and buffersink",
            ),
            OpenCall::AllocateSource(_) => CallContract::pointers(
                1,
                "allocate host-frame buffer source",
                "FFmpeg returned a null filter context",
            ),
            OpenCall::AllocateSourceParameters => CallContract::pointers(
                1,
                "allocate host-frame source parameters",
                "FFmpeg returned a null parameter block",
            ),
            OpenCall::ConfigureSource(_) => CallContract::status("configure host-frame buffer source"),
            OpenCall::InitializeSource => CallContract::status("initialize host-frame buffer source"),
            OpenCall::CreateSink(_) => CallContract::status("initialize VA-API buffer sink"),
            OpenCall::ParseGraph => CallContract::status("parse VA-API filter graph"),
            OpenCall::CreateFilters => CallContract::status("create VA-API filters"),
            OpenCall::AttachDevice => CallContract::nothing(),
            OpenCall::ApplySegment => CallContract::status("initialize VA-API filters"),
            OpenCall::ReadSegmentEnds => CallContract::pointers(
                2,
                "link VA-API filter graph",
                "filter chain did not expose one input and one output",
            ),
            OpenCall::LinkSource => CallContract::status("link VA-API input staging filter"),
            OpenCall::LinkSink => CallContract::status("link VA-API conversion sink"),
            OpenCall::ConfigureGraph => CallContract::status("configure VA-API filter graph"),
            OpenCall::AllocateMediaObjects => CallContract::pointers(
                3,
                "allocate reusable FFmpeg media objects",
                "FFmpeg returned a null frame or packet",
            ),
            OpenCall::AllocatePreflightFrame => CallContract::pointers(
                1,
                "preflight VA-API surface pool",
                "FFmpeg returned a null frame",
            ),
            OpenCall::Preflight => CallContract::status("preflight VA-API surface pool"),
        }
    }
}

/// The answer to a call of the opening sequence.
#[derive(Clone, Debug, PartialEq, Eq)]
pub enum OpenReply {
    /// The call was made.
    Done,
    /// For each pointer that the call handed out, whether it was there.
    Pointers(Vec<bool>),
    /// The status of the call.
    Status(Status),
}

impl OpenReply {
    /// Whether this reply has the form that `call` is answered in.
    pub open spec fn answers(&self, call: OpenCall) -> bool {
        match call.contract().answer {
            Answer::Nothing => *self is Done,
            Answer::Pointers(count) => *self matches OpenReply::Pointers(present) && present@.len()
                == count,
            Answer::Status => *self is Status,
        }
    }

    /// Whether the call succeeded: every pointer is there, or the status is not negative.
    pub open spec fn accepted(&self) -> bool {
        match *self {
            OpenReply::Done => true,
            OpenReply::Pointers(present) => forall|i: int|
                0 <= i < present@.len() ==> #[trigger] present@[i],
            OpenReply::Status(status) => !status.failed(),
        }
    }

    /// The failure that this reply to `call` reports.
    pub open spec fn rejection(&self, call: OpenCall) -> VaapiErrorView {
        match *self {
            OpenReply::Status(status) => VaapiErrorView::native(
                VaapiErrorKind::Unavailable,
                call.contract().operation,
                status,
            ),
            _ => VaapiErrorView::fixed(
                VaapiErrorKind::Unavailable,
                call.contract().operation,
                call.contract().missing,
            ),
        }
    }

    /// Whether this reply has the form that `call` is answered in.
    pub fn fits(&self, call: OpenCall) -> (fits: bool)
        ensures
            fits == self.answers(call),
    {
        match (call.row().answer, self) {
            (Answer::Nothing, OpenReply::Done) => true,
            (Answer::Pointers(count), OpenReply::Pointers(present)) => present.len() == count,
            (Answer::Status, OpenReply::Status(_)) => true,
            _ => false,
        }
    }

    /// Accepts a successful reply to `call` and reports any other as a failure.
    pub fn judge(self, call: OpenCall) -> (judged: Result<(), VaapiError>)
        ensures
            match judged {
                Ok(()) => self.accepted(),
                Err(error) => !self.accepted() && error@ == self.rejection(call),
            },
    {
        match self {
            OpenReply::Done => Ok(()),
            OpenReply::Pointers(present) => {
                if all_present(&present) {
                    Ok(())
                } else {
                    let row = call.row();
                    Err(
                        VaapiError::fixed(
                            VaapiErrorKind::Unavailable,
                            row.operation,
                            row.missing,
                        ),
                    )
                }
            },
            OpenReply::Status(status) => check(
                status,
                VaapiErrorKind::Unavailable,
                call.row().operation,
            ),
        }
    }
}

fn all_present(present: &Vec<bool>) -> (all: bool)
    ensures
        all == forall|i: int| 0 <= i < present@.len() ==> #[trigger] present@[i],
{
    let mut index: usize = 0;
    while index < present.len()
        invariant
            index <= present@.len(),
            forall|i: int| 0 <= i < index ==> #[trigger] present@[i],
        decreases present@.len() - index,
    {
        if !present[index] {
            return false;
        }
        index = index + 1;
    }
    true
}

impl EncoderSettings {
    /// The text that the source of the filter graph is initialised from.
    pub open spec fn source_text(self) -> Seq<char> {
        "video_size="@ + text::signed_decimal(self.width as int) + "x"@ + text::signed_decimal(
            self.height as int,
        ) + ":time_base=1/"@ + text::signed_decimal(self.refresh_hz as int) + ":pixel_aspect=1/1"@
    }

    /// The chain of the filter graph: staging onto the device, then conversion to NV12.
    pub open spec fn filter_text(self) -> Seq<char> {
        let staging = match self.input_mode {
            InputMode::Host => "hwupload"@,
            InputMode::DrmPrime => "hwmap"@,
        };
        staging + ",scale_vaapi=w="@ + text::signed_decimal(self.width as int) + ":h="@
            + text::signed_decimal(self.height as int)
            + ":format=nv12:out_color_matrix=bt709:out_range=tv"@
    }
}

/// The text that the source of the filter graph is initialised from.
pub fn source_arguments(settings: EncoderSettings) -> (arguments: String)
    ensures
        arguments@ == settings.source_text(),
{
    let mut arguments = String::from_str("video_size=");
    text::push_signed_decimal(&mut arguments, settings.width);
    arguments.append("x");
    text::push_signed_decimal(&mut arguments, settings.height);
    arguments.append(":time_base=1/");
    text::push_signed_decimal(&mut arguments, settings.refresh_hz);
    arguments.append(":pixel_aspect=1/1");
    arguments
}

/// The chain of the filter graph: staging onto the device, then conversion to NV12.
pub fn filter_description(settings: EncoderSettings) -> (description: String)
    ensures
        description@ == settings.filter_text(),
{
    let mut description = match settings.input_mode {
        InputMode::Host => String::from_str("hwupload"),
        InputMode::DrmPrime => String::from_str("hwmap"),
    };
    description.append(",scale_vaapi=w=");
    text::push_signed_decimal(&mut description, settings.width);
    description.append(":h=");
    text::push_signed_decimal(&mut description, settings.height);
    description.append(":format=nv12:out_color_matrix=bt709:out_range=tv");
    description
}

/// Whether a slot of the filter graph is given the device: it holds a filter that has none.
pub fn takes_device(present: bool, has_device: bool) -> (takes: bool)
    ensures
        takes == (present && !has_device),
{
    present && !has_device
}

impl EncoderSettings {
    /// The calls that open the devices and the frame pools.
    pub open spec fn device_calls(self) -> Seq<OpenCall> {
        seq![OpenCall::CreateDrmDevice, OpenCall::DeriveVaapiDevice] + match self.input_mode {
            InputMode::Host => seq![],
            InputMode::DrmPrime => seq![
                OpenCall::AllocateDrmFrames,
                OpenCall::ReadDrmFrames,
                OpenCall::InitializeDrmFrames(self.drm_frames()),
            ],
        } + seq![
            OpenCall::AllocateSurfacePool,
            OpenCall::ReadSurfacePool,
            OpenCall::InitializeSurfacePool(self.surface_pool()),
        ]
    }

    /// The pool of imported frames: unallocated, in the size of the picture.
    pub open spec fn drm_frames(self) -> FramePool {
        FramePool {
            format: PixelFormat::DrmPrime,
            sw_format: PixelFormat::Bgra,
            width: self.width,
            height: self.height,
            initial_pool_size: 0,
        }
    }

    /// The pool of encoder surfaces: the picture padded to whole blocks.
    pub open spec fn surface_pool(self) -> FramePool {
        FramePool {
            format: PixelFormat::Vaapi,
            sw_format: PixelFormat::Nv12,
            width: config::aligned(self.width, 16),
            height: config::aligned(self.height, 32),
            initial_pool_size: ENCODER_SURFACE_POOL_SIZE,
        }
    }

    /// One refresh period, in seconds.
    pub open spec fn refresh_period(self) -> Ratio {
        Ratio { num: 1, den: self.refresh_hz }
    }

    /// The calls that open the codec.
    pub open spec fn codec_calls(self) -> Seq<OpenCall> {
        seq![
            OpenCall::FindEncoder(NativeName::Encoder),
            OpenCall::AllocateEncoder,
            OpenCall::ConfigureEncoder(self.codec_parameters()),
            OpenCall::SetOption(CodecOption::AccessUnitDelimiter),
            OpenCall::SetOption(CodecOption::BFrames),
            OpenCall::SetOption(CodecOption::Profile),
            OpenCall::SetOption(CodecOption::Level),
        ] + match self.gop {
            H264Gop::AllIntra => seq![
                OpenCall::SetOption(CodecOption::GopSize),
                OpenCall::SetOption(CodecOption::IdrInterval),
            ],
            H264Gop::LowLatency { .. } => seq![],
        } + seq![OpenCall::SetOption(CodecOption::AsyncDepth), OpenCall::OpenEncoder]
    }

    /// The codec parameters: no B-frames, low delay, and keyframes on every frame or on request.
    pub open spec fn codec_parameters(self) -> CodecParameters {
        CodecParameters {
            width: self.width,
            height: self.height,
            time_base: self.refresh_period(),
            framerate: Ratio { num: self.refresh_hz, den: 1 },
            format: PixelFormat::Vaapi,
            max_b_frames: 0,
            gop_size: match self.gop {
                H264Gop::AllIntra => 1,
                H264Gop::LowLatency { .. } => i32::MAX,
            },
            slices: 4,
            compression_level: 6,
            low_delay: true,
            bit_rate: self.bitrate_bps as i64,
        }
    }

    /// The calls that build the filter graph.
    pub open spec fn graph_calls(self) -> Seq<OpenCall> {
        seq![
            OpenCall::AllocateGraph,
            OpenCall::FindBufferFilters {
                source: NativeName::SourceFilter,
                sink: NativeName::SinkFilter,
            },
            OpenCall::AllocateSource(NativeName::Source),
            OpenCall::AllocateSourceParameters,
            OpenCall::ConfigureSource(self.source_parameters()),
            OpenCall::InitializeSource,
            OpenCall::CreateSink(NativeName::Sink),
            OpenCall::ParseGraph,
            OpenCall::CreateFilters,
            OpenCall::AttachDevice,
            OpenCall::ApplySegment,
            OpenCall::ReadSegmentEnds,
            OpenCall::LinkSource,
            OpenCall::LinkSink,
            OpenCall::ConfigureGraph,
        ]
    }

    /// The source parameters: CPU pixels, or imported frames of the DRM-PRIME frames context.
    pub open spec fn source_parameters(self) -> SourceParameters {
        SourceParameters {
            format: match self.input_mode {
                InputMode::Host => self.pixel_format.native(),
                InputMode::DrmPrime => PixelFormat::DrmPrime,
            },
            drm_frames: self.input_mode is DrmPrime,
            width: self.width,
            height: self.height,
            time_base: self.refresh_period(),
        }
    }

    /// The calls that allocate the reusable media objects and try the surface pool.
    pub open spec fn media_calls(self) -> Seq<OpenCall> {
        seq![
            OpenCall::AllocateMediaObjects,
            OpenCall::AllocatePreflightFrame,
            OpenCall::Preflight,
        ]
    }

    /// All the calls that open the encoder, in order.
    #[verifier::opaque]
    pub open spec fn opening_calls(self) -> Seq<OpenCall> {
        self.device_calls() + self.codec_calls() + self.graph_calls() + self.media_calls()
    }

    fn push_device_calls(self, plan: &mut Vec<OpenCall>)
        requires
            self.wf(),
        ensures
            final(plan)@ == old(plan)@ + self.device_calls(),
    {
        proof {
            config::law_valid_frame_is_bounded(self.width as int, self.height as int);
        }
        plan.push(OpenCall::CreateDrmDevice);
        plan.push(OpenCall::DeriveVaapiDevice);
        if let InputMode::DrmPrime = self.input_mode {
            plan.push(OpenCall::AllocateDrmFrames);
            plan.push(OpenCall::ReadDrmFrames);
            plan.push(
                OpenCall::InitializeDrmFrames(
                    FramePool {
                        format: PixelFormat::DrmPrime,
                        sw_format: PixelFormat::Bgra,
                        width: self.width,
                        height: self.height,
                        initial_pool_size: 0,
                    },
                ),
            );
        }
        plan.push(OpenCall::AllocateSurfacePool);
        plan.push(OpenCall::ReadSurfacePool);
        let width: i32 = match align(self.width, 16) {
            Ok(width) => width,
            Err(_) => unreached(),
        };
        let height: i32 = match align(self.height, 32) {
            Ok(height) => height,
            Err(_) => unreached(),
        };
        plan.push(
            OpenCall::InitializeSurfacePool(
                FramePool {
                    format: PixelFormat::Vaapi,
                    sw_format: PixelFormat::Nv12,
                    width,
                    height,
                    initial_pool_size: ENCODER_SURFACE_POOL_SIZE,
                },
            ),
        );
        assert(plan@ =~= old(plan)@ + self.device_calls());
    }

    fn push_codec_calls(self, plan: &mut Vec<OpenCall>)
        ensures
            final(plan)@ == old(plan)@ + self.codec_calls(),
    {
        plan.push(OpenCall::FindEncoder(NativeName::Encoder));
        plan.push(OpenCall::AllocateEncoder);
        plan.push(
            OpenCall::ConfigureEncoder(
                CodecParameters {
                    width: self.width,
                    height: self.height,
                    time_base: Ratio { num: 1, den: self.refresh_hz },
                    framerate: Ratio { num: self.refresh_hz, den: 1 },
                    format: PixelFormat::Vaapi,
                    max_b_frames: 0,
                    gop_size: if self.gop.forces_every_frame() {
                        1
                    } else {
                        i32::MAX
                    },
                    slices: 4,
                    compression_level: 6,
                    low_delay: true,
                    bit_rate: self.bitrate_bps as i64,
                },
            ),
        );
        plan.push(OpenCall::SetOption(CodecOption::AccessUnitDelimiter));
        plan.push(OpenCall::SetOption(CodecOption::BFrames));
        plan.push(OpenCall::SetOption(CodecOption::Profile));
        plan.push(OpenCall::SetOption(CodecOption::Level));
        if self.gop.forces_every_frame() {
            plan.push(OpenCall::SetOption(CodecOption::GopSize));
            plan.push(OpenCall::SetOption(CodecOption::IdrInterval));
        }
        plan.push(OpenCall::SetOption(CodecOption::AsyncDepth));
        plan.push(OpenCall::OpenEncoder);
        assert(plan@ =~= old(plan)@ + self.codec_calls());
    }

    fn push_graph_calls(self, plan: &mut Vec<OpenCall>)
        ensures
            final(plan)@ == old(plan)@ + self.graph_calls(),
    {
        plan.push(OpenCall::AllocateGraph);
        plan.push(
            OpenCall::FindBufferFilters {
                source: NativeName::SourceFilter,
                sink: NativeName::SinkFilter,
            },
        );
        plan.push(OpenCall::AllocateSource(NativeName::Source));
        plan.push(OpenCall::AllocateSourceParameters);
        plan.push(
            OpenCall::ConfigureSource(
                SourceParameters {
                    format: match self.input_mode {
                        InputMode::Host => self.pixel_format.ffmpeg(),
                        InputMode::DrmPrime => PixelFormat::DrmPrime,
                    },
                    drm_frames: matches!(self.input_mode, InputMode::DrmPrime),
                    width: self.width,
                    height: self.height,
                    time_base: Ratio { num: 1, den: self.refresh_hz },
                },
            ),
        );
        plan.push(OpenCall::InitializeSource);
        plan.push(OpenCall::CreateSink(NativeName::Sink));
        plan.push(OpenCall::ParseGraph);
        plan.push(OpenCall::CreateFilters);
        plan.push(OpenCall::AttachDevice);
        plan.push(OpenCall::ApplySegment);
        plan.push(OpenCall::ReadSegmentEnds);
        plan.push(OpenCall::LinkSource);
        plan.push(OpenCall::LinkSink);
        plan.push(OpenCall::ConfigureGraph);
        assert(plan@ =~= old(plan)@ + self.graph_calls());
    }

    fn push_media_calls(self, plan: &mut Vec<OpenCall>)
        ensures
            final(plan)@ == old(plan)@ + self.media_calls(),
    {
        plan.push(OpenCall::AllocateMediaObjects);
        plan.push(OpenCall::AllocatePreflightFrame);
        plan.push(OpenCall::Preflight);
        assert(plan@ =~= old(plan)@ + self.media_calls());
    }

    /// All the calls that open the encoder, in order.
    pub fn opening_plan(self) -> (plan: Vec<OpenCall>)
        requires
            self.wf(),
        ensures
            plan@ == self.opening_calls(),
    {
        let mut plan: Vec<OpenCall> = Vec::new();
        self.push_device_calls(&mut plan);
        self.push_codec_calls(&mut plan);
        self.push_graph_calls(&mut plan);
        self.push_media_calls(&mut plan);
        reveal(EncoderSettings::opening_calls);
        assert(plan@ =~= self.opening_calls());
        plan
    }
}

/// The opening of one encoder: the calls to make and how many of them have succeeded.
#[derive(Debug)]
pub struct EncoderOpening {
    plan: Vec<OpenCall>,
    next: usize,
}

/// What an [`EncoderOpening`] stands for.
pub struct OpeningView {
    pub calls: Seq<OpenCall>,
    pub next: nat,
}

impl View for EncoderOpening {
    type V = OpeningView;

    closed spec fn view(&self) -> OpeningView {
        OpeningView { calls: self.plan@, next: self.next as nat }
    }
}

impl OpeningView {
    /// The invariant of an opening: no more calls have succeeded than there are.
    pub open spec fn wf(self) -> bool {
        self.next <= self.calls.len()
    }

    /// Whether every call has succeeded.
    pub open spec fn complete(self) -> bool {
        self.next == self.calls.len()
    }

    /// The state after a reply to the pending call: one call further, or the failure.
    pub open spec fn step(self, reply: OpenReply) -> Result<OpeningView, VaapiErrorView> {
        if reply.accepted() {
            Ok(OpeningView { next: self.next + 1, ..self })
        } else {
            Err(reply.rejection(self.calls[self.next as int]))
        }
    }

    /// The state after replies to the pending calls, up to the first failure.
    pub open spec fn run(self, replies: Seq<OpenReply>) -> Result<OpeningView, VaapiErrorView>
        decreases replies.len(),
    {
        if replies.len() == 0 || self.complete() {
            Ok(self)
        } else {
            match self.step(replies[0]) {
                Ok(next) => next.run(replies.drop_first()),
                Err(error) => Err(error),
            }
        }
    }
}

impl EncoderOpening {
    /// The opening of an encoder with these settings, before the first call.
    pub fn new(settings: EncoderSettings) -> (opening: Self)
        requires
            settings.wf(),
        ensures
            opening@ == (OpeningView { calls: settings.opening_calls(), next: 0 }),
    {
        EncoderOpening { plan: settings.opening_plan(), next: 0 }
    }

    /// The call to make next, or `None` when the encoder is open.
    pub fn pending(&self) -> (call: Option<OpenCall>)
        requires
            self@.wf(),
        ensures
            call == if self@.complete() {
                None
            } else {
                Some(self@.calls[self@.next as int])
            },
    {
        if self.next < self.plan.len() {
            Some(self.plan[self.next])
        } else {
            None
        }
    }

    /// Takes the reply to the pending call. A failure leaves the opening where it is.
    pub fn advance(&mut self, reply: OpenReply) -> (advanced: Result<(), VaapiError>)
        requires
            old(self)@.wf(),
            !old(self)@.complete(),
            reply.answers(old(self)@.calls[old(self)@.next as int]),
        ensures
            final(self)@.wf(),
            match advanced {
                Ok(()) => old(self)@.step(reply) == Ok::<OpeningView, VaapiErrorView>(final(self)@),
                Err(error) => {
                    &&& old(self)@.step(reply) == Err::<OpeningView, VaapiErrorView>(error@)
                    &&& final(self)@ == old(self)@
                },
            },
    {
        let total: usize = self.plan.len();
        assert(self.next < total);
        let call = self.plan[self.next];
        match reply.judge(call) {
            Ok(()) => {
                self.next = self.next + 1;
                Ok(())
            },
            Err(error) => Err(error),
        }
    }
}

/// An encoder is open exactly when every one of its calls has succeeded.
pub proof fn law_open_when_every_call_succeeds(opening: OpeningView, replies: Seq<OpenReply>)
    requires
        opening.wf(),
    ensures
        (opening.run(replies) matches Ok(last) && last.complete()) <==> {
            &&& replies.len() >= opening.calls.len() - opening.next
            &&& forall|i: int|
                0 <= i < opening.calls.len() - opening.next ==> #[trigger] replies[i].accepted()
        },
    decreases replies.len(),
{
    if replies.len() > 0 && !opening.complete() {
        let rest = replies.drop_first();
        if replies[0].accepted() {
            let next = OpeningView { next: opening.next + 1, ..opening };
            law_open_when_every_call_succeeds(next, rest);
            if replies.len() >= opening.calls.len() - opening.next && (forall|i: int|
                0 <= i < opening.calls.len() - opening.next ==> #[trigger] replies[i].accepted()) {
                assert forall|i: int| 0 <= i < next.calls.len() - next.next implies #[trigger] rest[
                i].accepted() by {
                    assert(rest[i] == replies[i + 1]);
                }
            }
            if rest.len() >= next.calls.len() - next.next && (forall|i: int|
                0 <= i < next.calls.len() - next.next ==> #[trigger] rest[i].accepted()) {
                assert forall|i: int|
                    0 <= i < opening.calls.len() - opening.next implies #[trigger] replies[i].accepted() by {
                    if i > 0 {
                        assert(rest[i - 1] == replies[i]);
                    }
                }
            }
        }
    }
}

/// An opening that fails reports the first call that failed.
pub proof fn law_opening_reports_first_failure(
    opening: OpeningView,
    replies: Seq<OpenReply>,
    failed: int,
)
    requires
        opening.wf(),
        0 <= failed < replies.len(),
        opening.next + failed < opening.calls.len(),
        forall|i: int| 0 <= i < failed ==> #[trigger] replies[i].accepted(),
        !replies[failed].accepted(),
    ensures
        opening.run(replies) == Err::<OpeningView, VaapiErrorView>(
            replies[failed].rejection(opening.calls[opening.next + failed]),
        ),
    decreases failed,
{
    if failed > 0 {
        assert(replies[0].accepted());
        let rest = replies.drop_first();
        let next = OpeningView { next: opening.next + 1, ..opening };
        assert forall|i: int| 0 <= i < failed - 1 implies #[trigger] rest[i].accepted() by {
            assert(rest[i] == replies[i + 1]);
        }
        assert(rest[failed - 1] == replies[failed]);
        law_opening_reports_first_failure(next, rest, failed - 1);
    }
}

/// A native call of the opening that fails is reported as unavailable, with the operation that it
/// stands for and the description of its status.
pub proof fn law_failed_opening_calls_are_named(
    status: Status,
    pool: FramePool,
    option: CodecOption,
    source: SourceParameters,
    name: NativeName,
    call: OpenCall,
)
    requires
        status.code < 0,
    ensures
        !OpenReply::Status(status).accepted(),
        OpenReply::Status(status).rejection(call).kind is Unavailable,
        OpenReply::Status(status).rejection(call).detail == status.detail(),
        OpenReply::Status(status).answers(OpenCall::CreateDrmDevice),
        OpenReply::Status(status).rejection(OpenCall::CreateDrmDevice).operation
            == "create DRM render-node device"@,
        OpenReply::Status(status).answers(OpenCall::DeriveVaapiDevice),
        OpenReply::Status(status).rejection(OpenCall::DeriveVaapiDevice).operation
            == "derive VA-API device"@,
        OpenReply::Status(status).answers(OpenCall::InitializeDrmFrames(pool)),
        OpenReply::Status(status).rejection(OpenCall::InitializeDrmFrames(pool)).operation
            == "initialize DRM-PRIME frames context"@,
        OpenReply::Status(status).answers(OpenCall::InitializeSurfacePool(pool)),
        OpenReply::Status(status).rejection(OpenCall::InitializeSurfacePool(pool)).operation
            == "initialize VA-API surface pool"@,
        OpenReply::Status(status).answers(OpenCall::SetOption(option)),
        OpenReply::Status(status).rejection(OpenCall::SetOption(option)).operation
            == "configure VA-API encoder"@,
        OpenReply::Status(status).answers(OpenCall::OpenEncoder),
        OpenReply::Status(status).rejection(OpenCall::OpenEncoder).operation
            == "open VA-API H.264 encoder"@,
        OpenReply::Status(status).answers(OpenCall::ConfigureSource(source)),
        OpenReply::Status(status).rejection(OpenCall::ConfigureSource(source)).operation
            == "configure host-frame buffer source"@,
        OpenReply::Status(status).answers(OpenCall::InitializeSource),
        OpenReply::Status(status).rejection(OpenCall::InitializeSource).operation
            == "initialize host-frame buffer source"@,
        OpenReply::Status(status).answers(OpenCall::CreateSink(name)),
        OpenReply::Status(status).rejection(OpenCall::CreateSink(name)).operation
            == "initialize VA-API buffer sink"@,
        OpenReply::Status(status).answers(OpenCall::ParseGraph),
        OpenReply::Status(status).rejection(OpenCall::ParseGraph).operation
            == "parse VA-API filter graph"@,
        OpenReply::Status(status).answers(OpenCall::CreateFilters),
        OpenReply::Status(status).rejection(OpenCall::CreateFilters).operation
            == "create VA-API filters"@,
        OpenReply::Status(status).answers(OpenCall::ApplySegment),
        OpenReply::Status(status).rejection(OpenCall::ApplySegment).operation
            == "initialize VA-API filters"@,
        OpenReply::Status(status).answers(OpenCall::LinkSource),
        OpenReply::Status(status).rejection(OpenCall::LinkSource).operation
            == "link VA-API input staging filter"@,
        OpenReply::Status(status).answers(OpenCall::LinkSink),
        OpenReply::Status(status).rejection(OpenCall::LinkSink).operation
            == "link VA-API conversion sink"@,
        OpenReply::Status(status).answers(OpenCall::ConfigureGraph),
        OpenReply::Status(status).rejection(OpenCall::ConfigureGraph).operation
            == "configure VA-API filter graph"@,
        OpenReply::Status(status).answers(OpenCall::Preflight),
        OpenReply::Status(status).rejection(OpenCall::Preflight).operation
            == "preflight VA-API surface pool"@,
{
}

/// A call of the opening that hands out a null pointer is reported as unavailable, with the
/// operation that it stands for and what is missing.
pub proof fn law_missing_opening_objects_are_named(
    present: Vec<bool>,
    name: NativeName,
    other_name: NativeName,
    call: OpenCall,
)
    ensures
        OpenReply::Pointers(present).rejection(call).kind is Unavailable,
        OpenReply::Pointers(present).answers(OpenCall::AllocateDrmFrames) <==> present@.len()
            == 1,
        OpenReply::Pointers(present).rejection(OpenCall::AllocateDrmFrames)
            == VaapiErrorView::fixed(
            VaapiErrorKind::Unavailable,
            "allocate DRM-PRIME frames context",
            "FFmpeg returned a null frames context",
        ),
        OpenReply::Pointers(present).answers(OpenCall::ReadDrmFrames) <==> present@.len()
            == 1,
        OpenReply::Pointers(present).rejection(OpenCall::ReadDrmFrames)
            == VaapiErrorView::fixed(
            VaapiErrorKind::Unavailable,
            "allocate DRM-PRIME frames context",
            "FFmpeg returned an empty frames context",
        ),
        OpenReply::Pointers(present).answers(OpenCall::AllocateSurfacePool) <==> present@.len()
            == 1,
        OpenReply::Pointers(present).rejection(OpenCall::AllocateSurfacePool)
            == VaapiErrorView::fixed(
            VaapiErrorKind::Unavailable,
            "allocate VA-API surface pool",
            "FFmpeg returned a null frames context",
        ),
        OpenReply::Pointers(present).answers(OpenCall::ReadSurfacePool) <==> present@.len()
            == 1,
        OpenReply::Pointers(present).rejection(OpenCall::ReadSurfacePool)
            == VaapiErrorView::fixed(
            VaapiErrorKind::Unavailable,
            "allocate VA-API surface pool",
            "FFmpeg returned an empty frames context",
        ),
        OpenReply::Pointers(present).answers(OpenCall::FindEncoder(name)) <==> present@.len()
            == 1,
        OpenReply::Pointers(present).rejection(OpenCall::FindEncoder(name))
            == VaapiErrorView::fixed(
            VaapiErrorKind::Unavailable,
            "find VA-API H.264 encoder",
            "system FFmpeg does not expose h264_vaapi",
        ),
        OpenReply::Pointers(present).answers(OpenCall::AllocateEncoder) <==> present@.len()
            == 1,
        OpenReply::Pointers(present).rejection(OpenCall::AllocateEncoder)
            == VaapiErrorView::fixed(
            VaapiErrorKind::Unavailable,
            "allocate VA-API encoder",
            "FFmpeg returned a null codec context",
        ),
        OpenReply::Pointers(present).answers(OpenCall::AllocateGraph) <==> present@.len()
            == 1,
        OpenReply::Pointers(present).rejection(OpenCall::AllocateGraph)
            == VaapiErrorView::fixed(
            VaapiErrorKind::Unavailable,
            "allocate VA-API filter graph",
            "FFmpeg returned a null filter graph",
        ),
        OpenReply::Pointers(present).answers(OpenCall::FindBufferFilters { source: name, sink: other_name }) <==> present@.len()
            == 2,
        OpenReply::Pointers(present).rejection(OpenCall::FindBufferFilters { source: name, sink: other_name })
            == VaapiErrorView::fixed(
            VaapiErrorKind::Unavailable,
            "find FFmpeg buffer filters",
            "system FFmpeg does not expose buffer and buffersink",
        ),
        OpenReply::Pointers(present).answers(OpenCall::AllocateSource(name)) <==> present@.len()
            == 1,
        OpenReply::Pointers(present).rejection(OpenCall::AllocateSource(name))
            == VaapiErrorView::fixed(
            VaapiErrorKind::Unavailable,
            "allocate host-frame buffer source",
            "FFmpeg returned a null filter context",
        ),
        OpenReply::Pointers(present).answers(OpenCall::AllocateSourceParameters) <==> present@.len()
            == 1,
        OpenReply::Pointers(present).rejection(OpenCall::AllocateSourceParameters)
            == VaapiErrorView::fixed(
            VaapiErrorKind::Unavailable,
            "allocate host-frame source parameters",
            "FFmpeg returned a null parameter block",
        ),
        OpenReply::Pointers(present).answers(OpenCall::ReadSegmentEnds) <==> present@.len()
            == 2,
        OpenReply::Pointers(present).rejection(OpenCall::ReadSegmentEnds)
            == VaapiErrorView::fixed(
            VaapiErrorKind::Unavailable,
            "link VA-API filter graph",
            "filter chain did not expose one input and one output",
        ),
        OpenReply::Pointers(present).answers(OpenCall::AllocateMediaObjects) <==> present@.len()
            == 3,
        OpenReply::Pointers(present).rejection(OpenCall::AllocateMediaObjects)
            == VaapiErrorView::fixed(
            VaapiErrorKind::Unavailable,
            "allocate reusable FFmpeg media objects",
            "FFmpeg returned a null frame or packet",
        ),
        OpenReply::Pointers(present).answers(OpenCall::AllocatePreflightFrame) <==> present@.len()
            == 1,
        OpenReply::Pointers(present).rejection(OpenCall::AllocatePreflightFrame)
            == VaapiErrorView::fixed(
            VaapiErrorKind::Unavailable,
            "preflight VA-API surface pool",
            "FFmpeg returned a null frame",
        ),
{
}

/// A reply is accepted exactly when the call cannot fail, every pointer is there, or the status is
/// not negative; any other is reported as unavailable.
pub proof fn law_replies_are_judged(
    reply: OpenReply,
    call: OpenCall,
    judged: Result<(), VaapiError>,
)
    requires
        call_ensures(OpenReply::judge, (reply, call), judged),
    ensures
        judged is Ok <==> match reply {
            OpenReply::Done => true,
            OpenReply::Pointers(present) => forall|i: int|
                0 <= i < present@.len() ==> #[trigger] present@[i],
            OpenReply::Status(status) => status.code >= 0,
        },
        judged matches Err(error) ==> error@.kind is Unavailable,
{
}

/// The native objects are configured with the settings, each value in its own place.
pub proof fn law_native_objects_have_the_settings(settings: EncoderSettings)
    ensures
        settings.drm_frames().format is DrmPrime,
        settings.drm_frames().sw_format is Bgra,
        settings.drm_frames().width == settings.width,
        settings.drm_frames().height == settings.height,
        settings.drm_frames().initial_pool_size == 0,
        settings.surface_pool().format is Vaapi,
        settings.surface_pool().sw_format is Nv12,
        settings.surface_pool().initial_pool_size == 20,
        settings.codec_parameters().width == settings.width,
        settings.codec_parameters().height == settings.height,
        settings.codec_parameters().time_base == (Ratio { num: 1, den: settings.refresh_hz }),
        settings.codec_parameters().framerate == (Ratio { num: settings.refresh_hz, den: 1 }),
        settings.codec_parameters().format is Vaapi,
        settings.codec_parameters().max_b_frames == 0,
        settings.gop is AllIntra ==> settings.codec_parameters().gop_size == 1,
        settings.gop is LowLatency ==> settings.codec_parameters().gop_size == 0x7fff_ffff,
        settings.codec_parameters().slices == 4,
        settings.codec_parameters().compression_level == 6,
        settings.codec_parameters().low_delay,
        settings.codec_parameters().bit_rate == settings.bitrate_bps,
        settings.input_mode is Host && settings.pixel_format is Rgba
            ==> settings.source_parameters().format is Rgba,
        settings.input_mode is Host && settings.pixel_format is Bgra
            ==> settings.source_parameters().format is Bgra,
        settings.input_mode is DrmPrime ==> settings.source_parameters().format is DrmPrime,
        settings.source_parameters().drm_frames <==> settings.input_mode is DrmPrime,
        settings.source_parameters().width == settings.width,
        settings.source_parameters().height == settings.height,
        settings.source_parameters().time_base == (Ratio { num: 1, den: settings.refresh_hz }),
{
}

/// The calls of every opening, in order: the frames of an import come after the devices and in no
/// other mode, and the options of the all-intra policy before the last option and in no other
/// policy.
pub proof fn law_opening_sequence(settings: EncoderSettings)
    ensures
        settings.opening_calls() == seq![OpenCall::CreateDrmDevice, OpenCall::DeriveVaapiDevice] + (
        if settings.input_mode is DrmPrime {
            seq![
                OpenCall::AllocateDrmFrames,
                OpenCall::ReadDrmFrames,
                OpenCall::InitializeDrmFrames(settings.drm_frames()),
            ]
        } else {
            seq![]
        }) + seq![
            OpenCall::AllocateSurfacePool,
            OpenCall::ReadSurfacePool,
            OpenCall::InitializeSurfacePool(settings.surface_pool()),
            OpenCall::FindEncoder(NativeName::Encoder),
            OpenCall::AllocateEncoder,
            OpenCall::ConfigureEncoder(settings.codec_parameters()),
            OpenCall::SetOption(CodecOption::AccessUnitDelimiter),
            OpenCall::SetOption(CodecOption::BFrames),
            OpenCall::SetOption(CodecOption::Profile),
            OpenCall::SetOption(CodecOption::Level),
        ] + (if settings.gop is AllIntra {
            seq![
                OpenCall::SetOption(CodecOption::GopSize),
                OpenCall::SetOption(CodecOption::IdrInterval),
            ]
        } else {
            seq![]
        }) + seq![
            OpenCall::SetOption(CodecOption::AsyncDepth),
            OpenCall::OpenEncoder,
            OpenCall::AllocateGraph,
            OpenCall::FindBufferFilters {
                source: NativeName::SourceFilter,
                sink: NativeName::SinkFilter,
            },
            OpenCall::AllocateSource(NativeName::Source),
            OpenCall::AllocateSourceParameters,
            OpenCall::ConfigureSource(settings.source_parameters()),
            OpenCall::InitializeSource,
            OpenCall::CreateSink(NativeName::Sink),
            OpenCall::ParseGraph,
            OpenCall::CreateFilters,
            OpenCall::AttachDevice,
            OpenCall::ApplySegment,
            OpenCall::ReadSegmentEnds,
            OpenCall::LinkSource,
            OpenCall::LinkSink,
            OpenCall::ConfigureGraph,
            OpenCall::AllocateMediaObjects,
            OpenCall::AllocatePreflightFrame,
            OpenCall::Preflight,
        ],
{
    reveal(EncoderSettings::opening_calls);
}

/// Names and options are spelled as native code spells them.
pub proof fn law_native_spellings(
    name: NativeName,
    text: &'static str,
    option: CodecOption,
    pair: (&'static str, &'static str),
)
    requires
        call_ensures(NativeName::text, (name,), text),
        call_ensures(CodecOption::key_value, (option,), pair),
    ensures
        name is Encoder ==> text@ == "h264_vaapi"@,
        name is SourceFilter ==> text@ == "buffer"@,
        name is SinkFilter ==> text@ == "buffersink"@,
        name is Source ==> text@ == "in"@,
        name is Sink ==> text@ == "out"@,
        option is AccessUnitDelimiter ==> pair.0@ == "aud"@ && pair.1@ == "0"@,
        option is BFrames ==> pair.0@ == "bf"@ && pair.1@ == "0"@,
        option is Profile ==> pair.0@ == "profile"@ && pair.1@ == "high"@,
        option is Level ==> pair.0@ == "level"@ && pair.1@ == "4.1"@,
        option is GopSize ==> pair.0@ == "g"@ && pair.1@ == "1"@,
        option is IdrInterval ==> pair.0@ == "idr_interval"@ && pair.1@ == "1"@,
        option is AsyncDepth ==> pair.0@ == "async_depth"@ && pair.1@ == "1"@,
{
}

/// The texts of the filter graph hold the numbers of the settings, which read back from them, and
/// the staging filter of the input mode.
pub proof fn law_filter_texts_hold_the_settings(
    settings: EncoderSettings,
    arguments: String,
    description: String,
)
    requires
        call_ensures(source_arguments, (settings,), arguments),
        call_ensures(filter_description, (settings,), description),
    ensures
        exists|width: Seq<char>, height: Seq<char>, rate: Seq<char>|
            {
                &&& arguments@ == "video_size="@ + width + "x"@ + height + ":time_base=1/"@ + rate
                    + ":pixel_aspect=1/1"@
                &&& #[trigger] text::read_number(width) == settings.width
                &&& #[trigger] text::read_number(height) == settings.height
                &&& #[trigger] text::read_number(rate) == settings.refresh_hz
            },
        exists|staging: Seq<char>, width: Seq<char>, height: Seq<char>|
            {
                &&& description@ == #[trigger] (staging + ",scale_vaapi=w="@) + width + ":h="@
                    + height + ":format=nv12:out_color_matrix=bt709:out_range=tv"@
                &&& settings.input_mode is Host ==> staging == "hwupload"@
                &&& settings.input_mode is DrmPrime ==> staging == "hwmap"@
                &&& #[trigger] text::read_number(width) == settings.width
                &&& #[trigger] text::read_number(height) == settings.height
            },
{
    let width = text::signed_decimal(settings.width as int);
    let height = text::signed_decimal(settings.height as int);
    let rate = text::signed_decimal(settings.refresh_hz as int);
    text::law_decimals_read_back(settings.width as int);
    text::law_decimals_read_back(settings.height as int);
    text::law_decimals_read_back(settings.refresh_hz as int);
    assert(text::read_number(width) == settings.width && text::read_number(height)
        == settings.height && text::read_number(rate) == settings.refresh_hz);
    let staging = if settings.input_mode is Host {
        "hwupload"@
    } else {
        "hwmap"@
    };
    assert(description@ == (staging + ",scale_vaapi=w="@) + width + ":h="@ + height
        + ":format=nv12:out_color_matrix=bt709:out_range=tv"@);
}

/// A slot of the graph is given the device exactly when it holds a filter that has none.
pub proof fn law_devices_are_given_once(present: bool, has_device: bool, takes: bool)
    requires
        call_ensures(takes_device, (present, has_device), takes),
    ensures
        takes ==> present && !has_device,
        present && !takes ==> has_device,
{
}

/// CPU layouts keep their names in native code.
pub proof fn law_layouts_keep_their_names(layout: HostPixelFormat, format: PixelFormat)
    requires
        call_ensures(HostPixelFormat::ffmpeg, (layout,), format),
    ensures
        layout is Rgba <==> format is Rgba,
        layout is Bgra <==> format is Bgra,
        layout.native() == format,
{
}

} // verus!
