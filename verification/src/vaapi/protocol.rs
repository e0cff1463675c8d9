//! The submission protocol of an encoder, as a relation between answers and states.

use vstd::prelude::*;

use crate::status::{self, again_code, Status};
use crate::vaapi::config::{self, VaapiHostConfiguration};
use crate::vaapi::drm::{
    DescriptorHead, DrmObject, DrmPlaneLayout, DrmPrimeFrame, DrmPrimePlane, AV_DRM_MAX_PLANES,
};
use crate::vaapi::error::{VaapiErrorKind, VaapiErrorView};
use crate::vaapi::host;
use crate::vaapi::opening::{EncoderSettings, InputMode, OpeningView, PixelFormat};

verus! {

/// Constants of the native library that answers are compared with.
#[derive(Clone, Copy, Debug, PartialEq, Eq, Structural)]
pub struct NativeCodes {
    /// The status of a codec that has nothing to hand out yet.
    pub again: i32,
    /// The status of a codec that has handed everything out.
    pub end_of_file: i32,
    /// The flag of a packet that holds a keyframe.
    pub key_flag: i32,
}

impl NativeCodes {
    /// The constants of this system: those of the native library, and the status that stands for
    /// the system's own error number.
    pub fn native(end_of_file: i32, key_flag: i32) -> (codes: Self)
        ensures
            codes.end_of_file == end_of_file,
            codes.key_flag == key_flag,
            status::numbers_again(-codes.again),
    {
        NativeCodes { again: again_code(), end_of_file, key_flag }
    }
}

/// The alignment of the rows of a CPU frame in its native buffer.
pub const HOST_BUFFER_ALIGNMENT: i32 = 32;

/// One packet emitted for one submitted frame.
#[derive(Clone, Debug, PartialEq, Eq)]
pub struct EncodedPacket {
    pub annex_b: Vec<u8>,
    pub keyframe: bool,
    pub pts: i64,
    pub input_released: bool,
}

/// What an [`EncodedPacket`] holds.
pub struct PacketView {
    pub annex_b: Seq<u8>,
    pub keyframe: bool,
    pub pts: i64,
    pub input_released: bool,
}

impl View for EncodedPacket {
    type V = PacketView;

    open spec fn view(&self) -> PacketView {
        PacketView {
            annex_b: self.annex_b@,
            keyframe: self.keyframe,
            pts: self.pts,
            input_released: self.input_released,
        }
    }
}

/// What is read of a received packet before its bytes.
#[derive(Clone, Copy, Debug, PartialEq, Eq, Structural)]
pub struct PacketHeader {
    pub pts: i64,
    pub size: i32,
    /// Whether the packet points at any bytes.
    pub present: bool,
    pub flags: i32,
}

/// Where an encoder is in the submission of one frame.
#[derive(Clone, Copy, Debug, PartialEq, Eq, Structural)]
pub enum Stage {
    /// No frame is being submitted.
    Idle,
    AllocateHostFrame,
    MakeHostFrameWritable,
    ReadLinesize,
    CopyHostRows { destination_stride: usize },
    UploadHostFrame,
    AllocateDescriptor,
    DuplicatePlane { index: usize },
    WrapDescriptor,
    RetainFrames,
    MapFrame,
    ReceiveFiltered,
    SendFiltered,
    ReceivePacket,
    InspectPacket,
    CopyPacket { size: usize, keyframe: bool },
    DrainPacket,
    /// Drop the mapped frame and see whether the native side let its memory go.
    ReleaseInput,
    /// Destroy the filter graph and look again.
    DestroyGraph,
    /// Close the duplicated descriptors and free the native descriptor.
    Discard,
    /// Drop the wrapped frame, and its memory with it.
    DropFrame,
    /// The result of the submission is there.
    Finished,
}

/// The native call that a stage stands for.
#[derive(Clone, Copy, Debug, PartialEq, Eq, Structural)]
pub enum Call {
    /// Give the input frame these values and a buffer with rows on this alignment.
    AllocateHostFrame { format: PixelFormat, width: i32, height: i32, pts: i64, alignment: i32 },
    MakeHostFrameWritable,
    ReadLinesize,
    CopyHostRows { destination_stride: usize },
    UploadHostFrame,
    AllocateDescriptor,
    DuplicatePlane { fd: i32 },
    /// Fill the native descriptor and give the input frame these values and the descriptor.
    WrapDescriptor { format: PixelFormat, width: i32, height: i32, pts: i64 },
    RetainFrames,
    MapFrame,
    ReceiveFiltered,
    SendFiltered { intra: bool, pts: i64 },
    ReceivePacket,
    InspectPacket,
    CopyPacket { size: usize },
    DrainPacket,
    ReleaseInput,
    DestroyGraph,
    Discard,
    DropFrame,
}

/// The answer to a call.
#[derive(Clone, Debug, PartialEq, Eq)]
pub enum Reply {
    /// The call was made.
    Done,
    /// Whether the call handed out a pointer.
    Pointer(bool),
    /// The status of the call.
    Status(Status),
    /// The length of a native row.
    Linesize(i32),
    /// A duplicated file descriptor, or a negative number and why.
    Duplicate { fd: i32, os_error: String },
    /// The head of the received packet.
    Packet(PacketHeader),
    /// The bytes of the received packet.
    Bytes(Vec<u8>),
    /// Whether the native side has let the imported memory go.
    Released(bool),
}

/// What one submission has come to.
pub struct JobView {
    pub pts: i64,
    pub force_keyframe: bool,
    /// The bytes of a CPU frame.
    pub pixels: Seq<u8>,
    /// The row length of a CPU frame.
    pub stride: usize,
    pub fourcc: u32,
    pub modifier: u64,
    pub planes: Seq<DrmPrimePlane>,
    /// The descriptors that have been duplicated.
    pub fds: Seq<i32>,
    pub objects: Seq<DrmObject>,
    pub layouts: Seq<DrmPlaneLayout>,
    pub packet: Option<PacketView>,
    pub failure: Option<VaapiErrorView>,
}

impl JobView {
    /// A submission of which nothing has been done.
    pub open spec fn fresh(pts: i64, force_keyframe: bool) -> Self {
        JobView {
            pts,
            force_keyframe,
            pixels: seq![],
            stride: 0,
            fourcc: 0,
            modifier: 0,
            planes: seq![],
            fds: seq![],
            objects: seq![],
            layouts: seq![],
            packet: None,
            failure: None,
        }
    }
}

/// What a [`VaapiHostEncoder`] stands for.
pub struct EncoderView {
    pub settings: EncoderSettings,
    /// The bytes of the render node's path.
    pub device: Seq<u8>,
    pub codes: NativeCodes,
    pub opening: OpeningView,
    /// The packets since the last keyframe.
    pub frames_since_keyframe: u32,
    /// Whether the filter graph had to be destroyed.
    pub graph_lost: bool,
    pub stage: Stage,
    pub job: JobView,
}

impl EncoderSettings {
    /// The bytes of one row of a CPU picture.
    pub open spec fn row_bytes(self) -> int {
        self.width * 4
    }

    /// The height that imported memory is sized for.
    pub open spec fn object_height(self) -> int {
        config::aligned(self.height, 32) as int
    }
}

impl VaapiHostConfiguration {
    /// The settings of an encoder that is opened with this configuration.
    pub open spec fn settings(&self, input_mode: InputMode) -> EncoderSettings {
        EncoderSettings {
            width: self.width as i32,
            height: self.height as i32,
            refresh_hz: self.refresh_hz as i32,
            bitrate_bps: self.bitrate_bps,
            pixel_format: self.pixel_format,
            input_mode,
            gop: self.gop,
        }
    }

    /// Whether an encoder can be opened: the configuration is valid, and native code can read the
    /// path of the render node.
    pub open spec fn openable(&self) -> bool {
        self.valid() && !config::has_interior_nul(self.device@)
    }

    /// The failure that a configuration with which no encoder can be opened reports.
    pub open spec fn open_rejection(&self) -> VaapiErrorView {
        if !self.valid() {
            self.rejection()
        } else {
            config::render_node_rejection()
        }
    }
}

/// The failure of one step of an encode for a fixed reason.
pub open spec fn encode_failure(operation: &str, detail: &str) -> VaapiErrorView {
    VaapiErrorView::fixed(VaapiErrorKind::EncodeFailed, operation, detail)
}

/// The failure of one step of an encode that a native status reports.
pub open spec fn encode_status(operation: &str, status: Status) -> VaapiErrorView {
    VaapiErrorView::native(VaapiErrorKind::EncodeFailed, operation, status)
}

/// The failure of a packet that is not what the encoder owes.
pub open spec fn output_failure(operation: &str, detail: &str) -> VaapiErrorView {
    VaapiErrorView::fixed(VaapiErrorKind::InvalidOutput, operation, detail)
}

impl EncoderView {
    /// An encoder before its first native call. The first frame is due as a keyframe.
    pub open spec fn initial(
        settings: EncoderSettings,
        device: Seq<u8>,
        codes: NativeCodes,
    ) -> Self {
        EncoderView {
            settings,
            device,
            codes,
            opening: OpeningView { calls: settings.opening_calls(), next: 0 },
            frames_since_keyframe: settings.gop.interval(),
            graph_lost: false,
            stage: Stage::Idle,
            job: JobView::fresh(0, false),
        }
    }

    /// The encoder at the start of the submission of a CPU frame.
    pub open spec fn submitting_host(
        self,
        pixels: Seq<u8>,
        stride: usize,
        pts: i64,
        force_keyframe: bool,
    ) -> Self {
        EncoderView {
            stage: Stage::AllocateHostFrame,
            job: JobView { pixels, stride, ..JobView::fresh(pts, force_keyframe) },
            ..self
        }
    }

    /// The encoder at the start of the submission of an imported frame.
    pub open spec fn submitting_import(
        self,
        frame: DrmPrimeFrame,
        pts: i64,
        force_keyframe: bool,
    ) -> Self {
        EncoderView {
            stage: Stage::AllocateDescriptor,
            job: JobView {
                fourcc: frame.fourcc,
                modifier: frame.modifier,
                planes: frame.planes@,
                ..JobView::fresh(pts, force_keyframe)
            },
            ..self
        }
    }

    /// The failure that a CPU frame which cannot be submitted reports.
    pub open spec fn host_rejection(self, stride: usize) -> VaapiErrorView {
        match self.settings.input_mode {
            InputMode::Host => host::host_frame_rejection(self.settings.height, stride),
            InputMode::DrmPrime => VaapiErrorView::fixed(
                VaapiErrorKind::InvalidConfiguration,
                "validate host frame",
                "encoder was opened for DRM-PRIME input",
            ),
        }
    }

    /// The failure that an imported frame which cannot be submitted reports.
    pub open spec fn import_rejection(self) -> VaapiErrorView {
        match self.settings.input_mode {
            InputMode::DrmPrime => DrmPrimeFrame::rejection(),
            InputMode::Host => VaapiErrorView::fixed(
                VaapiErrorKind::InvalidConfiguration,
                "validate DRM-PRIME frame",
                "encoder was opened for host input",
            ),
        }
    }

    /// The encoder after the result of a submission was taken.
    pub open spec fn settled(self) -> Self {
        EncoderView {
            stage: Stage::Idle,
            job: JobView { packet: None, failure: None, ..self.job },
            ..self
        }
    }

    /// Whether the encoder is open and no frame is being submitted.
    pub open spec fn idle(self) -> bool {
        self.opening.complete() && self.stage is Idle
    }

    /// Whether the encoder can take a frame.
    pub open spec fn ready(self) -> bool {
        self.idle() && !self.graph_lost
    }

    /// Whether the reference policy asks for a keyframe.
    pub open spec fn keyframe_due(self) -> bool {
        ||| self.settings.gop is AllIntra
        ||| self.frames_since_keyframe >= self.settings.gop.interval()
    }

    /// Whether the frame being submitted is to be coded as a keyframe.
    pub open spec fn intra(self) -> bool {
        self.job.force_keyframe || self.keyframe_due()
    }

    /// The native call that the stage stands for.
    pub open spec fn call(self) -> Option<Call> {
        match self.stage {
            Stage::Idle => None,
            Stage::Finished => None,
            Stage::AllocateHostFrame => Some(
                Call::AllocateHostFrame {
                    format: self.settings.pixel_format.native(),
                    width: self.settings.width,
                    height: self.settings.height,
                    pts: self.job.pts,
                    alignment: HOST_BUFFER_ALIGNMENT,
                },
            ),
            Stage::MakeHostFrameWritable => Some(Call::MakeHostFrameWritable),
            Stage::ReadLinesize => Some(Call::ReadLinesize),
            Stage::CopyHostRows { destination_stride } => Some(
                Call::CopyHostRows { destination_stride },
            ),
            Stage::UploadHostFrame => Some(Call::UploadHostFrame),
            Stage::AllocateDescriptor => Some(Call::AllocateDescriptor),
            Stage::DuplicatePlane { index } => Some(
                Call::DuplicatePlane { fd: self.job.planes[index as int].fd },
            ),
            Stage::WrapDescriptor => Some(
                Call::WrapDescriptor {
                    format: PixelFormat::DrmPrime,
                    width: self.settings.width,
                    height: self.settings.height,
                    pts: self.job.pts,
                },
            ),
            Stage::RetainFrames => Some(Call::RetainFrames),
            Stage::MapFrame => Some(Call::MapFrame),
            Stage::ReceiveFiltered => Some(Call::ReceiveFiltered),
            Stage::SendFiltered => Some(
                Call::SendFiltered { intra: self.intra(), pts: self.job.pts },
            ),
            Stage::ReceivePacket => Some(Call::ReceivePacket),
            Stage::InspectPacket => Some(Call::InspectPacket),
            Stage::CopyPacket { size, .. } => Some(Call::CopyPacket { size }),
            Stage::DrainPacket => Some(Call::DrainPacket),
            Stage::ReleaseInput => Some(Call::ReleaseInput),
            Stage::DestroyGraph => Some(Call::DestroyGraph),
            Stage::Discard => Some(Call::Discard),
            Stage::DropFrame => Some(Call::DropFrame),
        }
    }

    /// Whether a reply has the form that the pending call is answered in.
    pub open spec fn expects(self, reply: Reply) -> bool {
        match self.stage {
            Stage::Idle => false,
            Stage::Finished => false,
            Stage::CopyHostRows { .. } => reply is Done,
            Stage::Discard => reply is Done,
            Stage::DropFrame => reply is Done,
            Stage::AllocateDescriptor => reply is Pointer,
            Stage::WrapDescriptor => reply is Pointer,
            Stage::RetainFrames => reply is Pointer,
            Stage::ReadLinesize => reply is Linesize,
            Stage::DuplicatePlane { .. } => reply is Duplicate,
            Stage::InspectPacket => reply is Packet,
            Stage::CopyPacket { size, .. } => reply matches Reply::Bytes(bytes) && bytes@.len()
                == size,
            Stage::ReleaseInput => reply is Released,
            Stage::DestroyGraph => reply is Released,
            Stage::AllocateHostFrame => reply is Status,
            Stage::MakeHostFrameWritable => reply is Status,
            Stage::UploadHostFrame => reply is Status,
            Stage::MapFrame => reply is Status,
            Stage::ReceiveFiltered => reply is Status,
            Stage::SendFiltered => reply is Status,
            Stage::ReceivePacket => reply is Status,
            Stage::DrainPacket => reply is Status,
        }
    }

    /// The head of the native descriptor: one layer with every plane, each in a memory object of
    /// its own.
    pub open spec fn descriptor_head(self) -> DescriptorHead {
        DescriptorHead {
            nb_objects: self.job.planes.len() as i32,
            nb_layers: 1,
            format: self.job.fourcc,
            nb_planes: self.job.planes.len() as i32,
        }
    }

    /// The same encoder at another stage.
    pub open spec fn at(self, stage: Stage) -> Self {
        EncoderView { stage, ..self }
    }

    /// The submission has failed and goes on at `stage`.
    pub open spec fn failing(self, stage: Stage, error: VaapiErrorView) -> Self {
        EncoderView {
            stage,
            job: JobView { packet: None, failure: Some(error), ..self.job },
            ..self
        }
    }

    /// The stage after the packet is there, or is known to be missing: an imported frame has to
    /// be released first.
    pub open spec fn after_receipt(self) -> Stage {
        match self.settings.input_mode {
            InputMode::Host => Stage::Finished,
            InputMode::DrmPrime => Stage::ReleaseInput,
        }
    }

    /// No packet can be handed out for the submitted frame.
    pub open spec fn receipt_failed(self, error: VaapiErrorView) -> Self {
        self.failing(self.after_receipt(), error)
    }

    /// A step that succeeds unless its status is negative.
    pub open spec fn on_status(
        self,
        status: Status,
        operation: &str,
        next: Stage,
        on_failure: Stage,
    ) -> Self {
        if status.failed() {
            self.failing(on_failure, encode_status(operation, status))
        } else {
            self.at(next)
        }
    }

    /// The state after the descriptor of plane `index` was duplicated, or could not be.
    pub open spec fn on_duplicate(self, index: int, fd: i32, os_error: Seq<char>) -> Self {
        let plane = self.job.planes[index];
        let height = self.settings.object_height();
        if fd < 0 {
            self.failing(
                Stage::Discard,
                VaapiErrorView {
                    kind: VaapiErrorKind::EncodeFailed,
                    operation: "duplicate DRM-PRIME file descriptor"@,
                    detail: os_error,
                },
            )
        } else if !plane.fits(height) {
            EncoderView {
                job: JobView { fds: self.job.fds.push(fd), ..self.job },
                ..self
            }.failing(Stage::Discard, plane.rejection(height))
        } else {
            EncoderView {
                job: JobView {
                    fds: self.job.fds.push(fd),
                    objects: self.job.objects.push(
                        plane.memory_object(fd, self.job.modifier, height),
                    ),
                    layouts: self.job.layouts.push(plane.layout_in(index)),
                    ..self.job
                },
                stage: if index + 1 < self.job.planes.len() {
                    Stage::DuplicatePlane { index: (index + 1) as usize }
                } else {
                    Stage::WrapDescriptor
                },
                ..self
            }
        }
    }

    /// The state after the codec was asked for the packet of the submitted frame.
    pub open spec fn on_receive(self, status: Status) -> Self {
        if status.code == self.codes.again {
            self.receipt_failed(
                encode_failure(
                    "receive VA-API packet",
                    "low-latency encoder produced no packet for the submitted frame",
                ),
            )
        } else if status.failed() {
            self.receipt_failed(encode_status("receive VA-API packet", status))
        } else {
            self.at(Stage::InspectPacket)
        }
    }

    /// The state after the head of the packet was read.
    pub open spec fn on_header(self, header: PacketHeader) -> Self {
        if header.pts != self.job.pts {
            self.receipt_failed(
                output_failure(
                    "validate VA-API packet",
                    "packet PTS does not match the submitted frame",
                ),
            )
        } else if header.size < 0 {
            self.receipt_failed(
                output_failure("validate VA-API packet", "packet size is negative"),
            )
        } else if header.size == 0 || !header.present {
            self.receipt_failed(
                output_failure("validate VA-API packet", "encoder returned an empty packet"),
            )
        } else {
            self.at(
                Stage::CopyPacket {
                    size: header.size as usize,
                    keyframe: header.flags & self.codes.key_flag != 0,
                },
            )
        }
    }

    /// The state after the bytes of the packet were read.
    pub open spec fn on_bytes(self, bytes: Seq<u8>, keyframe: bool) -> Self {
        EncoderView {
            frames_since_keyframe: if keyframe {
                0
            } else if self.frames_since_keyframe == u32::MAX {
                u32::MAX
            } else {
                (self.frames_since_keyframe + 1) as u32
            },
            stage: Stage::DrainPacket,
            job: JobView {
                packet: Some(
                    PacketView {
                        annex_b: bytes,
                        keyframe,
                        pts: self.job.pts,
                        input_released: self.settings.input_mode is Host,
                    },
                ),
                ..self.job
            },
            ..self
        }
    }

    /// The state after the codec was asked for another packet, which it must not have.
    pub open spec fn on_drain(self, status: Status) -> Self {
        if status.code == 0 {
            self.receipt_failed(
                output_failure(
                    "validate VA-API packet count",
                    "one submitted frame produced more than one packet",
                ),
            )
        } else if status.code != self.codes.again && status.code != self.codes.end_of_file {
            self.receipt_failed(encode_status("drain VA-API encoder", status))
        } else {
            self.at(self.after_receipt())
        }
    }

    /// The state after the imported frame was dropped.
    pub open spec fn on_release(self, released: bool) -> Self {
        if released {
            EncoderView {
                stage: Stage::Finished,
                job: JobView {
                    packet: match self.job.packet {
                        Some(packet) => Some(PacketView { input_released: true, ..packet }),
                        None => None,
                    },
                    ..self.job
                },
                ..self
            }
        } else {
            self.at(Stage::DestroyGraph)
        }
    }

    /// The state after the filter graph was destroyed over an unreleased frame.
    pub open spec fn on_graph_destroyed(self, released: bool) -> Self {
        EncoderView { graph_lost: true, ..self }.failing(
            Stage::Finished,
            encode_failure(
                "release DRM-PRIME frame",
                if released {
                    "FFmpeg retained the imported frame beyond one converted output"
                } else {
                    "FFmpeg did not release the imported frame when its graph was destroyed"
                },
            ),
        )
    }

    /// The state after a reply to the pending call.
    pub open spec fn next(self, reply: Reply) -> Self {
        match (self.stage, reply) {
            (Stage::AllocateHostFrame, Reply::Status(status)) => self.on_status(
                status,
                "allocate host-frame buffer",
                Stage::MakeHostFrameWritable,
                Stage::Finished,
            ),
            (Stage::MakeHostFrameWritable, Reply::Status(status)) => self.on_status(
                status,
                "make host-frame buffer writable",
                Stage::ReadLinesize,
                Stage::Finished,
            ),
            (Stage::ReadLinesize, Reply::Linesize(linesize)) => if host::destination_usable(
                linesize,
                self.settings.height,
                self.settings.row_bytes() as usize,
            ) {
                self.at(Stage::CopyHostRows { destination_stride: linesize as usize })
            } else {
                self.failing(Stage::Finished, host::destination_rejection(linesize))
            },
            (Stage::CopyHostRows { .. }, Reply::Done) => self.at(Stage::UploadHostFrame),
            (Stage::UploadHostFrame, Reply::Status(status)) => self.on_status(
                status,
                "upload host frame",
                Stage::ReceiveFiltered,
                Stage::Finished,
            ),
            (Stage::AllocateDescriptor, Reply::Pointer(present)) => if present {
                self.at(Stage::DuplicatePlane { index: 0 })
            } else {
                self.failing(
                    Stage::Finished,
                    encode_failure(
                        "allocate DRM-PRIME descriptor",
                        "FFmpeg returned a null allocation",
                    ),
                )
            },
            (Stage::DuplicatePlane { index }, Reply::Duplicate { fd, os_error }) => self.on_duplicate(
                index as int,
                fd,
                os_error@,
            ),
            (Stage::WrapDescriptor, Reply::Pointer(present)) => if present {
                self.at(Stage::RetainFrames)
            } else {
                self.failing(
                    Stage::Discard,
                    encode_failure(
                        "wrap DRM-PRIME descriptor",
                        "FFmpeg returned a null buffer reference",
                    ),
                )
            },
            (Stage::RetainFrames, Reply::Pointer(present)) => if present {
                self.at(Stage::MapFrame)
            } else {
                self.failing(
                    Stage::DropFrame,
                    encode_failure(
                        "wrap DRM-PRIME frame",
                        "FFmpeg could not retain the DRM frames context",
                    ),
                )
            },
            (Stage::MapFrame, Reply::Status(status)) => self.on_status(
                status,
                "map DRM-PRIME frame",
                Stage::ReceiveFiltered,
                Stage::DropFrame,
            ),
            (Stage::ReceiveFiltered, Reply::Status(status)) => self.on_status(
                status,
                "receive converted VA-API frame",
                Stage::SendFiltered,
                self.after_receipt(),
            ),
            (Stage::SendFiltered, Reply::Status(status)) => self.on_status(
                status,
                "submit VA-API frame",
                Stage::ReceivePacket,
                self.after_receipt(),
            ),
            (Stage::ReceivePacket, Reply::Status(status)) => self.on_receive(status),
            (Stage::InspectPacket, Reply::Packet(header)) => self.on_header(header),
            (Stage::CopyPacket { keyframe, .. }, Reply::Bytes(bytes)) => self.on_bytes(
                bytes@,
                keyframe,
            ),
            (Stage::DrainPacket, Reply::Status(status)) => self.on_drain(status),
            (Stage::ReleaseInput, Reply::Released(released)) => self.on_release(released),
            (Stage::DestroyGraph, Reply::Released(released)) => self.on_graph_destroyed(released),
            (Stage::Discard, Reply::Done) => self.at(Stage::Finished),
            (Stage::DropFrame, Reply::Done) => self.at(Stage::Finished),
            _ => self,
        }
    }

    /// The result of a finished submission.
    pub open spec fn outcome(self) -> Result<PacketView, VaapiErrorView> {
        match self.job.failure {
            Some(error) => Err(error),
            None => Ok(self.job.packet->0),
        }
    }

    /// Whether the frames of the pending stage are CPU frames.
    pub open spec fn host_stage(self) -> bool {
        match self.stage {
            Stage::AllocateHostFrame => true,
            Stage::MakeHostFrameWritable => true,
            Stage::ReadLinesize => true,
            Stage::CopyHostRows { .. } => true,
            Stage::UploadHostFrame => true,
            _ => false,
        }
    }

    /// Whether the frames of the pending stage are imported frames.
    pub open spec fn import_stage(self) -> bool {
        match self.stage {
            Stage::AllocateDescriptor => true,
            Stage::DuplicatePlane { .. } => true,
            Stage::WrapDescriptor => true,
            Stage::RetainFrames => true,
            Stage::MapFrame => true,
            Stage::ReleaseInput => true,
            Stage::DestroyGraph => true,
            Stage::Discard => true,
            Stage::DropFrame => true,
            _ => false,
        }
    }

    /// Whether the packet of the submission is the one that is owed.
    pub open spec fn packet_owed(self, released: bool) -> bool {
        &&& self.job.packet matches Some(packet)
        &&& packet.pts == self.job.pts
        &&& packet.annex_b.len() > 0
        &&& packet.input_released == released
    }

    /// Whether plane `i` has been described, over its duplicated descriptor.
    pub open spec fn plane_described(self, i: int) -> bool {
        let plane = self.job.planes[i];
        let height = self.settings.object_height();
        &&& plane.fits(height)
        &&& self.job.objects[i] == plane.memory_object(self.job.fds[i], self.job.modifier, height)
        &&& self.job.layouts[i] == plane.layout_in(i)
    }

    /// Whether the first `count` planes, and no others, have been duplicated and described.
    pub open spec fn described(self, count: int) -> bool {
        &&& self.job.fds.len() == count
        &&& self.job.objects.len() == count
        &&& self.job.layouts.len() == count
        &&& forall|i: int| 0 <= i < count ==> #[trigger] self.plane_described(i)
    }

    /// What holds of the submission at each stage.
    pub open spec fn job_wf(self) -> bool {
        match self.stage {
            Stage::Idle => true,
            Stage::Finished => self.job.failure is Some || self.packet_owed(true),
            Stage::Discard => self.job.failure is Some,
            Stage::DropFrame => self.job.failure is Some,
            Stage::ReleaseInput => self.job.failure is Some || self.packet_owed(false),
            Stage::DestroyGraph => self.job.failure is Some || self.packet_owed(false),
            Stage::DrainPacket => self.job.failure is None && self.packet_owed(
                self.settings.input_mode is Host,
            ),
            Stage::CopyPacket { size, .. } => self.job.failure is None && size > 0,
            Stage::CopyHostRows { destination_stride } => {
                &&& self.job.failure is None
                &&& destination_stride <= i32::MAX
                &&& host::destination_usable(
                    destination_stride as i32,
                    self.settings.height,
                    self.settings.row_bytes() as usize,
                )
            },
            Stage::AllocateDescriptor => self.job.failure is None && self.described(0),
            Stage::DuplicatePlane { index } => {
                &&& self.job.failure is None
                &&& index < self.job.planes.len()
                &&& self.described(index as int)
            },
            Stage::WrapDescriptor => self.job.failure is None && self.described(
                self.job.planes.len() as int,
            ),
            _ => self.job.failure is None,
        }
    }

    /// The invariant of an encoder.
    pub open spec fn wf(self) -> bool {
        &&& self.settings.wf()
        &&& self.device.len() > 0
        &&& !config::has_interior_nul(self.device)
        &&& self.opening.wf()
        &&& self.opening.calls == self.settings.opening_calls()
        &&& !(self.stage is Idle) ==> self.opening.complete()
        &&& self.graph_lost ==> self.settings.input_mode is DrmPrime
        &&& self.host_stage() ==> self.settings.input_mode is Host
        &&& self.import_stage() ==> self.settings.input_mode is DrmPrime
        &&& self.settings.input_mode is DrmPrime && !(self.stage is Idle) ==> 1
            <= self.job.planes.len() <= AV_DRM_MAX_PLANES
        &&& self.host_stage() ==> {
            &&& self.job.stride >= self.settings.row_bytes()
            &&& self.job.stride * self.settings.height <= config::MAX_RAW_FRAME_BYTES
            &&& self.job.pixels.len() >= self.job.stride * self.settings.height
        }
        &&& self.job_wf()
    }
}

/// The invariant of an encoder holds after each reply.
pub proof fn law_encoder_stays_wf(encoder: EncoderView, reply: Reply)
    requires
        encoder.wf(),
        encoder.expects(reply),
    ensures
        encoder.next(reply).wf(),
{
    match encoder.stage {
        Stage::Idle => {},
        Stage::Finished => {},
        Stage::AllocateHostFrame => {},
        Stage::MakeHostFrameWritable => {},
        Stage::ReadLinesize => {},
        Stage::CopyHostRows { .. } => {},
        Stage::UploadHostFrame => {},
        Stage::AllocateDescriptor => {},
        Stage::DuplicatePlane { index } => {
            let after = encoder.next(reply);
            if after.job.failure is None {
                assert forall|i: int| 0 <= i < index + 1 implies #[trigger] after.plane_described(
                    i,
                ) by {
                    if i < index {
                        assert(encoder.plane_described(i));
                    }
                }
                assert(after.described(index + 1));
            }
        },
        Stage::WrapDescriptor => {},
        Stage::RetainFrames => {},
        Stage::MapFrame => {},
        Stage::ReceiveFiltered => {},
        Stage::SendFiltered => {},
        Stage::ReceivePacket => {},
        Stage::InspectPacket => {},
        Stage::CopyPacket { .. } => {},
        Stage::DrainPacket => {},
        Stage::ReleaseInput => {},
        Stage::DestroyGraph => {},
        Stage::Discard => {},
        Stage::DropFrame => {},
    }
}

} // verus!
