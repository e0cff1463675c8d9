//! The encoder: configuration checks, and the state that its native calls drive.

use vstd::prelude::*;

use crate::rows;
use crate::status::Status;
use crate::vaapi::config::{self, align, validate_render_node, VaapiHostConfiguration};
use crate::vaapi::drm::{
    DescriptorHead, DrmObject, DrmPlaneLayout, DrmPrimeFrame, DrmPrimePlane, AV_DRM_MAX_PLANES,
};
use crate::vaapi::error::{check, VaapiError, VaapiErrorKind, VaapiErrorView};
use crate::vaapi::host;
use crate::vaapi::opening::{
    EncoderOpening, EncoderSettings, InputMode, OpenCall, OpenReply, OpeningView, PixelFormat,
};
use crate::vaapi::protocol::{
    self, Call, EncodedPacket, EncoderView, JobView, NativeCodes, PacketHeader, PacketView, Reply,
    Stage, HOST_BUFFER_ALIGNMENT,
};

verus! {

/// One submission. The bytes of a CPU frame stay with the caller.
struct Job {
    pts: i64,
    force_keyframe: bool,
    pixels: Ghost<Seq<u8>>,
    stride: usize,
    fourcc: u32,
    modifier: u64,
    planes: Vec<DrmPrimePlane>,
    fds: Vec<i32>,
    objects: Vec<DrmObject>,
    layouts: Vec<DrmPlaneLayout>,
    packet: Option<EncodedPacket>,
    failure: Option<VaapiError>,
}

impl View for Job {
    type V = JobView;

    closed spec fn view(&self) -> JobView {
        JobView {
            pts: self.pts,
            force_keyframe: self.force_keyframe,
            pixels: self.pixels@,
            stride: self.stride,
            fourcc: self.fourcc,
            modifier: self.modifier,
            planes: self.planes@,
            fds: self.fds@,
            objects: self.objects@,
            layouts: self.layouts@,
            packet: match self.packet {
                Some(packet) => Some(packet@),
                None => None,
            },
            failure: match self.failure {
                Some(error) => Some(error@),
                None => None,
            },
        }
    }
}

/// The protocol state of an `h264_vaapi` encoder for owned CPU or DRM-PRIME frames.
pub struct VaapiHostEncoder {
    settings: EncoderSettings,
    device: Vec<u8>,
    codes: NativeCodes,
    opening: EncoderOpening,
    frames_since_keyframe: u32,
    graph_lost: bool,
    stage: Stage,
    job: Job,
}

impl View for VaapiHostEncoder {
    type V = EncoderView;

    closed spec fn view(&self) -> EncoderView {
        EncoderView {
            settings: self.settings,
            device: self.device@,
            codes: self.codes,
            opening: self.opening@,
            frames_since_keyframe: self.frames_since_keyframe,
            graph_lost: self.graph_lost,
            stage: self.stage,
            job: self.job@,
        }
    }
}

impl Job {
    fn fresh(pts: i64, force_keyframe: bool) -> (job: Self)
        ensures
            job@ == JobView::fresh(pts, force_keyframe),
    {
        Job {
            pts,
            force_keyframe,
            pixels: Ghost(Seq::empty()),
            stride: 0,
            fourcc: 0,
            modifier: 0,
            planes: Vec::new(),
            fds: Vec::new(),
            objects: Vec::new(),
            layouts: Vec::new(),
            packet: None,
            failure: None,
        }
    }
}

impl VaapiHostEncoder {
    /// Whether the encoder is in a consistent state.
    pub open spec fn wf(&self) -> bool {
        self@.wf()
    }

    fn empty(settings: EncoderSettings, device: Vec<u8>, codes: NativeCodes) -> (encoder: Self)
        requires
            settings.wf(),
            device@.len() > 0,
            !config::has_interior_nul(device@),
        ensures
            encoder.wf(),
            encoder@ == EncoderView::initial(settings, device@, codes),
    {
        VaapiHostEncoder {
            settings,
            device,
            codes,
            opening: EncoderOpening::new(settings),
            frames_since_keyframe: settings.gop.keyframe_interval_frames(),
            graph_lost: false,
            stage: Stage::Idle,
            job: Job::fresh(0, false),
        }
    }

    fn open_impl(
        configuration: &VaapiHostConfiguration,
        codes: NativeCodes,
        input_mode: InputMode,
    ) -> (opened: Result<Self, VaapiError>)
        ensures
            match opened {
                Ok(encoder) => {
                    &&& configuration.openable()
                    &&& encoder.wf()
                    &&& encoder@ == EncoderView::initial(
                        configuration.settings(input_mode),
                        configuration.device@,
                        codes,
                    )
                },
                Err(error) => !configuration.openable() && error@ == configuration.open_rejection(),
            },
    {
        let (width, height, refresh_hz) = match configuration.validate() {
            Ok(checked) => checked,
            Err(error) => return Err(error),
        };
        match validate_render_node(configuration.device.as_slice()) {
            Ok(()) => {},
            Err(error) => return Err(error),
        }
        let device = configuration.device.clone();
        assert(device@ =~= configuration.device@);
        Ok(
            Self::empty(
                EncoderSettings {
                    width,
                    height,
                    refresh_hz,
                    bitrate_bps: configuration.bitrate_bps,
                    pixel_format: configuration.pixel_format,
                    input_mode,
                    gop: configuration.gop,
                },
                device,
                codes,
            ),
        )
    }

    /// Starts an encoder for CPU frames; its opening calls are pending.
    pub fn open(configuration: &VaapiHostConfiguration, codes: NativeCodes) -> (opened: Result<
        Self,
        VaapiError,
    >)
        ensures
            match opened {
                Ok(encoder) => {
                    &&& configuration.openable()
                    &&& encoder.wf()
                    &&& encoder@ == EncoderView::initial(
                        configuration.settings(InputMode::Host),
                        configuration.device@,
                        codes,
                    )
                },
                Err(error) => !configuration.openable() && error@ == configuration.open_rejection(),
            },
    {
        Self::open_impl(configuration, codes, InputMode::Host)
    }

    /// Starts an encoder for imported DRM-PRIME frames; its opening calls are pending.
    pub fn open_dmabuf(configuration: &VaapiHostConfiguration, codes: NativeCodes) -> (opened:
        Result<Self, VaapiError>)
        ensures
            match opened {
                Ok(encoder) => {
                    &&& configuration.openable()
                    &&& encoder.wf()
                    &&& encoder@ == EncoderView::initial(
                        configuration.settings(InputMode::DrmPrime),
                        configuration.device@,
                        codes,
                    )
                },
                Err(error) => !configuration.openable() && error@ == configuration.open_rejection(),
            },
    {
        Self::open_impl(configuration, codes, InputMode::DrmPrime)
    }

    /// What the encoder was configured with.
    pub fn settings(&self) -> (settings: EncoderSettings)
        ensures
            settings == self@.settings,
    {
        self.settings
    }

    /// The path of the render node that the device is created on. It holds no zero byte.
    pub fn render_node(&self) -> (path: &[u8])
        ensures
            path@ == self@.device,
    {
        self.device.as_slice()
    }

    /// The opening call to make next, or `None` when the encoder is open.
    pub fn opening_call(&self) -> (call: Option<OpenCall>)
        requires
            self.wf(),
        ensures
            call == if self@.opening.complete() {
                None
            } else {
                Some(self@.opening.calls[self@.opening.next as int])
            },
    {
        self.opening.pending()
    }

    /// Takes the reply to the pending opening call. A failure leaves the encoder where it is.
    pub fn opening_reply(&mut self, reply: OpenReply) -> (advanced: Result<(), VaapiError>)
        requires
            old(self).wf(),
            !old(self)@.opening.complete(),
            reply.answers(old(self)@.opening.calls[old(self)@.opening.next as int]),
        ensures
            final(self).wf(),
            match advanced {
                Ok(()) => {
                    &&& old(self)@.opening.step(reply) == Ok::<OpeningView, VaapiErrorView>(
                        final(self)@.opening,
                    )
                    &&& final(self)@ == EncoderView {
                        opening: final(self)@.opening,
                        ..old(self)@
                    }
                },
                Err(error) => {
                    &&& old(self)@.opening.step(reply) == Err::<OpeningView, VaapiErrorView>(error@)
                    &&& final(self)@ == old(self)@
                },
            },
    {
        self.opening.advance(reply)
    }

    /// Checks one CPU frame and starts its submission.
    pub fn encode(&mut self, pixels: &[u8], stride: usize, pts: i64, force_keyframe: bool) -> (started:
        Result<(), VaapiError>)
        requires
            old(self).wf(),
            old(self)@.idle(),
        ensures
            final(self).wf(),
            ({
                let encoder = old(self)@;
                let accepted = encoder.settings.input_mode is Host && host::host_frame_fits(
                    encoder.settings.width,
                    encoder.settings.height,
                    pixels@.len(),
                    stride,
                );
                match started {
                    Ok(()) => accepted && final(self)@ == encoder.submitting_host(
                        pixels@,
                        stride,
                        pts,
                        force_keyframe,
                    ),
                    Err(error) => {
                        &&& !accepted
                        &&& error@ == encoder.host_rejection(stride)
                        &&& final(self)@ == encoder
                    },
                }
            }),
    {
        if let InputMode::DrmPrime = self.settings.input_mode {
            return Err(
                VaapiError::fixed(
                    VaapiErrorKind::InvalidConfiguration,
                    "validate host frame",
                    "encoder was opened for DRM-PRIME input",
                ),
            );
        }
        match host::validate_host_frame(
            self.settings.width,
            self.settings.height,
            pixels.len(),
            stride,
        ) {
            Ok(()) => {},
            Err(error) => return Err(error),
        }
        let mut job = Job::fresh(pts, force_keyframe);
        job.pixels = Ghost(pixels@);
        job.stride = stride;
        self.job = job;
        self.stage = Stage::AllocateHostFrame;
        Ok(())
    }

    /// Checks one imported frame and starts its submission. An encoder that lost its filter graph
    /// can still reject a frame.
    pub fn encode_dmabuf(&mut self, frame: DrmPrimeFrame<'_>, pts: i64, force_keyframe: bool) -> (started:
        Result<(), VaapiError>)
        requires
            old(self).wf(),
            old(self)@.idle(),
            old(self)@.graph_lost ==> !frame.valid(
                old(self)@.settings.width,
                old(self)@.settings.height,
            ),
        ensures
            final(self).wf(),
            ({
                let encoder = old(self)@;
                let accepted = encoder.settings.input_mode is DrmPrime && frame.valid(
                    encoder.settings.width,
                    encoder.settings.height,
                );
                match started {
                    Ok(()) => accepted && final(self)@ == encoder.submitting_import(
                        frame,
                        pts,
                        force_keyframe,
                    ),
                    Err(error) => {
                        &&& !accepted
                        &&& error@ == encoder.import_rejection()
                        &&& final(self)@ == encoder
                    },
                }
            }),
    {
        if let InputMode::Host = self.settings.input_mode {
            return Err(
                VaapiError::fixed(
                    VaapiErrorKind::InvalidConfiguration,
                    "validate DRM-PRIME frame",
                    "encoder was opened for host input",
                ),
            );
        }
        match frame.validate(self.settings.width, self.settings.height) {
            Ok(()) => {},
            Err(error) => return Err(error),
        }
        let mut job = Job::fresh(pts, force_keyframe);
        job.fourcc = frame.fourcc;
        job.modifier = frame.modifier;
        job.planes = copy_planes(frame.planes);
        self.job = job;
        self.stage = Stage::AllocateDescriptor;
        Ok(())
    }
}

impl VaapiHostEncoder {
    fn fail(&mut self, stage: Stage, error: VaapiError)
        ensures
            final(self)@ == old(self)@.failing(stage, error@),
    {
        self.job.packet = None;
        self.job.failure = Some(error);
        self.stage = stage;
    }

    fn fail_fixed(
        &mut self,
        stage: Stage,
        kind: VaapiErrorKind,
        operation: &'static str,
        detail: &'static str,
    )
        ensures
            final(self)@ == old(self)@.failing(
                stage,
                VaapiErrorView::fixed(kind, operation, detail),
            ),
    {
        self.fail(stage, VaapiError::fixed(kind, operation, detail));
    }

    fn after_receipt(&self) -> (stage: Stage)
        ensures
            stage == self@.after_receipt(),
    {
        match self.settings.input_mode {
            InputMode::Host => Stage::Finished,
            InputMode::DrmPrime => Stage::ReleaseInput,
        }
    }

    fn on_status(
        &mut self,
        status: Status,
        operation: &'static str,
        next: Stage,
        on_failure: Stage,
    )
        ensures
            final(self)@ == old(self)@.on_status(status, operation, next, on_failure),
    {
        match check(status, VaapiErrorKind::EncodeFailed, operation) {
            Ok(()) => {
                self.stage = next;
            },
            Err(error) => {
                self.fail(on_failure, error);
            },
        }
    }

    fn on_linesize(&mut self, linesize: i32)
        requires
            old(self)@.stage is ReadLinesize,
            old(self)@.settings.wf(),
        ensures
            final(self)@ == old(self)@.next(Reply::Linesize(linesize)),
    {
        proof {
            config::law_valid_frame_is_bounded(
                self.settings.width as int,
                self.settings.height as int,
            );
        }
        match host::destination_extent(
            linesize,
            self.settings.height,
            self.settings.width as usize * 4,
        ) {
            Ok(_) => {
                self.stage = Stage::CopyHostRows { destination_stride: linesize as usize };
            },
            Err(error) => {
                self.fail(Stage::Finished, error);
            },
        }
    }

    fn on_duplicate(&mut self, index: usize, fd: i32, os_error: String)
        requires
            old(self)@.settings.wf(),
            index < old(self)@.job.planes.len() <= AV_DRM_MAX_PLANES,
        ensures
            final(self)@ == old(self)@.on_duplicate(index as int, fd, os_error@),
    {
        if fd < 0 {
            self.fail(
                Stage::Discard,
                VaapiError::new(
                    VaapiErrorKind::EncodeFailed,
                    "duplicate DRM-PRIME file descriptor",
                    os_error,
                ),
            );
            return ;
        }
        self.job.fds.push(fd);
        proof {
            config::law_valid_frame_is_bounded(
                self.settings.width as int,
                self.settings.height as int,
            );
            assert(1i32 << 5u32 == 32) by (bit_vector);
            config::law_align_rounds_up(self.settings.height, 5);
        }
        let aligned_height: i32 = match align(self.settings.height, 32) {
            Ok(height) => height,
            Err(_) => unreached(),
        };
        let plane = self.job.planes[index];
        match plane.describe(index, fd, self.job.modifier, aligned_height as usize) {
            Ok((object, layout)) => {
                self.job.objects.push(object);
                self.job.layouts.push(layout);
                self.stage = if index + 1 < self.job.planes.len() {
                    Stage::DuplicatePlane { index: index + 1 }
                } else {
                    Stage::WrapDescriptor
                };
            },
            Err(error) => {
                self.fail(Stage::Discard, error);
            },
        }
    }

    fn on_receive(&mut self, status: Status)
        ensures
            final(self)@ == old(self)@.on_receive(status),
    {
        let stage = self.after_receipt();
        if status.code == self.codes.again {
            self.fail_fixed(
                stage,
                VaapiErrorKind::EncodeFailed,
                "receive VA-API packet",
                "low-latency encoder produced no packet for the submitted frame",
            );
        } else {
            self.on_status(status, "receive VA-API packet", Stage::InspectPacket, stage);
        }
    }

    fn on_header(&mut self, header: PacketHeader)
        ensures
            final(self)@ == old(self)@.on_header(header),
    {
        let stage = self.after_receipt();
        if header.pts != self.job.pts {
            self.fail_fixed(
                stage,
                VaapiErrorKind::InvalidOutput,
                "validate VA-API packet",
                "packet PTS does not match the submitted frame",
            );
        } else if header.size < 0 {
            self.fail_fixed(
                stage,
                VaapiErrorKind::InvalidOutput,
                "validate VA-API packet",
                "packet size is negative",
            );
        } else if header.size == 0 || !header.present {
            self.fail_fixed(
                stage,
                VaapiErrorKind::InvalidOutput,
                "validate VA-API packet",
                "encoder returned an empty packet",
            );
        } else {
            self.stage =
            Stage::CopyPacket {
                size: header.size as usize,
                keyframe: (header.flags & self.codes.key_flag) != 0,
            };
        }
    }

    fn on_bytes(&mut self, bytes: Vec<u8>, keyframe: bool)
        ensures
            final(self)@ == old(self)@.on_bytes(bytes@, keyframe),
    {
        let packet = EncodedPacket {
            annex_b: bytes,
            keyframe,
            pts: self.job.pts,
            input_released: matches!(self.settings.input_mode, InputMode::Host),
        };
        self.frames_since_keyframe =
        if keyframe {
            0
        } else {
            self.frames_since_keyframe.saturating_add(1)
        };
        self.job.packet = Some(packet);
        self.stage = Stage::DrainPacket;
    }

    fn on_drain(&mut self, status: Status)
        ensures
            final(self)@ == old(self)@.on_drain(status),
    {
        let stage = self.after_receipt();
        if status.code == 0 {
            self.fail_fixed(
                stage,
                VaapiErrorKind::InvalidOutput,
                "validate VA-API packet count",
                "one submitted frame produced more than one packet",
            );
        } else if status.code != self.codes.again && status.code != self.codes.end_of_file {
            self.fail(
                stage,
                VaapiError::ffmpeg(VaapiErrorKind::EncodeFailed, "drain VA-API encoder", status),
            );
        } else {
            self.stage = stage;
        }
    }

    fn on_release(&mut self, released: bool)
        ensures
            final(self)@ == old(self)@.on_release(released),
    {
        if released {
            self.job.packet =
            match self.job.packet.take() {
                Some(packet) => Some(EncodedPacket { input_released: true, ..packet }),
                None => None,
            };
            self.stage = Stage::Finished;
        } else {
            self.stage = Stage::DestroyGraph;
        }
    }

    fn on_graph_destroyed(&mut self, released: bool)
        ensures
            final(self)@ == old(self)@.on_graph_destroyed(released),
    {
        self.graph_lost = true;
        if released {
            self.fail_fixed(
                Stage::Finished,
                VaapiErrorKind::EncodeFailed,
                "release DRM-PRIME frame",
                "FFmpeg retained the imported frame beyond one converted output",
            );
        } else {
            self.fail_fixed(
                Stage::Finished,
                VaapiErrorKind::EncodeFailed,
                "release DRM-PRIME frame",
                "FFmpeg did not release the imported frame when its graph was destroyed",
            );
        }
    }

    fn on_pointer(
        &mut self,
        present: bool,
        next: Stage,
        on_failure: Stage,
        operation: &'static str,
        detail: &'static str,
    )
        ensures
            final(self)@ == if present {
                old(self)@.at(next)
            } else {
                old(self)@.failing(
                    on_failure,
                    VaapiErrorView::fixed(VaapiErrorKind::EncodeFailed, operation, detail),
                )
            },
    {
        if present {
            self.stage = next;
        } else {
            self.fail_fixed(on_failure, VaapiErrorKind::EncodeFailed, operation, detail);
        }
    }

    /// The call to make next, or `None` when no frame is being submitted or its result is there.
    pub fn call(&self) -> (call: Option<Call>)
        requires
            self.wf(),
        ensures
            call == self@.call(),
    {
        match self.stage {
            Stage::Idle => None,
            Stage::Finished => None,
            Stage::AllocateHostFrame => Some(
                Call::AllocateHostFrame {
                    format: self.settings.pixel_format.ffmpeg(),
                    width: self.settings.width,
                    height: self.settings.height,
                    pts: self.job.pts,
                    alignment: HOST_BUFFER_ALIGNMENT,
                },
            ),
            Stage::MakeHostFrameWritable => Some(Call::MakeHostFrameWritable),
            Stage::ReadLinesize => Some(Call::ReadLinesize),
            Stage::CopyHostRows { destination_stride } => Some(
                Call::CopyHostRows { destination_stride },
            ),
            Stage::UploadHostFrame => Some(Call::UploadHostFrame),
            Stage::AllocateDescriptor => Some(Call::AllocateDescriptor),
            Stage::DuplicatePlane { index } => Some(
                Call::DuplicatePlane { fd: self.job.planes[index].fd },
            ),
            Stage::WrapDescriptor => Some(
                Call::WrapDescriptor {
                    format: PixelFormat::DrmPrime,
                    width: self.settings.width,
                    height: self.settings.height,
                    pts: self.job.pts,
                },
            ),
            Stage::RetainFrames => Some(Call::RetainFrames),
            Stage::MapFrame => Some(Call::MapFrame),
            Stage::ReceiveFiltered => Some(Call::ReceiveFiltered),
            Stage::SendFiltered => Some(
                Call::SendFiltered { intra: self.intra(), pts: self.job.pts },
            ),
            Stage::ReceivePacket => Some(Call::ReceivePacket),
            Stage::InspectPacket => Some(Call::InspectPacket),
            Stage::CopyPacket { size, .. } => Some(Call::CopyPacket { size }),
            Stage::DrainPacket => Some(Call::DrainPacket),
            Stage::ReleaseInput => Some(Call::ReleaseInput),
            Stage::DestroyGraph => Some(Call::DestroyGraph),
            Stage::Discard => Some(Call::Discard),
            Stage::DropFrame => Some(Call::DropFrame),
        }
    }

    fn intra(&self) -> (intra: bool)
        ensures
            intra == self@.intra(),
    {
        self.job.force_keyframe || self.settings.gop.forces_every_frame()
            || self.frames_since_keyframe >= self.settings.gop.keyframe_interval_frames()
    }

    /// Whether a reply has the form that the pending call is answered in.
    pub fn expects(&self, reply: &Reply) -> (expected: bool)
        ensures
            expected == self@.expects(*reply),
    {
        match (self.stage, reply) {
            (Stage::CopyHostRows { .. } | Stage::Discard | Stage::DropFrame, Reply::Done) => true,
            (
                Stage::AllocateDescriptor | Stage::WrapDescriptor | Stage::RetainFrames,
                Reply::Pointer(_),
            ) => true,
            (Stage::ReadLinesize, Reply::Linesize(_)) => true,
            (Stage::DuplicatePlane { .. }, Reply::Duplicate { .. }) => true,
            (Stage::InspectPacket, Reply::Packet(_)) => true,
            (Stage::CopyPacket { size, .. }, Reply::Bytes(bytes)) => bytes.len() == size,
            (Stage::ReleaseInput | Stage::DestroyGraph, Reply::Released(_)) => true,
            (
                Stage::AllocateHostFrame
                | Stage::MakeHostFrameWritable
                | Stage::UploadHostFrame
                | Stage::MapFrame
                | Stage::ReceiveFiltered
                | Stage::SendFiltered
                | Stage::ReceivePacket
                | Stage::DrainPacket,
                Reply::Status(_),
            ) => true,
            _ => false,
        }
    }

    /// Whether the encoder is open and no frame is being submitted.
    pub fn idle(&self) -> (idle: bool)
        requires
            self.wf(),
        ensures
            idle == self@.idle(),
    {
        self.opening.pending().is_none() && matches!(self.stage, Stage::Idle)
    }

    /// Whether the filter graph had to be destroyed.
    pub fn graph_lost(&self) -> (lost: bool)
        ensures
            lost == self@.graph_lost,
    {
        self.graph_lost
    }

    /// Whether the encoder can take a frame.
    pub fn ready(&self) -> (ready: bool)
        requires
            self.wf(),
        ensures
            ready == self@.ready(),
    {
        self.idle() && !self.graph_lost
    }

    /// Whether the result of a submission is there.
    pub fn finished(&self) -> (finished: bool)
        ensures
            finished == (self@.stage is Finished),
    {
        matches!(self.stage, Stage::Finished)
    }

    /// The length of the native buffer that the pending copy writes into.
    pub fn host_buffer_length(&self) -> (length: usize)
        requires
            self.wf(),
            self@.stage is CopyHostRows,
        ensures
            length == rows::extent(
                self@.settings.height as int,
                self@.stage->destination_stride as int,
                self@.settings.row_bytes(),
            ),
    {
        proof {
            config::law_valid_frame_is_bounded(
                self.settings.width as int,
                self.settings.height as int,
            );
        }
        match self.stage {
            Stage::CopyHostRows { destination_stride } => match host::destination_extent(
                destination_stride as i32,
                self.settings.height,
                self.settings.width as usize * 4,
            ) {
                Ok(length) => length,
                Err(_) => unreached(),
            },
            _ => unreached(),
        }
    }

    /// Performs the pending copy: the rows of the submitted frame into the native buffer.
    pub fn copy_host_rows(&self, pixels: &[u8], buffer: &mut [u8])
        requires
            self.wf(),
            self@.stage is CopyHostRows,
            pixels@ == self@.job.pixels,
            old(buffer)@.len() >= rows::extent(
                self@.settings.height as int,
                self@.stage->destination_stride as int,
                self@.settings.row_bytes(),
            ),
        ensures
            final(buffer)@ == rows::rows_copied(
                old(buffer)@,
                self@.stage->destination_stride as int,
                self@.job.pixels,
                self@.job.stride as int,
                self@.settings.row_bytes(),
                self@.settings.height as nat,
            ),
    {
        proof {
            config::law_valid_frame_is_bounded(
                self.settings.width as int,
                self.settings.height as int,
            );
            assert((self.settings.height - 1) * self.job.stride + self.job.stride
                == self.job.stride * self.settings.height) by (nonlinear_arith);
        }
        match self.stage {
            Stage::CopyHostRows { destination_stride } => rows::copy_rows(
                pixels,
                self.job.stride,
                buffer,
                destination_stride,
                self.settings.width as usize * 4,
                self.settings.height as usize,
            ),
            _ => unreached(),
        }
    }

    /// The descriptors that have been duplicated for the submission.
    pub fn duplicated(&self) -> (fds: &[i32])
        ensures
            fds@ == self@.job.fds,
    {
        self.job.fds.as_slice()
    }

    /// What the descriptor of the submission says before its objects and planes.
    pub fn descriptor_head(&self) -> (head: DescriptorHead)
        requires
            self.wf(),
            self@.stage is WrapDescriptor,
        ensures
            head == self@.descriptor_head(),
    {
        let count: i32 = self.job.planes.len() as i32;
        DescriptorHead {
            nb_objects: count,
            nb_layers: 1,
            format: self.job.fourcc,
            nb_planes: count,
        }
    }

    /// The memory objects that the descriptor of the submission lists.
    pub fn objects(&self) -> (objects: &[DrmObject])
        ensures
            objects@ == self@.job.objects,
    {
        self.job.objects.as_slice()
    }

    /// The planes that the descriptor of the submission lists.
    pub fn layouts(&self) -> (layouts: &[DrmPlaneLayout])
        ensures
            layouts@ == self@.job.layouts,
    {
        self.job.layouts.as_slice()
    }

    /// Takes the reply to the pending call.
    pub fn advance(&mut self, reply: Reply)
        requires
            old(self).wf(),
            old(self)@.expects(reply),
        ensures
            final(self).wf(),
            final(self)@ == old(self)@.next(reply),
    {
        proof {
            protocol::law_encoder_stays_wf(self@, reply);
        }
        let after_receipt = self.after_receipt();
        match (self.stage, reply) {
            (Stage::AllocateHostFrame, Reply::Status(status)) => self.on_status(
                status,
                "allocate host-frame buffer",
                Stage::MakeHostFrameWritable,
                Stage::Finished,
            ),
            (Stage::MakeHostFrameWritable, Reply::Status(status)) => self.on_status(
                status,
                "make host-frame buffer writable",
                Stage::ReadLinesize,
                Stage::Finished,
            ),
            (Stage::ReadLinesize, Reply::Linesize(linesize)) => self.on_linesize(linesize),
            (Stage::CopyHostRows { .. }, Reply::Done) => {
                self.stage = Stage::UploadHostFrame;
            },
            (Stage::UploadHostFrame, Reply::Status(status)) => self.on_status(
                status,
                "upload host frame",
                Stage::ReceiveFiltered,
                Stage::Finished,
            ),
            (Stage::AllocateDescriptor, Reply::Pointer(present)) => self.on_pointer(
                present,
                Stage::DuplicatePlane { index: 0 },
                Stage::Finished,
                "allocate DRM-PRIME descriptor",
                "FFmpeg returned a null allocation",
            ),
            (Stage::DuplicatePlane { index }, Reply::Duplicate { fd, os_error }) => self.on_duplicate(
                index,
                fd,
                os_error,
            ),
            (Stage::WrapDescriptor, Reply::Pointer(present)) => self.on_pointer(
                present,
                Stage::RetainFrames,
                Stage::Discard,
                "wrap DRM-PRIME descriptor",
                "FFmpeg returned a null buffer reference",
            ),
            (Stage::RetainFrames, Reply::Pointer(present)) => self.on_pointer(
                present,
                Stage::MapFrame,
                Stage::DropFrame,
                "wrap DRM-PRIME frame",
                "FFmpeg could not retain the DRM frames context",
            ),
            (Stage::MapFrame, Reply::Status(status)) => self.on_status(
                status,
                "map DRM-PRIME frame",
                Stage::ReceiveFiltered,
                Stage::DropFrame,
            ),
            (Stage::ReceiveFiltered, Reply::Status(status)) => self.on_status(
                status,
                "receive converted VA-API frame",
                Stage::SendFiltered,
                after_receipt,
            ),
            (Stage::SendFiltered, Reply::Status(status)) => self.on_status(
                status,
                "submit VA-API frame",
                Stage::ReceivePacket,
                after_receipt,
            ),
            (Stage::ReceivePacket, Reply::Status(status)) => self.on_receive(status),
            (Stage::InspectPacket, Reply::Packet(header)) => self.on_header(header),
            (Stage::CopyPacket { keyframe, .. }, Reply::Bytes(bytes)) => self.on_bytes(
                bytes,
                keyframe,
            ),
            (Stage::DrainPacket, Reply::Status(status)) => self.on_drain(status),
            (Stage::ReleaseInput, Reply::Released(released)) => self.on_release(released),
            (Stage::DestroyGraph, Reply::Released(released)) => self.on_graph_destroyed(released),
            (Stage::Discard, Reply::Done) => {
                self.stage = Stage::Finished;
            },
            (Stage::DropFrame, Reply::Done) => {
                self.stage = Stage::Finished;
            },
            _ => {},
        }
    }

    /// Takes the result of a finished submission.
    pub fn finish(&mut self) -> (outcome: Result<EncodedPacket, VaapiError>)
        requires
            old(self).wf(),
            old(self)@.stage is Finished,
        ensures
            final(self).wf(),
            final(self)@ == old(self)@.settled(),
            match outcome {
                Ok(packet) => old(self)@.outcome() == Ok::<PacketView, VaapiErrorView>(packet@),
                Err(error) => old(self)@.outcome() == Err::<PacketView, VaapiErrorView>(error@),
            },
    {
        self.stage = Stage::Idle;
        let packet = self.job.packet.take();
        match self.job.failure.take() {
            Some(error) => Err(error),
            None => match packet {
                Some(packet) => Ok(packet),
                None => unreached(),
            },
        }
    }
}

fn copy_planes(planes: &[DrmPrimePlane]) -> (copied: Vec<DrmPrimePlane>)
    ensures
        copied@ == planes@,
{
    let mut copied: Vec<DrmPrimePlane> = Vec::new();
    let mut index: usize = 0;
    while index < planes.len()
        invariant
            index <= planes@.len(),
            copied@ == planes@.take(index as int),
        decreases planes@.len() - index,
    {
        copied.push(planes[index]);
        index = index + 1;
    }
    assert(planes@.take(index as int) =~= planes@);
    copied
}

} // verus!
