//! The software decoder: which native call comes next, and what its answer leads to.

use vstd::prelude::*;

use crate::decoder::{
    self, decoded_luma, validate_access_unit, DecodedFrame, DecoderError, DecoderErrorView,
    LumaPlane,
};
use crate::rows;
use crate::status::{self, again_code, Status};

verus! {

/// Where a decoder is between its opening and the result of an access unit.
#[derive(Clone, Copy, Debug, PartialEq, Eq, Structural)]
pub enum DecoderStage {
    /// Look the H.264 decoder up.
    FindDecoder,
    /// Allocate the context, the packet and the frame.
    AllocateObjects,
    /// Open the context on one thread.
    OpenCodec,
    /// Free what was allocated.
    Cleanup,
    /// Nothing is pending.
    Idle,
    /// Allocate a packet of the size of the access unit.
    AllocatePacket,
    /// Copy the access unit into the packet, send it and drop it.
    SubmitPacket,
    /// Take a frame; `flushed` says whether the end of the stream has been sent.
    ReceiveFrame { flushed: bool },
    /// Send the end of the stream.
    Flush,
    /// Read the luma plane of the frame.
    ReadLuma,
    /// The result is there.
    Finished,
}

/// A codec that native code knows.
#[derive(Clone, Copy, Debug, PartialEq, Eq, Structural)]
pub enum CodecId {
    H264,
}

/// The native call that a stage stands for.
#[derive(Clone, Copy, Debug, PartialEq, Eq, Structural)]
pub enum DecoderCall {
    FindDecoder { codec: CodecId },
    AllocateObjects,
    OpenCodec { thread_count: i32 },
    Cleanup,
    AllocatePacket { size: i32 },
    SubmitPacket,
    ReceiveFrame,
    Flush,
    ReadLuma,
}

/// The answer to a call, other than the luma plane.
#[derive(Clone, Debug, PartialEq, Eq)]
pub enum DecoderReply {
    /// The call was made.
    Done,
    /// Whether the decoder was found.
    Found(bool),
    /// Whether the context, the packet and the frame were allocated.
    Allocated { context: bool, packet: bool, frame: bool },
    /// The status of the call.
    Status(Status),
}

/// The protocol state of a software H.264 decoder that validates a chain of references without
/// B-frames. The bytes of an access unit stay with the caller.
pub struct H264StreamDecoder {
    again: i32,
    stage: DecoderStage,
    opened: bool,
    drained: bool,
    pending: bool,
    flush_on_eagain: bool,
    unit: Ghost<Seq<u8>>,
    packet_size: i32,
    frame: Option<DecodedFrame>,
    failure: Option<DecoderError>,
}

/// What a [`H264StreamDecoder`] stands for.
pub struct DecoderView {
    /// The status of a codec that has nothing to hand out yet.
    pub again: i32,
    pub stage: DecoderStage,
    /// Whether the native decoder is open.
    pub opened: bool,
    /// Whether the end of the stream has been sent, after which no access unit can come.
    pub drained: bool,
    /// Whether an access unit waits for the opening.
    pub pending: bool,
    /// Whether the end of the stream is sent when no frame comes by itself.
    pub flush_on_eagain: bool,
    /// The access unit.
    pub unit: Seq<u8>,
    /// The length of the access unit.
    pub packet_size: i32,
    pub frame: Option<DecodedFrame>,
    pub failure: Option<DecoderErrorView>,
}

impl View for H264StreamDecoder {
    type V = DecoderView;

    closed spec fn view(&self) -> DecoderView {
        DecoderView {
            again: self.again,
            stage: self.stage,
            opened: self.opened,
            drained: self.drained,
            pending: self.pending,
            flush_on_eagain: self.flush_on_eagain,
            unit: self.unit@,
            packet_size: self.packet_size,
            frame: self.frame,
            failure: match self.failure {
                Some(error) => Some(error@),
                None => None,
            },
        }
    }
}

impl DecoderView {
    /// A decoder before its first native call.
    pub open spec fn initial(again: i32) -> Self {
        DecoderView {
            again,
            stage: DecoderStage::FindDecoder,
            opened: false,
            drained: false,
            pending: false,
            flush_on_eagain: false,
            unit: seq![],
            packet_size: 0,
            frame: None,
            failure: None,
        }
    }

    /// A decoder before its first native call, with one independent access unit waiting.
    pub open spec fn one_shot(again: i32, unit: Seq<u8>) -> Self {
        DecoderView {
            pending: true,
            flush_on_eagain: true,
            unit,
            packet_size: unit.len() as i32,
            ..DecoderView::initial(again)
        }
    }

    /// The decoder at the start of the next access unit of its stream.
    pub open spec fn decoding(self, unit: Seq<u8>) -> Self {
        DecoderView {
            stage: DecoderStage::AllocatePacket,
            flush_on_eagain: false,
            unit,
            packet_size: unit.len() as i32,
            frame: None,
            failure: None,
            ..self
        }
    }

    /// Whether the decoder can take an access unit.
    pub open spec fn ready(self) -> bool {
        self.opened && !self.drained && self.stage is Idle
    }

    /// The native call that the stage stands for.
    pub open spec fn call(self) -> Option<DecoderCall> {
        match self.stage {
            DecoderStage::Idle => None,
            DecoderStage::Finished => None,
            DecoderStage::FindDecoder => Some(
                DecoderCall::FindDecoder { codec: CodecId::H264 },
            ),
            DecoderStage::AllocateObjects => Some(DecoderCall::AllocateObjects),
            DecoderStage::OpenCodec => Some(DecoderCall::OpenCodec { thread_count: 1 }),
            DecoderStage::Cleanup => Some(DecoderCall::Cleanup),
            DecoderStage::AllocatePacket => Some(
                DecoderCall::AllocatePacket { size: self.packet_size },
            ),
            DecoderStage::SubmitPacket => Some(DecoderCall::SubmitPacket),
            DecoderStage::ReceiveFrame { .. } => Some(DecoderCall::ReceiveFrame),
            DecoderStage::Flush => Some(DecoderCall::Flush),
            DecoderStage::ReadLuma => Some(DecoderCall::ReadLuma),
        }
    }

    /// Whether a reply has the form that the pending call is answered in.
    pub open spec fn expects(self, reply: DecoderReply) -> bool {
        match self.stage {
            DecoderStage::Idle => false,
            DecoderStage::Finished => false,
            DecoderStage::ReadLuma => false,
            DecoderStage::FindDecoder => reply is Found,
            DecoderStage::AllocateObjects => reply is Allocated,
            DecoderStage::Cleanup => reply is Done,
            DecoderStage::OpenCodec => reply is Status,
            DecoderStage::AllocatePacket => reply is Status,
            DecoderStage::SubmitPacket => reply is Status,
            DecoderStage::ReceiveFrame { .. } => reply is Status,
            DecoderStage::Flush => reply is Status,
        }
    }

    /// The same decoder at another stage.
    pub open spec fn at(self, stage: DecoderStage) -> Self {
        DecoderView { stage, ..self }
    }

    /// The work has failed and goes on at `stage`.
    pub open spec fn failing(self, stage: DecoderStage, error: DecoderErrorView) -> Self {
        DecoderView { stage, frame: None, failure: Some(error), ..self }
    }

    /// A step that succeeds unless its status is negative.
    pub open spec fn on_status(
        self,
        status: Status,
        operation: &str,
        next: DecoderStage,
        on_failure: DecoderStage,
    ) -> Self {
        if status.failed() {
            self.failing(on_failure, DecoderErrorView::native(operation, status))
        } else {
            self.at(next)
        }
    }

    /// The state after the context was opened, or could not be.
    pub open spec fn on_open(self, status: Status) -> Self {
        if status.failed() {
            self.failing(
                DecoderStage::Cleanup,
                DecoderErrorView::native("open software H.264 decoder", status),
            )
        } else {
            DecoderView {
                opened: true,
                pending: false,
                stage: if self.pending {
                    DecoderStage::AllocatePacket
                } else {
                    DecoderStage::Idle
                },
                ..self
            }
        }
    }

    /// The state after the decoder was asked for a frame.
    pub open spec fn on_receive(self, status: Status, flushed: bool) -> Self {
        if status.code == self.again && self.flush_on_eagain && !flushed {
            self.at(DecoderStage::Flush)
        } else if status.code == self.again {
            self.failing(
                DecoderStage::Finished,
                DecoderErrorView::fixed(
                    "receive decoded H.264 frame",
                    "decoder produced no frame for the submitted access unit",
                ),
            )
        } else {
            self.on_status(
                status,
                "receive decoded H.264 frame",
                DecoderStage::ReadLuma,
                DecoderStage::Finished,
            )
        }
    }

    /// The state after the end of the stream was sent.
    pub open spec fn on_flush(self, status: Status) -> Self {
        DecoderView { drained: true, ..self }.on_status(
            status,
            "flush software H.264 decoder",
            DecoderStage::ReceiveFrame { flushed: true },
            DecoderStage::Finished,
        )
    }

    /// The state after a reply to the pending call.
    pub open spec fn next(self, reply: DecoderReply) -> Self {
        match (self.stage, reply) {
            (DecoderStage::FindDecoder, DecoderReply::Found(found)) => if found {
                self.at(DecoderStage::AllocateObjects)
            } else {
                self.failing(
                    DecoderStage::Finished,
                    DecoderErrorView::fixed(
                        "find software H.264 decoder",
                        "system FFmpeg does not expose an H.264 decoder",
                    ),
                )
            },
            (
                DecoderStage::AllocateObjects,
                DecoderReply::Allocated { context, packet, frame },
            ) => if context && packet && frame {
                self.at(DecoderStage::OpenCodec)
            } else {
                self.failing(
                    DecoderStage::Cleanup,
                    DecoderErrorView::fixed(
                        "allocate H.264 decoder",
                        "FFmpeg returned a null context, packet, or frame",
                    ),
                )
            },
            (DecoderStage::OpenCodec, DecoderReply::Status(status)) => self.on_open(status),
            (DecoderStage::Cleanup, DecoderReply::Done) => self.at(DecoderStage::Finished),
            (DecoderStage::AllocatePacket, DecoderReply::Status(status)) => self.on_status(
                status,
                "allocate decoder packet",
                DecoderStage::SubmitPacket,
                DecoderStage::Finished,
            ),
            (DecoderStage::SubmitPacket, DecoderReply::Status(status)) => self.on_status(
                status,
                "submit H.264 access unit",
                DecoderStage::ReceiveFrame { flushed: false },
                DecoderStage::Finished,
            ),
            (DecoderStage::ReceiveFrame { flushed }, DecoderReply::Status(status)) => self.on_receive(
                status,
                flushed,
            ),
            (DecoderStage::Flush, DecoderReply::Status(status)) => self.on_flush(status),
            _ => self,
        }
    }

    /// The state after the luma plane of the frame was read.
    pub open spec fn read(self, plane: LumaPlane, data: Seq<u8>) -> Self {
        if plane.usable() {
            DecoderView {
                stage: DecoderStage::Finished,
                frame: Some(plane.decoded(data)),
                failure: None,
                ..self
            }
        } else {
            self.failing(DecoderStage::Finished, LumaPlane::rejection())
        }
    }

    /// The result of a finished access unit, or of a failed opening.
    pub open spec fn outcome(self) -> Result<DecodedFrame, DecoderErrorView> {
        match self.failure {
            Some(error) => Err(error),
            None => Ok(self.frame->0),
        }
    }

    /// The decoder after the result was taken.
    pub open spec fn settled(self) -> Self {
        DecoderView { stage: DecoderStage::Idle, frame: None, failure: None, ..self }
    }

    /// Whether the stage belongs to the opening.
    pub open spec fn opening(self) -> bool {
        match self.stage {
            DecoderStage::FindDecoder => true,
            DecoderStage::AllocateObjects => true,
            DecoderStage::OpenCodec => true,
            DecoderStage::Cleanup => true,
            _ => false,
        }
    }

    /// Whether the stage belongs to the decoding of an access unit.
    pub open spec fn busy(self) -> bool {
        match self.stage {
            DecoderStage::AllocatePacket => true,
            DecoderStage::SubmitPacket => true,
            DecoderStage::ReceiveFrame { .. } => true,
            DecoderStage::Flush => true,
            DecoderStage::ReadLuma => true,
            _ => false,
        }
    }

    /// The invariant of a decoder.
    pub open spec fn wf(self) -> bool {
        &&& self.opening() ==> !self.opened
        &&& self.busy() ==> self.opened && self.failure is None
        &&& self.pending ==> !self.opened
        &&& self.busy() || self.pending ==> {
            &&& decoder::access_unit_bounded(self.unit.len())
            &&& self.packet_size == self.unit.len()
        }
        &&& self.stage is Flush ==> self.flush_on_eagain
        &&& self.stage matches DecoderStage::ReceiveFrame { flushed } ==> flushed == self.drained
        &&& self.drained ==> self.opened && self.flush_on_eagain
        &&& self.drained ==> match self.stage {
            DecoderStage::AllocatePacket => false,
            DecoderStage::SubmitPacket => false,
            DecoderStage::Flush => false,
            _ => true,
        }
        &&& self.opening() ==> (self.failure is Some <==> self.stage is Cleanup)
        &&& self.stage is Finished ==> {
            ||| self.failure is Some
            ||| self.opened && self.frame is Some
        }
    }
}

impl H264StreamDecoder {
    /// Whether the decoder is in a consistent state.
    pub open spec fn wf(&self) -> bool {
        self@.wf()
    }

    /// Starts a decoder; its opening calls are pending.
    pub fn open() -> (decoder: Self)
        ensures
            decoder.wf(),
            decoder@ == DecoderView::initial(decoder@.again),
            status::numbers_again(-decoder@.again),
    {
        Self::open_with(again_code())
    }

    /// Starts a decoder whose native side says `again` when it has nothing to hand out yet.
    pub fn open_with(again: i32) -> (decoder: Self)
        ensures
            decoder.wf(),
            decoder@ == DecoderView::initial(again),
    {
        H264StreamDecoder {
            again,
            stage: DecoderStage::FindDecoder,
            opened: false,
            drained: false,
            pending: false,
            flush_on_eagain: false,
            unit: Ghost(Seq::empty()),
            packet_size: 0,
            frame: None,
            failure: None,
        }
    }

    /// Checks the next access unit of the stream and starts its decoding.
    pub fn decode(&mut self, annex_b: &[u8]) -> (started: Result<(), DecoderError>)
        requires
            old(self).wf(),
            old(self)@.ready(),
        ensures
            final(self).wf(),
            match started {
                Ok(()) => {
                    &&& decoder::access_unit_bounded(annex_b@.len())
                    &&& final(self)@ == old(self)@.decoding(annex_b@)
                },
                Err(error) => {
                    &&& !decoder::access_unit_bounded(annex_b@.len())
                    &&& error@ == decoder::access_unit_rejection()
                    &&& final(self)@ == old(self)@
                },
            },
    {
        match validate_access_unit(annex_b) {
            Ok(()) => {},
            Err(error) => return Err(error),
        }
        self.stage = DecoderStage::AllocatePacket;
        self.flush_on_eagain = false;
        self.unit = Ghost(annex_b@);
        self.packet_size = annex_b.len() as i32;
        self.frame = None;
        self.failure = None;
        Ok(())
    }

    /// Whether the decoder can take an access unit.
    pub fn ready(&self) -> (ready: bool)
        ensures
            ready == self@.ready(),
    {
        self.opened && !self.drained && matches!(self.stage, DecoderStage::Idle)
    }

    /// Whether the result of an access unit, or of a failed opening, is there.
    pub fn finished(&self) -> (finished: bool)
        ensures
            finished == (self@.stage is Finished),
    {
        matches!(self.stage, DecoderStage::Finished)
    }

    /// The call to make next, or `None` when nothing is pending or the result is there.
    pub fn call(&self) -> (call: Option<DecoderCall>)
        ensures
            call == self@.call(),
    {
        match self.stage {
            DecoderStage::Idle => None,
            DecoderStage::Finished => None,
            DecoderStage::FindDecoder => Some(
                DecoderCall::FindDecoder { codec: CodecId::H264 },
            ),
            DecoderStage::AllocateObjects => Some(DecoderCall::AllocateObjects),
            DecoderStage::OpenCodec => Some(DecoderCall::OpenCodec { thread_count: 1 }),
            DecoderStage::Cleanup => Some(DecoderCall::Cleanup),
            DecoderStage::AllocatePacket => Some(
                DecoderCall::AllocatePacket { size: self.packet_size },
            ),
            DecoderStage::SubmitPacket => Some(DecoderCall::SubmitPacket),
            DecoderStage::ReceiveFrame { .. } => Some(DecoderCall::ReceiveFrame),
            DecoderStage::Flush => Some(DecoderCall::Flush),
            DecoderStage::ReadLuma => Some(DecoderCall::ReadLuma),
        }
    }

    /// Whether a reply has the form that the pending call is answered in.
    pub fn expects(&self, reply: &DecoderReply) -> (expected: bool)
        ensures
            expected == self@.expects(*reply),
    {
        match (self.stage, reply) {
            (DecoderStage::FindDecoder, DecoderReply::Found(_)) => true,
            (DecoderStage::AllocateObjects, DecoderReply::Allocated { .. }) => true,
            (DecoderStage::Cleanup, DecoderReply::Done) => true,
            (
                DecoderStage::OpenCodec
                | DecoderStage::AllocatePacket
                | DecoderStage::SubmitPacket
                | DecoderStage::ReceiveFrame { .. }
                | DecoderStage::Flush,
                DecoderReply::Status(_),
            ) => true,
            _ => false,
        }
    }

    fn fail(&mut self, stage: DecoderStage, error: DecoderError)
        ensures
            final(self)@ == old(self)@.failing(stage, error@),
    {
        self.stage = stage;
        self.frame = None;
        self.failure = Some(error);
    }

    fn on_status(
        &mut self,
        status: Status,
        operation: &'static str,
        next: DecoderStage,
        on_failure: DecoderStage,
    )
        ensures
            final(self)@ == old(self)@.on_status(status, operation, next, on_failure),
    {
        if status.code < 0 {
            self.fail(on_failure, DecoderError::ffmpeg(operation, status));
        } else {
            self.stage = next;
        }
    }

    fn on_open(&mut self, status: Status)
        ensures
            final(self)@ == old(self)@.on_open(status),
    {
        if status.code < 0 {
            self.fail(
                DecoderStage::Cleanup,
                DecoderError::ffmpeg("open software H.264 decoder", status),
            );
        } else {
            self.opened = true;
            self.stage =
            if self.pending {
                DecoderStage::AllocatePacket
            } else {
                DecoderStage::Idle
            };
            self.pending = false;
        }
    }

    fn on_receive(&mut self, status: Status, flushed: bool)
        ensures
            final(self)@ == old(self)@.on_receive(status, flushed),
    {
        if status.code == self.again && self.flush_on_eagain && !flushed {
            self.stage = DecoderStage::Flush;
        } else if status.code == self.again {
            self.fail(
                DecoderStage::Finished,
                DecoderError::fixed(
                    "receive decoded H.264 frame",
                    "decoder produced no frame for the submitted access unit",
                ),
            );
        } else {
            self.on_status(
                status,
                "receive decoded H.264 frame",
                DecoderStage::ReadLuma,
                DecoderStage::Finished,
            );
        }
    }

    fn on_flush(&mut self, status: Status)
        ensures
            final(self)@ == old(self)@.on_flush(status),
    {
        self.drained = true;
        self.on_status(
            status,
            "flush software H.264 decoder",
            DecoderStage::ReceiveFrame { flushed: true },
            DecoderStage::Finished,
        );
    }

    /// Takes the reply to the pending call.
    pub fn advance(&mut self, reply: DecoderReply)
        requires
            old(self).wf(),
            old(self)@.expects(reply),
        ensures
            final(self).wf(),
            final(self)@ == old(self)@.next(reply),
    {
        match (self.stage, reply) {
            (DecoderStage::FindDecoder, DecoderReply::Found(found)) => {
                if found {
                    self.stage = DecoderStage::AllocateObjects;
                } else {
                    self.fail(
                        DecoderStage::Finished,
                        DecoderError::fixed(
                            "find software H.264 decoder",
                            "system FFmpeg does not expose an H.264 decoder",
                        ),
                    );
                }
            },
            (
                DecoderStage::AllocateObjects,
                DecoderReply::Allocated { context, packet, frame },
            ) => {
                if context && packet && frame {
                    self.stage = DecoderStage::OpenCodec;
                } else {
                    self.fail(
                        DecoderStage::Cleanup,
                        DecoderError::fixed(
                            "allocate H.264 decoder",
                            "FFmpeg returned a null context, packet, or frame",
                        ),
                    );
                }
            },
            (DecoderStage::OpenCodec, DecoderReply::Status(status)) => self.on_open(status),
            (DecoderStage::Cleanup, DecoderReply::Done) => {
                self.stage = DecoderStage::Finished;
            },
            (DecoderStage::AllocatePacket, DecoderReply::Status(status)) => self.on_status(
                status,
                "allocate decoder packet",
                DecoderStage::SubmitPacket,
                DecoderStage::Finished,
            ),
            (DecoderStage::SubmitPacket, DecoderReply::Status(status)) => self.on_status(
                status,
                "submit H.264 access unit",
                DecoderStage::ReceiveFrame { flushed: false },
                DecoderStage::Finished,
            ),
            (DecoderStage::ReceiveFrame { flushed }, DecoderReply::Status(status)) => self.on_receive(
                status,
                flushed,
            ),
            (DecoderStage::Flush, DecoderReply::Status(status)) => self.on_flush(status),
            _ => {},
        }
    }

    /// Fills the native packet, which is as long as the access unit, before it is sent.
    pub fn fill_packet(&self, annex_b: &[u8], packet: &mut [u8])
        requires
            self.wf(),
            self@.stage is SubmitPacket,
            annex_b@ == self@.unit,
            old(packet)@.len() == self@.packet_size,
        ensures
            final(packet)@ == self@.unit,
    {
        let length: usize = annex_b.len();
        assert((1 - 1) * length == 0) by (nonlinear_arith);
        rows::copy_rows(annex_b, length, packet, length, length, 1);
        proof {
            assert(0 * length == 0) by (nonlinear_arith);
            reveal_with_fuel(rows::rows_copied, 2);
            assert(packet@ =~= annex_b@);
        }
    }

    /// Reads the luma plane of the received frame, which ends the access unit.
    pub fn read_luma(&mut self, plane: LumaPlane, data: &[u8])
        requires
            old(self).wf(),
            old(self)@.stage is ReadLuma,
            plane.usable() ==> data@.len() >= plane.length(),
        ensures
            final(self).wf(),
            final(self)@ == old(self)@.read(plane, data@),
    {
        match decoded_luma(plane, data) {
            Ok(frame) => {
                self.stage = DecoderStage::Finished;
                self.frame = Some(frame);
                self.failure = None;
            },
            Err(error) => self.fail(DecoderStage::Finished, error),
        }
    }

    /// Takes the result of a finished access unit, or of a failed opening.
    pub fn finish(&mut self) -> (outcome: Result<DecodedFrame, DecoderError>)
        requires
            old(self).wf(),
            old(self)@.stage is Finished,
        ensures
            final(self).wf(),
            final(self)@ == old(self)@.settled(),
            match outcome {
                Ok(frame) => old(self)@.outcome() == Ok::<DecodedFrame, DecoderErrorView>(frame),
                Err(error) => old(self)@.outcome() == Err::<DecodedFrame, DecoderErrorView>(
                    error@,
                ),
            },
    {
        self.stage = DecoderStage::Idle;
        let frame = self.frame.take();
        match self.failure.take() {
            Some(error) => Err(error),
            None => match frame {
                Some(frame) => Ok(frame),
                None => unreached(),
            },
        }
    }
}

/// Starts the decoding of one independently decodable Annex-B H.264 access unit with a fresh
/// context. An access unit out of bounds is rejected before any native call.
pub fn decode_h264_luma(annex_b: &[u8]) -> (started: Result<H264StreamDecoder, DecoderError>)
    ensures
        match started {
            Ok(decoder) => {
                &&& decoder::access_unit_bounded(annex_b@.len())
                &&& decoder.wf()
                &&& decoder@ == DecoderView::one_shot(decoder@.again, annex_b@)
                &&& status::numbers_again(-decoder@.again)
            },
            Err(error) => {
                &&& !decoder::access_unit_bounded(annex_b@.len())
                &&& error@ == decoder::access_unit_rejection()
            },
        },
{
    decode_h264_luma_with(annex_b, again_code())
}

/// [`decode_h264_luma`] for a native side that says `again` when it has nothing to hand out yet.
pub fn decode_h264_luma_with(annex_b: &[u8], again: i32) -> (started: Result<
    H264StreamDecoder,
    DecoderError,
>)
    ensures
        match started {
            Ok(decoder) => {
                &&& decoder::access_unit_bounded(annex_b@.len())
                &&& decoder.wf()
                &&& decoder@ == DecoderView::one_shot(again, annex_b@)
            },
            Err(error) => {
                &&& !decoder::access_unit_bounded(annex_b@.len())
                &&& error@ == decoder::access_unit_rejection()
            },
        },
{
    match validate_access_unit(annex_b) {
        Ok(()) => {},
        Err(error) => return Err(error),
    }
    let mut decoder = H264StreamDecoder::open_with(again);
    decoder.pending = true;
    decoder.flush_on_eagain = true;
    decoder.unit = Ghost(annex_b@);
    decoder.packet_size = annex_b.len() as i32;
    Ok(decoder)
}

/// The invariant of a decoder holds after each reply.
pub proof fn law_decoder_stays_wf(decoder: DecoderView, reply: DecoderReply)
    requires
        decoder.wf(),
        decoder.expects(reply),
    ensures
        decoder.next(reply).wf(),
{
}

/// A decoder that has been opened keeps its context, and with it the references of its stream,
/// whatever becomes of an access unit. It takes the next one unless it was sent the end of the
/// stream.
pub proof fn law_open_decoder_keeps_its_context(decoder: DecoderView, reply: DecoderReply)
    requires
        decoder.wf(),
        decoder.expects(reply),
        decoder.opened,
    ensures
        decoder.next(reply).opened,
        !decoder.next(reply).opening(),
        decoder.next(reply).drained == (decoder.drained || decoder.stage is Flush),
        decoder.next(reply).stage is Finished ==> (decoder.next(reply).settled().ready()
            <==> !decoder.next(reply).drained),
{
}

/// The decoder of a stream is never sent its end: after each access unit it takes the next one.
pub proof fn law_stream_goes_on(decoder: DecoderView, reply: DecoderReply)
    requires
        decoder.wf(),
        decoder.expects(reply),
        !decoder.flush_on_eagain,
    ensures
        !decoder.next(reply).flush_on_eagain,
        !decoder.next(reply).drained,
        decoder.opened && decoder.next(reply).stage is Finished ==> decoder.next(
            reply,
        ).settled().ready(),
{
}

/// The access unit of a received frame ends with the size and the luma sum of the picture, exactly
/// when its plane is usable.
pub proof fn law_read_frame_is_the_picture(decoder: DecoderView, plane: LumaPlane, data: Seq<u8>)
    requires
        decoder.wf(),
        decoder.stage is ReadLuma,
    ensures
        decoder.read(plane, data).wf(),
        decoder.read(plane, data).stage is Finished,
        decoder.read(plane, data).outcome() == if plane.usable() {
            Ok::<DecodedFrame, DecoderErrorView>(plane.decoded(data))
        } else {
            Err(LumaPlane::rejection())
        },
{
}

/// An access unit of a stream never ends the stream: the end is sent only for an access unit that
/// is decoded by itself, and at most once.
pub proof fn law_only_single_units_are_flushed(decoder: DecoderView, reply: DecoderReply)
    requires
        decoder.wf(),
        decoder.expects(reply),
        decoder.next(reply).stage is Flush,
    ensures
        decoder.flush_on_eagain,
        decoder.stage == (DecoderStage::ReceiveFrame { flushed: false }),
{
}

/// An access unit of a stream is decoded without the end of the stream, one that is decoded by
/// itself with it, and with a decoder of its own.
pub proof fn law_how_units_are_decoded(decoder: DecoderView, again: i32, unit: Seq<u8>)
    ensures
        !decoder.decoding(unit).flush_on_eagain,
        decoder.decoding(unit).opened == decoder.opened,
        DecoderView::one_shot(again, unit).flush_on_eagain,
        DecoderView::one_shot(again, unit).stage is FindDecoder,
        !DecoderView::one_shot(again, unit).opened,
{
}

/// A decoder is opened exactly when it was found, all its objects were allocated and its context
/// opened; after a failed allocation or opening, what was allocated is freed.
pub proof fn law_opening_needs_every_call(
    decoder: DecoderView,
    found: bool,
    context: bool,
    packet: bool,
    frame: bool,
    status: Status,
)
    requires
        decoder.wf(),
        decoder.stage is FindDecoder,
    ensures
        ({
            let looked_up = decoder.next(DecoderReply::Found(found));
            let allocated = looked_up.next(DecoderReply::Allocated { context, packet, frame });
            let last = allocated.next(DecoderReply::Status(status));
            &&& last.opened <==> found && context && packet && frame && !status.failed()
            &&& !found ==> last.stage is Finished
            &&& found && !last.opened ==> last.stage is Cleanup
        }),
{
}

/// A frame is read for an access unit exactly when its packet was allocated and submitted and the
/// decoder handed a frame out, at once or after the one end of the stream.
pub proof fn law_frame_is_read_when_handed_out(
    decoder: DecoderView,
    allocated: Status,
    submitted: Status,
    received: Status,
    flushed: Status,
    received_again: Status,
)
    requires
        decoder.wf(),
        decoder.stage is AllocatePacket,
    ensures
        ({
            let first = decoder.next(DecoderReply::Status(allocated)).next(
                DecoderReply::Status(submitted),
            ).next(DecoderReply::Status(received));
            let last = if first.stage is Flush {
                first.next(DecoderReply::Status(flushed)).next(DecoderReply::Status(received_again))
            } else {
                first
            };
            let at_once = received.code >= 0 && received.code != decoder.again;
            let after_flush = {
                &&& received.code == decoder.again
                &&& decoder.flush_on_eagain
                &&& !flushed.failed()
                &&& received_again.code >= 0 && received_again.code != decoder.again
            };
            &&& last.stage is ReadLuma <==> !allocated.failed() && !submitted.failed() && (at_once
                || after_flush)
            &&& last.stage is ReadLuma || last.stage is Finished
        }),
{
}

/// What is submitted is kept up to its packet: no reply changes the access unit or its length.
pub proof fn law_access_unit_is_kept(decoder: DecoderView, reply: DecoderReply)
    ensures
        decoder.next(reply).unit == decoder.unit,
        decoder.next(reply).packet_size == decoder.packet_size,
{
}

/// The number of replies after which a decoder is idle or finished at the latest.
pub open spec fn replies_left(decoder: DecoderView) -> nat {
    match decoder.stage {
        DecoderStage::Idle => 0,
        DecoderStage::Finished => 0,
        DecoderStage::Cleanup => 1,
        DecoderStage::ReadLuma => 1,
        DecoderStage::ReceiveFrame { flushed } => if flushed {
            2
        } else {
            4
        },
        DecoderStage::Flush => 3,
        DecoderStage::SubmitPacket => 5,
        DecoderStage::AllocatePacket => 6,
        DecoderStage::OpenCodec => 7,
        DecoderStage::AllocateObjects => 8,
        DecoderStage::FindDecoder => 9,
    }
}

/// Each reply brings a decoder closer to a result, which is there after at most nine.
pub proof fn law_decoding_ends(decoder: DecoderView, reply: DecoderReply)
    requires
        decoder.wf(),
        decoder.expects(reply),
    ensures
        replies_left(decoder.next(reply)) < replies_left(decoder) <= 9,
{
}

/// An access unit of a stream is decoded as it was given: its bytes, all of them, in the context of
/// the stream. One out of bounds leaves the decoder alone.
pub proof fn law_stream_units_are_taken_as_given(annex_b: &[u8])
    ensures
        forall|decoder: &mut H264StreamDecoder, started: Result<(), DecoderError>| #[trigger]
            call_ensures(H264StreamDecoder::decode, (decoder, annex_b), started) ==> {
                &&& started is Ok <==> 1 <= annex_b@.len() <= 67_108_864
                &&& started is Ok ==> {
                    &&& final(decoder)@.unit == annex_b@
                    &&& final(decoder)@.packet_size == annex_b@.len()
                    &&& final(decoder)@.stage is AllocatePacket
                    &&& !final(decoder)@.flush_on_eagain
                    &&& final(decoder)@.opened == decoder@.opened
                    &&& final(decoder)@.drained == decoder@.drained
                    &&& final(decoder)@.again == decoder@.again
                    &&& final(decoder)@.failure is None
                }
                &&& started is Err ==> final(decoder)@ == decoder@
            },
{
}

/// A single access unit is decoded as it was given, by a decoder that has not been opened yet and
/// may send the end of the stream.
pub proof fn law_single_units_are_taken_as_given(
    annex_b: &[u8],
    again: i32,
    started: Result<H264StreamDecoder, DecoderError>,
)
    requires
        call_ensures(decode_h264_luma_with, (annex_b, again), started),
    ensures
        started is Ok <==> 1 <= annex_b@.len() <= 67_108_864,
        started matches Ok(decoder) ==> {
            &&& decoder@.unit == annex_b@
            &&& decoder@.packet_size == annex_b@.len()
            &&& decoder@.stage is FindDecoder
            &&& decoder@.again == again
            &&& decoder@.pending
            &&& decoder@.flush_on_eagain
            &&& !decoder@.opened
            &&& !decoder@.drained
            &&& decoder@.failure is None
        },
{
}

/// A fresh decoder has nothing to decode, and opens.
pub proof fn law_fresh_decoders_only_open(again: i32, decoder: H264StreamDecoder)
    requires
        call_ensures(H264StreamDecoder::open_with, (again,), decoder),
    ensures
        decoder@.again == again,
        decoder@.stage is FindDecoder,
        !decoder@.pending,
        !decoder@.opened,
        !decoder@.drained,
        decoder@.failure is None,
{
}

/// Each stage makes its own call, with the length of the access unit where a packet is allocated.
pub proof fn law_decoder_calls(decoder: H264StreamDecoder, call: Option<DecoderCall>)
    requires
        decoder.wf(),
        call_ensures(H264StreamDecoder::call, (&decoder,), call),
    ensures
        call is None <==> decoder@.stage is Idle || decoder@.stage is Finished,
        decoder@.stage is FindDecoder <==> call == Some(
            DecoderCall::FindDecoder { codec: CodecId::H264 },
        ),
        decoder@.stage is AllocateObjects <==> call == Some(DecoderCall::AllocateObjects),
        decoder@.stage is OpenCodec <==> call == Some(DecoderCall::OpenCodec { thread_count: 1 }),
        decoder@.stage is Cleanup <==> call == Some(DecoderCall::Cleanup),
        decoder@.stage is AllocatePacket ==> (call matches Some(
            DecoderCall::AllocatePacket { size },
        ) && size == decoder@.unit.len()),
        decoder@.stage is SubmitPacket <==> call == Some(DecoderCall::SubmitPacket),
        decoder@.stage is ReceiveFrame <==> call == Some(DecoderCall::ReceiveFrame),
        decoder@.stage is Flush <==> call == Some(DecoderCall::Flush),
        decoder@.stage is ReadLuma <==> call == Some(DecoderCall::ReadLuma),
{
}

/// The packet that is sent holds the access unit, byte for byte.
pub proof fn law_packet_is_the_access_unit(decoder: H264StreamDecoder, annex_b: &[u8])
    requires
        decoder.wf(),
        annex_b@ == decoder@.unit,
    ensures
        forall|packet: &mut [u8]| #[trigger]
            call_ensures(H264StreamDecoder::fill_packet, (&decoder, annex_b, packet), ())
                ==> final(packet)@ == annex_b@,
{
}

/// A call that fails ends the work with the operation that failed and the description of its
/// status; after a failed opening, what was allocated is freed first.
pub proof fn law_failed_decoder_calls_are_reported(decoder: DecoderView, status: Status)
    requires
        decoder.wf(),
        decoder.expects(DecoderReply::Status(status)),
        status.code < 0,
        decoder.stage is ReceiveFrame ==> status.code != decoder.again,
    ensures
        ({
            let next = decoder.next(DecoderReply::Status(status));
            &&& next.failure matches Some(error)
            &&& error.detail == status.detail()
            &&& decoder.stage is OpenCodec ==> error.operation == "open software H.264 decoder"@
            &&& decoder.stage is AllocatePacket ==> error.operation == "allocate decoder packet"@
            &&& decoder.stage is SubmitPacket ==> error.operation == "submit H.264 access unit"@
            &&& decoder.stage is ReceiveFrame ==> error.operation == "receive decoded H.264 frame"@
            &&& decoder.stage is Flush ==> error.operation == "flush software H.264 decoder"@
            &&& decoder.stage is OpenCodec <==> next.stage is Cleanup
            &&& !(decoder.stage is OpenCodec) ==> next.stage is Finished
        }),
{
}

/// A decoder that has been opened goes on with the access unit that waits, or is idle.
pub proof fn law_opened_decoders_go_on(decoder: DecoderView, status: Status)
    requires
        decoder.stage is OpenCodec,
        status.code >= 0,
    ensures
        decoder.next(DecoderReply::Status(status)).opened,
        !decoder.next(DecoderReply::Status(status)).pending,
        decoder.pending <==> decoder.next(DecoderReply::Status(status)).stage is AllocatePacket,
        !decoder.pending <==> decoder.next(DecoderReply::Status(status)).stage is Idle,
{
}

/// The result of finished work is its failure, or else its frame.
pub proof fn law_results_are_handed_out(outcome: Result<DecodedFrame, DecoderError>)
    ensures
        forall|decoder: &mut H264StreamDecoder| #[trigger]
            call_ensures(H264StreamDecoder::finish, (decoder,), outcome) ==> {
                &&& outcome matches Err(error) ==> decoder@.failure == Some(error@)
                &&& outcome matches Ok(frame) ==> {
                    &&& decoder@.failure is None
                    &&& decoder@.frame is Some ==> decoder@.frame == Some(frame)
                }
                &&& final(decoder)@.stage is Idle
                &&& final(decoder)@.opened == decoder@.opened
                &&& final(decoder)@.drained == decoder@.drained
                &&& final(decoder)@.again == decoder@.again
                &&& final(decoder)@.failure is None
            },
{
}

/// A decoder takes an access unit exactly when it is open, idle and was not sent the end of the
/// stream.
pub proof fn law_readiness(decoder: H264StreamDecoder, ready: bool, finished: bool)
    requires
        call_ensures(H264StreamDecoder::ready, (&decoder,), ready),
        call_ensures(H264StreamDecoder::finished, (&decoder,), finished),
    ensures
        ready <==> decoder@.opened && !decoder@.drained && decoder@.stage is Idle,
        finished <==> decoder@.stage is Finished,
{
}

} // verus!
