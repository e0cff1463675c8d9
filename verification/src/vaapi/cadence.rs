//! Which packets of an encoder are keyframes.

use vstd::prelude::*;

use crate::vaapi::config::H264Gop;
use crate::vaapi::laws;
use crate::vaapi::opening::{EncoderSettings, OpeningView};
use crate::vaapi::protocol::{self, EncoderView, NativeCodes, PacketView, Reply, Stage};

verus! {

/// One frame that an encoder accepted: the encoder at the start of its submission, and the replies
/// to the calls of the submission.
pub struct EncodedFrame {
    pub submitted: EncoderView,
    pub replies: Seq<Reply>,
}

impl EncodedFrame {
    /// Whether `encoder` accepted the frame.
    pub open spec fn accepted_by(self, encoder: EncoderView) -> bool {
        &&& encoder.wf()
        &&& encoder.ready()
        &&& self.submitted.wf()
        &&& self.submitted.stage is AllocateHostFrame || self.submitted.stage is AllocateDescriptor
        &&& self.submitted == EncoderView {
            stage: self.submitted.stage,
            job: self.submitted.job,
            ..encoder
        }
    }

    /// The encoder at the end of the submission.
    pub open spec fn finished(self) -> EncoderView {
        laws::after_replies(self.submitted, self.replies)
    }

    /// The packet of the frame.
    pub open spec fn packet(self) -> PacketView {
        self.finished().outcome()->Ok_0
    }

    /// Whether a keyframe was requested for the frame.
    pub open spec fn requested(self) -> bool {
        self.submitted.job.force_keyframe
    }

    /// Whether `encoder` accepted the frame and gave a packet for it, from a codec that codes a
    /// keyframe exactly when it is told to.
    pub open spec fn encoded_by(self, encoder: EncoderView) -> bool {
        &&& self.accepted_by(encoder)
        &&& laws::replies_expected(self.submitted, self.replies)
        &&& self.finished().stage is Finished
        &&& self.finished().outcome() is Ok
        &&& self.packet().keyframe == self.submitted.intra()
    }

    /// The encoder after the packet was taken.
    pub open spec fn encoder_after(self) -> EncoderView {
        self.finished().settled()
    }
}

/// The encoder after it encoded these frames, one by one.
pub open spec fn after_frames(encoder: EncoderView, frames: Seq<EncodedFrame>) -> EncoderView {
    if frames.len() == 0 {
        encoder
    } else {
        frames.last().encoder_after()
    }
}

/// Whether the encoder encoded these frames, one by one.
pub open spec fn all_encoded(encoder: EncoderView, frames: Seq<EncodedFrame>) -> bool
    decreases frames.len(),
{
    frames.len() == 0 || {
        &&& all_encoded(encoder, frames.drop_last())
        &&& frames.last().encoded_by(after_frames(encoder, frames.drop_last()))
    }
}

/// Whether a keyframe was requested for none of these frames.
pub open spec fn none_requested(frames: Seq<EncodedFrame>) -> bool {
    forall|i: int| 0 <= i < frames.len() ==> !(#[trigger] frames[i]).requested()
}

/// The packets since the last keyframe, after one more packet.
pub open spec fn counted(count: u32, keyframe: bool) -> u32 {
    if keyframe {
        0
    } else if count == u32::MAX {
        u32::MAX
    } else {
        (count + 1) as u32
    }
}

/// The packet of a frame is a keyframe exactly when one was requested or is due. A keyframe starts
/// the count again, and any other packet adds one to it.
pub proof fn law_packet_counts(encoder: EncoderView, frame: EncodedFrame)
    requires
        frame.encoded_by(encoder),
    ensures
        frame.packet().keyframe <==> frame.requested() || encoder.keyframe_due(),
        frame.encoder_after().settings == encoder.settings,
        frame.encoder_after().frames_since_keyframe == counted(
            encoder.frames_since_keyframe,
            frame.packet().keyframe,
        ),
{
    lemma_packet_is_counted(frame.submitted, frame.replies);
}

/// Without requests, the keyframes of a periodic encoder come exactly one period and a frame apart,
/// counted from the last keyframe before these frames.
pub proof fn law_keyframe_cadence(
    encoder: EncoderView,
    frames: Seq<EncodedFrame>,
    interval: u32,
    k: int,
)
    requires
        encoder.settings.gop == (H264Gop::LowLatency { keyframe_interval_frames: interval }),
        encoder.frames_since_keyframe <= interval,
        all_encoded(encoder, frames),
        none_requested(frames),
        0 <= k < frames.len(),
    ensures
        frames[k].packet().keyframe <==> (encoder.frames_since_keyframe + 1 + k) % (interval + 1)
            == 0,
    decreases frames.len(),
{
    let before = frames.drop_last();
    assert(none_requested(before)) by {
        assert forall|i: int| 0 <= i < before.len() implies !(#[trigger] before[i]).requested() by {
            assert(before[i] == frames[i]);
        }
    }
    if k < frames.len() - 1 {
        law_keyframe_cadence(encoder, before, interval, k);
        assert(before[k] == frames[k]);
    } else {
        lemma_count_follows_the_cadence(encoder, before, interval);
        let reached = after_frames(encoder, before);
        lemma_remainder_steps(reached.frames_since_keyframe as int, interval as int);
        law_packet_counts(reached, frames[k]);
        assert(!frames[k].requested());
    }
}

/// The keyframes of a periodic encoder for which none is requested are its first packet and then
/// exactly one packet after each period.
pub proof fn law_keyframes_of_an_opened_encoder(
    settings: EncoderSettings,
    device: Seq<u8>,
    codes: NativeCodes,
    opening: OpeningView,
    frames: Seq<EncodedFrame>,
    interval: u32,
    k: int,
)
    requires
        settings.gop == (H264Gop::LowLatency { keyframe_interval_frames: interval }),
        all_encoded(
            EncoderView { opening, ..EncoderView::initial(settings, device, codes) },
            frames,
        ),
        none_requested(frames),
        0 <= k < frames.len(),
    ensures
        frames[k].packet().keyframe <==> k % (interval + 1) == 0,
{
    let encoder = EncoderView { opening, ..EncoderView::initial(settings, device, codes) };
    law_keyframe_cadence(encoder, frames, interval, k);
    vstd::arithmetic::div_mod::lemma_mod_add_multiples_vanish(k, interval + 1);
}

/// A requested keyframe is one, and starts the period again.
pub proof fn law_requested_keyframe_restarts_the_period(
    encoder: EncoderView,
    requested: EncodedFrame,
    frames: Seq<EncodedFrame>,
    interval: u32,
    k: int,
)
    requires
        encoder.settings.gop == (H264Gop::LowLatency { keyframe_interval_frames: interval }),
        requested.encoded_by(encoder),
        requested.requested(),
        all_encoded(requested.encoder_after(), frames),
        none_requested(frames),
        0 <= k < frames.len(),
    ensures
        requested.packet().keyframe,
        frames[k].packet().keyframe <==> (k + 1) % (interval + 1) == 0,
{
    law_packet_counts(encoder, requested);
    law_keyframe_cadence(requested.encoder_after(), frames, interval, k);
}

/// With the all-intra policy every packet is a keyframe.
pub proof fn law_all_intra_packets_are_keyframes(encoder: EncoderView, frame: EncodedFrame)
    requires
        encoder.settings.gop is AllIntra,
        frame.encoded_by(encoder),
    ensures
        frame.packet().keyframe,
{
}

proof fn lemma_count_follows_the_cadence(
    encoder: EncoderView,
    frames: Seq<EncodedFrame>,
    interval: u32,
)
    requires
        encoder.settings.gop == (H264Gop::LowLatency { keyframe_interval_frames: interval }),
        encoder.frames_since_keyframe <= interval,
        all_encoded(encoder, frames),
        none_requested(frames),
    ensures
        after_frames(encoder, frames).settings == encoder.settings,
        after_frames(encoder, frames).frames_since_keyframe <= interval,
        (after_frames(encoder, frames).frames_since_keyframe + 1) % (interval + 1) == (
        encoder.frames_since_keyframe + 1 + frames.len()) % (interval + 1),
    decreases frames.len(),
{
    if frames.len() > 0 {
        let before = frames.drop_last();
        let last = frames.last();
        assert forall|i: int| 0 <= i < before.len() implies !(#[trigger] before[i]).requested() by {
            assert(before[i] == frames[i]);
        }
        lemma_count_follows_the_cadence(encoder, before, interval);
        let count = after_frames(encoder, before).frames_since_keyframe;
        assert(!frames[frames.len() - 1].requested());
        law_packet_counts(after_frames(encoder, before), last);
        lemma_remainder_steps(count as int, interval as int);
        vstd::arithmetic::div_mod::lemma_add_mod_noop(
            encoder.frames_since_keyframe + 1 + before.len(),
            1,
            interval + 1,
        );
        vstd::arithmetic::div_mod::lemma_add_mod_noop(count + 1, 1, interval + 1);
    }
}

/// A count within the period is due exactly at its end, and the next count is one further, or
/// starts again.
proof fn lemma_remainder_steps(count: int, interval: int)
    requires
        0 <= count <= interval,
    ensures
        (count + 1) % (interval + 1) == 0 <==> count == interval,
        count == interval ==> 1int % (interval + 1) == (count + 2) % (interval + 1),
{
    let period = interval + 1;
    if count == interval {
        vstd::arithmetic::div_mod::lemma_mod_self_0(period);
        vstd::arithmetic::div_mod::lemma_mod_add_multiples_vanish(1, period);
    } else {
        vstd::arithmetic::div_mod::lemma_small_mod((count + 1) as nat, period as nat);
    }
}

/// Whether the packet of the submission has not been read yet.
spec fn before_packet(encoder: EncoderView) -> bool {
    ||| laws::before_codec(encoder)
    ||| encoder.stage is ReceivePacket
    ||| encoder.stage is InspectPacket
    ||| encoder.stage is CopyPacket
}

/// Whether the packet of the submission has been read and is kept.
spec fn has_packet(encoder: EncoderView) -> bool {
    &&& encoder.job.failure is None
    &&& {
        ||| encoder.stage is DrainPacket
        ||| encoder.stage is ReleaseInput
        ||| encoder.stage is DestroyGraph
        ||| encoder.stage is Finished
    }
}

/// What is known of the count at each stage, in a submission that started with `count`.
spec fn count_kept(encoder: EncoderView, count: u32) -> bool {
    &&& before_packet(encoder) ==> encoder.frames_since_keyframe == count
    &&& has_packet(encoder) ==> {
        &&& encoder.job.packet is Some
        &&& encoder.frames_since_keyframe == counted(count, encoder.job.packet->0.keyframe)
    }
}

proof fn lemma_packet_is_counted(submitted: EncoderView, replies: Seq<Reply>)
    requires
        submitted.wf(),
        submitted.stage is AllocateHostFrame || submitted.stage is AllocateDescriptor,
        laws::replies_expected(submitted, replies),
    ensures
        laws::after_replies(submitted, replies).wf(),
        laws::after_replies(submitted, replies).settings == submitted.settings,
        count_kept(laws::after_replies(submitted, replies), submitted.frames_since_keyframe),
    decreases replies.len(),
{
    if replies.len() > 0 {
        lemma_packet_is_counted(submitted, replies.drop_last());
        lemma_count_is_kept(
            laws::after_replies(submitted, replies.drop_last()),
            replies.last(),
            submitted.frames_since_keyframe,
        );
    }
}

proof fn lemma_count_is_kept(encoder: EncoderView, reply: Reply, count: u32)
    requires
        encoder.wf(),
        encoder.expects(reply),
        count_kept(encoder, count),
    ensures
        encoder.next(reply).wf(),
        encoder.next(reply).settings == encoder.settings,
        count_kept(encoder.next(reply), count),
{
    protocol::law_encoder_stays_wf(encoder, reply);
    match encoder.stage {
        Stage::CopyPacket { .. } => {},
        Stage::DrainPacket => {},
        Stage::ReleaseInput => {},
        Stage::DestroyGraph => {},
        _ => {},
    }
}

} // verus!
