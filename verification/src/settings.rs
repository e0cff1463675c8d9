//! Capture settings and the part of them that may change while a capture runs.

use vstd::prelude::*;

use crate::float_bits::{float_one, float_sixty, float_zero, FloatBits};

verus! {

/// The full set of capture and encode parameters passed to a capture backend.
#[derive(Clone, Debug, PartialEq)]
pub struct RustCaptureSettings {
    pub width: i32,
    pub height: i32,
    pub scale: FloatBits,
    pub capture_x: i32,
    pub capture_y: i32,
    pub target_fps: FloatBits,
    pub jpeg_quality: i32,
    pub paint_over_jpeg_quality: i32,
    pub use_paint_over_quality: bool,
    pub paint_over_trigger_frames: u32,
    pub damage_block_threshold: u32,
    pub damage_block_duration: u32,
    pub output_mode: i32,
    pub video_crf: i32,
    pub video_paintover_crf: i32,
    pub video_paintover_burst_frames: i32,
    pub video_fullcolor: bool,
    pub video_fullframe: bool,
    pub video_streaming_mode: bool,
    pub capture_cursor: bool,
    /// Longest cursor edge delivered out of band; `<= 0` means uncapped.
    pub cursor_size_cap: i32,
    pub watermark_path: String,
    pub watermark_location_enum: i32,
    pub encode_node_index: i32,
    pub use_cpu: bool,
    pub use_openh264: bool,
    pub debug_logging: bool,
    pub auto_adjust_screen_capture_size: bool,
    pub recording_socket: String,
    /// Emit raw payloads without per-stripe headers.
    pub omit_stripe_headers: bool,
    pub video_cbr_mode: bool,
    pub video_bitrate_kbps: i32,
    /// CBR VBV/HRD size as a multiple of one frame's bit budget.
    pub video_vbv_multiplier: FloatBits,
    /// Seconds between scheduled recovery keyframes; `<= 0` keeps an infinite GOP.
    pub keyframe_interval_s: FloatBits,
    /// Encoder QP clamps; zero retains the encoder default.
    pub video_min_qp: i32,
    pub video_max_qp: i32,
}

/// The subset of settings that may be updated without recreating a capture session.
#[derive(Clone, Copy, Debug, PartialEq)]
pub struct LiveTunables {
    pub jpeg_quality: i32,
    pub paint_over_jpeg_quality: i32,
    pub use_paint_over_quality: bool,
    pub paint_over_trigger_frames: u32,
    pub video_crf: i32,
    pub video_paintover_crf: i32,
    pub video_paintover_burst_frames: i32,
    pub video_streaming_mode: bool,
    pub keyframe_interval_s: FloatBits,
    pub capture_cursor: bool,
}

impl RustCaptureSettings {
    /// The live-tunable part of the settings.
    pub open spec fn live(self) -> LiveTunables {
        LiveTunables {
            jpeg_quality: self.jpeg_quality,
            paint_over_jpeg_quality: self.paint_over_jpeg_quality,
            use_paint_over_quality: self.use_paint_over_quality,
            paint_over_trigger_frames: self.paint_over_trigger_frames,
            video_crf: self.video_crf,
            video_paintover_crf: self.video_paintover_crf,
            video_paintover_burst_frames: self.video_paintover_burst_frames,
            video_streaming_mode: self.video_streaming_mode,
            keyframe_interval_s: self.keyframe_interval_s,
            capture_cursor: self.capture_cursor,
        }
    }

    /// The settings with their live-tunable part replaced.
    pub open spec fn with_live(self, tunables: LiveTunables) -> Self {
        RustCaptureSettings {
            jpeg_quality: tunables.jpeg_quality,
            paint_over_jpeg_quality: tunables.paint_over_jpeg_quality,
            use_paint_over_quality: tunables.use_paint_over_quality,
            paint_over_trigger_frames: tunables.paint_over_trigger_frames,
            video_crf: tunables.video_crf,
            video_paintover_crf: tunables.video_paintover_crf,
            video_paintover_burst_frames: tunables.video_paintover_burst_frames,
            video_streaming_mode: tunables.video_streaming_mode,
            keyframe_interval_s: tunables.keyframe_interval_s,
            capture_cursor: tunables.capture_cursor,
            ..self
        }
    }
}

impl LiveTunables {
    /// Snapshot the live-tunable subset from full settings.
    #[must_use]
    pub fn from_settings(settings: &RustCaptureSettings) -> (tunables: Self)
        ensures
            tunables == settings.live(),
    {
        LiveTunables {
            jpeg_quality: settings.jpeg_quality,
            paint_over_jpeg_quality: settings.paint_over_jpeg_quality,
            use_paint_over_quality: settings.use_paint_over_quality,
            paint_over_trigger_frames: settings.paint_over_trigger_frames,
            video_crf: settings.video_crf,
            video_paintover_crf: settings.video_paintover_crf,
            video_paintover_burst_frames: settings.video_paintover_burst_frames,
            video_streaming_mode: settings.video_streaming_mode,
            keyframe_interval_s: settings.keyframe_interval_s,
            capture_cursor: settings.capture_cursor,
        }
    }

    /// Apply the live-tunable subset to full settings in place.
    pub fn apply_to(self, settings: &mut RustCaptureSettings)
        ensures
            *final(settings) == old(settings).with_live(self),
    {
        settings.jpeg_quality = self.jpeg_quality;
        settings.paint_over_jpeg_quality = self.paint_over_jpeg_quality;
        settings.use_paint_over_quality = self.use_paint_over_quality;
        settings.paint_over_trigger_frames = self.paint_over_trigger_frames;
        settings.video_crf = self.video_crf;
        settings.video_paintover_crf = self.video_paintover_crf;
        settings.video_paintover_burst_frames = self.video_paintover_burst_frames;
        settings.video_streaming_mode = self.video_streaming_mode;
        settings.keyframe_interval_s = self.keyframe_interval_s;
        settings.capture_cursor = self.capture_cursor;
    }
}

impl Default for RustCaptureSettings {
    fn default() -> (settings: Self)
        ensures
            settings.width == 1024,
            settings.height == 768,
            settings.scale.bits == 0x3ff0_0000_0000_0000,
            settings.capture_x == 0,
            settings.capture_y == 0,
            settings.target_fps.bits == 0x404e_0000_0000_0000,
            settings.jpeg_quality == 75,
            settings.paint_over_jpeg_quality == 95,
            settings.use_paint_over_quality == true,
            settings.paint_over_trigger_frames == 15,
            settings.damage_block_threshold == 10,
            settings.damage_block_duration == 30,
            settings.output_mode == 0,
            settings.video_crf == 25,
            settings.video_paintover_crf == 18,
            settings.video_paintover_burst_frames == 5,
            settings.video_fullcolor == false,
            settings.video_fullframe == false,
            settings.video_streaming_mode == false,
            settings.capture_cursor == false,
            settings.cursor_size_cap == 32,
            settings.watermark_path@ == Seq::<char>::empty(),
            settings.watermark_location_enum == 0,
            settings.encode_node_index == -2,
            settings.use_cpu == false,
            settings.use_openh264 == false,
            settings.debug_logging == false,
            settings.auto_adjust_screen_capture_size == false,
            settings.recording_socket@ == Seq::<char>::empty(),
            settings.omit_stripe_headers == false,
            settings.video_cbr_mode == false,
            settings.video_bitrate_kbps == 4000,
            settings.video_vbv_multiplier.bits == 0,
            settings.keyframe_interval_s.bits == 0,
            settings.video_min_qp == 0,
            settings.video_max_qp == 0,
    {
        RustCaptureSettings {
            width: 1024,
            height: 768,
            scale: float_one(),
            capture_x: 0,
            capture_y: 0,
            target_fps: float_sixty(),
            jpeg_quality: 75,
            paint_over_jpeg_quality: 95,
            use_paint_over_quality: true,
            paint_over_trigger_frames: 15,
            damage_block_threshold: 10,
            damage_block_duration: 30,
            output_mode: 0,
            video_crf: 25,
            video_paintover_crf: 18,
            video_paintover_burst_frames: 5,
            video_fullcolor: false,
            video_fullframe: false,
            video_streaming_mode: false,
            capture_cursor: false,
            cursor_size_cap: 32,
            watermark_path: String::new(),
            watermark_location_enum: 0,
            encode_node_index: -2,
            use_cpu: false,
            use_openh264: false,
            debug_logging: false,
            auto_adjust_screen_capture_size: false,
            recording_socket: String::new(),
            omit_stripe_headers: false,
            video_cbr_mode: false,
            video_bitrate_kbps: 4000,
            video_vbv_multiplier: float_zero(),
            keyframe_interval_s: float_zero(),
            video_min_qp: 0,
            video_max_qp: 0,
        }
    }
}

/// The default settings, each by its name: zero or off unless it says otherwise here.
pub proof fn law_defaults_by_name(settings: RustCaptureSettings)
    requires
        call_ensures(RustCaptureSettings::default, (), settings),
    ensures
        settings.width == 1024,
        settings.height == 768,
        settings.scale.bits == 0x3ff0_0000_0000_0000,
        settings.capture_x == 0,
        settings.capture_y == 0,
        settings.target_fps.bits == 0x404e_0000_0000_0000,
        settings.jpeg_quality == 75,
        settings.paint_over_jpeg_quality == 95,
        settings.use_paint_over_quality,
        settings.paint_over_trigger_frames == 15,
        settings.damage_block_threshold == 10,
        settings.damage_block_duration == 30,
        settings.output_mode == 0,
        settings.video_crf == 25,
        settings.video_paintover_crf == 18,
        settings.video_paintover_burst_frames == 5,
        !settings.video_fullcolor,
        !settings.video_fullframe,
        !settings.video_streaming_mode,
        !settings.capture_cursor,
        settings.cursor_size_cap == 32,
        settings.watermark_path@ == Seq::<char>::empty(),
        settings.watermark_location_enum == 0,
        settings.encode_node_index == -2,
        !settings.use_cpu,
        !settings.use_openh264,
        !settings.debug_logging,
        !settings.auto_adjust_screen_capture_size,
        settings.recording_socket@ == Seq::<char>::empty(),
        !settings.omit_stripe_headers,
        !settings.video_cbr_mode,
        settings.video_bitrate_kbps == 4000,
        settings.video_vbv_multiplier.bits == 0,
        settings.keyframe_interval_s.bits == 0,
        settings.video_min_qp == 0,
        settings.video_max_qp == 0,
{
}

/// A snapshot takes each tunable from the setting of the same name.
pub proof fn law_snapshot_takes_settings_by_name(
    settings: RustCaptureSettings,
    tunables: LiveTunables,
)
    requires
        call_ensures(LiveTunables::from_settings, (&settings,), tunables),
    ensures
        tunables.jpeg_quality == settings.jpeg_quality,
        tunables.paint_over_jpeg_quality == settings.paint_over_jpeg_quality,
        tunables.use_paint_over_quality == settings.use_paint_over_quality,
        tunables.paint_over_trigger_frames == settings.paint_over_trigger_frames,
        tunables.video_crf == settings.video_crf,
        tunables.video_paintover_crf == settings.video_paintover_crf,
        tunables.video_paintover_burst_frames == settings.video_paintover_burst_frames,
        tunables.video_streaming_mode == settings.video_streaming_mode,
        tunables.keyframe_interval_s == settings.keyframe_interval_s,
        tunables.capture_cursor == settings.capture_cursor,
{
}

/// An application gives each live setting the tunable of the same name, and leaves every other
/// setting alone.
pub proof fn law_application_sets_tunables_by_name(tunables: LiveTunables)
    ensures
        forall|settings: &mut RustCaptureSettings| #[trigger]
            call_ensures(LiveTunables::apply_to, (tunables, settings), ()) ==> {
                &&& final(settings).jpeg_quality == tunables.jpeg_quality
                &&& final(settings).paint_over_jpeg_quality == tunables.paint_over_jpeg_quality
                &&& final(settings).use_paint_over_quality == tunables.use_paint_over_quality
                &&& final(settings).paint_over_trigger_frames == tunables.paint_over_trigger_frames
                &&& final(settings).video_crf == tunables.video_crf
                &&& final(settings).video_paintover_crf == tunables.video_paintover_crf
                &&& final(settings).video_paintover_burst_frames == tunables.video_paintover_burst_frames
                &&& final(settings).video_streaming_mode == tunables.video_streaming_mode
                &&& final(settings).keyframe_interval_s == tunables.keyframe_interval_s
                &&& final(settings).capture_cursor == tunables.capture_cursor
                &&& final(settings).width == settings.width
                &&& final(settings).height == settings.height
                &&& final(settings).scale == settings.scale
                &&& final(settings).capture_x == settings.capture_x
                &&& final(settings).capture_y == settings.capture_y
                &&& final(settings).target_fps == settings.target_fps
                &&& final(settings).damage_block_threshold == settings.damage_block_threshold
                &&& final(settings).damage_block_duration == settings.damage_block_duration
                &&& final(settings).output_mode == settings.output_mode
                &&& final(settings).video_fullcolor == settings.video_fullcolor
                &&& final(settings).video_fullframe == settings.video_fullframe
                &&& final(settings).cursor_size_cap == settings.cursor_size_cap
                &&& final(settings).watermark_path == settings.watermark_path
                &&& final(settings).watermark_location_enum == settings.watermark_location_enum
                &&& final(settings).encode_node_index == settings.encode_node_index
                &&& final(settings).use_cpu == settings.use_cpu
                &&& final(settings).use_openh264 == settings.use_openh264
                &&& final(settings).debug_logging == settings.debug_logging
                &&& final(settings).auto_adjust_screen_capture_size == settings.auto_adjust_screen_capture_size
                &&& final(settings).recording_socket == settings.recording_socket
                &&& final(settings).omit_stripe_headers == settings.omit_stripe_headers
                &&& final(settings).video_cbr_mode == settings.video_cbr_mode
                &&& final(settings).video_bitrate_kbps == settings.video_bitrate_kbps
                &&& final(settings).video_vbv_multiplier == settings.video_vbv_multiplier
                &&& final(settings).video_min_qp == settings.video_min_qp
                &&& final(settings).video_max_qp == settings.video_max_qp
            },
{
}

/// Applying a fresh snapshot changes nothing.
pub proof fn law_snapshot_applies_to_itself(settings: RustCaptureSettings)
    ensures
        settings.with_live(settings.live()) == settings,
{
}

/// A snapshot gives back what was applied.
pub proof fn law_applied_tunables_are_read_back(
    settings: RustCaptureSettings,
    tunables: LiveTunables,
)
    ensures
        settings.with_live(tunables).live() == tunables,
{
}

/// Of two applications the last one counts.
pub proof fn law_last_application_counts(
    settings: RustCaptureSettings,
    first: LiveTunables,
    last: LiveTunables,
)
    ensures
        settings.with_live(first).with_live(last) == settings.with_live(last),
{
}

/// Applying tunables keeps every setting outside the live subset.
pub proof fn law_other_settings_are_kept(settings: RustCaptureSettings, tunables: LiveTunables)
    ensures
        settings.with_live(tunables).width == settings.width,
        settings.with_live(tunables).height == settings.height,
        settings.with_live(tunables).scale == settings.scale,
        settings.with_live(tunables).capture_x == settings.capture_x,
        settings.with_live(tunables).capture_y == settings.capture_y,
        settings.with_live(tunables).target_fps == settings.target_fps,
        settings.with_live(tunables).damage_block_threshold == settings.damage_block_threshold,
        settings.with_live(tunables).damage_block_duration == settings.damage_block_duration,
        settings.with_live(tunables).output_mode == settings.output_mode,
        settings.with_live(tunables).video_fullcolor == settings.video_fullcolor,
        settings.with_live(tunables).video_fullframe == settings.video_fullframe,
        settings.with_live(tunables).cursor_size_cap == settings.cursor_size_cap,
        settings.with_live(tunables).watermark_path == settings.watermark_path,
        settings.with_live(tunables).watermark_location_enum == settings.watermark_location_enum,
        settings.with_live(tunables).encode_node_index == settings.encode_node_index,
        settings.with_live(tunables).use_cpu == settings.use_cpu,
        settings.with_live(tunables).use_openh264 == settings.use_openh264,
        settings.with_live(tunables).debug_logging == settings.debug_logging,
        settings.with_live(tunables).auto_adjust_screen_capture_size == settings.auto_adjust_screen_capture_size,
        settings.with_live(tunables).recording_socket == settings.recording_socket,
        settings.with_live(tunables).omit_stripe_headers == settings.omit_stripe_headers,
        settings.with_live(tunables).video_cbr_mode == settings.video_cbr_mode,
        settings.with_live(tunables).video_bitrate_kbps == settings.video_bitrate_kbps,
        settings.with_live(tunables).video_vbv_multiplier == settings.video_vbv_multiplier,
        settings.with_live(tunables).video_min_qp == settings.video_min_qp,
        settings.with_live(tunables).video_max_qp == settings.video_max_qp,
{
}

} // verus!
