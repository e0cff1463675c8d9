//! Encoder configuration and its validation.

use vstd::prelude::*;

use crate::vaapi::error::{VaapiError, VaapiErrorKind, VaapiErrorView};

verus! {

/// The highest refresh rate that an encoder accepts.
pub const MAX_REFRESH_HZ: u32 = 1_000;

/// The largest CPU frame, in bytes, that an encoder accepts.
pub const MAX_RAW_FRAME_BYTES: usize = 512 * 1024 * 1024;

/// CPU pixel layouts accepted by the host-frame uploader.
#[derive(Clone, Copy, Debug, PartialEq, Eq, Structural)]
pub enum HostPixelFormat {
    Rgba,
    Bgra,
}

/// H.264 reference policy for the low-latency VA-API encoder.
#[derive(Clone, Copy, Debug, PartialEq, Eq, Structural)]
pub enum H264Gop {
    /// Every access unit is an independently decodable IDR diagnostic frame.
    AllIntra,
    /// Emit P-frames between requested or periodic IDRs, with no B-frames.
    LowLatency { keyframe_interval_frames: u32 },
}

impl H264Gop {
    /// Whether the policy can be run: a periodic one needs at least one frame per period.
    pub open spec fn valid(self) -> bool {
        match self {
            H264Gop::AllIntra => true,
            H264Gop::LowLatency { keyframe_interval_frames } => keyframe_interval_frames > 0,
        }
    }

    /// The number of frames after a keyframe at which the next one is due.
    pub open spec fn interval(self) -> u32 {
        match self {
            H264Gop::AllIntra => 1,
            H264Gop::LowLatency { keyframe_interval_frames } => keyframe_interval_frames,
        }
    }

    /// The failure that an unusable policy reports.
    pub open spec fn rejection() -> VaapiErrorView {
        VaapiErrorView::fixed(
            VaapiErrorKind::InvalidConfiguration,
            "validate GOP configuration",
            "keyframe interval must contain at least one frame",
        )
    }

    /// Accepts every policy but a periodic one with an empty period.
    pub fn validate(self) -> (checked: Result<(), VaapiError>)
        ensures
            match checked {
                Ok(()) => self.valid(),
                Err(error) => !self.valid() && error@ == H264Gop::rejection(),
            },
    {
        match self {
            H264Gop::LowLatency { keyframe_interval_frames } if keyframe_interval_frames == 0 => Err(
                VaapiError::fixed(
                    VaapiErrorKind::InvalidConfiguration,
                    "validate GOP configuration",
                    "keyframe interval must contain at least one frame",
                ),
            ),
            _ => Ok(()),
        }
    }

    /// Whether every frame is coded as a keyframe.
    pub fn forces_every_frame(self) -> (forced: bool)
        ensures
            forced == (self is AllIntra),
    {
        matches!(self, H264Gop::AllIntra)
    }

    /// The number of frames after a keyframe at which the next one is due.
    pub fn keyframe_interval_frames(self) -> (frames: u32)
        ensures
            frames == self.interval(),
    {
        match self {
            H264Gop::AllIntra => 1,
            H264Gop::LowLatency { keyframe_interval_frames } => keyframe_interval_frames,
        }
    }
}

/// Immutable configuration for one VA-API encoder context.
#[derive(Clone, Debug, PartialEq, Eq)]
pub struct VaapiHostConfiguration {
    /// The bytes of the render node's path.
    pub device: Vec<u8>,
    pub width: u32,
    pub height: u32,
    pub refresh_hz: u32,
    pub bitrate_bps: u32,
    pub pixel_format: HostPixelFormat,
    pub gop: H264Gop,
}

impl VaapiHostConfiguration {
    /// Whether each value is usable by itself: a named device, even non-zero dimensions, a
    /// bounded refresh rate and a bitrate.
    pub open spec fn values_usable(&self) -> bool {
        &&& self.device@.len() > 0
        &&& self.width > 0
        &&& self.height > 0
        &&& self.width % 2 == 0
        &&& self.height % 2 == 0
        &&& 1 <= self.refresh_hz <= MAX_REFRESH_HZ
        &&& self.bitrate_bps > 0
    }

    /// The number of bytes in one CPU frame.
    pub open spec fn frame_bytes(&self) -> int {
        self.width * self.height * 4
    }

    /// Whether an encoder can be opened with this configuration.
    pub open spec fn valid(&self) -> bool {
        &&& self.gop.valid()
        &&& self.values_usable()
        &&& self.frame_bytes() <= MAX_RAW_FRAME_BYTES
    }

    /// The failure that an invalid configuration reports: the first check that it does not pass.
    pub open spec fn rejection(&self) -> VaapiErrorView {
        if !self.gop.valid() {
            H264Gop::rejection()
        } else {
            VaapiErrorView::fixed(
                VaapiErrorKind::InvalidConfiguration,
                "validate configuration",
                if !self.values_usable() {
                    "dimensions, refresh rate, bitrate, or render node are invalid"
                } else if self.frame_bytes() > usize::MAX {
                    "frame byte size overflowed"
                } else {
                    "frame exceeds the bounded host-frame size"
                },
            )
        }
    }

    /// Checks the configuration and gives its width, height and refresh rate.
    pub fn validate(&self) -> (checked: Result<(i32, i32, i32), VaapiError>)
        ensures
            match checked {
                Ok((width, height, refresh_hz)) => {
                    &&& self.valid()
                    &&& width == self.width
                    &&& height == self.height
                    &&& refresh_hz == self.refresh_hz
                },
                Err(error) => !self.valid() && error@ == self.rejection(),
            },
    {
        match self.gop.validate() {
            Ok(()) => {},
            Err(error) => return Err(error),
        }
        if self.device.len() == 0 || self.width == 0 || self.height == 0 || self.width % 2 != 0
            || self.height % 2 != 0 || self.refresh_hz < 1 || self.refresh_hz > MAX_REFRESH_HZ
            || self.bitrate_bps == 0 {
            return Err(
                VaapiError::fixed(
                    VaapiErrorKind::InvalidConfiguration,
                    "validate configuration",
                    "dimensions, refresh rate, bitrate, or render node are invalid",
                ),
            );
        }
        let bytes: Option<usize> = match (self.width as usize).checked_mul(self.height as usize) {
            Some(pixels) => pixels.checked_mul(4),
            None => None,
        };
        match bytes {
            None => Err(
                VaapiError::fixed(
                    VaapiErrorKind::InvalidConfiguration,
                    "validate configuration",
                    "frame byte size overflowed",
                ),
            ),
            Some(bytes) => {
                if bytes > MAX_RAW_FRAME_BYTES {
                    return Err(
                        VaapiError::fixed(
                            VaapiErrorKind::InvalidConfiguration,
                            "validate configuration",
                            "frame exceeds the bounded host-frame size",
                        ),
                    );
                }
                proof {
                    law_valid_frame_is_bounded(self.width as int, self.height as int);
                }
                Ok((self.width as i32, self.height as i32, self.refresh_hz as i32))
            },
        }
    }
}

/// The dimensions of a frame that fits the byte bound fit the bound themselves, four bytes apiece.
pub proof fn law_valid_frame_is_bounded(width: int, height: int)
    requires
        width > 0,
        height > 0,
        width * height * 4 <= MAX_RAW_FRAME_BYTES,
    ensures
        width * 4 <= MAX_RAW_FRAME_BYTES,
        height * 4 <= MAX_RAW_FRAME_BYTES,
{
    assert(width * 4 <= width * height * 4) by (nonlinear_arith)
        requires
            width > 0,
            height > 0,
    ;
    assert(height * 4 <= width * height * 4) by (nonlinear_arith)
        requires
            width > 0,
            height > 0,
    ;
}

/// Whether a path can be handed to native code, which ends it at the first zero byte.
pub open spec fn has_interior_nul(path: Seq<u8>) -> bool {
    exists|i: int| 0 <= i < path.len() && path[i] == 0
}

/// The failure that a render node with a zero byte in its path reports.
pub open spec fn render_node_rejection() -> VaapiErrorView {
    VaapiErrorView::fixed(
        VaapiErrorKind::InvalidConfiguration,
        "validate render node",
        "render node contains an interior NUL byte",
    )
}

/// Checks that the path of a render node holds no zero byte.
pub fn validate_render_node(path: &[u8]) -> (checked: Result<(), VaapiError>)
    ensures
        match checked {
            Ok(()) => !has_interior_nul(path@),
            Err(error) => has_interior_nul(path@) && error@ == render_node_rejection(),
        },
{
    let mut index: usize = 0;
    while index < path.len()
        invariant
            index <= path@.len(),
            forall|i: int| 0 <= i < index ==> path@[i] != 0,
        decreases path@.len() - index,
    {
        if path[index] == 0 {
            return Err(
                VaapiError::fixed(
                    VaapiErrorKind::InvalidConfiguration,
                    "validate render node",
                    "render node contains an interior NUL byte",
                ),
            );
        }
        index = index + 1;
    }
    Ok(())
}

/// The failure of [`align`]: the padded value leaves the machine range.
pub open spec fn alignment_overflow() -> VaapiErrorView {
    VaapiErrorView::fixed(
        VaapiErrorKind::InvalidConfiguration,
        "align VA-API surface dimensions",
        "surface dimension overflowed",
    )
}

/// `value` padded by `alignment - 1`, with the bits below `alignment` cleared.
pub open spec fn aligned(value: i32, alignment: i32) -> i32 {
    ((value + (alignment - 1)) as i32) & !((alignment - 1) as i32)
}

/// Whether `value` padded by `alignment - 1` stays in the machine range.
pub open spec fn can_align(value: i32, alignment: i32) -> bool {
    i32::MIN <= value + (alignment - 1) <= i32::MAX
}

/// Rounds a surface dimension up to a multiple of `alignment`, a power of two.
pub fn align(value: i32, alignment: i32) -> (rounded: Result<i32, VaapiError>)
    requires
        alignment > i32::MIN,
    ensures
        match rounded {
            Ok(rounded) => can_align(value, alignment) && rounded == aligned(value, alignment),
            Err(error) => !can_align(value, alignment) && error@ == alignment_overflow(),
        },
{
    match value.checked_add(alignment - 1) {
        Some(padded) => Ok(padded & !(alignment - 1)),
        None => Err(
            VaapiError::fixed(
                VaapiErrorKind::InvalidConfiguration,
                "align VA-API surface dimensions",
                "surface dimension overflowed",
            ),
        ),
    }
}

/// For a power of two, alignment gives the least multiple that is not below the value.
pub proof fn law_align_rounds_up(value: i32, shift: u32)
    requires
        shift < 31,
        can_align(value, 1i32 << shift),
    ensures
        aligned(value, 1i32 << shift) as int % (1i32 << shift) as int == 0,
        value <= aligned(value, 1i32 << shift) < value + (1i32 << shift),
{
    let alignment = 1i32 << shift;
    assert(alignment > 0) by (bit_vector)
        requires
            shift < 31,
            alignment == 1i32 << shift,
    ;
    let padded = (value + (alignment - 1)) as i32;
    let rounded = padded & !((alignment - 1) as i32);
    let mask = (alignment - 1) as i32;
    assert(0 <= padded - rounded <= mask && (rounded & mask) == 0) by (bit_vector)
        requires
            shift < 31,
            alignment == 1i32 << shift,
            mask == alignment - 1,
            rounded == padded & !mask,
    ;
    assert((rounded & mask) == 0 ==> rounded % alignment == 0) by (bit_vector)
        requires
            shift < 31,
            alignment == 1i32 << shift,
            mask == alignment - 1,
    ;
}

/// A configuration is accepted exactly when its period is not empty, its device is named, its
/// dimensions are even and not zero, its refresh rate is at most a thousand, it has a bitrate, and
/// one frame takes at most 512 MiB. It then gives its own dimensions and refresh rate.
pub proof fn law_configurations_are_bounded(
    configuration: VaapiHostConfiguration,
    checked: Result<(i32, i32, i32), VaapiError>,
)
    requires
        call_ensures(VaapiHostConfiguration::validate, (&configuration,), checked),
    ensures
        checked is Ok <==> {
            &&& configuration.gop != (H264Gop::LowLatency { keyframe_interval_frames: 0 })
            &&& configuration.device@.len() >= 1
            &&& configuration.width >= 2 && configuration.width % 2 == 0
            &&& configuration.height >= 2 && configuration.height % 2 == 0
            &&& 1 <= configuration.refresh_hz <= 1_000
            &&& configuration.bitrate_bps >= 1
            &&& configuration.width * configuration.height * 4 <= 536_870_912
        },
        checked matches Ok((width, height, refresh_hz)) ==> {
            &&& width == configuration.width
            &&& height == configuration.height
            &&& refresh_hz == configuration.refresh_hz
        },
        checked matches Err(error) ==> {
            &&& error@.kind is InvalidConfiguration
            &&& configuration.gop == (H264Gop::LowLatency { keyframe_interval_frames: 0 })
                ==> error@.operation == "validate GOP configuration"@
            &&& configuration.gop != (H264Gop::LowLatency { keyframe_interval_frames: 0 })
                ==> error@.operation == "validate configuration"@
        },
{
}

/// The path of a render node is accepted exactly when every byte of it is not zero.
pub proof fn law_render_nodes_are_nul_free(path: &[u8], checked: Result<(), VaapiError>)
    requires
        call_ensures(validate_render_node, (path,), checked),
    ensures
        checked is Ok <==> forall|i: int| 0 <= i < path@.len() ==> #[trigger] path@[i] != 0,
{
    if checked is Err {
        let i = choose|i: int| 0 <= i < path@.len() && path@[i] == 0;
        assert(path@[i] == 0);
    }
}

/// The all-intra policy forces every frame and has a period of one; a periodic policy forces none
/// and has the period that it was given, which must not be empty.
pub proof fn law_policies(gop: H264Gop, forced: bool, frames: u32, checked: Result<(), VaapiError>)
    requires
        call_ensures(H264Gop::forces_every_frame, (gop,), forced),
        call_ensures(H264Gop::keyframe_interval_frames, (gop,), frames),
        call_ensures(H264Gop::validate, (gop,), checked),
    ensures
        gop is AllIntra ==> forced && frames == 1 && checked is Ok,
        gop matches H264Gop::LowLatency { keyframe_interval_frames } ==> {
            &&& !forced
            &&& frames == keyframe_interval_frames
            &&& checked is Ok <==> keyframe_interval_frames > 0
        },
{
}

/// Rounding up to a power of two gives the least multiple that is not below the value, and fails
/// exactly when the padded value leaves the machine range.
pub proof fn law_rounding_up(value: i32, shift: u32, rounded: Result<i32, VaapiError>)
    requires
        shift < 31,
        call_ensures(align, (value, 1i32 << shift), rounded),
    ensures
        rounded matches Ok(rounded) ==> {
            &&& rounded as int % (1i32 << shift) as int == 0
            &&& value <= rounded < value + (1i32 << shift)
        },
        rounded is Err <==> value + (1i32 << shift) - 1 > i32::MAX,
{
    let alignment = 1i32 << shift;
    assert(alignment > 0) by (bit_vector)
        requires
            shift < 31,
            alignment == 1i32 << shift,
    ;
    if rounded is Ok {
        law_align_rounds_up(value, shift);
    }
}

} // verus!
