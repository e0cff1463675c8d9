//! CPU frames: the checks before an upload and before the copy into a native buffer.

use vstd::prelude::*;

use crate::rows;
use crate::vaapi::config::{self, MAX_RAW_FRAME_BYTES};
use crate::vaapi::error::{VaapiError, VaapiErrorKind, VaapiErrorView};

verus! {

/// Whether `width` by `height` is a picture that an encoder can be open for.
pub open spec fn frame_dimensions(width: i32, height: i32) -> bool {
    &&& width > 0
    &&& height > 0
    &&& width * height * 4 <= MAX_RAW_FRAME_BYTES
}

/// Whether `bytes` bytes in rows of `stride` hold a whole `width` by `height` picture, no larger
/// than the bound.
pub open spec fn host_frame_fits(width: i32, height: i32, bytes: nat, stride: usize) -> bool {
    &&& stride >= width * 4
    &&& stride * height <= MAX_RAW_FRAME_BYTES
    &&& bytes >= stride * height
}

/// The failure that a CPU frame of the wrong shape reports.
pub open spec fn host_frame_rejection(height: i32, stride: usize) -> VaapiErrorView {
    VaapiErrorView::fixed(
        VaapiErrorKind::InvalidConfiguration,
        "validate host frame",
        if stride * height > usize::MAX {
            "frame byte size overflowed"
        } else {
            "frame bytes do not match dimensions and stride"
        },
    )
}

/// Checks the shape of a CPU frame of `bytes` bytes.
pub fn validate_host_frame(width: i32, height: i32, bytes: usize, stride: usize) -> (checked:
    Result<(), VaapiError>)
    requires
        frame_dimensions(width, height),
    ensures
        match checked {
            Ok(()) => host_frame_fits(width, height, bytes as nat, stride),
            Err(error) => !host_frame_fits(width, height, bytes as nat, stride) && error@
                == host_frame_rejection(height, stride),
        },
{
    proof {
        config::law_valid_frame_is_bounded(width as int, height as int);
    }
    let minimum_stride: usize = width as usize * 4;
    match stride.checked_mul(height as usize) {
        None => Err(
            VaapiError::fixed(
                VaapiErrorKind::InvalidConfiguration,
                "validate host frame",
                "frame byte size overflowed",
            ),
        ),
        Some(expected) => {
            if stride < minimum_stride || expected > MAX_RAW_FRAME_BYTES || bytes < expected {
                Err(
                    VaapiError::fixed(
                        VaapiErrorKind::InvalidConfiguration,
                        "validate host frame",
                        "frame bytes do not match dimensions and stride",
                    ),
                )
            } else {
                Ok(())
            }
        },
    }
}

/// The failure that an unusable native row length reports.
pub open spec fn destination_rejection(linesize: i32) -> VaapiErrorView {
    VaapiErrorView::fixed(
        VaapiErrorKind::EncodeFailed,
        "copy host frame",
        if linesize < 0 {
            "FFmpeg returned a negative destination stride"
        } else {
            "destination row offset overflowed"
        },
    )
}

/// Whether a native buffer with rows `linesize` bytes apart can take the picture.
pub open spec fn destination_usable(linesize: i32, height: i32, row_bytes: usize) -> bool {
    linesize >= 0 && rows::extent(height as int, linesize as int, row_bytes as int) <= usize::MAX
}

/// The length of the native buffer that the rows of a picture are copied into.
pub fn destination_extent(linesize: i32, height: i32, row_bytes: usize) -> (checked: Result<
    usize,
    VaapiError,
>)
    requires
        height > 0,
    ensures
        match checked {
            Ok(bytes) => {
                &&& destination_usable(linesize, height, row_bytes)
                &&& bytes == rows::extent(height as int, linesize as int, row_bytes as int)
            },
            Err(error) => !destination_usable(linesize, height, row_bytes) && error@
                == destination_rejection(linesize),
        },
{
    if linesize < 0 {
        return Err(
            VaapiError::fixed(
                VaapiErrorKind::EncodeFailed,
                "copy host frame",
                "FFmpeg returned a negative destination stride",
            ),
        );
    }
    proof {
        assert((height - 1) * linesize >= 0) by (nonlinear_arith)
            requires
                height > 0,
                linesize >= 0,
        ;
    }
    let bytes: Option<usize> = match ((height - 1) as usize).checked_mul(linesize as usize) {
        Some(offset) => offset.checked_add(row_bytes),
        None => None,
    };
    match bytes {
        Some(bytes) => Ok(bytes),
        None => Err(
            VaapiError::fixed(
                VaapiErrorKind::EncodeFailed,
                "copy host frame",
                "destination row offset overflowed",
            ),
        ),
    }
}

/// A CPU frame is accepted exactly when its rows hold four bytes per pixel, it is complete, and it
/// takes at most 512 MiB.
pub proof fn law_host_frames_are_bounded(
    width: i32,
    height: i32,
    bytes: usize,
    stride: usize,
    checked: Result<(), VaapiError>,
)
    requires
        call_ensures(validate_host_frame, (width, height, bytes, stride), checked),
    ensures
        checked is Ok <==> {
            &&& width * 4 <= stride
            &&& stride * height <= bytes
            &&& stride * height <= 536_870_912
        },
        checked matches Err(error) ==> {
            &&& error@.kind is InvalidConfiguration
            &&& error@.operation == "validate host frame"@
        },
{
}

/// The native buffer reaches exactly to the end of the last row, and holds every other row; one
/// with a negative row length, or beyond the machine range, is rejected.
pub proof fn law_destinations_hold_every_row(
    linesize: i32,
    height: i32,
    row_bytes: usize,
    row: int,
    checked: Result<usize, VaapiError>,
)
    requires
        0 <= row < height,
        call_ensures(destination_extent, (linesize, height, row_bytes), checked),
    ensures
        checked matches Ok(bytes) ==> {
            &&& linesize >= 0
            &&& row * linesize + row_bytes <= bytes
            &&& (height - 1) * linesize + row_bytes == bytes
        },
        checked is Err <==> linesize < 0 || (height - 1) * linesize + row_bytes > usize::MAX,
        checked matches Err(error) ==> error@.kind is EncodeFailed,
{
    if linesize >= 0 {
        assert(row * linesize <= (height - 1) * linesize) by (nonlinear_arith)
            requires
                row <= height - 1,
                linesize >= 0,
        ;
    }
}

} // verus!
