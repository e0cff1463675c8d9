//! DRM-PRIME frame metadata and the descriptor that hands it to the native mapper.

use vstd::prelude::*;

use crate::vaapi::error::{VaapiError, VaapiErrorKind, VaapiErrorView};

verus! {

/// The largest number of planes in one frame.
pub const AV_DRM_MAX_PLANES: usize = 4;

/// One plane in a DRM-PRIME frame description, with the number of the descriptor that backs it.
#[derive(Clone, Copy, Debug, PartialEq, Eq, Structural)]
pub struct DrmPrimePlane {
    pub fd: i32,
    pub offset: u32,
    pub stride: u32,
}

/// Borrowed DRM-PRIME metadata whose file descriptors are duplicated for the native mapper.
#[derive(Clone, Copy, Debug)]
pub struct DrmPrimeFrame<'a> {
    pub width: u32,
    pub height: u32,
    pub fourcc: u32,
    pub modifier: u64,
    pub planes: &'a [DrmPrimePlane],
}

impl DrmPrimeFrame<'_> {
    /// Whether the frame describes a `width` by `height` picture that the mapper can take.
    pub open spec fn valid(&self, width: i32, height: i32) -> bool {
        &&& self.width == if width >= 0 { width as int } else { 0 }
        &&& self.height == if height >= 0 { height as int } else { 0 }
        &&& self.fourcc != 0
        &&& 1 <= self.planes@.len() <= AV_DRM_MAX_PLANES
        &&& forall|i: int| 0 <= i < self.planes@.len() ==> self.planes@[i].stride != 0
    }

    /// The failure that an invalid frame reports.
    pub open spec fn rejection() -> VaapiErrorView {
        VaapiErrorView::fixed(
            VaapiErrorKind::InvalidConfiguration,
            "validate DRM-PRIME frame",
            "dimensions, format, plane count, or stride are invalid",
        )
    }

    /// Checks the frame against the dimensions of an encoder.
    pub fn validate(self, width: i32, height: i32) -> (checked: Result<(), VaapiError>)
        ensures
            match checked {
                Ok(()) => self.valid(width, height),
                Err(error) => !self.valid(width, height) && error@ == Self::rejection(),
            },
    {
        let expected_width: u32 = if width >= 0 {
            width as u32
        } else {
            0
        };
        let expected_height: u32 = if height >= 0 {
            height as u32
        } else {
            0
        };
        let usable: bool = self.width == expected_width && self.height == expected_height
            && self.fourcc != 0 && self.planes.len() >= 1 && self.planes.len()
            <= AV_DRM_MAX_PLANES && strides_usable(self.planes);
        if usable {
            Ok(())
        } else {
            Err(
                VaapiError::fixed(
                    VaapiErrorKind::InvalidConfiguration,
                    "validate DRM-PRIME frame",
                    "dimensions, format, plane count, or stride are invalid",
                ),
            )
        }
    }
}

fn strides_usable(planes: &[DrmPrimePlane]) -> (usable: bool)
    ensures
        usable == forall|i: int| 0 <= i < planes@.len() ==> planes@[i].stride != 0,
{
    let mut index: usize = 0;
    while index < planes.len()
        invariant
            index <= planes@.len(),
            forall|i: int| 0 <= i < index ==> planes@[i].stride != 0,
        decreases planes@.len() - index,
    {
        if planes[index].stride == 0 {
            return false;
        }
        index = index + 1;
    }
    true
}

/// The memory object behind one plane.
#[derive(Clone, Copy, Debug, PartialEq, Eq, Structural)]
pub struct DrmObject {
    /// The duplicated file descriptor.
    pub fd: i32,
    pub size: usize,
    pub format_modifier: u64,
}

/// Where one plane lies in its memory object.
#[derive(Clone, Copy, Debug, PartialEq, Eq, Structural)]
pub struct DrmPlaneLayout {
    pub object_index: i32,
    pub offset: isize,
    pub pitch: isize,
}

/// What a native descriptor says before its objects and planes.
#[derive(Clone, Copy, Debug, PartialEq, Eq, Structural)]
pub struct DescriptorHead {
    pub nb_objects: i32,
    pub nb_layers: i32,
    /// The pixel layout of the layer.
    pub format: u32,
    pub nb_planes: i32,
}

impl DrmPrimePlane {
    /// The bytes from the start of the memory object to the end of the plane.
    pub open spec fn object_size(self, aligned_height: int) -> int {
        self.offset + self.stride * aligned_height
    }

    /// Whether sizes and positions of the plane fit the machine.
    pub open spec fn fits(self, aligned_height: int) -> bool {
        &&& self.object_size(aligned_height) <= usize::MAX
        &&& self.offset <= isize::MAX
        &&& self.stride <= isize::MAX
    }

    /// The failure that a plane beyond the machine's range reports.
    pub open spec fn rejection(self, aligned_height: int) -> VaapiErrorView {
        VaapiErrorView::fixed(
            VaapiErrorKind::InvalidConfiguration,
            "validate DRM-PRIME frame",
            if self.object_size(aligned_height) > usize::MAX {
                "plane object size overflowed"
            } else if self.offset > isize::MAX {
                "plane offset does not fit FFmpeg"
            } else {
                "plane stride does not fit FFmpeg"
            },
        )
    }

    /// The memory object of the plane, backed by `fd`.
    pub open spec fn memory_object(self, fd: i32, modifier: u64, aligned_height: int) -> DrmObject {
        DrmObject {
            fd,
            size: self.object_size(aligned_height) as usize,
            format_modifier: modifier,
        }
    }

    /// The layout of the plane in the memory object `index`.
    pub open spec fn layout_in(self, index: int) -> DrmPlaneLayout {
        DrmPlaneLayout {
            object_index: index as i32,
            offset: self.offset as isize,
            pitch: self.stride as isize,
        }
    }

    /// Describes the plane as the `index`-th object and layout of a native descriptor.
    pub fn describe(self, index: usize, fd: i32, modifier: u64, aligned_height: usize) -> (described:
        Result<(DrmObject, DrmPlaneLayout), VaapiError>)
        requires
            index < AV_DRM_MAX_PLANES,
        ensures
            match described {
                Ok((object, layout)) => {
                    &&& self.fits(aligned_height as int)
                    &&& object == self.memory_object(fd, modifier, aligned_height as int)
                    &&& layout == self.layout_in(index as int)
                },
                Err(error) => !self.fits(aligned_height as int) && error@ == self.rejection(
                    aligned_height as int,
                ),
            },
    {
        let size: Option<usize> = match (self.stride as usize).checked_mul(aligned_height) {
            Some(bytes) => (self.offset as usize).checked_add(bytes),
            None => None,
        };
        let size: usize = match size {
            Some(size) => size,
            None => return Err(
                VaapiError::fixed(
                    VaapiErrorKind::InvalidConfiguration,
                    "validate DRM-PRIME frame",
                    "plane object size overflowed",
                ),
            ),
        };
        if self.offset as usize > isize::MAX as usize {
            return Err(
                VaapiError::fixed(
                    VaapiErrorKind::InvalidConfiguration,
                    "validate DRM-PRIME frame",
                    "plane offset does not fit FFmpeg",
                ),
            );
        }
        if self.stride as usize > isize::MAX as usize {
            return Err(
                VaapiError::fixed(
                    VaapiErrorKind::InvalidConfiguration,
                    "validate DRM-PRIME frame",
                    "plane stride does not fit FFmpeg",
                ),
            );
        }
        Ok(
            (
                DrmObject { fd, size, format_modifier: modifier },
                DrmPlaneLayout {
                    object_index: index as i32,
                    offset: self.offset as isize,
                    pitch: self.stride as isize,
                },
            ),
        )
    }
}

/// An imported frame is accepted exactly when it has the dimensions of the encoder, a pixel layout
/// and one to four planes, each with a row length.
pub proof fn law_imported_frames_are_bounded(
    frame: DrmPrimeFrame,
    width: i32,
    height: i32,
    checked: Result<(), VaapiError>,
)
    requires
        width >= 0,
        height >= 0,
        call_ensures(DrmPrimeFrame::validate, (frame, width, height), checked),
    ensures
        checked is Ok <==> {
            &&& frame.width == width
            &&& frame.height == height
            &&& frame.fourcc != 0
            &&& 1 <= frame.planes@.len() <= 4
            &&& forall|i: int| 0 <= i < frame.planes@.len() ==> #[trigger] frame.planes@[i].stride != 0
        },
        checked matches Err(error) ==> error@.kind is InvalidConfiguration,
{
    if checked is Err && 1 <= frame.planes@.len() <= 4 && frame.width == width && frame.height
        == height && frame.fourcc != 0 {
        let i = choose|i: int| 0 <= i < frame.planes@.len() && frame.planes@[i].stride == 0;
        assert(frame.planes@[i].stride == 0);
    }
}

/// A plane is described with its own offset, row length and descriptor, and with the bytes up to
/// its end as the size of its memory.
pub proof fn law_planes_are_described_by_their_fields(
    plane: DrmPrimePlane,
    index: usize,
    fd: i32,
    modifier: u64,
    aligned_height: usize,
    described: Result<(DrmObject, DrmPlaneLayout), VaapiError>,
)
    requires
        index < 4,
        call_ensures(
            DrmPrimePlane::describe,
            (plane, index, fd, modifier, aligned_height),
            described,
        ),
    ensures
        described matches Ok((object, layout)) ==> {
            &&& object.fd == fd
            &&& object.size == plane.offset + plane.stride * aligned_height
            &&& object.format_modifier == modifier
            &&& layout.object_index == index
            &&& layout.offset == plane.offset
            &&& layout.pitch == plane.stride
        },
        described is Err <==> {
            ||| plane.offset + plane.stride * aligned_height > usize::MAX
            ||| plane.offset > isize::MAX
            ||| plane.stride > isize::MAX
        },
{
    assert(plane.stride * aligned_height >= 0) by (nonlinear_arith);
}

} // verus!
