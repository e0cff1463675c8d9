use pixelflux::vaapi::drm::{DrmObject, DrmPlaneLayout};
use pixelflux::{DrmPrimeFrame, DrmPrimePlane, VaapiErrorKind};

#[test]
fn drm_prime_metadata_is_bounded_without_opening_ffmpeg() {
    let planes = [DrmPrimePlane {
        fd: 3,
        offset: 0,
        stride: 1_280,
    }];
    assert!(DrmPrimeFrame {
        width: 320,
        height: 240,
        fourcc: u32::from_le_bytes(*b"AR24"),
        modifier: 0,
        planes: &planes,
    }
    .validate(320, 240)
    .is_ok());
    assert!(DrmPrimeFrame {
        width: 320,
        height: 240,
        fourcc: u32::from_le_bytes(*b"AR24"),
        modifier: 0,
        planes: &[],
    }
    .validate(320, 240)
    .is_err());
}

#[test]
fn drm_prime_frames_of_another_shape_are_rejected() {
    let plane = DrmPrimePlane {
        fd: 3,
        offset: 0,
        stride: 1_280,
    };
    let empty_row = DrmPrimePlane { stride: 0, ..plane };
    let planes = [plane; 5];
    let mixed = [plane, empty_row];
    let frame = DrmPrimeFrame {
        width: 320,
        height: 240,
        fourcc: 1,
        modifier: 0,
        planes: &planes[..4],
    };
    assert!(frame.validate(320, 240).is_ok());
    let rejected = [
        DrmPrimeFrame { width: 322, ..frame },
        DrmPrimeFrame { height: 242, ..frame },
        DrmPrimeFrame { fourcc: 0, ..frame },
        DrmPrimeFrame {
            planes: &planes,
            ..frame
        },
        DrmPrimeFrame {
            planes: &mixed,
            ..frame
        },
    ];
    for case in rejected {
        let error = case.validate(320, 240).expect_err("must be rejected");
        assert_eq!(error.kind(), VaapiErrorKind::InvalidConfiguration);
        assert_eq!(
            error.message(),
            "validate DRM-PRIME frame: dimensions, format, plane count, or stride are invalid"
        );
    }
    assert!(DrmPrimeFrame {
        width: 0,
        height: 0,
        ..frame
    }
    .validate(-1, -1)
    .is_ok());
}

#[test]
fn planes_are_described_over_their_duplicates() {
    let plane = DrmPrimePlane {
        fd: 3,
        offset: 4_096,
        stride: 1_280,
    };
    assert_eq!(
        plane.describe(1, 17, 99, 256),
        Ok((
            DrmObject {
                fd: 17,
                size: 4_096 + 1_280 * 256,
                format_modifier: 99,
            },
            DrmPlaneLayout {
                object_index: 1,
                offset: 4_096,
                pitch: 1_280,
            },
        ))
    );
}

#[test]
fn planes_beyond_the_machine_are_rejected() {
    let plane = DrmPrimePlane {
        fd: 3,
        offset: u32::MAX,
        stride: u32::MAX,
    };
    let error = plane
        .describe(0, 17, 0, usize::MAX)
        .expect_err("object size overflows");
    assert_eq!(error.kind(), VaapiErrorKind::InvalidConfiguration);
    assert_eq!(
        error.message(),
        "validate DRM-PRIME frame: plane object size overflowed"
    );
}
