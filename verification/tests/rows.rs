use pixelflux::rows::copy_rows;
use pixelflux::vaapi::host::{destination_extent, validate_host_frame};
use pixelflux::VaapiErrorKind;

#[test]
fn rows_are_copied_between_row_lengths() {
    let pixels: Vec<u8> = (0..12).collect();
    let mut buffer = vec![0xff; 16];
    copy_rows(&pixels, 4, &mut buffer, 6, 3, 3);
    assert_eq!(
        buffer,
        [0, 1, 2, 0xff, 0xff, 0xff, 4, 5, 6, 0xff, 0xff, 0xff, 8, 9, 10, 0xff]
    );
}

#[test]
fn copied_rows_read_back() {
    let pixels: Vec<u8> = (0..200).collect();
    let mut buffer = vec![0; 10 * 24];
    copy_rows(&pixels, 20, &mut buffer, 24, 16, 10);
    for row in 0..10 {
        for column in 0..16 {
            assert_eq!(buffer[row * 24 + column], pixels[row * 20 + column]);
        }
        for column in 16..24 {
            assert_eq!(buffer[row * 24 + column], 0);
        }
    }
}

#[test]
fn padding_is_not_copied() {
    let mut one = vec![0; 8];
    let mut other = vec![0; 8];
    copy_rows(&[1, 2, 3, 4], 2, &mut one, 4, 2, 2);
    copy_rows(&[1, 2, 90, 91, 92, 3, 4, 93], 5, &mut other, 4, 2, 2);
    assert_eq!(one, other);
    assert_eq!(one, [1, 2, 0, 0, 3, 4, 0, 0]);
}

#[test]
fn overlapping_native_rows_keep_the_last_write() {
    let mut buffer = vec![0; 4];
    copy_rows(&[1, 2, 3, 4, 5, 6], 3, &mut buffer, 1, 3, 2);
    assert_eq!(buffer, [1, 4, 5, 6]);
}

#[test]
fn host_frames_must_match_their_shape() {
    assert_eq!(validate_host_frame(4, 2, 32, 16), Ok(()));
    assert_eq!(validate_host_frame(4, 2, 40, 20), Ok(()));
    for (bytes, stride) in [(31, 16), (32, 15), (usize::MAX, 512 * 1024 * 1024)] {
        let error = validate_host_frame(4, 2, bytes, stride).expect_err("wrong shape");
        assert_eq!(error.kind(), VaapiErrorKind::InvalidConfiguration);
        assert_eq!(
            error.message(),
            "validate host frame: frame bytes do not match dimensions and stride"
        );
    }
    assert_eq!(
        validate_host_frame(4, 2, 32, usize::MAX)
            .expect_err("overflow")
            .message(),
        "validate host frame: frame byte size overflowed"
    );
}

#[test]
fn native_row_lengths_are_checked() {
    assert_eq!(destination_extent(1_344, 240, 1_280), Ok(239 * 1_344 + 1_280));
    assert_eq!(destination_extent(0, 1, 16), Ok(16));
    let error = destination_extent(-1, 240, 1_280).expect_err("negative");
    assert_eq!(error.kind(), VaapiErrorKind::EncodeFailed);
    assert_eq!(
        error.message(),
        "copy host frame: FFmpeg returned a negative destination stride"
    );
    let error = destination_extent(1, 2, usize::MAX).expect_err("overflow");
    assert_eq!(error.kind(), VaapiErrorKind::EncodeFailed);
    assert_eq!(
        error.message(),
        "copy host frame: destination row offset overflowed"
    );
}
