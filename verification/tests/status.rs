use pixelflux::status::{again_code, averror, ffmpeg_error_string, Status};
use pixelflux::text::{push_decimal, push_signed_decimal};
use pixelflux::vaapi::error::check;
use pixelflux::{DecoderError, VaapiError, VaapiErrorKind};

fn decimal(value: i32) -> String {
    let mut text = String::new();
    push_signed_decimal(&mut text, value);
    text
}

#[test]
fn integers_are_rendered_in_decimal() {
    for value in [0, 7, 10, 99, 100, 1_024, i32::MAX, -1, -10, i32::MIN] {
        assert_eq!(decimal(value), value.to_string());
    }
    let mut text = String::from("x");
    push_decimal(&mut text, u32::MAX);
    assert_eq!(text, "x4294967295");
}

#[test]
fn statuses_are_described() {
    assert_eq!(
        ffmpeg_error_string(Status {
            code: -22,
            description: Some(String::from("Invalid argument")),
        }),
        "Invalid argument"
    );
    assert_eq!(
        ffmpeg_error_string(Status {
            code: -22,
            description: None,
        }),
        "FFmpeg error -22"
    );
}

#[test]
fn failed_statuses_become_errors() {
    let status = |code: i32| Status {
        code,
        description: None,
    };
    for code in [0, 1, i32::MAX] {
        assert_eq!(
            check(status(code), VaapiErrorKind::Unavailable, "operation"),
            Ok(())
        );
    }
    let error = check(status(-1), VaapiErrorKind::Unavailable, "operation").expect_err("negative");
    assert_eq!(error.kind(), VaapiErrorKind::Unavailable);
    assert_eq!(error.detail(), "FFmpeg error -1");
    assert_eq!(error.message(), "operation: FFmpeg error -1");
}

#[test]
fn errors_report_operation_and_detail() {
    let error = VaapiError::new(
        VaapiErrorKind::EncodeFailed,
        "operation",
        String::from("detail"),
    );
    assert_eq!(error.detail(), "detail");
    assert_eq!(error.message(), "operation: detail");
    let error = DecoderError::new("operation", String::from("detail"));
    assert_eq!(error.detail(), "detail");
    assert_eq!(error.message(), "operation: detail");
    let error = DecoderError::ffmpeg(
        "operation",
        Status {
            code: -5,
            description: Some(String::from("Input/output error")),
        },
    );
    assert_eq!(error.message(), "operation: Input/output error");
}

#[test]
fn error_numbers_are_negated() {
    assert_eq!(averror(11), -11);
    assert_eq!(averror(0), 0);
    assert_eq!(again_code(), -libc::EAGAIN);
}
