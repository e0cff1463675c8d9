//! Failures of the VA-API encoder.

use vstd::prelude::*;

use crate::status::{ffmpeg_error_string, Status};

verus! {

/// Stable failure classes exposed to embedding adapters.
#[derive(Clone, Copy, Debug, PartialEq, Eq, Structural)]
pub enum VaapiErrorKind {
    InvalidConfiguration,
    Unavailable,
    EncodeFailed,
    InvalidOutput,
}

/// An operator-facing native FFmpeg/VA-API failure.
#[derive(Clone, Debug, PartialEq, Eq)]
pub struct VaapiError {
    kind: VaapiErrorKind,
    operation: &'static str,
    detail: String,
}

/// What a [`VaapiError`] says.
pub struct VaapiErrorView {
    pub kind: VaapiErrorKind,
    pub operation: Seq<char>,
    pub detail: Seq<char>,
}

impl View for VaapiError {
    type V = VaapiErrorView;

    closed spec fn view(&self) -> VaapiErrorView {
        VaapiErrorView { kind: self.kind, operation: self.operation@, detail: self.detail@ }
    }
}

impl VaapiErrorView {
    /// The failure of `operation` for a fixed reason.
    pub open spec fn fixed(kind: VaapiErrorKind, operation: &str, detail: &str) -> Self {
        VaapiErrorView { kind, operation: operation@, detail: detail@ }
    }

    /// The failure of `operation` that a native status reports.
    pub open spec fn native(kind: VaapiErrorKind, operation: &str, status: Status) -> Self {
        VaapiErrorView { kind, operation: operation@, detail: status.detail() }
    }
}

impl VaapiError {
    /// The failure of `operation` for the reason `detail`.
    pub fn new(kind: VaapiErrorKind, operation: &'static str, detail: String) -> (error: Self)
        ensures
            error@ == (VaapiErrorView { kind, operation: operation@, detail: detail@ }),
    {
        VaapiError { kind, operation, detail }
    }

    /// The failure of `operation` for a fixed reason.
    pub fn fixed(kind: VaapiErrorKind, operation: &'static str, detail: &'static str) -> (error:
        Self)
        ensures
            error@ == VaapiErrorView::fixed(kind, operation, detail),
    {
        Self::new(kind, operation, String::from_str(detail))
    }

    /// The failure of `operation` that a native status reports.
    pub fn ffmpeg(kind: VaapiErrorKind, operation: &'static str, status: Status) -> (error: Self)
        ensures
            error@ == VaapiErrorView::native(kind, operation, status),
    {
        Self::new(kind, operation, ffmpeg_error_string(status))
    }

    /// The failure class.
    #[must_use]
    pub fn kind(&self) -> (kind: VaapiErrorKind)
        ensures
            kind == self@.kind,
    {
        self.kind
    }

    /// The reason of the failure.
    #[must_use]
    pub fn detail(&self) -> (detail: &str)
        ensures
            detail@ == self@.detail,
    {
        self.detail.as_str()
    }

    /// The operation that failed and the reason, as one line.
    pub fn message(&self) -> (line: String)
        ensures
            line@ == self@.operation + ": "@ + self@.detail,
    {
        let mut line = String::from_str(self.operation);
        line.append(": ");
        line.append(self.detail.as_str());
        line
    }
}

/// Accepts a non-negative status and reports a negative one as the failure of `operation`.
pub fn check(status: Status, kind: VaapiErrorKind, operation: &'static str) -> (checked: Result<
    (),
    VaapiError,
>)
    ensures
        match checked {
            Ok(()) => !status.failed(),
            Err(error) => status.failed() && error@ == VaapiErrorView::native(
                kind,
                operation,
                status,
            ),
        },
{
    if status.code < 0 {
        Err(VaapiError::ffmpeg(kind, operation, status))
    } else {
        Ok(())
    }
}

/// A failure keeps its class, its operation and its reason, and its line joins the last two.
pub proof fn law_encoder_failures_are_reported(
    kind: VaapiErrorKind,
    operation: &'static str,
    detail: String,
    fixed: &'static str,
    status: Status,
    error: VaapiError,
)
    ensures
        call_ensures(VaapiError::new, (kind, operation, detail), error) ==> {
            &&& error@.kind == kind
            &&& error@.operation == operation@
            &&& error@.detail == detail@
        },
        call_ensures(VaapiError::fixed, (kind, operation, fixed), error) ==> {
            &&& error@.kind == kind
            &&& error@.operation == operation@
            &&& error@.detail == fixed@
        },
        call_ensures(VaapiError::ffmpeg, (kind, operation, status), error) ==> {
            &&& error@.kind == kind
            &&& error@.operation == operation@
            &&& error@.detail == status.detail()
        },
        forall|line: String| #[trigger]
            call_ensures(VaapiError::message, (&error,), line) ==> line@ == error@.operation
                + seq![':', ' '] + error@.detail,
        forall|reason: &str| #[trigger]
            call_ensures(VaapiError::detail, (&error,), reason) ==> reason@ == error@.detail,
        forall|class: VaapiErrorKind| #[trigger]
            call_ensures(VaapiError::kind, (&error,), class) ==> class == error@.kind,
{
    reveal_strlit(": ");
    assert(": "@ =~= seq![':', ' ']);
}

/// A status is a failure exactly when its code is negative; the failure then has the class and the
/// operation that were asked for, and the description of the status.
pub proof fn law_negative_statuses_fail(
    status: Status,
    kind: VaapiErrorKind,
    operation: &'static str,
    checked: Result<(), VaapiError>,
)
    requires
        call_ensures(check, (status, kind, operation), checked),
    ensures
        checked is Err <==> status.code < 0,
        checked matches Err(error) ==> {
            &&& error@.kind == kind
            &&& error@.operation == operation@
            &&& error@.detail == status.detail()
        },
{
}

} // verus!
