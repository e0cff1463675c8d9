//! Native call results and the text that describes a failed one.

use vstd::prelude::*;

use crate::text;

verus! {

/// What one native call answered, with the description that the native library has for it.
#[derive(Clone, Debug, PartialEq, Eq)]
pub struct Status {
    /// The code itself; negative means failure.
    pub code: i32,
    /// The native description of `code`, or `None` when there is none.
    pub description: Option<String>,
}

/// The description of a failed status: the native one, or a rendering of the code.
pub open spec fn error_text(code: int, description: Option<Seq<char>>) -> Seq<char> {
    match description {
        Some(native) => native,
        None => "FFmpeg error "@ + text::signed_decimal(code),
    }
}

impl Status {
    /// Whether the call failed.
    pub open spec fn failed(&self) -> bool {
        self.code < 0
    }

    /// The native description as characters.
    pub open spec fn native_description(&self) -> Option<Seq<char>> {
        match self.description {
            Some(native) => Some(native@),
            None => None,
        }
    }

    /// The text that describes this status.
    pub open spec fn detail(&self) -> Seq<char> {
        error_text(self.code as int, self.native_description())
    }
}

/// Renders the description of a status: the native one, or a rendering of the code.
pub fn ffmpeg_error_string(status: Status) -> (detail: String)
    ensures
        detail@ == status.detail(),
{
    match status.description {
        Some(native) => native,
        None => {
            let mut rendered = String::from_str("FFmpeg error ");
            text::push_signed_decimal(&mut rendered, status.code);
            rendered
        },
    }
}

/// A status has failed exactly when its code is negative. It is described by its native
/// description, and without one by its code, which can be read back from the text.
pub proof fn law_statuses_are_described(status: Status)
    ensures
        status.failed() <==> status.code < 0,
        status.description matches Some(native) ==> status.detail() == native@,
        status.description is None ==> {
            &&& status.detail().take(13) == "FFmpeg error "@
            &&& text::read_number(status.detail().skip(13)) == status.code
        },
        forall|detail: String| #[trigger]
            call_ensures(ffmpeg_error_string, (status,), detail) ==> detail@ == status.detail(),
{
    reveal_strlit("FFmpeg error ");
    text::law_decimals_read_back(status.code as int);
    if status.description is None {
        assert(status.detail().take(13) =~= "FFmpeg error "@);
        assert(status.detail().skip(13) =~= text::signed_decimal(status.code as int));
    }
}

/// An error number and its status add up to nothing.
pub proof fn law_statuses_oppose_error_numbers(errno: i32, code: i32)
    requires
        call_ensures(averror, (errno,), code),
    ensures
        errno + code == 0,
{
}

/// Whether some system gives this error number to a resource that has nothing to give yet.
pub open spec fn numbers_again(errno: int) -> bool {
    ||| errno == 6
    ||| errno == 11
    ||| errno == 35
    ||| errno == 36
    ||| errno == 1_073_741_859
    ||| errno == -2_147_483_637
}

/// The value of `libc::EAGAIN`, the error number of a resource that has nothing to give yet. It
/// differs between systems: 11 on most, 35 on the BSDs and on Apple's, 6 on WASI and Emscripten,
/// 36 on HelenOS, 1073741859 on the Hurd and -2147483637 on Haiku. Which of these it is stays
/// open.
#[verifier::external_body]
fn errno_again() -> (errno: i32)
    ensures
        numbers_again(errno as int),
{
    libc::EAGAIN
}

/// The status that stands for an error number: its negation.
pub fn averror(errno: i32) -> (code: i32)
    requires
        errno > i32::MIN,
    ensures
        code == -errno,
{
    -errno
}

/// The status of a codec that has nothing to hand out yet, on this system: the negation of the
/// system's error number, whichever that is.
pub fn again_code() -> (code: i32)
    ensures
        numbers_again(-code),
{
    averror(errno_again())
}

} // verus!
