//! Decoded pictures: access-unit bounds, the luma plane and its sum.

use vstd::prelude::*;

use crate::rows;
use crate::status::{ffmpeg_error_string, Status};

verus! {

/// The largest access unit, in bytes, that a decoder accepts.
pub const MAX_ENCODED_BYTES: usize = 64 * 1024 * 1024;

/// The size of a decoded picture and the sum of its luma samples.
#[derive(Clone, Copy, Debug, PartialEq, Eq, Structural)]
pub struct DecodedFrame {
    pub width: u32,
    pub height: u32,
    pub luma_sum: u64,
    pub luma_samples: u64,
}

/// A failure of the software decoder.
#[derive(Clone, Debug, PartialEq, Eq)]
pub struct DecoderError {
    operation: &'static str,
    detail: String,
}

/// What a [`DecoderError`] says.
pub struct DecoderErrorView {
    pub operation: Seq<char>,
    pub detail: Seq<char>,
}

impl View for DecoderError {
    type V = DecoderErrorView;

    closed spec fn view(&self) -> DecoderErrorView {
        DecoderErrorView { operation: self.operation@, detail: self.detail@ }
    }
}

impl DecoderErrorView {
    /// The failure of `operation` for a fixed reason.
    pub open spec fn fixed(operation: &str, detail: &str) -> Self {
        DecoderErrorView { operation: operation@, detail: detail@ }
    }

    /// The failure of `operation` that a native status reports.
    pub open spec fn native(operation: &str, status: Status) -> Self {
        DecoderErrorView { operation: operation@, detail: status.detail() }
    }
}

impl DecoderError {
    /// The failure of `operation` for the reason `detail`.
    pub fn new(operation: &'static str, detail: String) -> (error: Self)
        ensures
            error@ == (DecoderErrorView { operation: operation@, detail: detail@ }),
    {
        DecoderError { operation, detail }
    }

    /// The failure of `operation` for a fixed reason.
    pub fn fixed(operation: &'static str, detail: &'static str) -> (error: Self)
        ensures
            error@ == DecoderErrorView::fixed(operation, detail),
    {
        Self::new(operation, String::from_str(detail))
    }

    /// The failure of `operation` that a native status reports.
    pub fn ffmpeg(operation: &'static str, status: Status) -> (error: Self)
        ensures
            error@ == DecoderErrorView::native(operation, status),
    {
        Self::new(operation, ffmpeg_error_string(status))
    }

    /// The reason of the failure.
    #[must_use]
    pub fn detail(&self) -> (detail: &str)
        ensures
            detail@ == self@.detail,
    {
        self.detail.as_str()
    }

    /// The operation that failed and the reason, as one line.
    pub fn message(&self) -> (line: String)
        ensures
            line@ == self@.operation + ": "@ + self@.detail,
    {
        let mut line = String::from_str(self.operation);
        line.append(": ");
        line.append(self.detail.as_str());
        line
    }
}

/// Whether a decoder accepts an access unit of `length` bytes.
pub open spec fn access_unit_bounded(length: nat) -> bool {
    1 <= length <= MAX_ENCODED_BYTES
}

/// The failure that an access unit out of bounds reports.
pub open spec fn access_unit_rejection() -> DecoderErrorView {
    DecoderErrorView::fixed(
        "validate H.264 access unit",
        "payload is empty or exceeds the decoder bound",
    )
}

/// Checks that an access unit is neither empty nor too large.
pub fn validate_access_unit(annex_b: &[u8]) -> (checked: Result<(), DecoderError>)
    ensures
        match checked {
            Ok(()) => access_unit_bounded(annex_b@.len()),
            Err(error) => !access_unit_bounded(annex_b@.len()) && error@ == access_unit_rejection(),
        },
{
    if annex_b.len() == 0 || annex_b.len() > MAX_ENCODED_BYTES {
        Err(
            DecoderError::fixed(
                "validate H.264 access unit",
                "payload is empty or exceeds the decoder bound",
            ),
        )
    } else {
        Ok(())
    }
}

/// The pixel format of a decoded picture.
#[derive(Clone, Copy, Debug, PartialEq, Eq, Structural)]
pub enum LumaFormat {
    Yuv420p,
    Yuvj420p,
    Nv12,
    Other,
}

/// The first plane of a decoded picture, without its bytes.
#[derive(Clone, Copy, Debug, PartialEq, Eq, Structural)]
pub struct LumaPlane {
    pub width: i32,
    pub height: i32,
    pub stride: i32,
    pub format: LumaFormat,
    /// Whether the plane points at any bytes.
    pub present: bool,
}

/// The sum of the first `width` samples from position `at` on.
pub open spec fn row_total(data: Seq<u8>, at: int, width: nat) -> nat
    decreases width,
{
    if width == 0 {
        0
    } else {
        row_total(data, at, (width - 1) as nat) + data[at + width - 1] as nat
    }
}

/// The sum of the samples of `rows` rows that start `stride` bytes apart.
pub open spec fn luma_total(data: Seq<u8>, stride: int, width: nat, rows: nat) -> nat
    decreases rows,
{
    if rows == 0 {
        0
    } else {
        luma_total(data, stride, width, (rows - 1) as nat) + row_total(
            data,
            (rows - 1) * stride,
            width,
        )
    }
}

/// A sum that stops at the largest machine number.
pub open spec fn saturated(total: nat) -> u64 {
    if total > u64::MAX {
        u64::MAX
    } else {
        total as u64
    }
}

impl LumaPlane {
    /// Whether the plane holds a picture in one luma byte per sample.
    pub open spec fn usable(self) -> bool {
        &&& self.width > 0
        &&& self.height > 0
        &&& self.stride >= self.width
        &&& self.present
        &&& !(self.format is Other)
    }

    /// The bytes from the first sample to the last.
    pub open spec fn length(self) -> int {
        rows::extent(self.height as int, self.stride as int, self.width as int)
    }

    /// The failure that an unusable plane reports.
    pub open spec fn rejection() -> DecoderErrorView {
        DecoderErrorView::fixed(
            "validate decoded H.264 frame",
            "decoder returned an unsupported or invalid luma plane",
        )
    }

    /// The size and the luma sum of the picture in `data`.
    pub open spec fn decoded(self, data: Seq<u8>) -> DecodedFrame {
        DecodedFrame {
            width: self.width as u32,
            height: self.height as u32,
            luma_sum: saturated(
                luma_total(data, self.stride as int, self.width as nat, self.height as nat),
            ),
            luma_samples: (self.width * self.height) as u64,
        }
    }

    /// Whether the plane holds a picture in one luma byte per sample.
    pub fn is_usable(&self) -> (usable: bool)
        ensures
            usable == self.usable(),
    {
        self.width > 0 && self.height > 0 && self.stride >= self.width && self.present && !matches!(
            self.format,
            LumaFormat::Other
        )
    }

    /// The number of bytes to read for [`decoded_luma`]: `None` when the plane is unusable or
    /// does not fit the machine.
    pub fn byte_length(&self) -> (length: Option<usize>)
        ensures
            match length {
                Some(length) => self.usable() && length == self.length(),
                None => !self.usable() || self.length() > usize::MAX,
            },
    {
        if !self.is_usable() {
            return None;
        }
        proof {
            assert((self.height - 1) * self.stride >= 0) by (nonlinear_arith)
                requires
                    self.height > 0,
                    self.stride > 0,
            ;
        }
        match ((self.height - 1) as usize).checked_mul(self.stride as usize) {
            Some(offset) => offset.checked_add(self.width as usize),
            None => None,
        }
    }
}

fn add_row(sum: u64, data: &[u8], at: usize, width: usize, Ghost(total): Ghost<nat>) -> (next: u64)
    requires
        at + width <= data@.len(),
        sum == saturated(total),
    ensures
        next == saturated(total + row_total(data@, at as int, width as nat)),
{
    let available: usize = data.len();
    let mut next: u64 = sum;
    let mut column: usize = 0;
    while column < width
        invariant
            column <= width,
            available == data@.len(),
            at + width <= data@.len(),
            next == saturated(total + row_total(data@, at as int, column as nat)),
        decreases width - column,
    {
        next = next.saturating_add(data[at + column] as u64);
        column = column + 1;
    }
    next
}

/// Reads the size and the luma sum of a decoded picture.
pub fn decoded_luma(plane: LumaPlane, data: &[u8]) -> (decoded: Result<DecodedFrame, DecoderError>)
    requires
        plane.usable() ==> data@.len() >= plane.length(),
    ensures
        match decoded {
            Ok(frame) => plane.usable() && frame == plane.decoded(data@),
            Err(error) => !plane.usable() && error@ == LumaPlane::rejection(),
        },
{
    if !plane.is_usable() {
        return Err(
            DecoderError::fixed(
                "validate decoded H.264 frame",
                "decoder returned an unsupported or invalid luma plane",
            ),
        );
    }
    let available: usize = data.len();
    let width: usize = plane.width as usize;
    let height: usize = plane.height as usize;
    let stride: usize = plane.stride as usize;
    let mut luma_sum: u64 = 0;
    let mut row: usize = 0;
    while row < height
        invariant
            row <= height,
            available == data@.len(),
            available >= (height - 1) * stride + width,
            luma_sum == saturated(luma_total(data@, stride as int, width as nat, row as nat)),
        decreases height - row,
    {
        proof {
            assert(0 <= row * stride <= (height - 1) * stride) by (nonlinear_arith)
                requires
                    0 <= row <= height - 1,
                    0 <= stride,
            ;
        }
        luma_sum =
        add_row(
            luma_sum,
            data,
            row * stride,
            width,
            Ghost(luma_total(data@, stride as int, width as nat, row as nat)),
        );
        row = row + 1;
    }
    proof {
        assert(0 <= plane.width * plane.height <= 0x7fff_ffff * 0x7fff_ffff) by (nonlinear_arith)
            requires
                0 < plane.width <= 0x7fff_ffff,
                0 < plane.height <= 0x7fff_ffff,
        ;
    }
    Ok(
        DecodedFrame {
            width: plane.width as u32,
            height: plane.height as u32,
            luma_sum,
            luma_samples: plane.width as u64 * plane.height as u64,
        },
    )
}

/// An access unit is accepted exactly when it holds a byte, and at most 64 MiB.
pub proof fn law_access_units_are_bounded(annex_b: &[u8], checked: Result<(), DecoderError>)
    requires
        call_ensures(validate_access_unit, (annex_b,), checked),
    ensures
        checked is Ok <==> 1 <= annex_b@.len() <= 67_108_864,
{
}

/// A picture is decoded exactly when its plane has a size, rows that hold their samples, bytes, and
/// one of the formats with one luma byte per sample. The result has the size of the plane.
pub proof fn law_decoded_frame_has_the_size_of_the_plane(
    plane: LumaPlane,
    data: &[u8],
    decoded: Result<DecodedFrame, DecoderError>,
)
    requires
        call_ensures(decoded_luma, (plane, data), decoded),
    ensures
        decoded is Ok <==> {
            &&& plane.width >= 1
            &&& plane.height >= 1
            &&& plane.width <= plane.stride
            &&& plane.present
            &&& plane.format is Yuv420p || plane.format is Yuvj420p || plane.format is Nv12
        },
        decoded matches Ok(frame) ==> {
            &&& frame.width == plane.width
            &&& frame.height == plane.height
            &&& frame.luma_samples == frame.width * frame.height
        },
{
    if plane.usable() {
        assert(0 <= plane.width * plane.height <= 0x7fff_ffff * 0x7fff_ffff) by (nonlinear_arith)
            requires
                0 < plane.width <= 0x7fff_ffff,
                0 < plane.height <= 0x7fff_ffff,
        ;
    }
}

/// The position of a sample in the bytes of a plane.
pub open spec fn sample_at(plane: LumaPlane, row: int, column: int) -> int {
    row * plane.stride + column
}

/// A picture without light has the sum zero.
pub proof fn law_black_pictures_sum_to_zero(
    plane: LumaPlane,
    data: &[u8],
    frame: DecodedFrame,
)
    requires
        call_ensures(decoded_luma, (plane, data), Ok::<DecodedFrame, DecoderError>(frame)),
        forall|row: int, column: int|
            0 <= row < plane.height && 0 <= column < plane.width ==> data@[#[trigger] sample_at(
                plane,
                row,
                column,
            )] == 0,
    ensures
        frame.luma_sum == 0,
{
    lemma_black_rows(plane, data@, plane.height as nat);
}

proof fn lemma_black_rows(plane: LumaPlane, data: Seq<u8>, rows: nat)
    requires
        plane.usable(),
        rows <= plane.height,
        forall|row: int, column: int|
            0 <= row < plane.height && 0 <= column < plane.width ==> data[#[trigger] sample_at(
                plane,
                row,
                column,
            )] == 0,
    ensures
        luma_total(data, plane.stride as int, plane.width as nat, rows) == 0,
    decreases rows,
{
    if rows > 0 {
        lemma_black_rows(plane, data, (rows - 1) as nat);
        lemma_black_row(plane, data, rows - 1, plane.width as nat);
    }
}

proof fn lemma_black_row(plane: LumaPlane, data: Seq<u8>, row: int, columns: nat)
    requires
        0 <= row < plane.height,
        columns <= plane.width,
        forall|row: int, column: int|
            0 <= row < plane.height && 0 <= column < plane.width ==> data[#[trigger] sample_at(
                plane,
                row,
                column,
            )] == 0,
    ensures
        row_total(data, row * plane.stride, columns) == 0,
    decreases columns,
{
    if columns > 0 {
        lemma_black_row(plane, data, row, (columns - 1) as nat);
        assert(data[sample_at(plane, row, columns - 1)] == 0);
    }
}

/// A sample that is brighter by one makes the sum greater by one, wherever in the picture it lies,
/// until the sum is the largest machine number.
pub proof fn law_each_sample_counts_once(
    plane: LumaPlane,
    data: &[u8],
    brighter: &[u8],
    row: int,
    column: int,
    frame: DecodedFrame,
    brighter_frame: DecodedFrame,
)
    requires
        call_ensures(decoded_luma, (plane, data), Ok::<DecodedFrame, DecoderError>(frame)),
        call_ensures(
            decoded_luma,
            (plane, brighter),
            Ok::<DecodedFrame, DecoderError>(brighter_frame),
        ),
        data@.len() >= plane.length(),
        0 <= row < plane.height,
        0 <= column < plane.width,
        data@[sample_at(plane, row, column)] < 255,
        brighter@ == data@.update(
            sample_at(plane, row, column),
            (data@[sample_at(plane, row, column)] + 1) as u8,
        ),
    ensures
        brighter_frame.luma_sum == if frame.luma_sum == u64::MAX {
            u64::MAX as int
        } else {
            frame.luma_sum + 1
        },
{
    let at = sample_at(plane, row, column);
    let value = (data@[at] + 1) as u8;
    assert(0 <= row * plane.stride <= (plane.height - 1) * plane.stride) by (nonlinear_arith)
        requires
            0 <= row <= plane.height - 1,
            0 <= plane.stride,
    ;
    lemma_brighter_rows(plane, data@, row, column, value, plane.height as nat);
}

proof fn lemma_brighter_rows(
    plane: LumaPlane,
    data: Seq<u8>,
    row: int,
    column: int,
    value: u8,
    rows: nat,
)
    requires
        plane.usable(),
        0 <= row < plane.height,
        0 <= column < plane.width,
        0 <= sample_at(plane, row, column) < data.len(),
        value == data[sample_at(plane, row, column)] + 1,
        data.len() >= plane.length(),
        rows <= plane.height,
    ensures
        luma_total(
            data.update(sample_at(plane, row, column), value),
            plane.stride as int,
            plane.width as nat,
            rows,
        ) == luma_total(data, plane.stride as int, plane.width as nat, rows) + if row < rows {
            1int
        } else {
            0
        },
    decreases rows,
{
    if rows > 0 {
        lemma_brighter_rows(plane, data, row, column, value, (rows - 1) as nat);
        lemma_brighter_row(plane, data, row, column, value, rows - 1, plane.width as nat);
    }
}

proof fn lemma_brighter_row(
    plane: LumaPlane,
    data: Seq<u8>,
    row: int,
    column: int,
    value: u8,
    summed: int,
    columns: nat,
)
    requires
        plane.usable(),
        0 <= row < plane.height,
        0 <= column < plane.width,
        0 <= sample_at(plane, row, column) < data.len(),
        value == data[sample_at(plane, row, column)] + 1,
        data.len() >= plane.length(),
        0 <= summed < plane.height,
        columns <= plane.width,
    ensures
        row_total(
            data.update(sample_at(plane, row, column), value),
            summed * plane.stride,
            columns,
        ) == row_total(data, summed * plane.stride, columns) + if summed == row && column
            < columns {
            1int
        } else {
            0
        },
    decreases columns,
{
    if columns > 0 {
        lemma_brighter_row(plane, data, row, column, value, summed, (columns - 1) as nat);
        let stride = plane.stride as int;
        let last = columns - 1;
        if summed < row {
            assert(summed * stride + stride <= row * stride) by (nonlinear_arith)
                requires
                    summed + 1 <= row,
                    0 <= stride,
            ;
        } else if summed > row {
            assert(row * stride + stride <= summed * stride) by (nonlinear_arith)
                requires
                    row + 1 <= summed,
                    0 <= stride,
            ;
        }
        assert(0 <= summed * stride <= (plane.height - 1) * stride) by (nonlinear_arith)
            requires
                0 <= summed <= plane.height - 1,
                0 <= stride,
        ;
        let changed = data.update(sample_at(plane, row, column), value);
        if summed == row && last == column {
            assert(changed[summed * stride + last] == value);
        } else {
            assert(summed * stride + last != sample_at(plane, row, column));
            assert(changed[summed * stride + last] == data[summed * stride + last]);
        }
    }
}

/// The bytes to read for a usable plane reach exactly to its last sample, and hold every other one.
pub proof fn law_bytes_reach_to_the_last_sample(
    plane: LumaPlane,
    length: Option<usize>,
    row: int,
    column: int,
)
    requires
        call_ensures(LumaPlane::byte_length, (&plane,), length),
        0 <= row < plane.height,
        0 <= column < plane.width,
    ensures
        length matches Some(length) ==> {
            &&& 0 <= sample_at(plane, row, column) < length
            &&& sample_at(plane, plane.height - 1, plane.width - 1) == length - 1
        },
        length is None ==> !plane.usable() || sample_at(plane, plane.height - 1, plane.width - 1)
            >= usize::MAX,
{
    if plane.usable() {
        assert(0 <= row * plane.stride <= (plane.height - 1) * plane.stride) by (nonlinear_arith)
            requires
                0 <= row <= plane.height - 1,
                0 <= plane.stride,
        ;
    }
}

/// A failure keeps its operation and its reason, and its line joins them.
pub proof fn law_decoder_failures_are_reported(
    operation: &'static str,
    detail: String,
    status: Status,
    error: DecoderError,
)
    ensures
        call_ensures(DecoderError::new, (operation, detail), error) ==> {
            &&& error@.operation == operation@
            &&& error@.detail == detail@
        },
        call_ensures(DecoderError::ffmpeg, (operation, status), error) ==> {
            &&& error@.operation == operation@
            &&& error@.detail == status.detail()
        },
        forall|line: String| #[trigger]
            call_ensures(DecoderError::message, (&error,), line) ==> line@ == error@.operation
                + seq![':', ' '] + error@.detail,
        forall|reason: &str| #[trigger]
            call_ensures(DecoderError::detail, (&error,), reason) ==> reason@ == error@.detail,
{
    reveal_strlit(": ");
    assert(": "@ =~= seq![':', ' ']);
}

/// No sample counts for more than a byte: the mean of the luma samples is at most 255.
pub proof fn law_luma_sum_is_bounded(plane: LumaPlane, data: Seq<u8>)
    requires
        plane.usable(),
    ensures
        plane.decoded(data).luma_sum <= 255 * plane.decoded(data).luma_samples,
{
    lemma_luma_total_bound(data, plane.stride as int, plane.width as nat, plane.height as nat);
    assert(0 <= plane.width * plane.height <= 0x7fff_ffff * 0x7fff_ffff) by (nonlinear_arith)
        requires
            0 < plane.width <= 0x7fff_ffff,
            0 < plane.height <= 0x7fff_ffff,
    ;
}

/// The bytes between the end of a row and the start of the next do not count: pictures with the
/// same samples have the same sum.
pub proof fn law_luma_sum_ignores_padding(plane: LumaPlane, one: Seq<u8>, other: Seq<u8>)
    requires
        plane.usable(),
        forall|row: int, column: int|
            0 <= row < plane.height && 0 <= column < plane.width ==> #[trigger] one[row
                * plane.stride + column] == other[row * plane.stride + column],
    ensures
        plane.decoded(one) == plane.decoded(other),
{
    lemma_same_samples(plane, one, other, plane.height as nat);
}

proof fn lemma_same_samples(plane: LumaPlane, one: Seq<u8>, other: Seq<u8>, rows: nat)
    requires
        plane.usable(),
        rows <= plane.height,
        forall|row: int, column: int|
            0 <= row < plane.height && 0 <= column < plane.width ==> #[trigger] one[row
                * plane.stride + column] == other[row * plane.stride + column],
    ensures
        luma_total(one, plane.stride as int, plane.width as nat, rows) == luma_total(
            other,
            plane.stride as int,
            plane.width as nat,
            rows,
        ),
    decreases rows,
{
    if rows > 0 {
        lemma_same_samples(plane, one, other, (rows - 1) as nat);
        lemma_same_row(plane, one, other, rows - 1, plane.width as nat);
    }
}

proof fn lemma_same_row(plane: LumaPlane, one: Seq<u8>, other: Seq<u8>, row: int, columns: nat)
    requires
        0 <= row < plane.height,
        columns <= plane.width,
        forall|row: int, column: int|
            0 <= row < plane.height && 0 <= column < plane.width ==> #[trigger] one[row
                * plane.stride + column] == other[row * plane.stride + column],
    ensures
        row_total(one, row * plane.stride, columns) == row_total(
            other,
            row * plane.stride,
            columns,
        ),
    decreases columns,
{
    if columns > 0 {
        lemma_same_row(plane, one, other, row, (columns - 1) as nat);
        let column = columns - 1;
        assert(one[row * plane.stride + column] == other[row * plane.stride + column]);
    }
}

proof fn lemma_row_total_bound(data: Seq<u8>, at: int, width: nat)
    ensures
        row_total(data, at, width) <= 255 * width,
    decreases width,
{
    if width > 0 {
        lemma_row_total_bound(data, at, (width - 1) as nat);
    }
}

proof fn lemma_luma_total_bound(data: Seq<u8>, stride: int, width: nat, rows: nat)
    ensures
        luma_total(data, stride, width, rows) <= 255 * (width * rows),
    decreases rows,
{
    if rows > 0 {
        let above = (rows - 1) as nat;
        lemma_luma_total_bound(data, stride, width, above);
        lemma_row_total_bound(data, above * stride, width);
        assert(width * rows == width * above + width) by (nonlinear_arith)
            requires
                rows == above + 1,
        ;
    } else {
        assert(width * rows == 0) by (nonlinear_arith)
            requires
                rows == 0,
        ;
    }
}

} // verus!
