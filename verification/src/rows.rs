//! Pictures in rows: how far they reach, and their copy between buffers with different row lengths.

use vstd::prelude::*;

verus! {

/// The bytes from the start of the first row to the end of the last, for `rows` rows of
/// `row_bytes` bytes that start `stride` bytes apart.
pub open spec fn extent(rows: int, stride: int, row_bytes: int) -> int {
    (rows - 1) * stride + row_bytes
}

/// `base` with `part` written over it from position `at` on.
pub open spec fn overwritten(base: Seq<u8>, at: int, part: Seq<u8>) -> Seq<u8> {
    Seq::new(
        base.len(),
        |i: int|
            if at <= i < at + part.len() {
                part[i - at]
            } else {
                base[i]
            },
    )
}

/// The native buffer after the first `rows` rows of the picture have been written, in order.
pub open spec fn rows_copied(
    destination: Seq<u8>,
    destination_stride: int,
    pixels: Seq<u8>,
    stride: int,
    row_bytes: int,
    rows: nat,
) -> Seq<u8>
    decreases rows,
{
    if rows == 0 {
        destination
    } else {
        let row = rows - 1;
        overwritten(
            rows_copied(destination, destination_stride, pixels, stride, row_bytes, row as nat),
            row * destination_stride,
            pixels.subrange(row * stride, row * stride + row_bytes),
        )
    }
}

/// Copies one row: `row_bytes` bytes of `pixels` from `source_offset` to `destination_offset`.
fn copy_row(
    pixels: &[u8],
    source_offset: usize,
    destination: &mut [u8],
    destination_offset: usize,
    row_bytes: usize,
)
    requires
        source_offset + row_bytes <= pixels@.len(),
        destination_offset + row_bytes <= old(destination)@.len(),
    ensures
        final(destination)@ == overwritten(
            old(destination)@,
            destination_offset as int,
            pixels@.subrange(source_offset as int, source_offset + row_bytes),
        ),
{
    let available: usize = pixels.len();
    let room: usize = destination.len();
    let mut column: usize = 0;
    while column < row_bytes
        invariant
            available == pixels@.len(),
            room == old(destination)@.len(),
            column <= row_bytes,
            source_offset + row_bytes <= pixels@.len(),
            destination_offset + row_bytes <= old(destination)@.len(),
            destination@.len() == old(destination)@.len(),
            forall|i: int|
                0 <= i < destination@.len() ==> #[trigger] destination@[i] == if destination_offset
                    <= i < destination_offset + column {
                    pixels@[source_offset + (i - destination_offset)]
                } else {
                    old(destination)@[i]
                },
        decreases row_bytes - column,
    {
        destination[destination_offset + column] = pixels[source_offset + column];
        column = column + 1;
    }
    assert(destination@ =~= overwritten(
        old(destination)@,
        destination_offset as int,
        pixels@.subrange(source_offset as int, source_offset + row_bytes),
    ));
}

/// Copies the rows of a CPU picture into a native buffer with its own row length.
pub fn copy_rows(
    pixels: &[u8],
    stride: usize,
    destination: &mut [u8],
    destination_stride: usize,
    row_bytes: usize,
    rows: usize,
)
    requires
        rows > 0,
        pixels@.len() >= extent(rows as int, stride as int, row_bytes as int),
        old(destination)@.len() >= extent(rows as int, destination_stride as int, row_bytes as int),
    ensures
        final(destination)@ == rows_copied(
            old(destination)@,
            destination_stride as int,
            pixels@,
            stride as int,
            row_bytes as int,
            rows as nat,
        ),
{
    let available: usize = pixels.len();
    let room: usize = destination.len();
    let mut row: usize = 0;
    while row < rows
        invariant
            available == pixels@.len(),
            room == old(destination)@.len(),
            row <= rows,
            pixels@.len() >= extent(rows as int, stride as int, row_bytes as int),
            old(destination)@.len() >= extent(
                rows as int,
                destination_stride as int,
                row_bytes as int,
            ),
            destination@.len() == old(destination)@.len(),
            destination@ == rows_copied(
                old(destination)@,
                destination_stride as int,
                pixels@,
                stride as int,
                row_bytes as int,
                row as nat,
            ),
        decreases rows - row,
    {
        assert(row * stride <= (rows - 1) * stride) by (nonlinear_arith)
            requires
                row <= rows - 1,
        ;
        assert(row * destination_stride <= (rows - 1) * destination_stride) by (nonlinear_arith)
            requires
                row <= rows - 1,
        ;
        assert(0 <= row * stride) by (nonlinear_arith);
        assert(0 <= row * destination_stride) by (nonlinear_arith);
        copy_row(pixels, row * stride, destination, row * destination_stride, row_bytes);
        row = row + 1;
    }
}

/// Reading the native buffer back gives the picture: where native rows do not overlap, each byte
/// of each row is the one of the picture, and every other byte is as it was.
pub proof fn law_copied_rows_read_back(
    destination: Seq<u8>,
    destination_stride: int,
    pixels: Seq<u8>,
    stride: int,
    row_bytes: int,
    rows: nat,
    row: int,
    column: int,
)
    requires
        0 <= row_bytes <= destination_stride,
        0 <= stride,
        rows > 0,
        pixels.len() >= extent(rows as int, stride, row_bytes),
        destination.len() >= extent(rows as int, destination_stride, row_bytes),
        0 <= row < rows,
        0 <= column < destination_stride,
        row * destination_stride + column < destination.len(),
    ensures
        rows_copied(destination, destination_stride, pixels, stride, row_bytes, rows)[row
            * destination_stride + column] == if column < row_bytes {
            pixels[row * stride + column]
        } else {
            destination[row * destination_stride + column]
        },
{
    lemma_copied_rows(
        destination,
        destination_stride,
        pixels,
        stride,
        row_bytes,
        rows,
        rows,
        row,
        column,
    );
}

/// Whether a native row covers a position of the buffer.
pub open spec fn covers(row: int, destination_stride: int, row_bytes: int, position: int) -> bool {
    row * destination_stride <= position < row * destination_stride + row_bytes
}

/// After a copy, a position holds the byte of the last row that covers it, and its old byte where
/// none does; the buffer keeps its length. This holds also where native rows overlap.
pub proof fn law_last_covering_row_wins(
    pixels: &[u8],
    stride: usize,
    destination_stride: usize,
    row_bytes: usize,
    rows: usize,
    position: int,
)
    requires
        rows > 0,
        pixels@.len() >= extent(rows as int, stride as int, row_bytes as int),
    ensures
        forall|destination: &mut [u8]|
            {
                &&& #[trigger] call_ensures(
                    copy_rows,
                    (pixels, stride, destination, destination_stride, row_bytes, rows),
                    (),
                )
                &&& 0 <= position < destination@.len()
            } ==> {
                &&& final(destination)@.len() == destination@.len()
                &&& (forall|row: int|
                    0 <= row < rows ==> !#[trigger] covers(
                        row,
                        destination_stride as int,
                        row_bytes as int,
                        position,
                    )) ==> final(destination)@[position] == destination@[position]
                &&& forall|row: int|
                    0 <= row < rows && #[trigger] covers(
                        row,
                        destination_stride as int,
                        row_bytes as int,
                        position,
                    ) && (forall|later: int|
                        row < later < rows ==> !#[trigger] covers(
                            later,
                            destination_stride as int,
                            row_bytes as int,
                            position,
                        )) ==> final(destination)@[position] == pixels@[row * stride + (position
                        - row * destination_stride)]
            },
{
    assert forall|destination: &mut [u8]|
        {
            &&& #[trigger] call_ensures(
                copy_rows,
                (pixels, stride, destination, destination_stride, row_bytes, rows),
                (),
            )
            &&& 0 <= position < destination@.len()
        } implies {
        &&& final(destination)@.len() == destination@.len()
        &&& (forall|row: int|
            0 <= row < rows ==> !#[trigger] covers(
                row,
                destination_stride as int,
                row_bytes as int,
                position,
            )) ==> final(destination)@[position] == destination@[position]
        &&& forall|row: int|
            0 <= row < rows && #[trigger] covers(
                row,
                destination_stride as int,
                row_bytes as int,
                position,
            ) && (forall|later: int|
                row < later < rows ==> !#[trigger] covers(
                    later,
                    destination_stride as int,
                    row_bytes as int,
                    position,
                )) ==> final(destination)@[position] == pixels@[row * stride + (position - row
                * destination_stride)]
    } by {
        lemma_covering_rows(
            destination@,
            destination_stride as int,
            pixels@,
            stride as int,
            row_bytes as int,
            rows as nat,
            rows as nat,
            position,
        );
    }
}

proof fn lemma_covering_rows(
    destination: Seq<u8>,
    destination_stride: int,
    pixels: Seq<u8>,
    stride: int,
    row_bytes: int,
    rows: nat,
    done: nat,
    position: int,
)
    requires
        0 <= row_bytes,
        0 <= stride,
        done <= rows,
        pixels.len() >= extent(rows as int, stride, row_bytes),
        0 <= position < destination.len(),
    ensures
        ({
            let copied = rows_copied(
                destination,
                destination_stride,
                pixels,
                stride,
                row_bytes,
                done,
            );
            &&& copied.len() == destination.len()
            &&& (forall|row: int|
                0 <= row < done ==> !#[trigger] covers(
                    row,
                    destination_stride,
                    row_bytes,
                    position,
                )) ==> copied[position] == destination[position]
            &&& forall|row: int|
                0 <= row < done && #[trigger] covers(
                    row,
                    destination_stride,
                    row_bytes,
                    position,
                ) && (forall|later: int|
                    row < later < done ==> !#[trigger] covers(
                        later,
                        destination_stride,
                        row_bytes,
                        position,
                    )) ==> copied[position] == pixels[row * stride + (position - row
                    * destination_stride)]
        }),
    decreases done,
{
    if done > 0 {
        let last = done - 1;
        lemma_covering_rows(
            destination,
            destination_stride,
            pixels,
            stride,
            row_bytes,
            rows,
            last as nat,
            position,
        );
        assert(0 <= last * stride <= (rows - 1) * stride) by (nonlinear_arith)
            requires
                0 <= last <= rows - 1,
                stride >= 0,
        ;
        let covered = covers(last, destination_stride, row_bytes, position);
        assert forall|row: int|
            0 <= row < done && #[trigger] covers(row, destination_stride, row_bytes, position) && (
            forall|later: int|
                row < later < done ==> !#[trigger] covers(
                    later,
                    destination_stride,
                    row_bytes,
                    position,
                )) implies rows_copied(
            destination,
            destination_stride,
            pixels,
            stride,
            row_bytes,
            done,
        )[position] == pixels[row * stride + (position - row * destination_stride)] by {
            if row < last {
                assert(!covered);
            }
        }
    }
}

/// The bytes between the end of a row and the start of the next do not count, nor how many there
/// are: pictures with the same rows give the same native buffer.
pub proof fn law_copy_ignores_padding(
    destination: Seq<u8>,
    destination_stride: int,
    one: Seq<u8>,
    one_stride: int,
    other: Seq<u8>,
    other_stride: int,
    row_bytes: int,
    rows: nat,
)
    requires
        0 <= row_bytes,
        0 <= one_stride,
        0 <= other_stride,
        rows > 0,
        one.len() >= extent(rows as int, one_stride, row_bytes),
        other.len() >= extent(rows as int, other_stride, row_bytes),
        forall|row: int, column: int|
            0 <= row < rows && 0 <= column < row_bytes ==> #[trigger] one[row * one_stride + column]
                == other[row * other_stride + column],
    ensures
        rows_copied(destination, destination_stride, one, one_stride, row_bytes, rows)
            == rows_copied(destination, destination_stride, other, other_stride, row_bytes, rows),
{
    lemma_same_rows(
        destination,
        destination_stride,
        one,
        one_stride,
        other,
        other_stride,
        row_bytes,
        rows,
        rows,
    );
}

proof fn lemma_same_rows(
    destination: Seq<u8>,
    destination_stride: int,
    one: Seq<u8>,
    one_stride: int,
    other: Seq<u8>,
    other_stride: int,
    row_bytes: int,
    rows: nat,
    done: nat,
)
    requires
        0 <= row_bytes,
        0 <= one_stride,
        0 <= other_stride,
        done <= rows,
        one.len() >= extent(rows as int, one_stride, row_bytes),
        other.len() >= extent(rows as int, other_stride, row_bytes),
        forall|row: int, column: int|
            0 <= row < rows && 0 <= column < row_bytes ==> #[trigger] one[row * one_stride + column]
                == other[row * other_stride + column],
    ensures
        rows_copied(destination, destination_stride, one, one_stride, row_bytes, done)
            == rows_copied(destination, destination_stride, other, other_stride, row_bytes, done),
    decreases done,
{
    if done > 0 {
        let row = done - 1;
        lemma_same_rows(
            destination,
            destination_stride,
            one,
            one_stride,
            other,
            other_stride,
            row_bytes,
            rows,
            row as nat,
        );
        assert(0 <= row * one_stride <= (rows - 1) * one_stride) by (nonlinear_arith)
            requires
                0 <= row <= rows - 1,
                one_stride >= 0,
        ;
        assert(0 <= row * other_stride <= (rows - 1) * other_stride) by (nonlinear_arith)
            requires
                0 <= row <= rows - 1,
                other_stride >= 0,
        ;
        let one_row = one.subrange(row * one_stride, row * one_stride + row_bytes);
        let other_row = other.subrange(row * other_stride, row * other_stride + row_bytes);
        assert forall|column: int| 0 <= column < row_bytes implies #[trigger] one_row[column]
            == other_row[column] by {
            assert(one[row * one_stride + column] == other[row * other_stride + column]);
        }
        assert(one_row =~= other_row);
    }
}

proof fn lemma_copied_rows(
    destination: Seq<u8>,
    destination_stride: int,
    pixels: Seq<u8>,
    stride: int,
    row_bytes: int,
    rows: nat,
    done: nat,
    row: int,
    column: int,
)
    requires
        0 <= row_bytes <= destination_stride,
        0 <= stride,
        rows > 0,
        done <= rows,
        pixels.len() >= extent(rows as int, stride, row_bytes),
        destination.len() >= extent(rows as int, destination_stride, row_bytes),
        0 <= row < rows,
        0 <= column < destination_stride,
        row * destination_stride + column < destination.len(),
    ensures
        ({
            let copied = rows_copied(
                destination,
                destination_stride,
                pixels,
                stride,
                row_bytes,
                done,
            );
            &&& copied.len() == destination.len()
            &&& copied[row * destination_stride + column] == if row < done && column < row_bytes {
                pixels[row * stride + column]
            } else {
                destination[row * destination_stride + column]
            }
        }),
    decreases done,
{
    if done > 0 {
        let last = done - 1;
        lemma_copied_rows(
            destination,
            destination_stride,
            pixels,
            stride,
            row_bytes,
            rows,
            last as nat,
            row,
            column,
        );
        assert(0 <= row * destination_stride) by (nonlinear_arith)
            requires
                row >= 0,
                destination_stride >= 0,
        ;
        assert(0 <= last * stride <= (rows - 1) * stride) by (nonlinear_arith)
            requires
                0 <= last <= rows - 1,
                stride >= 0,
        ;
        if row < last {
            assert(row * destination_stride + destination_stride <= last * destination_stride)
                by (nonlinear_arith)
                requires
                    row + 1 <= last,
                    destination_stride >= 0,
            ;
        } else if row > last {
            assert(last * destination_stride + destination_stride <= row * destination_stride)
                by (nonlinear_arith)
                requires
                    last + 1 <= row,
                    destination_stride >= 0,
            ;
        }
    }
}

} // verus!
