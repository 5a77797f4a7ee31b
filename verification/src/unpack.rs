//! Removal of row padding from the bytes of a mapped staging buffer.
use vstd::prelude::*;
use crate::layout::CopyLayout;

verus! {

/// The pixel bytes of row `row` in a padded buffer: the row's leading bytes,
/// without the padding that follows them.
pub open spec fn row_pixels(raw: Seq<u8>, layout: CopyLayout, row: int) -> Seq<u8> {
    raw.subrange(
        row * layout.padded_bytes_per_row,
        row * layout.padded_bytes_per_row + layout.unpadded_bytes_per_row,
    )
}

/// The pixel bytes of the first `rows` rows, one row after the other.
pub open spec fn packed_prefix(raw: Seq<u8>, layout: CopyLayout, rows: nat) -> Seq<u8>
    decreases rows,
{
    if rows == 0 {
        Seq::<u8>::empty()
    } else {
        packed_prefix(raw, layout, (rows - 1) as nat) + row_pixels(raw, layout, rows - 1)
    }
}

/// The tightly packed pixel data of a padded buffer. Rows are counted through
/// all slices, so the slices follow one another as the rows within them do.
pub open spec fn packed(raw: Seq<u8>, layout: CopyLayout) -> Seq<u8> {
    packed_prefix(raw, layout, layout.row_count as nat)
}

/// Every row of the layout lies inside a buffer of `len` bytes. The padding
/// of the last row need not.
pub open spec fn rows_within(layout: CopyLayout, len: int) -> bool {
    layout.row_count == 0 || (layout.row_count - 1) * layout.padded_bytes_per_row
        + layout.unpadded_bytes_per_row <= len
}

/// `raw` holds the rows of `data` at the row pitch of the layout; what lies
/// between the end of a row and the start of the next is left open.
pub open spec fn is_padding_of(raw: Seq<u8>, data: Seq<u8>, layout: CopyLayout) -> bool {
    &&& data.len() == layout.packed_len()
    &&& raw.len() == layout.padded_bytes_per_row * layout.row_count
    &&& forall|row: int|
        0 <= row < layout.row_count ==> #[trigger] row_pixels(raw, layout, row) == data.subrange(
            row * layout.unpadded_bytes_per_row,
            row * layout.unpadded_bytes_per_row + layout.unpadded_bytes_per_row,
        )
}

/// Strips the row padding: copies the pixel bytes of every row, in row order,
/// into one tightly packed array. Layouts whose rows carry no padding go
/// through the same copy.
pub fn unpack(raw_bytes: &[u8], layout: &CopyLayout) -> (packed_bytes: Vec<u8>)
    requires
        layout.padded_bytes_per_row >= layout.unpadded_bytes_per_row,
        rows_within(*layout, raw_bytes@.len() as int),
    ensures
        packed_bytes@ == packed(raw_bytes@, *layout),
        packed_bytes@.len() == layout.packed_len(),
{
    let unpadded = layout.unpadded_bytes_per_row;
    let padded = layout.padded_bytes_per_row;
    let rows = layout.row_count;
    let len: usize = raw_bytes.len();
    let mut packed_bytes: Vec<u8> = Vec::new();
    let mut row: u64 = 0;
    while row < rows
        invariant
            row <= rows,
            unpadded == layout.unpadded_bytes_per_row,
            padded == layout.padded_bytes_per_row,
            rows == layout.row_count,
            padded >= unpadded,
            len == raw_bytes@.len(),
            rows_within(*layout, raw_bytes@.len() as int),
            packed_bytes@ == packed_prefix(raw_bytes@, *layout, row as nat),
            packed_bytes@.len() == unpadded * row,
        decreases rows - row,
    {
        proof {
            lemma_row_within(*layout, raw_bytes@.len() as int, row as int);
        }
        let start: u64 = row * padded;
        let ghost before = packed_bytes@;
        let mut offset: u64 = 0;
        while offset < unpadded
            invariant
                offset <= unpadded,
                start + unpadded <= raw_bytes@.len() <= usize::MAX,
                packed_bytes@ == before + raw_bytes@.subrange(start as int, start + offset),
            decreases unpadded - offset,
        {
            packed_bytes.push(raw_bytes[(start + offset) as usize]);
            offset = offset + 1;
        }
        proof {
            assert(unpadded * (row + 1) == unpadded * row + unpadded) by (nonlinear_arith);
        }
        row = row + 1;
    }
    packed_bytes
}

/// A row below the row count starts and ends inside the buffer.
proof fn lemma_row_within(layout: CopyLayout, len: int, row: int)
    requires
        rows_within(layout, len),
        0 <= row < layout.row_count,
    ensures
        0 <= row * layout.padded_bytes_per_row,
        row * layout.padded_bytes_per_row + layout.unpadded_bytes_per_row <= len,
{
    let padded = layout.padded_bytes_per_row as int;
    let last = layout.row_count - 1;
    assert(0 <= row * padded <= last * padded) by (nonlinear_arith)
        requires
            0 <= row <= last,
            padded >= 0,
    ;
}

/// The packed data of `rows` rows has `rows` times the bytes of a row, and
/// holds byte `column` of row `row` at `row * unpadded + column`.
pub proof fn lemma_packed_prefix_bytes(raw: Seq<u8>, layout: CopyLayout, rows: nat)
    requires
        rows <= layout.row_count,
        rows_within(layout, raw.len() as int),
    ensures
        packed_prefix(raw, layout, rows).len() == layout.unpadded_bytes_per_row * rows,
        forall|row: int|
            0 <= row < rows ==> #[trigger] row_pixels(raw, layout, row) == packed_prefix(
                raw,
                layout,
                rows,
            ).subrange(
                row * layout.unpadded_bytes_per_row,
                row * layout.unpadded_bytes_per_row + layout.unpadded_bytes_per_row,
            ),
    decreases rows,
{
    let unpadded = layout.unpadded_bytes_per_row as int;
    if rows > 0 {
        let fewer = (rows - 1) as nat;
        let head = packed_prefix(raw, layout, fewer);
        let whole = packed_prefix(raw, layout, rows);
        lemma_packed_prefix_bytes(raw, layout, fewer);
        lemma_row_within(layout, raw.len() as int, rows - 1);
        assert(unpadded * rows == unpadded * fewer + unpadded) by (nonlinear_arith)
            requires
                rows == fewer + 1,
        ;
        assert forall|row: int| 0 <= row < rows implies #[trigger] row_pixels(raw, layout, row)
            == whole.subrange(row * unpadded, row * unpadded + unpadded) by {
            assert(0 <= row * unpadded && row * unpadded + unpadded <= unpadded * rows)
                by (nonlinear_arith)
                requires
                    0 <= row < rows,
                    unpadded >= 0,
            ;
            if row < fewer {
                assert(row * unpadded + unpadded <= unpadded * fewer) by (nonlinear_arith)
                    requires
                        0 <= row < fewer,
                        unpadded >= 0,
                ;
                assert(whole.subrange(row * unpadded, row * unpadded + unpadded) =~= head.subrange(
                    row * unpadded,
                    row * unpadded + unpadded,
                ));
            } else {
                assert(row * unpadded == unpadded * fewer) by (nonlinear_arith)
                    requires
                        row == fewer,
                ;
                assert(whole.subrange(row * unpadded, row * unpadded + unpadded) =~= row_pixels(
                    raw,
                    layout,
                    row,
                ));
            }
        }
    }
}

/// Unpacking undoes padding: whatever filler was put between the rows of
/// `data`, the padded buffer can be unpacked, and unpacking it gives `data`
/// back.
pub proof fn law_unpack_inverts_padding(raw: Seq<u8>, data: Seq<u8>, layout: CopyLayout)
    requires
        layout.padded_bytes_per_row >= layout.unpadded_bytes_per_row,
        is_padding_of(raw, data, layout),
    ensures
        rows_within(layout, raw.len() as int),
        packed(raw, layout) == data,
{
    let unpadded = layout.unpadded_bytes_per_row as int;
    let padded = layout.padded_bytes_per_row as int;
    let rows = layout.row_count as int;
    if rows > 0 {
        assert((rows - 1) * padded + unpadded <= padded * rows) by (nonlinear_arith)
            requires
                unpadded <= padded,
        ;
    }
    lemma_packed_prefix_bytes(raw, layout, rows as nat);
    let out = packed(raw, layout);
    assert(out.len() == data.len());
    assert forall|i: int| 0 <= i < out.len() implies out[i] == data[i] by {
        if unpadded > 0 {
            let row = i / unpadded;
            let column = i % unpadded;
            vstd::arithmetic::div_mod::lemma_fundamental_div_mod(i, unpadded);
            assert(0 <= row < rows) by (nonlinear_arith)
                requires
                    0 <= i < unpadded * rows,
                    i == unpadded * row + column,
                    0 <= column < unpadded,
            ;
            assert(row * unpadded == unpadded * row) by (nonlinear_arith);
            assert(row * unpadded + unpadded <= unpadded * rows) by (nonlinear_arith)
                requires
                    0 <= row < rows,
                    unpadded >= 0,
            ;
            let from_out = out.subrange(row * unpadded, row * unpadded + unpadded);
            let from_data = data.subrange(row * unpadded, row * unpadded + unpadded);
            assert(row_pixels(raw, layout, row) == from_out);
            assert(row_pixels(raw, layout, row) == from_data);
            assert(from_out[column] == out[i]);
            assert(from_data[column] == data[i]);
        } else {
            assert(unpadded * rows == 0) by (nonlinear_arith)
                requires
                    unpadded == 0,
            ;
        }
    }
    assert(out =~= data);
}

/// Rows without padding come out as they went in: the packed data is the
/// whole buffer, byte for byte.
pub proof fn law_unpack_without_padding_is_identity(raw: Seq<u8>, layout: CopyLayout)
    requires
        layout.padded_bytes_per_row == layout.unpadded_bytes_per_row,
        raw.len() == layout.padded_bytes_per_row * layout.row_count,
    ensures
        rows_within(layout, raw.len() as int),
        packed(raw, layout) == raw,
{
    assert forall|row: int| 0 <= row < layout.row_count implies #[trigger] row_pixels(
        raw,
        layout,
        row,
    ) == raw.subrange(
        row * layout.unpadded_bytes_per_row,
        row * layout.unpadded_bytes_per_row + layout.unpadded_bytes_per_row,
    ) by {}
    law_unpack_inverts_padding(raw, raw, layout);
}

} // verus!
