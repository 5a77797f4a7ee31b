//! Planning of a texture-to-buffer copy: row pitch, padding and buffer size.
//!
//! A device copies an image into a buffer row by row, and wants every row to
//! start at a multiple of a fixed alignment. The buffer therefore has to be
//! sized by the padded row stride, never by the tightly packed byte count.
use vstd::prelude::*;
use vstd::arithmetic::div_mod::{lemma_fundamental_div_mod, lemma_mod_multiples_basic};
use vstd::arithmetic::mul::{lemma_mul_inequality, lemma_mul_nonnegative};
use crate::error::ReadbackError;

verus! {

/// The region of a texture that is read: width and height in pixels, and the
/// depth of a 3D texture or the number of layers of an array texture.
#[derive(Clone, Copy, Debug, PartialEq, Eq, Structural)]
pub struct Extent {
    pub width: u32,
    pub height: u32,
    pub depth_or_layers: u32,
}

impl Extent {
    /// No dimension is zero.
    pub open spec fn is_positive(self) -> bool {
        self.width > 0 && self.height > 0 && self.depth_or_layers > 0
    }

    /// Number of pixel rows over all slices.
    pub open spec fn rows(self) -> int {
        self.height * self.depth_or_layers
    }

    /// Number of pixels.
    pub open spec fn volume(self) -> int {
        self.width * self.height * self.depth_or_layers
    }

    pub fn new(width: u32, height: u32, depth_or_layers: u32) -> (extent: Extent)
        ensures
            extent == (Extent { width, height, depth_or_layers }),
    {
        Extent { width, height, depth_or_layers }
    }

    /// Whether no dimension is zero.
    pub fn has_positive_dimensions(&self) -> (positive: bool)
        ensures
            positive == self.is_positive(),
    {
        self.width > 0 && self.height > 0 && self.depth_or_layers > 0
    }
}

/// `value` rounded up to a multiple of `alignment`.
pub open spec fn round_up(value: int, alignment: int) -> int {
    ((value + alignment - 1) / alignment) * alignment
}

/// Bytes of one tightly packed row.
pub open spec fn unpadded_row_bytes(extent: Extent, pixel_size: u32) -> int {
    extent.width * pixel_size
}

/// Bytes from the start of one row to the start of the next in the buffer.
pub open spec fn padded_row_bytes(extent: Extent, pixel_size: u32, row_alignment: u64) -> int {
    round_up(unpadded_row_bytes(extent, pixel_size), row_alignment as int)
}

/// Bytes of the buffer that receives the copy.
pub open spec fn buffer_bytes(extent: Extent, pixel_size: u32, row_alignment: u64) -> int {
    padded_row_bytes(extent, pixel_size, row_alignment) * extent.rows()
}

/// How the rows of a texture lie in a staging buffer.
#[derive(Clone, Copy, Debug, PartialEq, Eq, Structural)]
pub struct CopyLayout {
    /// Bytes of pixel data in a row.
    pub unpadded_bytes_per_row: u64,
    /// Row pitch: bytes of pixel data and padding in a row.
    pub padded_bytes_per_row: u64,
    /// Rows over all slices.
    pub row_count: u64,
    /// Bytes of the whole buffer.
    pub buffer_size: u64,
    /// The alignment that the row pitch was planned for.
    pub row_alignment: u64,
}

impl CopyLayout {
    /// The invariant of a planned layout: the pitch holds a row, is a multiple
    /// of the alignment, and the buffer holds every row at that pitch.
    pub open spec fn wf(self) -> bool {
        &&& self.row_alignment > 0
        &&& self.padded_bytes_per_row >= self.unpadded_bytes_per_row
        &&& self.padded_bytes_per_row % self.row_alignment == 0
        &&& self.buffer_size == self.padded_bytes_per_row * self.row_count
    }

    /// The layout is the one that belongs to the given texture region, pixel
    /// size and alignment.
    pub open spec fn describes(self, extent: Extent, pixel_size: u32, row_alignment: u64) -> bool {
        &&& self.unpadded_bytes_per_row == unpadded_row_bytes(extent, pixel_size)
        &&& self.padded_bytes_per_row == padded_row_bytes(extent, pixel_size, row_alignment)
        &&& self.row_count == extent.rows()
        &&& self.buffer_size == buffer_bytes(extent, pixel_size, row_alignment)
        &&& self.row_alignment == row_alignment
    }

    /// Bytes of the pixel data once the padding is gone.
    pub open spec fn packed_len(self) -> int {
        self.unpadded_bytes_per_row * self.row_count
    }
}

/// The layout of a copy of the given region, where its buffer size fits a
/// 64-bit byte count.
pub open spec fn planned_layout(extent: Extent, pixel_size: u32, row_alignment: u64) -> CopyLayout {
    CopyLayout {
        unpadded_bytes_per_row: unpadded_row_bytes(extent, pixel_size) as u64,
        padded_bytes_per_row: padded_row_bytes(extent, pixel_size, row_alignment) as u64,
        row_count: extent.rows() as u64,
        buffer_size: buffer_bytes(extent, pixel_size, row_alignment) as u64,
        row_alignment,
    }
}

/// Whether the buffer that a copy of the region needs can be addressed at all,
/// that is whether its size in bytes fits the device's 64-bit byte counts.
pub fn layout_fits(extent: Extent, pixel_size: u32, row_alignment: u64) -> (fits: bool)
    requires
        row_alignment > 0,
    ensures
        fits == (buffer_bytes(extent, pixel_size, row_alignment) <= u64::MAX),
{
    proof {
        lemma_row_bytes_bounded(extent, pixel_size);
        lemma_rows_bounded(extent);
    }
    let unpadded: u64 = (extent.width as u64) * (pixel_size as u64);
    let rows: u64 = (extent.height as u64) * (extent.depth_or_layers as u64);
    if rows == 0 {
        proof {
            assert(buffer_bytes(extent, pixel_size, row_alignment) == 0) by (nonlinear_arith)
                requires
                    buffer_bytes(extent, pixel_size, row_alignment) == padded_row_bytes(
                        extent,
                        pixel_size,
                        row_alignment,
                    ) * (rows as int),
                    rows == 0,
            ;
        }
        return true;
    }
    let remainder: u64 = unpadded % row_alignment;
    let padded: u64 = if remainder == 0 {
        proof {
            lemma_round_up_of_multiple(unpadded as int, row_alignment as int);
        }
        unpadded
    } else {
        let ghost target = round_up(unpadded as int, row_alignment as int);
        match unpadded.checked_add(row_alignment - remainder) {
            Some(padded) => {
                proof {
                    lemma_round_up_from_remainder(unpadded as int, row_alignment as int);
                }
                padded
            },
            None => {
                proof {
                    lemma_round_up_from_remainder(unpadded as int, row_alignment as int);
                    assert(target * (rows as int) >= target) by (nonlinear_arith)
                        requires
                            target >= 0,
                            rows >= 1,
                    ;
                }
                return false;
            },
        }
    };
    padded.checked_mul(rows).is_some()
}

/// Plans the copy of a texture region into a staging buffer.
///
/// A pixel size of zero is refused as an invalid format, and otherwise an
/// extent with a zero dimension as an invalid extent. Every other input gives
/// the layout whose row pitch is the row's bytes rounded up to the alignment
/// and whose buffer holds all rows at that pitch.
pub fn plan(extent: Extent, pixel_size: u32, row_alignment: u64) -> (planned: Result<
    CopyLayout,
    ReadbackError,
>)
    requires
        row_alignment > 0,
        buffer_bytes(extent, pixel_size, row_alignment) <= u64::MAX,
    ensures
        pixel_size == 0 ==> planned == Err::<CopyLayout, ReadbackError>(
            ReadbackError::InvalidFormat,
        ),
        pixel_size > 0 && !extent.is_positive() ==> planned == Err::<CopyLayout, ReadbackError>(
            ReadbackError::InvalidExtent,
        ),
        pixel_size > 0 && extent.is_positive() ==> planned == Ok::<CopyLayout, ReadbackError>(
            planned_layout(extent, pixel_size, row_alignment),
        ) && planned_layout(extent, pixel_size, row_alignment).describes(
            extent,
            pixel_size,
            row_alignment,
        ) && planned_layout(extent, pixel_size, row_alignment).wf(),
{
    if pixel_size == 0 {
        return Err(ReadbackError::InvalidFormat);
    }
    if !extent.has_positive_dimensions() {
        return Err(ReadbackError::InvalidExtent);
    }
    proof {
        lemma_row_bytes_bounded(extent, pixel_size);
        lemma_rows_bounded(extent);
    }
    let unpadded: u64 = (extent.width as u64) * (pixel_size as u64);
    let rows: u64 = (extent.height as u64) * (extent.depth_or_layers as u64);
    let ghost target = round_up(unpadded as int, row_alignment as int);
    proof {
        lemma_round_up_is_least_multiple(unpadded as int, row_alignment as int);
        assert(rows >= 1) by (nonlinear_arith)
            requires
                rows == extent.height * extent.depth_or_layers,
                extent.height >= 1,
                extent.depth_or_layers >= 1,
        ;
        assert(target * (rows as int) >= target) by (nonlinear_arith)
            requires
                target >= 0,
                rows >= 1,
        ;
    }
    let remainder: u64 = unpadded % row_alignment;
    let padded: u64 = if remainder == 0 {
        proof {
            lemma_round_up_of_multiple(unpadded as int, row_alignment as int);
        }
        unpadded
    } else {
        proof {
            lemma_round_up_from_remainder(unpadded as int, row_alignment as int);
        }
        unpadded + (row_alignment - remainder)
    };
    Ok(
        CopyLayout {
            unpadded_bytes_per_row: unpadded,
            padded_bytes_per_row: padded,
            row_count: rows,
            buffer_size: padded * rows,
            row_alignment,
        },
    )
}

/// One row of pixels never overflows a 64-bit byte count.
proof fn lemma_row_bytes_bounded(extent: Extent, pixel_size: u32)
    ensures
        0 <= unpadded_row_bytes(extent, pixel_size) <= u64::MAX,
{
    assert(0 <= extent.width * pixel_size <= 0xffff_ffff * 0xffff_ffff) by (nonlinear_arith)
        requires
            extent.width <= 0xffff_ffff,
            pixel_size <= 0xffff_ffff,
    ;
}

/// Nor does the number of rows.
proof fn lemma_rows_bounded(extent: Extent)
    ensures
        0 <= extent.rows() <= u64::MAX,
{
    assert(0 <= extent.height * extent.depth_or_layers <= 0xffff_ffff * 0xffff_ffff)
        by (nonlinear_arith)
        requires
            extent.height <= 0xffff_ffff,
            extent.depth_or_layers <= 0xffff_ffff,
    ;
}

/// Rounding up adds to a value what its remainder lacks of the alignment.
proof fn lemma_round_up_from_remainder(value: int, alignment: int)
    requires
        value >= 0,
        alignment > 0,
        value % alignment != 0,
    ensures
        round_up(value, alignment) == value + (alignment - value % alignment),
{
    let candidate = value + (alignment - value % alignment);
    let q = value / alignment;
    lemma_fundamental_div_mod(value, alignment);
    assert(candidate == (q + 1) * alignment) by (nonlinear_arith)
        requires
            value == alignment * q + value % alignment,
            candidate == value + (alignment - value % alignment),
    ;
    lemma_mod_multiples_basic(q + 1, alignment);
    lemma_round_up_is_least_multiple(value, alignment);
    lemma_fundamental_div_mod(round_up(value, alignment), alignment);
    let k = round_up(value, alignment) / alignment;
    assert(round_up(value, alignment) == alignment * k);
    if k <= q {
        assert(alignment * k <= alignment * q) by (nonlinear_arith)
            requires
                k <= q,
                alignment > 0,
        ;
    } else if k >= q + 2 {
        assert(alignment * k >= alignment * (q + 2)) by (nonlinear_arith)
            requires
                k >= q + 2,
                alignment > 0,
        ;
        assert(alignment * (q + 2) == alignment * q + 2 * alignment) by (nonlinear_arith);
    } else {
        assert(k == q + 1);
        assert(alignment * k == (q + 1) * alignment) by (nonlinear_arith)
            requires
                k == q + 1,
        ;
    }
}

/// `round_up` yields the least multiple of the alignment that is not below
/// the value.
pub proof fn lemma_round_up_is_least_multiple(value: int, alignment: int)
    requires
        value >= 0,
        alignment > 0,
    ensures
        round_up(value, alignment) % alignment == 0,
        value <= round_up(value, alignment) < value + alignment,
        forall|m: int| m >= value && #[trigger] (m % alignment) == 0 ==> m >= round_up(value, alignment),
{
    let q = (value + alignment - 1) / alignment;
    lemma_fundamental_div_mod(value + alignment - 1, alignment);
    lemma_mod_multiples_basic(q, alignment);
    assert(alignment * q == q * alignment) by (nonlinear_arith);
    assert forall|m: int| m >= value && #[trigger] (m % alignment) == 0 implies m >= q * alignment by {
        let k = m / alignment;
        lemma_fundamental_div_mod(m, alignment);
        assert(alignment * k == k * alignment) by (nonlinear_arith);
        if k < q {
            assert(k * alignment <= (q - 1) * alignment) by (nonlinear_arith)
                requires
                    k <= q - 1,
                    alignment > 0,
            ;
            assert((q - 1) * alignment == q * alignment - alignment) by (nonlinear_arith);
        } else {
            assert(k * alignment >= q * alignment) by (nonlinear_arith)
                requires
                    k >= q,
                    alignment > 0,
            ;
        }
    }
}

/// A value that is already a multiple of the alignment is left as it is.
pub proof fn lemma_round_up_of_multiple(value: int, alignment: int)
    requires
        value >= 0,
        alignment > 0,
        value % alignment == 0,
    ensures
        round_up(value, alignment) == value,
{
    lemma_round_up_is_least_multiple(value, alignment);
}

/// Where the buffer size fits, the planned layout is the one that belongs to
/// the region, and it meets the invariant of layouts.
pub proof fn lemma_planned_layout(extent: Extent, pixel_size: u32, row_alignment: u64)
    requires
        extent.is_positive(),
        pixel_size > 0,
        row_alignment > 0,
        buffer_bytes(extent, pixel_size, row_alignment) <= u64::MAX,
    ensures
        planned_layout(extent, pixel_size, row_alignment).describes(
            extent,
            pixel_size,
            row_alignment,
        ),
        planned_layout(extent, pixel_size, row_alignment).wf(),
{
    let padded = padded_row_bytes(extent, pixel_size, row_alignment);
    let rows = extent.rows();
    lemma_row_bytes_bounded(extent, pixel_size);
    lemma_rows_bounded(extent);
    lemma_round_up_is_least_multiple(unpadded_row_bytes(extent, pixel_size), row_alignment as int);
    assert(rows >= 1) by (nonlinear_arith)
        requires
            rows == extent.height * extent.depth_or_layers,
            extent.height >= 1,
            extent.depth_or_layers >= 1,
    ;
    assert(padded * rows >= padded) by (nonlinear_arith)
        requires
            padded >= 0,
            rows >= 1,
    ;
}

/// The row pitch of a plan is a multiple of the alignment and holds a whole
/// row of pixels. This holds of the pitch as a number, and of the pitch in
/// the planned layout wherever the buffer size fits a 64-bit byte count.
pub proof fn law_row_pitch_is_aligned(extent: Extent, pixel_size: u32, row_alignment: u64)
    requires
        extent.is_positive(),
        pixel_size > 0,
        row_alignment > 0,
    ensures
        padded_row_bytes(extent, pixel_size, row_alignment) % (row_alignment as int) == 0,
        padded_row_bytes(extent, pixel_size, row_alignment) >= extent.width * pixel_size,
        buffer_bytes(extent, pixel_size, row_alignment) <= u64::MAX ==> {
            let layout = planned_layout(extent, pixel_size, row_alignment);
            &&& layout.padded_bytes_per_row % row_alignment == 0
            &&& layout.padded_bytes_per_row >= extent.width * pixel_size
        },
{
    lemma_mul_nonnegative(extent.width as int, pixel_size as int);
    lemma_round_up_is_least_multiple(unpadded_row_bytes(extent, pixel_size), row_alignment as int);
    if buffer_bytes(extent, pixel_size, row_alignment) <= u64::MAX {
        lemma_planned_layout(extent, pixel_size, row_alignment);
    }
}

/// The planned buffer is never smaller than the tightly packed pixel data.
/// This holds of the size as a number, and of the size in the planned layout
/// wherever it fits a 64-bit byte count.
pub proof fn law_buffer_holds_packed_volume(extent: Extent, pixel_size: u32, row_alignment: u64)
    requires
        extent.is_positive(),
        pixel_size > 0,
        row_alignment > 0,
    ensures
        buffer_bytes(extent, pixel_size, row_alignment) >= extent.width * extent.height
            * extent.depth_or_layers * pixel_size,
        buffer_bytes(extent, pixel_size, row_alignment) >= extent.volume() * pixel_size,
        buffer_bytes(extent, pixel_size, row_alignment) <= u64::MAX ==> planned_layout(
            extent,
            pixel_size,
            row_alignment,
        ).buffer_size >= extent.width * extent.height * extent.depth_or_layers * pixel_size,
{
    if buffer_bytes(extent, pixel_size, row_alignment) <= u64::MAX {
        lemma_planned_layout(extent, pixel_size, row_alignment);
    }
    let w = extent.width as int;
    let h = extent.height as int;
    let d = extent.depth_or_layers as int;
    let p = pixel_size as int;
    let padded = padded_row_bytes(extent, pixel_size, row_alignment);
    law_row_pitch_is_aligned(extent, pixel_size, row_alignment);
    lemma_mul_nonnegative(h, d);
    lemma_mul_inequality(w * p, padded, h * d);
    assert(w * h * d * p == (w * p) * (h * d)) by (nonlinear_arith);
}

} // verus!
