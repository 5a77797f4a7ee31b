use texture_readback::error::ReadbackError;
use texture_readback::layout::{layout_fits, plan, CopyLayout, Extent};

#[test]
fn unaligned_row_is_padded_to_the_alignment() {
    let layout = plan(Extent::new(3, 2, 1), 4, 256).unwrap();
    assert_eq!(layout.unpadded_bytes_per_row, 12);
    assert_eq!(layout.padded_bytes_per_row, 256);
    assert_eq!(layout.row_count, 2);
    assert_eq!(layout.buffer_size, 512);
    assert_eq!(layout.row_alignment, 256);
}

#[test]
fn aligned_row_gets_no_padding() {
    let layout = plan(Extent::new(64, 1, 1), 4, 256).unwrap();
    assert_eq!(layout.unpadded_bytes_per_row, 256);
    assert_eq!(layout.padded_bytes_per_row, 256);
    assert_eq!(layout.buffer_size, 256);
}

#[test]
fn zero_width_is_an_invalid_extent() {
    assert_eq!(plan(Extent::new(0, 2, 1), 4, 256), Err(ReadbackError::InvalidExtent));
}

#[test]
fn zero_height_or_depth_is_an_invalid_extent() {
    assert_eq!(plan(Extent::new(3, 0, 1), 4, 256), Err(ReadbackError::InvalidExtent));
    assert_eq!(plan(Extent::new(3, 2, 0), 4, 256), Err(ReadbackError::InvalidExtent));
}

#[test]
fn zero_pixel_size_is_an_invalid_format() {
    assert_eq!(plan(Extent::new(3, 2, 1), 0, 256), Err(ReadbackError::InvalidFormat));
}

#[test]
fn invalid_format_is_reported_before_invalid_extent() {
    assert_eq!(plan(Extent::new(0, 0, 0), 0, 256), Err(ReadbackError::InvalidFormat));
}

#[test]
fn row_pitch_is_a_multiple_of_the_alignment_and_holds_the_row() {
    for width in 1u32..40 {
        for pixel_size in [1u32, 2, 3, 4, 8, 16] {
            for alignment in [1u64, 2, 7, 64, 256, 1000] {
                let layout = plan(Extent::new(width, 3, 2), pixel_size, alignment).unwrap();
                assert_eq!(layout.padded_bytes_per_row % alignment, 0);
                assert!(layout.padded_bytes_per_row >= (width * pixel_size) as u64);
                assert!(layout.padded_bytes_per_row < (width * pixel_size) as u64 + alignment);
            }
        }
    }
}

#[test]
fn buffer_is_never_smaller_than_the_packed_pixels() {
    for width in 1u32..20 {
        for height in 1u32..5 {
            for depth in 1u32..4 {
                let layout = plan(Extent::new(width, height, depth), 4, 256).unwrap();
                assert!(layout.buffer_size >= (width * height * depth * 4) as u64);
                assert_eq!(layout.buffer_size, layout.padded_bytes_per_row * layout.row_count);
            }
        }
    }
}

#[test]
fn rows_are_counted_over_all_slices() {
    let layout = plan(Extent::new(5, 4, 3), 4, 256).unwrap();
    assert_eq!(layout.row_count, 12);
    assert_eq!(layout.unpadded_bytes_per_row, 20);
    assert_eq!(layout.padded_bytes_per_row, 256);
    assert_eq!(layout.buffer_size, 3072);
}

#[test]
fn alignment_need_not_be_a_power_of_two() {
    let layout = plan(Extent::new(7, 1, 1), 3, 10).unwrap();
    assert_eq!(layout.unpadded_bytes_per_row, 21);
    assert_eq!(layout.padded_bytes_per_row, 30);
}

#[test]
fn alignment_of_one_adds_no_padding() {
    let layout = plan(Extent::new(7, 2, 1), 3, 1).unwrap();
    assert_eq!(layout.padded_bytes_per_row, 21);
    assert_eq!(layout.buffer_size, 42);
}

#[test]
fn row_one_byte_past_the_alignment_takes_two_units() {
    let layout = plan(Extent::new(257, 1, 1), 1, 256).unwrap();
    assert_eq!(layout.padded_bytes_per_row, 512);
}

#[test]
fn ordinary_layouts_fit() {
    assert!(layout_fits(Extent::new(3, 2, 1), 4, 256));
    assert!(layout_fits(Extent::new(4096, 4096, 6), 16, 256));
}

#[test]
fn layout_past_the_byte_count_does_not_fit() {
    let huge = Extent::new(u32::MAX, u32::MAX, u32::MAX);
    assert!(!layout_fits(huge, u32::MAX, 256));
    // Two rows, each padded to the largest byte count.
    assert!(!layout_fits(Extent::new(u32::MAX, 2, 1), u32::MAX, u64::MAX));
    // One row whose padding alone takes it past the largest byte count.
    assert!(!layout_fits(Extent::new(u32::MAX, 1, 1), u32::MAX, 1 << 63));
}

#[test]
fn row_padded_to_the_largest_byte_count_fits() {
    let extent = Extent::new(u32::MAX, 1, 1);
    assert!(layout_fits(extent, u32::MAX, u64::MAX));
    let layout = plan(extent, u32::MAX, u64::MAX).unwrap();
    assert_eq!(layout.padded_bytes_per_row, u64::MAX);
    assert_eq!(layout.buffer_size, u64::MAX);
}

#[test]
fn largest_layout_that_fits() {
    // One row of (2^32 - 1)^2 bytes; the alignment divides it, so no padding.
    let extent = Extent::new(u32::MAX, 1, 1);
    assert!(layout_fits(extent, u32::MAX, u32::MAX as u64));
    let layout = plan(extent, u32::MAX, u32::MAX as u64).unwrap();
    assert_eq!(layout.buffer_size, (u32::MAX as u64) * (u32::MAX as u64));
    assert_eq!(layout.padded_bytes_per_row, layout.unpadded_bytes_per_row);
}

#[test]
fn empty_regions_always_fit() {
    assert!(layout_fits(Extent::new(0, u32::MAX, u32::MAX), u32::MAX, 256));
    assert!(layout_fits(Extent::new(u32::MAX, 0, u32::MAX), u32::MAX, u64::MAX));
    assert!(layout_fits(Extent::new(u32::MAX, u32::MAX, u32::MAX), 0, 256));
}

#[test]
fn extent_knows_whether_its_dimensions_are_positive() {
    assert!(Extent::new(1, 1, 1).has_positive_dimensions());
    assert!(!Extent::new(0, 1, 1).has_positive_dimensions());
    assert!(!Extent::new(1, 0, 1).has_positive_dimensions());
    assert!(!Extent::new(1, 1, 0).has_positive_dimensions());
}

#[test]
fn layouts_compare_by_their_fields() {
    let a = plan(Extent::new(3, 2, 1), 4, 256).unwrap();
    let b = CopyLayout {
        unpadded_bytes_per_row: 12,
        padded_bytes_per_row: 256,
        row_count: 2,
        buffer_size: 512,
        row_alignment: 256,
    };
    assert_eq!(a, b);
}
