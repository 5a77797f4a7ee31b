use texture_readback::layout::{plan, CopyLayout, Extent};
use texture_readback::unpack::unpack;

fn pad(data: &[u8], layout: &CopyLayout, filler: u8) -> Vec<u8> {
    let unpadded = layout.unpadded_bytes_per_row as usize;
    let padded = layout.padded_bytes_per_row as usize;
    let mut raw = Vec::new();
    for row in 0..layout.row_count as usize {
        raw.extend_from_slice(&data[row * unpadded..(row + 1) * unpadded]);
        for column in unpadded..padded {
            raw.push(filler.wrapping_add((row * 31 + column) as u8));
        }
    }
    raw
}

fn pixels(len: usize) -> Vec<u8> {
    (0..len).map(|i| (i * 7 + 3) as u8).collect()
}

#[test]
fn unpack_strips_the_padding_of_each_row() {
    let layout = CopyLayout {
        unpadded_bytes_per_row: 2,
        padded_bytes_per_row: 4,
        row_count: 3,
        buffer_size: 12,
        row_alignment: 4,
    };
    let raw = vec![1, 2, 0xee, 0xee, 3, 4, 0xee, 0xee, 5, 6, 0xee, 0xee];
    assert_eq!(unpack(&raw, &layout), vec![1, 2, 3, 4, 5, 6]);
}

#[test]
fn unpack_undoes_padding_with_arbitrary_filler() {
    let extent = Extent::new(3, 2, 1);
    let layout = plan(extent, 4, 256).unwrap();
    let data = pixels(3 * 2 * 1 * 4);
    for filler in [0u8, 0xff, 0x5a] {
        let raw = pad(&data, &layout, filler);
        assert_eq!(raw.len() as u64, layout.buffer_size);
        assert_eq!(unpack(&raw, &layout), data);
    }
}

#[test]
fn unpack_flattens_all_slices_in_order() {
    let extent = Extent::new(5, 4, 3);
    let layout = plan(extent, 2, 16).unwrap();
    assert_eq!(layout.row_count, 12);
    let data = pixels(5 * 4 * 3 * 2);
    let raw = pad(&data, &layout, 0xaa);
    let unpacked = unpack(&raw, &layout);
    assert_eq!(unpacked.len(), 120);
    assert_eq!(unpacked, data);
}

#[test]
fn unpack_of_rows_without_padding_returns_the_input() {
    let layout = plan(Extent::new(64, 3, 2), 4, 256).unwrap();
    assert_eq!(layout.padded_bytes_per_row, layout.unpadded_bytes_per_row);
    let raw = pixels(layout.buffer_size as usize);
    assert_eq!(unpack(&raw, &layout), raw);
}

#[test]
fn unpack_of_one_aligned_row_is_a_straight_copy() {
    let layout = plan(Extent::new(64, 1, 1), 4, 256).unwrap();
    let raw = pixels(256);
    assert_eq!(unpack(&raw, &layout), raw);
}

#[test]
fn unpack_yields_unpadded_bytes_times_rows() {
    let layout = plan(Extent::new(3, 7, 2), 4, 256).unwrap();
    let raw = vec![9u8; layout.buffer_size as usize];
    assert_eq!(unpack(&raw, &layout).len(), 12 * 14);
}

#[test]
fn unpack_takes_a_buffer_without_the_last_padding() {
    let layout = CopyLayout {
        unpadded_bytes_per_row: 3,
        padded_bytes_per_row: 8,
        row_count: 2,
        buffer_size: 16,
        row_alignment: 8,
    };
    let raw = vec![1, 2, 3, 0, 0, 0, 0, 0, 4, 5, 6];
    assert_eq!(unpack(&raw, &layout), vec![1, 2, 3, 4, 5, 6]);
}

#[test]
fn unpack_of_no_rows_is_empty() {
    let layout = CopyLayout {
        unpadded_bytes_per_row: 12,
        padded_bytes_per_row: 256,
        row_count: 0,
        buffer_size: 0,
        row_alignment: 256,
    };
    assert_eq!(unpack(&[], &layout), Vec::<u8>::new());
}

#[test]
fn unpack_ignores_bytes_past_the_last_row() {
    let layout = CopyLayout {
        unpadded_bytes_per_row: 2,
        padded_bytes_per_row: 2,
        row_count: 2,
        buffer_size: 4,
        row_alignment: 1,
    };
    assert_eq!(unpack(&[1, 2, 3, 4, 5, 6], &layout), vec![1, 2, 3, 4]);
}
