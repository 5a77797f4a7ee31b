use texture_readback::error::ReadbackError;
use texture_readback::graph::{BufferId, TextureId};
use texture_readback::layout::{plan, CopyLayout, Extent};
use texture_readback::staging::{
    collect_chunk, BufferDescriptor, BufferUsage, ByteRange, CopyCommand, DestroyCommand,
    MapRequest, MapState, ReadRequest, StagingBuffer,
};
use texture_readback::texture::Origin;

fn layout() -> CopyLayout {
    plan(Extent::new(3, 2, 1), 4, 256).unwrap()
}

fn buffer(size: u64) -> StagingBuffer {
    StagingBuffer::create(size, Some(BufferId(11))).unwrap()
}

#[test]
fn staging_buffer_is_a_mappable_copy_destination_created_unmapped() {
    assert_eq!(
        StagingBuffer::descriptor(512),
        BufferDescriptor {
            size: 512,
            usage: BufferUsage { map_read: true, copy_dst: true },
            mapped_at_creation: false,
        }
    );
}

#[test]
fn created_buffer_is_unmapped() {
    assert_eq!(
        StagingBuffer::create(512, Some(BufferId(11))),
        Ok(StagingBuffer { id: BufferId(11), size: 512, state: MapState::Unmapped })
    );
}

#[test]
fn no_buffer_from_the_device_is_a_creation_failure() {
    assert_eq!(StagingBuffer::create(512, None), Err(ReadbackError::BufferCreationFailure));
}

#[test]
fn copy_uses_the_padded_row_as_pitch() {
    let origin = Origin { x: 1, y: 2, z: 3 };
    let extent = Extent::new(3, 2, 1);
    assert_eq!(
        buffer(512).issue_copy(TextureId(5), origin, 2, &layout(), extent),
        Ok(CopyCommand {
            texture: TextureId(5),
            origin,
            mip_level: 2,
            buffer: BufferId(11),
            buffer_offset: 0,
            bytes_per_row: 256,
            extent,
        })
    );
}

#[test]
fn copy_into_a_buffer_sized_by_packed_volume_fails() {
    // 3 * 2 * 1 pixels of 4 bytes: what the copy needs is 512, not 24.
    let too_small = buffer(24);
    assert_eq!(
        too_small.issue_copy(TextureId(5), Origin::zero(), 0, &layout(), Extent::new(3, 2, 1)),
        Err(ReadbackError::CopyFailure)
    );
    let one_short = buffer(511);
    assert_eq!(
        one_short.issue_copy(TextureId(5), Origin::zero(), 0, &layout(), Extent::new(3, 2, 1)),
        Err(ReadbackError::CopyFailure)
    );
}

#[test]
fn copy_into_a_larger_buffer_is_accepted() {
    assert!(buffer(4096)
        .issue_copy(TextureId(5), Origin::zero(), 0, &layout(), Extent::new(3, 2, 1))
        .is_ok());
}

#[test]
fn copy_with_an_unaligned_pitch_fails() {
    let unaligned = CopyLayout {
        unpadded_bytes_per_row: 12,
        padded_bytes_per_row: 12,
        row_count: 2,
        buffer_size: 24,
        row_alignment: 256,
    };
    assert_eq!(
        buffer(512).issue_copy(TextureId(5), Origin::zero(), 0, &unaligned, Extent::new(3, 2, 1)),
        Err(ReadbackError::CopyFailure)
    );
}

#[test]
fn copy_with_an_alignment_of_zero_fails() {
    let broken = CopyLayout {
        unpadded_bytes_per_row: 12,
        padded_bytes_per_row: 256,
        row_count: 2,
        buffer_size: 512,
        row_alignment: 0,
    };
    assert_eq!(
        buffer(512).issue_copy(TextureId(5), Origin::zero(), 0, &broken, Extent::new(3, 2, 1)),
        Err(ReadbackError::CopyFailure)
    );
}

#[test]
fn map_request_makes_the_mapping_pending() {
    let mut staging = buffer(512);
    let range = ByteRange::whole(512);
    assert_eq!(range, ByteRange { start: 0, end: 512 });
    assert_eq!(staging.request_map(range), Ok(MapRequest { buffer: BufferId(11), range }));
    assert_eq!(staging.state, MapState::MapPending);
}

#[test]
fn map_request_outside_the_buffer_fails() {
    let mut staging = buffer(512);
    assert_eq!(
        staging.request_map(ByteRange { start: 0, end: 513 }),
        Err(ReadbackError::MapFailure)
    );
    assert_eq!(
        staging.request_map(ByteRange { start: 8, end: 4 }),
        Err(ReadbackError::MapFailure)
    );
    assert_eq!(staging.state, MapState::Unmapped);
}

#[test]
fn second_map_request_fails() {
    let mut staging = buffer(512);
    staging.request_map(ByteRange::whole(512)).unwrap();
    assert_eq!(staging.request_map(ByteRange::whole(512)), Err(ReadbackError::MapFailure));
    assert_eq!(staging.state, MapState::MapPending);
    staging.complete_map(true).unwrap();
    assert_eq!(staging.request_map(ByteRange::whole(512)), Err(ReadbackError::MapFailure));
    assert_eq!(staging.state, MapState::Mapped);
}

#[test]
fn completed_mapping_maps_the_buffer() {
    let mut staging = buffer(512);
    staging.request_map(ByteRange::whole(512)).unwrap();
    assert_eq!(staging.complete_map(true), Ok(()));
    assert_eq!(staging.state, MapState::Mapped);
}

#[test]
fn failed_mapping_leaves_the_buffer_unmapped() {
    let mut staging = buffer(512);
    staging.request_map(ByteRange::whole(512)).unwrap();
    assert_eq!(staging.complete_map(false), Err(ReadbackError::MapFailure));
    assert_eq!(staging.state, MapState::Unmapped);
}

#[test]
fn completion_without_a_pending_mapping_is_refused() {
    let mut staging = buffer(512);
    assert_eq!(staging.complete_map(true), Err(ReadbackError::MapFailure));
    assert_eq!(staging.state, MapState::Unmapped);
}

#[test]
fn read_needs_a_mapped_buffer() {
    let mut staging = buffer(512);
    let range = ByteRange::whole(512);
    assert_eq!(staging.read_mapped(range), Err(ReadbackError::MapFailure));
    staging.request_map(range).unwrap();
    assert_eq!(staging.read_mapped(range), Err(ReadbackError::MapFailure));
    staging.complete_map(true).unwrap();
    assert_eq!(staging.read_mapped(range), Ok(ReadRequest { buffer: BufferId(11), range }));
    assert_eq!(
        staging.read_mapped(ByteRange { start: 0, end: 600 }),
        Err(ReadbackError::MapFailure)
    );
}

#[test]
fn destroy_unmaps_a_mapped_buffer_first() {
    let mut staging = buffer(512);
    staging.request_map(ByteRange::whole(512)).unwrap();
    staging.complete_map(true).unwrap();
    assert_eq!(staging.destroy(), DestroyCommand { buffer: BufferId(11), unmap_first: true });
}

#[test]
fn destroy_of_an_unmapped_buffer_only_releases_it() {
    assert_eq!(buffer(512).destroy(), DestroyCommand { buffer: BufferId(11), unmap_first: false });
    let mut pending = buffer(512);
    pending.request_map(ByteRange::whole(512)).unwrap();
    assert_eq!(pending.destroy(), DestroyCommand { buffer: BufferId(11), unmap_first: false });
}

#[test]
fn chunks_are_collected_in_the_order_delivered() {
    let range = ByteRange { start: 0, end: 6 };
    let mut collected = Vec::new();
    assert_eq!(collect_chunk(&mut collected, range, 0, vec![1, 2, 3]), Ok(()));
    assert_eq!(collect_chunk(&mut collected, range, 3, vec![]), Ok(()));
    assert_eq!(collect_chunk(&mut collected, range, 3, vec![4, 5, 6]), Ok(()));
    assert_eq!(collected, vec![1, 2, 3, 4, 5, 6]);
}

#[test]
fn chunks_of_a_range_that_starts_inside_the_buffer() {
    let range = ByteRange { start: 100, end: 104 };
    let mut collected = Vec::new();
    assert_eq!(collect_chunk(&mut collected, range, 0, vec![1]), Err(ReadbackError::MapFailure));
    assert_eq!(collect_chunk(&mut collected, range, 100, vec![1, 2]), Ok(()));
    assert_eq!(collect_chunk(&mut collected, range, 102, vec![3, 4]), Ok(()));
    assert_eq!(collected, vec![1, 2, 3, 4]);
}

#[test]
fn chunk_past_the_end_of_the_range_is_refused() {
    let range = ByteRange { start: 0, end: 6 };
    let mut collected = vec![1, 2, 3];
    assert_eq!(
        collect_chunk(&mut collected, range, 3, vec![4, 5, 6, 7]),
        Err(ReadbackError::MapFailure)
    );
    assert_eq!(collected, vec![1, 2, 3]);
}

#[test]
fn chunk_after_a_gap_is_refused() {
    let range = ByteRange { start: 0, end: 6 };
    let mut collected = vec![1, 2, 3];
    assert_eq!(collect_chunk(&mut collected, range, 4, vec![5, 6]), Err(ReadbackError::MapFailure));
    assert_eq!(collected, vec![1, 2, 3]);
}

#[test]
fn chunk_that_overlaps_is_refused() {
    let range = ByteRange { start: 0, end: 6 };
    let mut collected = vec![1, 2, 3];
    assert_eq!(
        collect_chunk(&mut collected, range, 2, vec![3, 4, 5]),
        Err(ReadbackError::MapFailure)
    );
    assert_eq!(collected, vec![1, 2, 3]);
}

#[test]
fn chunk_at_the_largest_offset_does_not_wrap() {
    let range = ByteRange { start: u64::MAX - 1, end: u64::MAX };
    let mut collected = Vec::new();
    assert_eq!(
        collect_chunk(&mut collected, range, u64::MAX - 1, vec![1, 2]),
        Err(ReadbackError::MapFailure)
    );
    assert_eq!(collect_chunk(&mut collected, range, u64::MAX - 1, vec![1]), Ok(()));
    assert_eq!(collected, vec![1]);
}
