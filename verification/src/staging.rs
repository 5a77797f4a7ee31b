//! The staging buffer of a readback and the rules of its life: created
//! unmapped, filled by a device copy, mapped for the host to read, destroyed.
//!
//! Nothing here touches a device. Each operation checks what the device would
//! refuse, keeps the buffer's state, and returns the command to send.
use vstd::prelude::*;
use crate::error::ReadbackError;
use crate::graph::{BufferId, TextureId};
use crate::layout::{CopyLayout, Extent};
use crate::texture::Origin;

verus! {

/// What a buffer may be used for.
#[derive(Clone, Copy, Debug, PartialEq, Eq, Structural)]
pub struct BufferUsage {
    /// The host may map the buffer and read it.
    pub map_read: bool,
    /// The device may copy into the buffer.
    pub copy_dst: bool,
}

/// A request to the device for a new buffer.
#[derive(Clone, Copy, Debug, PartialEq, Eq, Structural)]
pub struct BufferDescriptor {
    pub size: u64,
    pub usage: BufferUsage,
    pub mapped_at_creation: bool,
}

/// Whether the host can see the buffer's memory.
#[derive(Clone, Copy, Debug, PartialEq, Eq, Structural)]
pub enum MapState {
    Unmapped,
    MapPending,
    Mapped,
}

/// Bytes `start..end` of a buffer.
#[derive(Clone, Copy, Debug, PartialEq, Eq, Structural)]
pub struct ByteRange {
    pub start: u64,
    pub end: u64,
}

impl ByteRange {
    /// The range is well formed and lies inside a buffer of `size` bytes.
    pub open spec fn within(self, size: u64) -> bool {
        self.start <= self.end <= size
    }

    /// Number of bytes in the range.
    pub open spec fn len(self) -> int {
        self.end - self.start
    }

    /// All bytes of a buffer of `size` bytes.
    pub fn whole(size: u64) -> (range: ByteRange)
        ensures
            range == (ByteRange { start: 0, end: size }),
    {
        ByteRange { start: 0, end: size }
    }
}

/// A texture-to-buffer copy for the device's command stream.
#[derive(Clone, Copy, Debug, PartialEq, Eq, Structural)]
pub struct CopyCommand {
    pub texture: TextureId,
    pub origin: Origin,
    pub mip_level: u32,
    pub buffer: BufferId,
    pub buffer_offset: u64,
    /// Row pitch in the buffer.
    pub bytes_per_row: u64,
    pub extent: Extent,
}

/// A request to map part of a buffer once the work that writes it is done.
#[derive(Clone, Copy, Debug, PartialEq, Eq, Structural)]
pub struct MapRequest {
    pub buffer: BufferId,
    pub range: ByteRange,
}

/// A request to visit the mapped bytes of a buffer, in order.
#[derive(Clone, Copy, Debug, PartialEq, Eq, Structural)]
pub struct ReadRequest {
    pub buffer: BufferId,
    pub range: ByteRange,
}

/// The release of a buffer, after unmapping it where it is still mapped.
#[derive(Clone, Copy, Debug, PartialEq, Eq, Structural)]
pub struct DestroyCommand {
    pub buffer: BufferId,
    pub unmap_first: bool,
}

/// A device buffer that receives one texture copy and is then read by the
/// host. It belongs to one readback. The value cannot be copied, and
/// [`StagingBuffer::destroy`] takes it: a buffer is destroyed at most once,
/// and nothing is asked of it afterwards.
#[derive(Debug, PartialEq, Eq, Structural)]
pub struct StagingBuffer {
    pub id: BufferId,
    /// The size that the buffer was created with.
    pub size: u64,
    pub state: MapState,
}

impl StagingBuffer {
    /// The descriptor of a staging buffer of `buffer_size` bytes.
    pub open spec fn descriptor_of(buffer_size: u64) -> BufferDescriptor {
        BufferDescriptor {
            size: buffer_size,
            usage: BufferUsage { map_read: true, copy_dst: true },
            mapped_at_creation: false,
        }
    }

    /// The buffer as it is right after the device has created it.
    pub open spec fn fresh(id: BufferId, size: u64) -> StagingBuffer {
        StagingBuffer { id, size, state: MapState::Unmapped }
    }

    /// The device accepts a copy by this layout into the buffer: the row pitch
    /// is a multiple of the alignment and the buffer holds the whole copy.
    pub open spec fn accepts_copy(self, layout: CopyLayout) -> bool {
        &&& layout.row_alignment > 0
        &&& layout.padded_bytes_per_row % layout.row_alignment == 0
        &&& self.size >= layout.buffer_size
    }

    /// The copy command that fills the buffer.
    pub open spec fn copy_command(
        self,
        texture: TextureId,
        origin: Origin,
        mip_level: u32,
        layout: CopyLayout,
        extent: Extent,
    ) -> CopyCommand {
        CopyCommand {
            texture,
            origin,
            mip_level,
            buffer: self.id,
            buffer_offset: 0,
            bytes_per_row: layout.padded_bytes_per_row,
            extent,
        }
    }

    /// A mapping of `range` can be requested now.
    pub open spec fn can_request_map(self, range: ByteRange) -> bool {
        self.state == MapState::Unmapped && range.within(self.size)
    }

    /// The buffer with another mapping state.
    pub open spec fn with_state(self, state: MapState) -> StagingBuffer {
        StagingBuffer { state, ..self }
    }

    /// The mapped bytes of `range` can be read now.
    pub open spec fn can_read(self, range: ByteRange) -> bool {
        self.state == MapState::Mapped && range.within(self.size)
    }

    /// The command that gives the buffer up.
    pub open spec fn destroy_command(self) -> DestroyCommand {
        DestroyCommand { buffer: self.id, unmap_first: self.state == MapState::Mapped }
    }

    /// What to ask of the device for a staging buffer of `buffer_size` bytes:
    /// a copy destination that the host can map for reading. It is not mapped
    /// at creation, since a mapped buffer cannot receive the copy.
    pub fn descriptor(buffer_size: u64) -> (descriptor: BufferDescriptor)
        ensures
            descriptor == Self::descriptor_of(buffer_size),
    {
        BufferDescriptor {
            size: buffer_size,
            usage: BufferUsage { map_read: true, copy_dst: true },
            mapped_at_creation: false,
        }
    }

    /// Takes the device's answer to a creation request: the new buffer, still
    /// unmapped, or a creation failure where the device returned none.
    pub fn create(buffer_size: u64, answer: Option<BufferId>) -> (created: Result<
        StagingBuffer,
        ReadbackError,
    >)
        ensures
            match answer {
                Some(id) => created == Ok::<StagingBuffer, ReadbackError>(
                    Self::fresh(id, buffer_size),
                ),
                None => created == Err::<StagingBuffer, ReadbackError>(
                    ReadbackError::BufferCreationFailure,
                ),
            },
    {
        match answer {
            Some(id) => Ok(StagingBuffer { id, size: buffer_size, state: MapState::Unmapped }),
            None => Err(ReadbackError::BufferCreationFailure),
        }
    }

    /// Prepares the copy of a texture region into this buffer, with the
    /// layout's padded row as row pitch. The copy is refused where the pitch
    /// is no multiple of the alignment, or the buffer is smaller than the
    /// layout's buffer size.
    pub fn issue_copy(
        &self,
        texture: TextureId,
        origin: Origin,
        mip_level: u32,
        layout: &CopyLayout,
        extent: Extent,
    ) -> (issued: Result<CopyCommand, ReadbackError>)
        ensures
            self.accepts_copy(*layout) ==> issued == Ok::<CopyCommand, ReadbackError>(
                self.copy_command(texture, origin, mip_level, *layout, extent),
            ),
            !self.accepts_copy(*layout) ==> issued == Err::<CopyCommand, ReadbackError>(
                ReadbackError::CopyFailure,
            ),
    {
        if layout.row_alignment == 0 || layout.padded_bytes_per_row % layout.row_alignment != 0
            || self.size < layout.buffer_size {
            return Err(ReadbackError::CopyFailure);
        }
        Ok(
            CopyCommand {
                texture,
                origin,
                mip_level,
                buffer: self.id,
                buffer_offset: 0,
                bytes_per_row: layout.padded_bytes_per_row,
                extent,
            },
        )
    }

    /// Asks for `range` to be mapped once the copy has completed. Only an
    /// unmapped buffer can be asked, and only for bytes that it has; the
    /// mapping is then pending.
    pub fn request_map(&mut self, range: ByteRange) -> (requested: Result<MapRequest, ReadbackError>)
        ensures
            old(self).can_request_map(range) ==> requested == Ok::<MapRequest, ReadbackError>(
                MapRequest { buffer: old(self).id, range },
            ) && *final(self) == old(self).with_state(MapState::MapPending),
            !old(self).can_request_map(range) ==> requested == Err::<MapRequest, ReadbackError>(
                ReadbackError::MapFailure,
            ) && *final(self) == *old(self),
    {
        match self.state {
            MapState::Unmapped => {
                if range.start <= range.end && range.end <= self.size {
                    self.state = MapState::MapPending;
                    Ok(MapRequest { buffer: self.id, range })
                } else {
                    Err(ReadbackError::MapFailure)
                }
            },
            _ => Err(ReadbackError::MapFailure),
        }
    }

    /// Takes the completion signal of a pending mapping. A mapping that
    /// succeeded leaves the buffer mapped; one that failed leaves it unmapped.
    /// Without a pending mapping the signal is refused and nothing changes.
    pub fn complete_map(&mut self, succeeded: bool) -> (completed: Result<(), ReadbackError>)
        ensures
            old(self).state == MapState::MapPending && succeeded ==> completed == Ok::<
                (),
                ReadbackError,
            >(()) && *final(self) == old(self).with_state(MapState::Mapped),
            old(self).state == MapState::MapPending && !succeeded ==> completed == Err::<
                (),
                ReadbackError,
            >(ReadbackError::MapFailure) && *final(self) == old(self).with_state(
                MapState::Unmapped,
            ),
            old(self).state != MapState::MapPending ==> completed == Err::<(), ReadbackError>(
                ReadbackError::MapFailure,
            ) && *final(self) == *old(self),
    {
        match self.state {
            MapState::MapPending => {
                if succeeded {
                    self.state = MapState::Mapped;
                    Ok(())
                } else {
                    self.state = MapState::Unmapped;
                    Err(ReadbackError::MapFailure)
                }
            },
            _ => Err(ReadbackError::MapFailure),
        }
    }

    /// Prepares the read of `range` from the mapped buffer.
    pub fn read_mapped(&self, range: ByteRange) -> (read: Result<ReadRequest, ReadbackError>)
        ensures
            self.can_read(range) ==> read == Ok::<ReadRequest, ReadbackError>(
                ReadRequest { buffer: self.id, range },
            ),
            !self.can_read(range) ==> read == Err::<ReadRequest, ReadbackError>(
                ReadbackError::MapFailure,
            ),
    {
        match self.state {
            MapState::Mapped => {
                if range.start <= range.end && range.end <= self.size {
                    Ok(ReadRequest { buffer: self.id, range })
                } else {
                    Err(ReadbackError::MapFailure)
                }
            },
            _ => Err(ReadbackError::MapFailure),
        }
    }

    /// Gives the buffer up. The command unmaps it first where it is still
    /// mapped.
    pub fn destroy(self) -> (command: DestroyCommand)
        ensures
            command == self.destroy_command(),
    {
        let unmap_first = match self.state {
            MapState::Mapped => true,
            _ => false,
        };
        DestroyCommand { buffer: self.id, unmap_first }
    }
}

/// The chunk at `offset` continues, without a gap or an overlap, what has
/// been collected of `range`, and does not reach past the end of the range.
pub open spec fn continues(range: ByteRange, collected: int, offset: u64, chunk: int) -> bool {
    offset == range.start + collected && offset + chunk <= range.end
}

/// Adds a chunk that the mapping delivered to the bytes collected so far.
/// Chunks have to arrive in increasing offset order without gaps or overlaps:
/// a chunk is taken only where it starts at the byte after the last one
/// collected and ends inside the range. Any other chunk is refused, and
/// nothing is added.
pub fn collect_chunk(collected: &mut Vec<u8>, range: ByteRange, offset: u64, chunk: Vec<u8>) -> (accepted:
    Result<(), ReadbackError>)
    ensures
        continues(range, old(collected)@.len() as int, offset, chunk@.len() as int) ==> accepted
            == Ok::<(), ReadbackError>(()) && final(collected)@ == old(collected)@ + chunk@,
        !continues(range, old(collected)@.len() as int, offset, chunk@.len() as int) ==> accepted
            == Err::<(), ReadbackError>(ReadbackError::MapFailure) && final(collected)@ == old(
            collected,
        )@,
{
    let have: usize = collected.len();
    let more: usize = chunk.len();
    if offset as u128 != range.start as u128 + have as u128 || offset as u128 + more as u128
        > range.end as u128 {
        return Err(ReadbackError::MapFailure);
    }
    let mut chunk = chunk;
    collected.append(&mut chunk);
    Ok(())
}

} // verus!
