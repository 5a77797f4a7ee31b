//! The readback node: a sink of the render graph that reads its input texture
//! back to the host and publishes it as an asset.
//!
//! An invocation runs through
//! `Idle → BufferRequested → CopyIssued → MapRequested → Mapped → Unpacked →
//! Published → Destroyed → Idle`. The node rests in a stage while a command is
//! out with the driver, and moves on when the driver reports the outcome. A
//! failure at any stage that owns the staging buffer leads straight to
//! `Destroyed`: the buffer is given up on every path that created one.
use vstd::prelude::*;
use bevy_asset::HandleId;
use crate::error::ReadbackError;
use crate::graph::{
    bound_texture, resolve_texture, BufferId, RenderResourceId, RenderResourceType,
    ResourceSlotInfo, TextureId,
};
use crate::layout::{
    buffer_bytes, layout_fits, lemma_planned_layout, lemma_round_up_of_multiple, padded_row_bytes,
    plan, planned_layout, unpadded_row_bytes, CopyLayout, Extent,
};
use crate::staging::{
    collect_chunk, continues, BufferDescriptor, ByteRange, CopyCommand, DestroyCommand, MapRequest, MapState,
    ReadRequest, StagingBuffer,
};
use crate::texture::{Origin, TextureAsset, TextureAssetView, TextureDescriptor};
use crate::unpack::{lemma_packed_prefix_bytes, packed, rows_within, unpack};

verus! {

/// One readback: which texture to read, from where, and where the result goes.
#[derive(Clone, Copy, Debug, PartialEq, Eq)]
pub struct ReadbackRequest {
    pub texture: TextureId,
    pub origin: Origin,
    pub mip_level: u32,
    /// The asset that the pixels replace.
    pub destination: HandleId,
}

/// A readback with its plan: the request, the texture as the node described
/// it when the invocation began, and the layout of the copy.
#[derive(Clone, Copy, Debug, PartialEq, Eq)]
pub struct ReadbackPlan {
    pub request: ReadbackRequest,
    pub descriptor: TextureDescriptor,
    pub layout: CopyLayout,
}

impl ReadbackPlan {
    /// The layout is the one planned for the described texture.
    pub open spec fn wf(self) -> bool {
        &&& self.layout.wf()
        &&& self.layout.describes(
            self.descriptor.size,
            self.descriptor.format.pixel_size,
            self.layout.row_alignment,
        )
    }
}

/// What the driver reports to the node.
#[derive(Debug, PartialEq, Eq)]
pub enum Event {
    /// The graph runs the node. `input` is what the input slot is bound to,
    /// `row_alignment` the device's alignment for the rows of a buffer copy.
    Invoke { input: Option<RenderResourceId>, row_alignment: u64 },
    /// The device's answer to `CreateBuffer`: the new buffer, or none.
    BufferCreated(Option<BufferId>),
    /// The copy went into the device's command stream, or was refused.
    CopySubmitted { accepted: bool },
    /// The completion signal of the mapping has fired.
    MapCompleted { succeeded: bool },
    /// The mapping delivered the chunk of bytes that starts at `offset` in
    /// the buffer.
    MappedChunk { offset: u64, bytes: Vec<u8> },
    /// The mapping has delivered its last chunk.
    ReadFinished,
    /// The store's answer to `LocateAsset`: whether it holds an asset under
    /// the handle.
    AssetLocated { present: bool },
    /// The store has replaced the asset.
    AssetReplaced,
    /// The staging buffer is gone.
    BufferDestroyed,
}

/// The value of an [`Event`].
pub enum EventView {
    Invoke { input: Option<RenderResourceId>, row_alignment: u64 },
    BufferCreated(Option<BufferId>),
    CopySubmitted { accepted: bool },
    MapCompleted { succeeded: bool },
    MappedChunk { offset: u64, bytes: Seq<u8> },
    ReadFinished,
    AssetLocated { present: bool },
    AssetReplaced,
    BufferDestroyed,
}

impl View for Event {
    type V = EventView;

    open spec fn view(&self) -> EventView {
        match self {
            Event::Invoke { input, row_alignment } => EventView::Invoke {
                input: *input,
                row_alignment: *row_alignment,
            },
            Event::BufferCreated(answer) => EventView::BufferCreated(*answer),
            Event::CopySubmitted { accepted } => EventView::CopySubmitted { accepted: *accepted },
            Event::MapCompleted { succeeded } => EventView::MapCompleted { succeeded: *succeeded },
            Event::MappedChunk { offset, bytes } => EventView::MappedChunk {
                offset: *offset,
                bytes: bytes@,
            },
            Event::ReadFinished => EventView::ReadFinished,
            Event::AssetLocated { present } => EventView::AssetLocated { present: *present },
            Event::AssetReplaced => EventView::AssetReplaced,
            Event::BufferDestroyed => EventView::BufferDestroyed,
        }
    }
}

/// What the node asks of the driver.
#[derive(Debug, PartialEq, Eq)]
pub enum Command {
    /// Create a buffer; answer with `BufferCreated`.
    CreateBuffer(BufferDescriptor),
    /// Submit the copy; answer with `CopySubmitted`.
    CopyTextureToBuffer(CopyCommand),
    /// Request the mapping and wait for its signal, blocking or suspended;
    /// answer with `MapCompleted`.
    MapBuffer(MapRequest),
    /// Visit the mapped bytes; answer with one `MappedChunk` for each chunk,
    /// in order, and then `ReadFinished`.
    ReadMapped(ReadRequest),
    /// The chunk was taken; go on reading.
    AwaitChunk,
    /// Look up whether the asset store holds an asset under `handle`; answer
    /// with `AssetLocated`.
    LocateAsset { handle: HandleId },
    /// Replace the asset under `handle`, without telling those who watch the
    /// store for changes; answer with `AssetReplaced`.
    ReplaceAsset { handle: HandleId, asset: TextureAsset },
    /// Destroy the staging buffer; answer with `BufferDestroyed`.
    DestroyBuffer(DestroyCommand),
    /// The invocation is over, and the node is idle again.
    Finished(Result<(), ReadbackError>),
    /// The event does not belong to the stage that the node is in. Nothing
    /// has changed. This is also the answer to `Invoke` while an invocation
    /// is in flight.
    Rejected,
}

/// The value of a [`Command`].
pub enum CommandView {
    CreateBuffer(BufferDescriptor),
    CopyTextureToBuffer(CopyCommand),
    MapBuffer(MapRequest),
    ReadMapped(ReadRequest),
    AwaitChunk,
    LocateAsset { handle: HandleId },
    ReplaceAsset { handle: HandleId, asset: TextureAssetView },
    DestroyBuffer(DestroyCommand),
    Finished(Result<(), ReadbackError>),
    Rejected,
}

impl View for Command {
    type V = CommandView;

    open spec fn view(&self) -> CommandView {
        match self {
            Command::CreateBuffer(descriptor) => CommandView::CreateBuffer(*descriptor),
            Command::CopyTextureToBuffer(copy) => CommandView::CopyTextureToBuffer(*copy),
            Command::MapBuffer(request) => CommandView::MapBuffer(*request),
            Command::ReadMapped(request) => CommandView::ReadMapped(*request),
            Command::AwaitChunk => CommandView::AwaitChunk,
            Command::LocateAsset { handle } => CommandView::LocateAsset { handle: *handle },
            Command::ReplaceAsset { handle, asset } => CommandView::ReplaceAsset {
                handle: *handle,
                asset: asset@,
            },
            Command::DestroyBuffer(destroy) => CommandView::DestroyBuffer(*destroy),
            Command::Finished(outcome) => CommandView::Finished(*outcome),
            Command::Rejected => CommandView::Rejected,
        }
    }
}

impl CommandView {
    /// The buffer that the command names, if it names one.
    pub open spec fn buffer(self) -> Option<BufferId> {
        match self {
            CommandView::CopyTextureToBuffer(copy) => Some(copy.buffer),
            CommandView::MapBuffer(request) => Some(request.buffer),
            CommandView::ReadMapped(request) => Some(request.buffer),
            CommandView::DestroyBuffer(destroy) => Some(destroy.buffer),
            _ => None,
        }
    }
}

/// Where an invocation stands.
#[derive(Clone, Copy, Debug, PartialEq, Eq, Structural)]
pub enum Phase {
    /// No invocation is in flight.
    Idle,
    /// The copy is planned and the staging buffer asked for.
    BufferRequested,
    /// The buffer exists and the copy is on its way to the device.
    CopyIssued,
    /// The mapping is requested and its signal awaited.
    MapRequested,
    /// The buffer is mapped and its bytes are being read.
    Mapped,
    /// The pixels are unpacked and the asset store is asked for the
    /// destination.
    Unpacked,
    /// The asset is on its way into the store.
    Published,
    /// The invocation has ended, in publication or in failure, and the
    /// buffer's destruction is on its way to the device.
    Destroyed,
}

/// The value of a node's stage: the phase and what the node holds in it.
pub enum StageView {
    Idle,
    BufferRequested { plan: ReadbackPlan },
    CopyIssued { plan: ReadbackPlan, buffer: StagingBuffer },
    MapRequested { plan: ReadbackPlan, buffer: StagingBuffer },
    Mapped { plan: ReadbackPlan, buffer: StagingBuffer, collected: Seq<u8> },
    Unpacked { buffer: StagingBuffer, destination: HandleId, asset: TextureAssetView },
    Published { buffer: StagingBuffer },
    Destroyed { outcome: Result<(), ReadbackError> },
}

impl StageView {
    pub open spec fn phase(self) -> Phase {
        match self {
            StageView::Idle => Phase::Idle,
            StageView::BufferRequested { .. } => Phase::BufferRequested,
            StageView::CopyIssued { .. } => Phase::CopyIssued,
            StageView::MapRequested { .. } => Phase::MapRequested,
            StageView::Mapped { .. } => Phase::Mapped,
            StageView::Unpacked { .. } => Phase::Unpacked,
            StageView::Published { .. } => Phase::Published,
            StageView::Destroyed { .. } => Phase::Destroyed,
        }
    }

    /// The staging buffer that the node owns in this stage, if it owns one.
    pub open spec fn buffer(self) -> Option<StagingBuffer> {
        match self {
            StageView::CopyIssued { buffer, .. } => Some(buffer),
            StageView::MapRequested { buffer, .. } => Some(buffer),
            StageView::Mapped { buffer, .. } => Some(buffer),
            StageView::Unpacked { buffer, .. } => Some(buffer),
            StageView::Published { buffer } => Some(buffer),
            _ => None,
        }
    }

    /// What holds of every stage that a node reaches: the layout is the one
    /// planned for the texture, the buffer has the layout's size and the
    /// mapping state of its phase, no more bytes were collected than the
    /// buffer has, and the unpacked asset is tightly packed.
    pub open spec fn wf(self) -> bool {
        match self {
            StageView::Idle => true,
            StageView::BufferRequested { plan } => plan.wf(),
            StageView::CopyIssued { plan, buffer } => {
                &&& plan.wf()
                &&& buffer.size == plan.layout.buffer_size
                &&& buffer.state == MapState::Unmapped
            },
            StageView::MapRequested { plan, buffer } => {
                &&& plan.wf()
                &&& buffer.size == plan.layout.buffer_size
                &&& buffer.state == MapState::MapPending
            },
            StageView::Mapped { plan, buffer, collected } => {
                &&& plan.wf()
                &&& buffer.size == plan.layout.buffer_size
                &&& buffer.state == MapState::Mapped
                &&& collected.len() <= buffer.size
            },
            StageView::Unpacked { buffer, asset, .. } => {
                &&& buffer.state == MapState::Mapped
                &&& asset.is_tightly_packed()
            },
            StageView::Published { buffer } => buffer.state == MapState::Mapped,
            StageView::Destroyed { .. } => true,
        }
    }
}

/// The value of a node: its configuration and its stage.
pub struct NodeView {
    pub descriptor: TextureDescriptor,
    pub texture_handle: HandleId,
    pub origin: Origin,
    pub stage: StageView,
}

impl NodeView {
    /// The node in another stage.
    pub open spec fn at(self, stage: StageView) -> NodeView {
        NodeView { stage, ..self }
    }

    /// The event is refused and nothing changes.
    pub open spec fn reject(self) -> (NodeView, CommandView) {
        (self, CommandView::Rejected)
    }

    /// The invocation ends before any buffer exists.
    pub open spec fn fail(self, error: ReadbackError) -> (NodeView, CommandView) {
        (self.at(StageView::Idle), CommandView::Finished(Err(error)))
    }

    /// The invocation ends while the node owns a buffer: the buffer goes.
    pub open spec fn release(self, buffer: StagingBuffer, outcome: Result<(), ReadbackError>) -> (
        NodeView,
        CommandView,
    ) {
        (
            self.at(StageView::Destroyed { outcome }),
            CommandView::DestroyBuffer(buffer.destroy_command()),
        )
    }

    /// The readback that an invocation with this texture and alignment plans.
    pub open spec fn plan_for(self, texture: TextureId, row_alignment: u64) -> ReadbackPlan {
        ReadbackPlan {
            request: ReadbackRequest {
                texture,
                origin: self.origin,
                mip_level: self.descriptor.mip_level,
                destination: self.texture_handle,
            },
            descriptor: self.descriptor,
            layout: planned_layout(
                self.descriptor.size,
                self.descriptor.format.pixel_size,
                row_alignment,
            ),
        }
    }

    /// An idle node is invoked: it resolves its input, plans the copy and
    /// asks for the staging buffer. Whatever fails here fails before a
    /// buffer exists.
    pub open spec fn begin(self, input: Option<RenderResourceId>, row_alignment: u64) -> (
        NodeView,
        CommandView,
    ) {
        let size = self.descriptor.size;
        let pixel_size = self.descriptor.format.pixel_size;
        match bound_texture(input) {
            None => self.fail(ReadbackError::SlotResolutionError),
            Some(texture) => if row_alignment == 0 {
                self.fail(ReadbackError::CopyFailure)
            } else if pixel_size == 0 {
                self.fail(ReadbackError::InvalidFormat)
            } else if !size.is_positive() {
                self.fail(ReadbackError::InvalidExtent)
            } else if buffer_bytes(size, pixel_size, row_alignment) > u64::MAX {
                self.fail(ReadbackError::BufferCreationFailure)
            } else {
                let plan = self.plan_for(texture, row_alignment);
                (
                    self.at(StageView::BufferRequested { plan }),
                    CommandView::CreateBuffer(StagingBuffer::descriptor_of(plan.layout.buffer_size)),
                )
            },
        }
    }

    /// The device has answered the creation request.
    pub open spec fn buffer_created(self, plan: ReadbackPlan, answer: Option<BufferId>) -> (
        NodeView,
        CommandView,
    ) {
        match answer {
            None => self.fail(ReadbackError::BufferCreationFailure),
            Some(id) => {
                let buffer = StagingBuffer::fresh(id, plan.layout.buffer_size);
                (
                    self.at(StageView::CopyIssued { plan, buffer }),
                    CommandView::CopyTextureToBuffer(
                        buffer.copy_command(
                            plan.request.texture,
                            plan.request.origin,
                            plan.request.mip_level,
                            plan.layout,
                            plan.descriptor.size,
                        ),
                    ),
                )
            },
        }
    }

    /// The copy is in the command stream, or was refused.
    pub open spec fn copy_submitted(self, plan: ReadbackPlan, buffer: StagingBuffer, accepted: bool) -> (
        NodeView,
        CommandView,
    ) {
        if accepted {
            (
                self.at(
                    StageView::MapRequested {
                        plan,
                        buffer: buffer.with_state(MapState::MapPending),
                    },
                ),
                CommandView::MapBuffer(
                    MapRequest { buffer: buffer.id, range: ByteRange { start: 0, end: buffer.size } },
                ),
            )
        } else {
            self.release(buffer, Err(ReadbackError::CopyFailure))
        }
    }

    /// The mapping's signal has fired.
    pub open spec fn map_completed(self, plan: ReadbackPlan, buffer: StagingBuffer, succeeded: bool) -> (
        NodeView,
        CommandView,
    ) {
        if succeeded {
            (
                self.at(
                    StageView::Mapped {
                        plan,
                        buffer: buffer.with_state(MapState::Mapped),
                        collected: Seq::<u8>::empty(),
                    },
                ),
                CommandView::ReadMapped(
                    ReadRequest { buffer: buffer.id, range: ByteRange { start: 0, end: buffer.size } },
                ),
            )
        } else {
            self.release(buffer.with_state(MapState::Unmapped), Err(ReadbackError::MapFailure))
        }
    }

    /// The mapping has delivered a chunk. It is added to the bytes collected
    /// so far where it continues them without a gap or an overlap and ends
    /// inside the buffer; any other chunk ends the invocation.
    pub open spec fn chunk_delivered(
        self,
        plan: ReadbackPlan,
        buffer: StagingBuffer,
        collected: Seq<u8>,
        offset: u64,
        chunk: Seq<u8>,
    ) -> (NodeView, CommandView) {
        if continues(
            ByteRange { start: 0, end: buffer.size },
            collected.len() as int,
            offset,
            chunk.len() as int,
        ) {
            (
                self.at(StageView::Mapped { plan, buffer, collected: collected + chunk }),
                CommandView::AwaitChunk,
            )
        } else {
            self.release(buffer, Err(ReadbackError::MapFailure))
        }
    }

    /// The asset that a readback publishes from the bytes of its buffer.
    pub open spec fn asset_of(plan: ReadbackPlan, raw: Seq<u8>) -> TextureAssetView {
        TextureAssetView {
            size: plan.descriptor.size,
            dimension: plan.descriptor.dimension,
            data: packed(raw, plan.layout),
            format: plan.descriptor.format,
        }
    }

    /// The mapping has delivered its last chunk: where the whole buffer has
    /// arrived, its rows are unpacked and the asset store is asked whether it
    /// holds the destination.
    pub open spec fn read_finished(self, plan: ReadbackPlan, buffer: StagingBuffer, collected: Seq<u8>) -> (
        NodeView,
        CommandView,
    ) {
        if collected.len() == buffer.size {
            (
                self.at(
                    StageView::Unpacked {
                        buffer,
                        destination: plan.request.destination,
                        asset: Self::asset_of(plan, collected),
                    },
                ),
                CommandView::LocateAsset { handle: plan.request.destination },
            )
        } else {
            self.release(buffer, Err(ReadbackError::MapFailure))
        }
    }

    /// The asset store has looked for the destination. An asset that is there
    /// is replaced; none is ever added.
    pub open spec fn asset_located(
        self,
        buffer: StagingBuffer,
        destination: HandleId,
        asset: TextureAssetView,
        present: bool,
    ) -> (NodeView, CommandView) {
        if present {
            (
                self.at(StageView::Published { buffer }),
                CommandView::ReplaceAsset { handle: destination, asset },
            )
        } else {
            self.release(buffer, Err(ReadbackError::AssetHandleMissing))
        }
    }

    /// The node's answer to an event: the node afterwards, and the command
    /// for the driver.
    pub open spec fn next(self, event: EventView) -> (NodeView, CommandView) {
        match self.stage {
            StageView::Idle => match event {
                EventView::Invoke { input, row_alignment } => self.begin(input, row_alignment),
                _ => self.reject(),
            },
            StageView::BufferRequested { plan } => match event {
                EventView::BufferCreated(answer) => self.buffer_created(plan, answer),
                _ => self.reject(),
            },
            StageView::CopyIssued { plan, buffer } => match event {
                EventView::CopySubmitted { accepted } => self.copy_submitted(plan, buffer, accepted),
                _ => self.reject(),
            },
            StageView::MapRequested { plan, buffer } => match event {
                EventView::MapCompleted { succeeded } => self.map_completed(plan, buffer, succeeded),
                _ => self.reject(),
            },
            StageView::Mapped { plan, buffer, collected } => match event {
                EventView::MappedChunk { offset, bytes } => self.chunk_delivered(
                    plan,
                    buffer,
                    collected,
                    offset,
                    bytes,
                ),
                EventView::ReadFinished => self.read_finished(plan, buffer, collected),
                _ => self.reject(),
            },
            StageView::Unpacked { buffer, destination, asset } => match event {
                EventView::AssetLocated { present } => self.asset_located(
                    buffer,
                    destination,
                    asset,
                    present,
                ),
                _ => self.reject(),
            },
            StageView::Published { buffer } => match event {
                EventView::AssetReplaced => self.release(buffer, Ok(())),
                _ => self.reject(),
            },
            StageView::Destroyed { outcome } => match event {
                EventView::BufferDestroyed => (
                    self.at(StageView::Idle),
                    CommandView::Finished(outcome),
                ),
                _ => self.reject(),
            },
        }
    }
}

/// The stage of a node, with what the node holds in it.
enum Stage {
    Idle,
    BufferRequested { plan: ReadbackPlan },
    CopyIssued { plan: ReadbackPlan, buffer: StagingBuffer },
    MapRequested { plan: ReadbackPlan, buffer: StagingBuffer },
    Mapped { plan: ReadbackPlan, buffer: StagingBuffer, collected: Vec<u8> },
    Unpacked { buffer: StagingBuffer, destination: HandleId, asset: TextureAsset },
    Published { buffer: StagingBuffer },
    Destroyed { outcome: Result<(), ReadbackError> },
}

impl View for Stage {
    type V = StageView;

    closed spec fn view(&self) -> StageView {
        match self {
            Stage::Idle => StageView::Idle,
            Stage::BufferRequested { plan } => StageView::BufferRequested { plan: *plan },
            Stage::CopyIssued { plan, buffer } => StageView::CopyIssued {
                plan: *plan,
                buffer: *buffer,
            },
            Stage::MapRequested { plan, buffer } => StageView::MapRequested {
                plan: *plan,
                buffer: *buffer,
            },
            Stage::Mapped { plan, buffer, collected } => StageView::Mapped {
                plan: *plan,
                buffer: *buffer,
                collected: collected@,
            },
            Stage::Unpacked { buffer, destination, asset } => StageView::Unpacked {
                buffer: *buffer,
                destination: *destination,
                asset: asset@,
            },
            Stage::Published { buffer } => StageView::Published { buffer: *buffer },
            Stage::Destroyed { outcome } => StageView::Destroyed { outcome: *outcome },
        }
    }
}

impl Stage {
    #[verifier::type_invariant]
    spec fn reached(&self) -> bool {
        self@.wf()
    }
}

/// A render-graph node that reads the texture bound to its input slot back to
/// the host and publishes it under `texture_handle`.
///
/// The node declares one input slot, named [`ReadTextureNode::IN_TEXTURE`], and no output
/// slot: what it produces goes to the asset store. The descriptor and the
/// origin say what to read.
pub struct ReadTextureNode {
    descriptor: TextureDescriptor,
    texture_handle: HandleId,
    origin: Origin,
    stage: Stage,
}

impl View for ReadTextureNode {
    type V = NodeView;

    closed spec fn view(&self) -> NodeView {
        NodeView {
            descriptor: self.descriptor,
            texture_handle: self.texture_handle,
            origin: self.origin,
            stage: self.stage@,
        }
    }
}

impl ReadTextureNode {
    /// Name of the node's one input slot.
    pub const IN_TEXTURE: &'static str = "texture";

    /// An idle node that reads from the first texel on.
    pub fn new(descriptor: TextureDescriptor, texture_handle: HandleId) -> (node: ReadTextureNode)
        ensures
            node@ == (NodeView {
                descriptor,
                texture_handle,
                origin: Origin { x: 0, y: 0, z: 0 },
                stage: StageView::Idle,
            }),
    {
        ReadTextureNode { descriptor, texture_handle, origin: Origin::zero(), stage: Stage::Idle }
    }

    /// The same node, reading from `origin` on.
    pub fn with_origin(self, origin: Origin) -> (node: ReadTextureNode)
        ensures
            node@ == (NodeView { origin, ..self@ }),
    {
        let mut node = self;
        node.origin = origin;
        node
    }

    /// What the node reads of its source texture.
    pub fn descriptor(&self) -> (descriptor: TextureDescriptor)
        ensures
            descriptor == self@.descriptor,
    {
        self.descriptor
    }

    /// The asset that the node publishes to.
    pub fn texture_handle(&self) -> (handle: HandleId)
        ensures
            handle == self@.texture_handle,
    {
        self.texture_handle
    }

    /// The texel at which the node starts to read.
    pub fn origin(&self) -> (origin: Origin)
        ensures
            origin == self@.origin,
    {
        self.origin
    }

    /// The input slots of the node: one, named [`ReadTextureNode::IN_TEXTURE`], for a texture.
    pub fn input(&self) -> (slots: Vec<ResourceSlotInfo>)
        ensures
            slots@.len() == 1,
            slots@[0].name@ == Self::IN_TEXTURE@,
            slots@[0].resource_type == RenderResourceType::Texture,
    {
        let mut slots: Vec<ResourceSlotInfo> = Vec::new();
        slots.push(ResourceSlotInfo { name: Self::IN_TEXTURE, resource_type: RenderResourceType::Texture });
        slots
    }

    /// The output slots of the node: none, for the node is a sink.
    pub fn output(&self) -> (slots: Vec<ResourceSlotInfo>)
        ensures
            slots@.len() == 0,
    {
        Vec::new()
    }

    /// Where the invocation in flight stands.
    pub fn phase(&self) -> (phase: Phase)
        ensures
            phase == self@.stage.phase(),
    {
        match &self.stage {
            Stage::Idle => Phase::Idle,
            Stage::BufferRequested { .. } => Phase::BufferRequested,
            Stage::CopyIssued { .. } => Phase::CopyIssued,
            Stage::MapRequested { .. } => Phase::MapRequested,
            Stage::Mapped { .. } => Phase::Mapped,
            Stage::Unpacked { .. } => Phase::Unpacked,
            Stage::Published { .. } => Phase::Published,
            Stage::Destroyed { .. } => Phase::Destroyed,
        }
    }

    /// Takes an event from the driver and answers with the command to
    /// perform next. The node moves as [`NodeView::next`] says; an event that
    /// does not belong to the node's stage is rejected and changes nothing.
    pub fn step(&mut self, event: Event) -> (command: Command)
        ensures
            (final(self)@, command@) == old(self)@.next(event@),
            old(self)@.stage.wf(),
            final(self)@.stage.wf(),
    {
        let mut stage = Stage::Idle;
        core::mem::swap(&mut self.stage, &mut stage);
        proof {
            use_type_invariant(&stage);
        }
        let (stage, command) = match stage {
            Stage::Idle => match event {
                Event::Invoke { input, row_alignment } => self.begin(input, row_alignment),
                _ => (Stage::Idle, Command::Rejected),
            },
            Stage::BufferRequested { plan } => match event {
                Event::BufferCreated(answer) => buffer_created(plan, answer),
                _ => (Stage::BufferRequested { plan }, Command::Rejected),
            },
            Stage::CopyIssued { plan, buffer } => match event {
                Event::CopySubmitted { accepted } => copy_submitted(plan, buffer, accepted),
                _ => (Stage::CopyIssued { plan, buffer }, Command::Rejected),
            },
            Stage::MapRequested { plan, buffer } => match event {
                Event::MapCompleted { succeeded } => map_completed(plan, buffer, succeeded),
                _ => (Stage::MapRequested { plan, buffer }, Command::Rejected),
            },
            Stage::Mapped { plan, buffer, collected } => match event {
                Event::MappedChunk { offset, bytes } => chunk_delivered(
                    plan,
                    buffer,
                    collected,
                    offset,
                    bytes,
                ),
                Event::ReadFinished => read_finished(plan, buffer, collected),
                _ => (Stage::Mapped { plan, buffer, collected }, Command::Rejected),
            },
            Stage::Unpacked { buffer, destination, asset } => match event {
                Event::AssetLocated { present } => asset_located(
                    buffer,
                    destination,
                    asset,
                    present,
                ),
                _ => (Stage::Unpacked { buffer, destination, asset }, Command::Rejected),
            },
            Stage::Published { buffer } => match event {
                Event::AssetReplaced => (
                    Stage::Destroyed { outcome: Ok(()) },
                    Command::DestroyBuffer(buffer.destroy()),
                ),
                _ => (Stage::Published { buffer }, Command::Rejected),
            },
            Stage::Destroyed { outcome } => match event {
                Event::BufferDestroyed => (Stage::Idle, Command::Finished(outcome)),
                _ => (Stage::Destroyed { outcome }, Command::Rejected),
            },
        };
        proof {
            use_type_invariant(&stage);
        }
        self.stage = stage;
        command
    }

    /// Begins an invocation of an idle node.
    fn begin(&self, input: Option<RenderResourceId>, row_alignment: u64) -> (answer: (Stage, Command))
        ensures
            (self@.at(answer.0@), answer.1@) == self@.at(StageView::Idle).begin(
                input,
                row_alignment,
            ),
    {
        let texture = match resolve_texture(input) {
            Ok(texture) => texture,
            Err(error) => {
                return (Stage::Idle, Command::Finished(Err(error)));
            },
        };
        if row_alignment == 0 {
            return (Stage::Idle, Command::Finished(Err(ReadbackError::CopyFailure)));
        }
        let size = self.descriptor.size;
        let pixel_size = self.descriptor.format.pixel_size();
        if !layout_fits(size, pixel_size, row_alignment) {
            proof {
                if pixel_size == 0 || !size.is_positive() {
                    lemma_empty_copy_needs_no_bytes(size, pixel_size, row_alignment);
                }
            }
            return (Stage::Idle, Command::Finished(Err(ReadbackError::BufferCreationFailure)));
        }
        match plan(size, pixel_size, row_alignment) {
            Err(error) => (Stage::Idle, Command::Finished(Err(error))),
            Ok(layout) => {
                let plan = ReadbackPlan {
                    request: ReadbackRequest {
                        texture,
                        origin: self.origin,
                        mip_level: self.descriptor.mip_level,
                        destination: self.texture_handle,
                    },
                    descriptor: self.descriptor,
                    layout,
                };
                (
                    Stage::BufferRequested { plan },
                    Command::CreateBuffer(StagingBuffer::descriptor(layout.buffer_size)),
                )
            },
        }
    }
}

/// Takes the device's answer to the creation request.
fn buffer_created(plan: ReadbackPlan, answer: Option<BufferId>) -> (next: (Stage, Command))
    requires
        plan.wf(),
    ensures
        forall|node: NodeView|
            (node.at(next.0@), next.1@) == #[trigger] node.buffer_created(plan, answer),
{
    let buffer = match StagingBuffer::create(plan.layout.buffer_size, answer) {
        Ok(buffer) => buffer,
        Err(error) => {
            return (Stage::Idle, Command::Finished(Err(error)));
        },
    };
    match buffer.issue_copy(
        plan.request.texture,
        plan.request.origin,
        plan.request.mip_level,
        &plan.layout,
        plan.descriptor.size,
    ) {
        Ok(copy) => (Stage::CopyIssued { plan, buffer }, Command::CopyTextureToBuffer(copy)),
        Err(error) => (
            Stage::Destroyed { outcome: Err(error) },
            Command::DestroyBuffer(buffer.destroy()),
        ),
    }
}

/// Takes the outcome of submitting the copy.
fn copy_submitted(plan: ReadbackPlan, buffer: StagingBuffer, accepted: bool) -> (next: (
    Stage,
    Command,
))
    requires
        (StageView::CopyIssued { plan, buffer }).wf(),
    ensures
        forall|node: NodeView|
            (node.at(next.0@), next.1@) == #[trigger] node.copy_submitted(plan, buffer, accepted),
{
    if !accepted {
        return (
            Stage::Destroyed { outcome: Err(ReadbackError::CopyFailure) },
            Command::DestroyBuffer(buffer.destroy()),
        );
    }
    let mut buffer = buffer;
    match buffer.request_map(ByteRange::whole(buffer.size)) {
        Ok(request) => (Stage::MapRequested { plan, buffer }, Command::MapBuffer(request)),
        Err(error) => (
            Stage::Destroyed { outcome: Err(error) },
            Command::DestroyBuffer(buffer.destroy()),
        ),
    }
}

/// Takes the completion signal of the mapping.
fn map_completed(plan: ReadbackPlan, buffer: StagingBuffer, succeeded: bool) -> (next: (
    Stage,
    Command,
))
    requires
        (StageView::MapRequested { plan, buffer }).wf(),
    ensures
        forall|node: NodeView|
            (node.at(next.0@), next.1@) == #[trigger] node.map_completed(plan, buffer, succeeded),
{
    let mut buffer = buffer;
    let read = match buffer.complete_map(succeeded) {
        Ok(()) => buffer.read_mapped(ByteRange::whole(buffer.size)),
        Err(error) => Err(error),
    };
    match read {
        Ok(request) => (
            Stage::Mapped { plan, buffer, collected: Vec::new() },
            Command::ReadMapped(request),
        ),
        Err(error) => (
            Stage::Destroyed { outcome: Err(error) },
            Command::DestroyBuffer(buffer.destroy()),
        ),
    }
}

/// Takes a chunk of mapped bytes.
fn chunk_delivered(
    plan: ReadbackPlan,
    buffer: StagingBuffer,
    collected: Vec<u8>,
    offset: u64,
    chunk: Vec<u8>,
) -> (next: (Stage, Command))
    requires
        (StageView::Mapped { plan, buffer, collected: collected@ }).wf(),
    ensures
        forall|node: NodeView|
            (node.at(next.0@), next.1@) == #[trigger] node.chunk_delivered(
                plan,
                buffer,
                collected@,
                offset,
                chunk@,
            ),
{
    let mut collected = collected;
    match collect_chunk(&mut collected, ByteRange::whole(buffer.size), offset, chunk) {
        Ok(()) => (Stage::Mapped { plan, buffer, collected }, Command::AwaitChunk),
        Err(error) => (
            Stage::Destroyed { outcome: Err(error) },
            Command::DestroyBuffer(buffer.destroy()),
        ),
    }
}

/// Takes the end of the read: unpacks what arrived, if all of it did.
fn read_finished(plan: ReadbackPlan, buffer: StagingBuffer, collected: Vec<u8>) -> (next: (
    Stage,
    Command,
))
    requires
        (StageView::Mapped { plan, buffer, collected: collected@ }).wf(),
    ensures
        forall|node: NodeView|
            (node.at(next.0@), next.1@) == #[trigger] node.read_finished(plan, buffer, collected@),
{
    if collected.len() as u64 != buffer.size {
        return (
            Stage::Destroyed { outcome: Err(ReadbackError::MapFailure) },
            Command::DestroyBuffer(buffer.destroy()),
        );
    }
    proof {
        lemma_whole_buffer_holds_rows(plan.layout);
        lemma_unpacked_asset_is_tightly_packed(plan, collected@);
    }
    let data = unpack(collected.as_slice(), &plan.layout);
    let asset = TextureAsset::new(
        plan.descriptor.size,
        plan.descriptor.dimension,
        data,
        plan.descriptor.format,
    );
    (
        Stage::Unpacked { buffer, destination: plan.request.destination, asset },
        Command::LocateAsset { handle: plan.request.destination },
    )
}

/// Takes the asset store's answer to the lookup of the destination.
fn asset_located(buffer: StagingBuffer, destination: HandleId, asset: TextureAsset, present: bool) -> (next:
    (Stage, Command))
    requires
        (StageView::Unpacked { buffer, destination, asset: asset@ }).wf(),
    ensures
        forall|node: NodeView|
            (node.at(next.0@), next.1@) == #[trigger] node.asset_located(
                buffer,
                destination,
                asset@,
                present,
            ),
{
    if present {
        (Stage::Published { buffer }, Command::ReplaceAsset { handle: destination, asset })
    } else {
        (
            Stage::Destroyed { outcome: Err(ReadbackError::AssetHandleMissing) },
            Command::DestroyBuffer(buffer.destroy()),
        )
    }
}

/// A buffer of the layout's size holds every row of the layout.
proof fn lemma_whole_buffer_holds_rows(layout: CopyLayout)
    requires
        layout.wf(),
    ensures
        rows_within(layout, layout.buffer_size as int),
{
    let padded = layout.padded_bytes_per_row as int;
    let unpadded = layout.unpadded_bytes_per_row as int;
    let rows = layout.row_count as int;
    if rows > 0 {
        assert((rows - 1) * padded + unpadded <= padded * rows) by (nonlinear_arith)
            requires
                unpadded <= padded,
        ;
    }
}

/// What is unpacked from a whole buffer has the bytes of the texture's pixels
/// and no more.
pub proof fn lemma_unpacked_asset_is_tightly_packed(plan: ReadbackPlan, raw: Seq<u8>)
    requires
        plan.wf(),
        raw.len() == plan.layout.buffer_size,
    ensures
        NodeView::asset_of(plan, raw).is_tightly_packed(),
{
    let size = plan.descriptor.size;
    let w = size.width as int;
    let h = size.height as int;
    let d = size.depth_or_layers as int;
    let p = plan.descriptor.format.pixel_size as int;
    lemma_whole_buffer_holds_rows(plan.layout);
    lemma_packed_prefix_bytes(raw, plan.layout, plan.layout.row_count as nat);
    assert((w * p) * (h * d) == (w * h * d) * p) by (nonlinear_arith);
}

/// A copy of no pixels needs no bytes: a region with a zero dimension or a
/// pixel size of zero always fits.
proof fn lemma_empty_copy_needs_no_bytes(extent: Extent, pixel_size: u32, row_alignment: u64)
    requires
        row_alignment > 0,
        pixel_size == 0 || !extent.is_positive(),
    ensures
        buffer_bytes(extent, pixel_size, row_alignment) == 0,
{
    let unpadded = unpadded_row_bytes(extent, pixel_size);
    let padded = padded_row_bytes(extent, pixel_size, row_alignment);
    if pixel_size == 0 || extent.width == 0 {
        assert(unpadded == 0) by (nonlinear_arith)
            requires
                unpadded == extent.width * pixel_size,
                pixel_size == 0 || extent.width == 0,
        ;
        lemma_round_up_of_multiple(0, row_alignment as int);
        assert(padded * extent.rows() == 0) by (nonlinear_arith)
            requires
                padded == 0,
        ;
    } else {
        assert(extent.rows() == 0) by (nonlinear_arith)
            requires
                extent.rows() == extent.height * extent.depth_or_layers,
                extent.height == 0 || extent.depth_or_layers == 0,
        ;
        assert(padded * extent.rows() == 0) by (nonlinear_arith)
            requires
                extent.rows() == 0,
        ;
    }
}

/// Every stage that the transitions lead to from a reachable stage is
/// reachable: the invariant of stages is kept.
pub proof fn law_next_keeps_stage_invariant(node: NodeView, event: EventView)
    requires
        node.stage.wf(),
    ensures
        node.next(event).0.stage.wf(),
{
    match (node.stage, event) {
        (StageView::Idle, EventView::Invoke { input, row_alignment }) => {
            let size = node.descriptor.size;
            let pixel_size = node.descriptor.format.pixel_size;
            if bound_texture(input) is Some && row_alignment > 0 && pixel_size > 0
                && size.is_positive() && buffer_bytes(size, pixel_size, row_alignment) <= u64::MAX {
                lemma_planned_layout(size, pixel_size, row_alignment);
            }
        },
        (StageView::Mapped { plan, buffer, collected }, EventView::ReadFinished) => {
            if collected.len() == buffer.size {
                lemma_unpacked_asset_is_tightly_packed(plan, collected);
            }
        },
        _ => {},
    }
}

/// An input slot that is unbound, or bound to something that is no texture,
/// ends the invocation with a slot resolution error before anything is asked
/// of the device: the node stays as it was, and no buffer is created.
pub proof fn law_unresolved_input_creates_no_buffer(
    node: NodeView,
    input: Option<RenderResourceId>,
    row_alignment: u64,
)
    requires
        node.stage is Idle,
        bound_texture(input) is None,
    ensures
        node.next(EventView::Invoke { input, row_alignment }) == (
            node,
            CommandView::Finished(Err(ReadbackError::SlotResolutionError)),
        ),
{
}

/// A buffer is asked for only by an idle node that is invoked with a texture
/// bound to its input.
pub proof fn law_buffer_requested_only_for_bound_texture(node: NodeView, event: EventView)
    requires
        node.next(event).1 is CreateBuffer,
    ensures
        node.stage is Idle,
        event is Invoke,
        bound_texture(event->input) is Some,
{
}

/// A node with an invocation in flight refuses to be invoked again.
pub proof fn law_busy_node_rejects_invocation(
    node: NodeView,
    input: Option<RenderResourceId>,
    row_alignment: u64,
)
    requires
        !(node.stage is Idle),
    ensures
        node.next(EventView::Invoke { input, row_alignment }) == (node, CommandView::Rejected),
{
}

/// Once the buffer's destruction is under way, and when the node is idle
/// again, nothing can be mapped or read any more: the completion of a
/// mapping, a chunk and the end of a read are all rejected.
pub proof fn law_no_mapping_or_read_after_destroy(node: NodeView, event: EventView)
    requires
        node.stage is Destroyed || node.stage is Idle,
        event is MapCompleted || event is MappedChunk || event is ReadFinished,
    ensures
        node.next(event) == (node, CommandView::Rejected),
{
}

/// The store is changed only for an asset that it holds: a replacement is
/// asked for only after the store has located the destination, and it puts
/// the unpacked pixels, tightly packed, under the node's destination.
pub proof fn law_asset_replaced_only_where_located(node: NodeView, event: EventView)
    requires
        node.stage.wf(),
        node.next(event).1 is ReplaceAsset,
    ensures
        node.stage is Unpacked,
        event == (EventView::AssetLocated { present: true }),
        node.next(event).1->ReplaceAsset_handle == node.stage->Unpacked_destination,
        node.next(event).1->ReplaceAsset_asset == node.stage->Unpacked_asset,
        node.next(event).1->ReplaceAsset_asset.is_tightly_packed(),
{
}

/// What is unpacked is what the whole staging buffer held, stripped of its
/// padding, and it goes to the destination that the node had when it was
/// invoked.
pub proof fn law_unpacked_asset_comes_from_the_whole_buffer(node: NodeView, event: EventView)
    requires
        node.stage.wf(),
        node.next(event).0.stage is Unpacked,
        !(node.stage is Unpacked),
    ensures
        node.stage is Mapped,
        event is ReadFinished,
        node.stage->Mapped_collected.len() == node.stage->Mapped_plan.layout.buffer_size,
        node.next(event).0.stage->Unpacked_asset == NodeView::asset_of(
            node.stage->Mapped_plan,
            node.stage->Mapped_collected,
        ),
        node.next(event).0.stage->Unpacked_destination
            == node.stage->Mapped_plan.request.destination,
{
}

/// An invocation succeeds only by replacing the asset: the outcome that is
/// kept while the buffer is destroyed is a success only where the store has
/// just confirmed the replacement.
pub proof fn law_success_only_after_replacement(node: NodeView, event: EventView)
    requires
        !(node.stage is Destroyed),
        node.next(event).0.stage == (StageView::Destroyed { outcome: Ok(()) }),
    ensures
        node.stage is Published,
        event is AssetReplaced,
{
}

/// The event makes the device's new buffer the node's own.
pub open spec fn takes_buffer(node: NodeView, event: EventView) -> bool {
    node.stage is BufferRequested && event matches EventView::BufferCreated(Some(_))
}

/// Commands name no buffer but the node's own. A buffer stays the node's own
/// until the one command that destroys it, and the node owns none after that.
pub proof fn law_commands_name_the_owned_buffer(node: NodeView, event: EventView)
    requires
        node.stage.wf(),
    ensures
        ({
            let (after, command) = node.next(event);
            &&& command.buffer() matches Some(id) ==> {
                ||| node.stage.buffer() matches Some(owned) && owned.id == id
                ||| takes_buffer(node, event) && event == EventView::BufferCreated(Some(id))
            }
            &&& after.stage.buffer() matches Some(kept) ==> {
                ||| node.stage.buffer() matches Some(owned) && owned.id == kept.id
                ||| takes_buffer(node, event) && event == EventView::BufferCreated(Some(kept.id))
            }
            &&& command is DestroyBuffer <==> node.stage.buffer() is Some
                && after.stage.buffer() is None
        }),
{
}

/// The node after a sequence of events, and the commands it answered with.
pub open spec fn run(node: NodeView, events: Seq<EventView>) -> (NodeView, Seq<CommandView>)
    decreases events.len(),
{
    if events.len() == 0 {
        (node, Seq::<CommandView>::empty())
    } else {
        let (before, commands) = run(node, events.drop_last());
        let (after, command) = before.next(events.last());
        (after, commands.push(command))
    }
}

/// How many buffers the device handed to the node over a sequence of events.
pub open spec fn buffers_taken(node: NodeView, events: Seq<EventView>) -> nat
    decreases events.len(),
{
    if events.len() == 0 {
        0
    } else {
        let taken = buffers_taken(node, events.drop_last());
        if takes_buffer(run(node, events.drop_last()).0, events.last()) {
            taken + 1
        } else {
            taken
        }
    }
}

/// How many of the commands destroy a buffer.
pub open spec fn buffers_destroyed(commands: Seq<CommandView>) -> nat
    decreases commands.len(),
{
    if commands.len() == 0 {
        0
    } else {
        let destroyed = buffers_destroyed(commands.drop_last());
        if commands.last() is DestroyBuffer {
            destroyed + 1
        } else {
            destroyed
        }
    }
}

/// One if the node owns a buffer, else zero.
pub open spec fn buffers_owned(node: NodeView) -> nat {
    if node.stage.buffer() is Some {
        1
    } else {
        0
    }
}

/// No buffer is lost and none is destroyed twice: whatever the driver
/// reports, the buffers that the node was handed are those it has destroyed
/// and the one it still owns. A node that starts idle and is idle again has
/// destroyed every buffer it was handed, each exactly once.
pub proof fn law_every_buffer_is_destroyed_once(node: NodeView, events: Seq<EventView>)
    ensures
        buffers_owned(node) + buffers_taken(node, events) == buffers_destroyed(
            run(node, events).1,
        ) + buffers_owned(run(node, events).0),
        node.stage is Idle && run(node, events).0.stage is Idle ==> buffers_destroyed(
            run(node, events).1,
        ) == buffers_taken(node, events),
    decreases events.len(),
{
    if events.len() > 0 {
        law_every_buffer_is_destroyed_once(node, events.drop_last());
        let (before, commands) = run(node, events.drop_last());
        let (after, command) = before.next(events.last());
        assert(commands.push(command).drop_last() == commands);
        assert(buffers_owned(before) + (if takes_buffer(before, events.last()) {
            1nat
        } else {
            0nat
        }) == (if command is DestroyBuffer {
            1nat
        } else {
            0nat
        }) + buffers_owned(after));
    }
}

} // verus!
