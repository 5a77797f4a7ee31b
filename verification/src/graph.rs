//! The part of the render graph that a node sees: resource identifiers and
//! the slots through which nodes hand them to each other.
use vstd::prelude::*;
use crate::error::ReadbackError;

verus! {

/// A texture in the device's resource table.
#[derive(Clone, Copy, Debug, PartialEq, Eq, Structural)]
pub struct TextureId(pub u64);

/// A buffer in the device's resource table.
#[derive(Clone, Copy, Debug, PartialEq, Eq, Structural)]
pub struct BufferId(pub u64);

/// A sampler in the device's resource table.
#[derive(Clone, Copy, Debug, PartialEq, Eq, Structural)]
pub struct SamplerId(pub u64);

/// The kinds of resource that a slot can carry.
#[derive(Clone, Copy, Debug, PartialEq, Eq, Structural)]
pub enum RenderResourceType {
    Buffer,
    Texture,
    Sampler,
}

/// A resource of one of those kinds. The identifiers are never looked into:
/// they only travel back to the device.
#[derive(Clone, Copy, Debug, PartialEq, Eq, Structural)]
pub enum RenderResourceId {
    Buffer(BufferId),
    Texture(TextureId),
    Sampler(SamplerId),
}

impl RenderResourceId {
    /// The kind of the resource.
    pub open spec fn kind(self) -> RenderResourceType {
        match self {
            RenderResourceId::Buffer(_) => RenderResourceType::Buffer,
            RenderResourceId::Texture(_) => RenderResourceType::Texture,
            RenderResourceId::Sampler(_) => RenderResourceType::Sampler,
        }
    }

    pub fn resource_type(&self) -> (kind: RenderResourceType)
        ensures
            kind == self.kind(),
    {
        match self {
            RenderResourceId::Buffer(_) => RenderResourceType::Buffer,
            RenderResourceId::Texture(_) => RenderResourceType::Texture,
            RenderResourceId::Sampler(_) => RenderResourceType::Sampler,
        }
    }
}

/// Name and kind of a slot that a node declares.
#[derive(Clone, Copy, Debug, PartialEq, Eq)]
pub struct ResourceSlotInfo {
    pub name: &'static str,
    pub resource_type: RenderResourceType,
}

/// The texture that a slot is bound to, where it is bound to one.
pub open spec fn bound_texture(slot: Option<RenderResourceId>) -> Option<TextureId> {
    match slot {
        Some(RenderResourceId::Texture(texture)) => Some(texture),
        _ => None,
    }
}

/// Resolves the texture bound to an input slot. A slot that is unbound, or
/// bound to a buffer or a sampler, is a wiring defect of the graph.
pub fn resolve_texture(slot: Option<RenderResourceId>) -> (resolved: Result<TextureId, ReadbackError>)
    ensures
        match bound_texture(slot) {
            Some(texture) => resolved == Ok::<TextureId, ReadbackError>(texture),
            None => resolved == Err::<TextureId, ReadbackError>(ReadbackError::SlotResolutionError),
        },
{
    match slot {
        Some(RenderResourceId::Texture(texture)) => Ok(texture),
        _ => Err(ReadbackError::SlotResolutionError),
    }
}

} // verus!
