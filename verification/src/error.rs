//! The ways a readback can fail.
use vstd::prelude::*;

verus! {

/// Why an invocation of the readback node ended without publishing.
#[derive(Clone, Copy, Debug, PartialEq, Eq, Structural)]
pub enum ReadbackError {
    /// Some dimension of the extent to read is zero.
    InvalidExtent,
    /// The pixel format has a per-pixel size of zero bytes.
    InvalidFormat,
    /// The input slot is unbound or bound to something that is no texture.
    SlotResolutionError,
    /// The device could not supply a staging buffer of the planned size.
    BufferCreationFailure,
    /// The row pitch does not conform to the device's alignment, or the
    /// staging buffer is smaller than the copy needs.
    CopyFailure,
    /// The staging buffer could not be mapped, or the mapping did not deliver
    /// the bytes that were asked for.
    MapFailure,
    /// The asset store holds nothing under the destination handle.
    AssetHandleMissing,
}

impl ReadbackError {
    /// A wiring defect of the graph, as opposed to a failure of one
    /// invocation: only an input slot that cannot be resolved is one.
    pub open spec fn is_structural(self) -> bool {
        self is SlotResolutionError
    }

    /// Whether the error should fail the validation of the graph rather than
    /// be retried on a later frame. All other errors end only the invocation
    /// in which they arise.
    pub fn fails_graph_validation(self) -> (structural: bool)
        ensures
            structural == self.is_structural(),
    {
        match self {
            ReadbackError::SlotResolutionError => true,
            _ => false,
        }
    }
}

} // verus!
