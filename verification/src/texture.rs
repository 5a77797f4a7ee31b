//! Textures as the readback sees them: what is read, and what is published.
use vstd::prelude::*;
use crate::layout::Extent;

verus! {

/// A pixel format: an identifier that the device understands, and the bytes
/// that one pixel takes. A size of zero marks a format that cannot be read.
#[derive(Clone, Copy, Debug, PartialEq, Eq, Structural)]
pub struct PixelFormat {
    pub id: u32,
    pub pixel_size: u32,
}

impl PixelFormat {
    pub fn new(id: u32, pixel_size: u32) -> (format: PixelFormat)
        ensures
            format == (PixelFormat { id, pixel_size }),
    {
        PixelFormat { id, pixel_size }
    }

    /// Bytes of one pixel.
    pub fn pixel_size(&self) -> (bytes: u32)
        ensures
            bytes == self.pixel_size,
    {
        self.pixel_size
    }
}

/// Whether a texture is a line, an image or a volume.
#[derive(Clone, Copy, Debug, PartialEq, Eq, Structural)]
pub enum TextureDimension {
    D1,
    D2,
    D3,
}

/// The texel at which a read starts.
#[derive(Clone, Copy, Debug, PartialEq, Eq, Structural)]
pub struct Origin {
    pub x: u32,
    pub y: u32,
    pub z: u32,
}

impl Origin {
    /// The first texel of the texture.
    pub fn zero() -> (origin: Origin)
        ensures
            origin == (Origin { x: 0, y: 0, z: 0 }),
    {
        Origin { x: 0, y: 0, z: 0 }
    }
}

/// What a node reads of its source texture.
#[derive(Clone, Copy, Debug, PartialEq, Eq, Structural)]
pub struct TextureDescriptor {
    pub size: Extent,
    pub mip_level: u32,
    pub dimension: TextureDimension,
    pub format: PixelFormat,
}

/// The identity of an asset in bevy_asset's stores, `bevy_asset::HandleId`.
/// The readback never looks into it: it is the key under which the asset
/// store is asked to replace the texture, and only travels through.
#[verifier::external_type_specification]
#[verifier::external_body]
pub struct ExHandleId(bevy_asset::HandleId);

/// A texture on the host, as it is handed to the asset store.
#[derive(Clone, Debug, PartialEq, Eq)]
pub struct TextureAsset {
    pub size: Extent,
    pub dimension: TextureDimension,
    /// Tightly packed pixel bytes, row after row, slice after slice.
    pub data: Vec<u8>,
    pub format: PixelFormat,
}

/// The value of a [`TextureAsset`].
pub struct TextureAssetView {
    pub size: Extent,
    pub dimension: TextureDimension,
    pub data: Seq<u8>,
    pub format: PixelFormat,
}

impl TextureAssetView {
    /// The data is tightly packed: it has the bytes of the texture's pixels
    /// and no more.
    pub open spec fn is_tightly_packed(self) -> bool {
        self.data.len() == self.size.volume() * self.format.pixel_size
    }
}

impl View for TextureAsset {
    type V = TextureAssetView;

    open spec fn view(&self) -> TextureAssetView {
        TextureAssetView {
            size: self.size,
            dimension: self.dimension,
            data: self.data@,
            format: self.format,
        }
    }
}

impl TextureAsset {
    pub fn new(size: Extent, dimension: TextureDimension, data: Vec<u8>, format: PixelFormat) -> (asset:
        TextureAsset)
        ensures
            asset@ == (TextureAssetView { size, dimension, data: data@, format }),
    {
        TextureAsset { size, dimension, data, format }
    }
}

} // verus!
