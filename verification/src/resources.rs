//! Identifiers and image descriptions shared with the rest of a renderer.

use vstd::prelude::*;

verus! {

/// A frame counter. A texture is registered under the epoch it was drawn in.
#[derive(Debug, Copy, Clone, PartialEq, Eq, Structural, PartialOrd, Ord, Hash)]
pub struct Epoch(pub u32);

/// Tells the documents of one renderer from those of another.
#[derive(Debug, Copy, Clone, PartialEq, Eq, Structural, PartialOrd, Ord, Hash)]
pub struct IdNamespace(pub u32);

/// Names one document, that is one window's rendering pipeline.
#[derive(Debug, Copy, Clone, PartialEq, Eq, Structural, PartialOrd, Ord, Hash)]
pub struct DocumentId {
    pub namespace_id: IdNamespace,
    pub id: u32,
}

/// Names one image that lives outside the renderer, such as a texture.
#[derive(Debug, Copy, Clone, PartialEq, Eq, Structural, PartialOrd, Ord, Hash)]
pub struct ExternalImageId {
    pub inner: u64,
}

/// A size in physical pixels.
#[derive(Debug, Copy, Clone, PartialEq, Eq, Structural, PartialOrd, Ord, Hash)]
pub struct PhysicalSizeU32 {
    pub width: u32,
    pub height: u32,
}

impl PhysicalSizeU32 {
    /// A size of `width` by `height` pixels.
    pub fn new(width: u32, height: u32) -> (r: PhysicalSizeU32)
        ensures
            r.width == width,
            r.height == height,
    {
        PhysicalSizeU32 { width, height }
    }
}

/// How the channels of one pixel are laid out.
#[derive(Debug, Copy, Clone, PartialEq, Eq, Structural, PartialOrd, Ord, Hash)]
pub enum RawImageFormat {
    R8,
    R16,
    RG16,
    BGRA8,
    RGBAF32,
    RG8,
    RGBAI32,
    RGBA8,
}

/// What may be assumed of an image when it is drawn.
#[derive(Debug, Copy, Clone, PartialEq, Eq, Structural, PartialOrd, Ord, Hash)]
pub struct ImageDescriptorFlags {
    pub is_opaque: bool,
    pub allow_mipmaps: bool,
}

/// How the pixels of an image lie in memory.
#[derive(Debug, Copy, Clone, PartialEq, Eq, PartialOrd, Ord, Hash)]
pub struct ImageDescriptor {
    pub format: RawImageFormat,
    pub width: usize,
    pub height: usize,
    pub stride: Option<i32>,
    pub offset: i32,
    pub flags: ImageDescriptorFlags,
}

/// A color of four 8-bit channels.
#[derive(Debug, Copy, Clone, PartialEq, Eq, Structural, PartialOrd, Ord, Hash)]
pub struct ColorU {
    pub r: u8,
    pub g: u8,
    pub b: u8,
    pub a: u8,
}

} // verus!
