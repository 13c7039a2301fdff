//! The depth buffer record.

use vstd::prelude::*;
use crate::texture::{Texture, TextureFormat};

verus! {

/// A depth buffer: a texture in the depth format.
#[derive(Debug, Clone, Copy, PartialEq, Eq, Structural)]
pub struct DepthBuffer {
    /// The texture backing the depth buffer.
    pub texture: Texture,
}

impl DepthBuffer {
    /// The pixel format every depth buffer is created with.
    pub fn format() -> (f: TextureFormat)
        ensures
            f == TextureFormat::Depth32Float,
    {
        TextureFormat::Depth32Float
    }
}

} // verus!
