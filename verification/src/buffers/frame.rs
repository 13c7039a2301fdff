//! The frame buffer record.

use vstd::prelude::*;
use crate::binding::{Bind, BindGroupEntry, BindingResource};
use crate::buffers::depth::DepthBuffer;
use crate::texture::Texture;

verus! {

/// An off-screen render target: a color texture and, optionally, a depth
/// buffer.
#[derive(Debug, Clone, Copy, PartialEq, Eq, Structural)]
pub struct FrameBuffer {
    /// The color texture rendered onto.
    pub texture: Texture,
    /// The depth buffer, if the frame buffer was created with one.
    pub depth: Option<DepthBuffer>,
}

impl FrameBuffer {
    /// Amount of pixels in the frame buffer.
    pub fn size(&self) -> (a: u64)
        ensures
            a == self.texture.size.spec_area(),
    {
        self.texture.size.area()
    }

    /// Framebuffer width in pixels.
    pub fn width(&self) -> (w: u32)
        ensures
            w == self.texture.size.width,
    {
        self.texture.size.width
    }

    /// Framebuffer height in pixels.
    pub fn height(&self) -> (h: u32)
        ensures
            h == self.texture.size.height,
    {
        self.texture.size.height
    }
}

impl Bind for FrameBuffer {
    open spec fn resource(&self) -> BindingResource {
        BindingResource::TextureView
    }

    fn binding(&self, index: u32) -> (e: BindGroupEntry) {
        BindGroupEntry { binding: index, resource: BindingResource::TextureView }
    }
}

} // verus!
