//! Textures and the parameters of texture content transfers.
//!
//! A [`Texture`] records what the layer reads of a native texture: its
//! extent, format and logical size. Content operations (clear, fill,
//! transfer) are decided here: each returns a [`TextureCopy`] naming the
//! exact region and row pitch of the native write, which the unverified
//! adapter performs.

use vstd::prelude::*;
use crate::binding::{Bind, BindGroupEntry, BindingResource};
use crate::transform::{Rect, ScreenSize};

verus! {

/// The pixel format of a texture.
#[derive(Debug, Clone, Copy, PartialEq, Eq, Structural)]
pub enum TextureFormat {
    /// 8-bit BGRA, linear.
    Bgra8Unorm,
    /// 8-bit BGRA, sRGB.
    Bgra8UnormSrgb,
    /// 8-bit RGBA, linear.
    Rgba8Unorm,
    /// 8-bit RGBA, sRGB.
    Rgba8UnormSrgb,
    /// 32-bit float depth.
    Depth32Float,
}

/// The extent of a texture in texels and layers.
#[derive(Debug, Clone, Copy, PartialEq, Eq, Structural)]
pub struct Extent3d {
    /// Width in texels.
    pub width: u32,
    /// Height in texels.
    pub height: u32,
    /// Depth, or the number of array layers.
    pub depth_or_array_layers: u32,
}

/// A mask of the ways a texture may be used. Bit 0 allows copies out of the
/// texture, bit 1 copies into it, bit 2 sampling it from a shader, bit 3
/// storage binding, bit 4 rendering onto it.
#[derive(Debug, Clone, Copy, PartialEq, Eq, Structural)]
pub struct TextureUsages {
    /// The raw mask bits.
    pub bits: u32,
}

impl TextureUsages {
    /// A source of copies.
    pub fn copy_src() -> (u: Self)
        ensures
            u.bits == 1,
    {
        TextureUsages { bits: 1 }
    }

    /// A destination of copies.
    pub fn copy_dst() -> (u: Self)
        ensures
            u.bits == 2,
    {
        TextureUsages { bits: 2 }
    }

    /// Bindable as a sampled texture.
    pub fn texture_binding() -> (u: Self)
        ensures
            u.bits == 4,
    {
        TextureUsages { bits: 4 }
    }

    /// Bindable as a storage texture.
    pub fn storage_binding() -> (u: Self)
        ensures
            u.bits == 8,
    {
        TextureUsages { bits: 8 }
    }

    /// Usable as a render attachment.
    pub fn render_attachment() -> (u: Self)
        ensures
            u.bits == 16,
    {
        TextureUsages { bits: 16 }
    }

    /// The union of two usage masks.
    pub fn or(self, other: Self) -> (u: Self)
        ensures
            u.bits == self.bits | other.bits,
    {
        TextureUsages { bits: self.bits | other.bits }
    }
}

/// The record of a texture: extent, format, logical size, sample count
/// and allowed usages. The native texture and its view live with the
/// unverified adapter.
#[derive(Debug, Clone, Copy, PartialEq, Eq, Structural)]
pub struct Texture {
    /// The allocated extent.
    pub extent: Extent3d,
    /// Format of the texture.
    pub format: TextureFormat,
    /// Size of the texture in pixels.
    pub size: ScreenSize,
    /// Samples per texel; 1 means not multisampled.
    pub sample_count: u32,
    /// The ways the texture may be used.
    pub usage: TextureUsages,
}

/// One decided native texture write: the destination region, the byte
/// layout of the rows, and the extent of the copy.
#[derive(Debug, Clone, Copy, PartialEq, Eq, Structural)]
pub struct TextureCopy {
    /// Destination x origin in texels.
    pub origin_x: u32,
    /// Destination y origin in texels.
    pub origin_y: u32,
    /// Bytes per row of the source data.
    pub bytes_per_row: u32,
    /// Rows per image of the source data.
    pub rows_per_image: u32,
    /// The extent of the copy.
    pub extent: Extent3d,
}

impl Texture {
    /// The texture's extent agrees with its logical size and covers one
    /// layer.
    pub open spec fn well_formed(self) -> bool {
        &&& self.extent.width == self.size.width
        &&& self.extent.height == self.size.height
        &&& self.extent.depth_or_array_layers == 1
    }

    /// Decide the native write that fills the whole texture from a pixel
    /// buffer of `pixel_count` pixels laid out as `byte_len` bytes: the
    /// write covers the full extent from the top-left corner, and each row
    /// of it holds the texture's width of pixels.
    ///
    /// The pixel buffer must hold at least one pixel per texel of the
    /// texture; a shorter buffer is a programming error.
    pub fn fill(&self, pixel_count: u64, byte_len: u64) -> (c: TextureCopy)
        requires
            self.well_formed(),
            pixel_count >= self.size.spec_area(),
            self.size.height > 0,
            byte_len == pixel_count * 4,
            byte_len / (self.size.height as u64) <= u32::MAX,
        ensures
            c.origin_x == 0,
            c.origin_y == 0,
            c.extent == self.extent,
            c.bytes_per_row == byte_len / (self.size.height as u64),
            c.rows_per_image == self.size.height,
    {
        TextureCopy {
            origin_x: 0,
            origin_y: 0,
            bytes_per_row: (byte_len / (self.size.height as u64)) as u32,
            rows_per_image: self.size.height,
            extent: self.extent,
        }
    }

    /// Decide the native write that transfers a pixel rectangle into the
    /// region `rect` of the texture. The y axis of the native texture
    /// points down, so the destination origin is the rectangle's origin
    /// with its y coordinate flipped; the copy covers exactly the
    /// rectangle's extent, one layer deep, with each source row holding the
    /// rectangle's width of 4-byte pixels.
    ///
    /// The rectangle must lie inside the texture.
    pub fn transfer(&self, rect: Rect) -> (c: TextureCopy)
        requires
            self.well_formed(),
            rect.origin_x + rect.size.width <= self.size.width,
            rect.origin_y + rect.size.height <= self.size.height,
            rect.size.width * 4 <= u32::MAX,
        ensures
            c.origin_x == rect.origin_x,
            c.origin_y == self.size.height - (rect.origin_y + rect.size.height),
            c.extent == (Extent3d {
                width: rect.size.width,
                height: rect.size.height,
                depth_or_array_layers: 1,
            }),
            c.bytes_per_row == rect.size.width * 4,
            c.rows_per_image == rect.size.height,
    {
        TextureCopy {
            origin_x: rect.origin_x,
            origin_y: self.size.height - (rect.origin_y + rect.size.height),
            bytes_per_row: rect.size.width * 4,
            rows_per_image: rect.size.height,
            extent: Extent3d {
                width: rect.size.width,
                height: rect.size.height,
                depth_or_array_layers: 1,
            },
        }
    }

    /// Decide the extent of a blit from the rectangle `src` of this
    /// texture onto the rectangle `dst`: the two rectangles must cover
    /// the same number of pixels, and the copy covers exactly the source
    /// rectangle's extent, one layer deep.
    pub fn blit(&self, src: Rect, dst: Rect) -> (e: Extent3d)
        requires
            src.size.spec_area() == dst.size.spec_area(),
        ensures
            e == (Extent3d {
                width: src.size.width,
                height: src.size.height,
                depth_or_array_layers: 1,
            }),
    {
        Extent3d { width: src.size.width, height: src.size.height, depth_or_array_layers: 1 }
    }

    /// Decide the bytes and the native write that clear the whole
    /// texture to one color: one 4-byte pixel of the color per texel, in
    /// row order, written over the full extent from the top-left corner.
    pub fn clear(&self, colour: crate::color::Rgba8) -> (r: (Vec<u8>, TextureCopy))
        requires
            self.well_formed(),
            self.size.height > 0,
            self.size.spec_area() * 4 <= usize::MAX,
            self.size.width * 4 <= u32::MAX,
        ensures
            r.0@.len() == self.size.spec_area() * 4,
            forall|k: int| 0 <= k < r.0@.len() ==> #[trigger] r.0@[k] == (if k % 4 == 0 {
                colour.r
            } else if k % 4 == 1 {
                colour.g
            } else if k % 4 == 2 {
                colour.b
            } else {
                colour.a
            }),
            r.1.origin_x == 0,
            r.1.origin_y == 0,
            r.1.extent == self.extent,
            r.1.bytes_per_row == self.size.width * 4,
            r.1.rows_per_image == self.size.height,
    {
        let count = self.size.area();
        let n = (count as usize) * 4;
        let mut pixels: Vec<u8> = Vec::new();
        let mut k: usize = 0;
        while k < n
            invariant
                pixels@.len() == k,
                0 <= k <= n,
                forall|j: int| 0 <= j < k ==> #[trigger] pixels@[j] == (if j % 4 == 0 {
                    colour.r
                } else if j % 4 == 1 {
                    colour.g
                } else if j % 4 == 2 {
                    colour.b
                } else {
                    colour.a
                }),
            decreases n - k,
        {
            let rem = k % 4;
            let b: u8 = if rem == 0 {
                colour.r
            } else if rem == 1 {
                colour.g
            } else if rem == 2 {
                colour.b
            } else {
                colour.a
            };
            pixels.push(b);
            k = k + 1;
        }
        proof {
            let w = self.size.width as int;
            let h = self.size.height as int;
            assert(count * 4 == h * (4 * w)) by (nonlinear_arith)
                requires
                    count == w * h,
            ;
            vstd::arithmetic::div_mod::lemma_div_multiples_vanish(4 * w, h);
        }
        let copy = self.fill(count, count * 4);
        (pixels, copy)
    }
}

impl Bind for Texture {
    open spec fn resource(&self) -> BindingResource {
        BindingResource::TextureView
    }

    fn binding(&self, index: u32) -> (e: BindGroupEntry) {
        BindGroupEntry { binding: index, resource: BindingResource::TextureView }
    }
}

} // verus!
