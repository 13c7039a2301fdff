//! Screen-space measurements used by surfaces, textures and frame buffers.

use vstd::prelude::*;

verus! {

/// A width and height in whole pixels of screen space.
#[derive(Debug, Clone, Copy, PartialEq, Eq, Structural)]
pub struct ScreenSize {
    /// Width in pixels.
    pub width: u32,
    /// Height in pixels.
    pub height: u32,
}

impl ScreenSize {
    /// Pack a width and height.
    pub fn new(width: u32, height: u32) -> (s: Self)
        ensures
            s == (ScreenSize { width, height }),
    {
        ScreenSize { width, height }
    }

    /// The number of pixels covered: width times height.
    pub open spec fn spec_area(self) -> int {
        self.width * self.height
    }

    /// The number of pixels covered: width times height.
    pub fn area(&self) -> (a: u64)
        ensures
            a == self.spec_area(),
    {
        proof {
            assert((self.width as int) * (self.height as int) <= 0xffff_ffff * 0xffff_ffff)
                by (nonlinear_arith)
                requires
                    self.width <= 0xffff_ffff,
                    self.height <= 0xffff_ffff,
            ;
        }
        (self.width as u64) * (self.height as u64)
    }
}

/// An axis-aligned pixel rectangle: an origin and a size.
#[derive(Debug, Clone, Copy, PartialEq, Eq, Structural)]
pub struct Rect {
    /// X coordinate of the origin corner.
    pub origin_x: u32,
    /// Y coordinate of the origin corner.
    pub origin_y: u32,
    /// Width and height of the rectangle.
    pub size: ScreenSize,
}

impl Rect {
    /// Pack an origin and a size.
    pub fn new(origin_x: u32, origin_y: u32, size: ScreenSize) -> (r: Self)
        ensures
            r == (Rect { origin_x, origin_y, size }),
    {
        Rect { origin_x, origin_y, size }
    }
}

impl Default for ScreenSize {
    /// The zero size.
    fn default() -> (s: Self)
        ensures
            s == (ScreenSize { width: 0, height: 0 }),
    {
        ScreenSize { width: 0, height: 0 }
    }
}

} // verus!
