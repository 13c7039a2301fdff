//! Colors with 8-bit channels. The float color representation lives with
//! the unverified adapter, since the verified library holds no
//! floating-point values; it is derived channel by channel from [`Rgba8`].

use vstd::prelude::*;

verus! {

/// A RGBA color with 8-bit color channels.
#[derive(Debug, Copy, Clone, PartialEq, Eq, Structural, Hash)]
pub struct Rgba8 {
    /// Red
    pub r: u8,
    /// Green
    pub g: u8,
    /// Blue
    pub b: u8,
    /// Alpha
    pub a: u8,
}

impl Rgba8 {
    /// Pack four channel values into a color.
    pub fn new(r: u8, g: u8, b: u8, a: u8) -> (c: Self)
        ensures
            c == (Rgba8 { r, g, b, a }),
    {
        Rgba8 { r, g, b, a }
    }

    /// Given a slice of bytes holding whole 4-byte RGBA pixels, return the
    /// pixels it holds, in order.
    pub fn align(bytes: &[u8]) -> (pixels: Vec<Rgba8>)
        requires
            bytes@.len() % 4 == 0,
        ensures
            pixels@.len() == bytes@.len() / 4,
            forall|i: int| 0 <= i < pixels@.len() ==> #[trigger] pixels@[i] == (Rgba8 {
                r: bytes@[4 * i],
                g: bytes@[4 * i + 1],
                b: bytes@[4 * i + 2],
                a: bytes@[4 * i + 3],
            }),
    {
        let len = bytes.len();
        let n = len / 4;
        let mut pixels: Vec<Rgba8> = Vec::new();
        let mut i: usize = 0;
        while i < n
            invariant
                bytes@.len() == 4 * n,
                4 * n <= usize::MAX,
                0 <= i <= n,
                pixels@.len() == i,
                forall|j: int| 0 <= j < i ==> #[trigger] pixels@[j] == (Rgba8 {
                    r: bytes@[4 * j],
                    g: bytes@[4 * j + 1],
                    b: bytes@[4 * j + 2],
                    a: bytes@[4 * j + 3],
                }),
            decreases n - i,
        {
            pixels.push(Rgba8 {
                r: bytes[4 * i],
                g: bytes[4 * i + 1],
                b: bytes[4 * i + 2],
                a: bytes[4 * i + 3],
            });
            i = i + 1;
        }
        pixels
    }
}

/// A BGRA color with 8-bit color channels.
#[derive(Debug, Copy, Clone, PartialEq, Eq, Structural, Hash)]
pub struct Bgra8 {
    /// Blue
    pub b: u8,
    /// Green
    pub g: u8,
    /// Red
    pub r: u8,
    /// Alpha
    pub a: u8,
}

impl Bgra8 {
    /// Pack four channel values into a color.
    pub fn new(b: u8, g: u8, r: u8, a: u8) -> (c: Self)
        ensures
            c == (Bgra8 { b, g, r, a }),
    {
        Bgra8 { b, g, r, a }
    }

    /// Given a slice of bytes holding whole 4-byte BGRA pixels, return the
    /// pixels it holds, in order.
    pub fn align(bytes: &[u8]) -> (pixels: Vec<Bgra8>)
        requires
            bytes@.len() % 4 == 0,
        ensures
            pixels@.len() == bytes@.len() / 4,
            forall|i: int| 0 <= i < pixels@.len() ==> #[trigger] pixels@[i] == (Bgra8 {
                b: bytes@[4 * i],
                g: bytes@[4 * i + 1],
                r: bytes@[4 * i + 2],
                a: bytes@[4 * i + 3],
            }),
    {
        let len = bytes.len();
        let n = len / 4;
        let mut pixels: Vec<Bgra8> = Vec::new();
        let mut i: usize = 0;
        while i < n
            invariant
                bytes@.len() == 4 * n,
                4 * n <= usize::MAX,
                0 <= i <= n,
                pixels@.len() == i,
                forall|j: int| 0 <= j < i ==> #[trigger] pixels@[j] == (Bgra8 {
                    b: bytes@[4 * j],
                    g: bytes@[4 * j + 1],
                    r: bytes@[4 * j + 2],
                    a: bytes@[4 * j + 3],
                }),
            decreases n - i,
        {
            pixels.push(Bgra8 {
                b: bytes[4 * i],
                g: bytes[4 * i + 1],
                r: bytes[4 * i + 2],
                a: bytes[4 * i + 3],
            });
            i = i + 1;
        }
        pixels
    }
}

impl From<Bgra8> for Rgba8 {
    /// Reorder the channels of a BGRA color into RGBA; every channel keeps
    /// its value.
    fn from(bgra: Bgra8) -> (c: Rgba8) {
        Rgba8 { r: bgra.r, g: bgra.g, b: bgra.b, a: bgra.a }
    }
}

impl vstd::std_specs::convert::FromSpecImpl<Bgra8> for Rgba8 {
    open spec fn obeys_from_spec() -> bool {
        true
    }

    open spec fn from_spec(bgra: Bgra8) -> Rgba8 {
        Rgba8 { r: bgra.r, g: bgra.g, b: bgra.b, a: bgra.a }
    }
}

} // verus!
