//! The buffer records mutated by the growth/update protocol.
//!
//! Each buffer struct records what the layer reads of a native buffer: its
//! capacity, its debug name, and — in the `data` field — the bytes or
//! elements the native buffer holds, so that contracts can speak of the
//! written content. The unverified adapter keeps the native handle beside
//! the record and performs each decided write.

pub mod depth;
pub mod frame;
pub mod index;
pub mod uniform;
pub mod vertex;

pub use depth::DepthBuffer;
pub use frame::FrameBuffer;
pub use index::{IndexBuffer, IndexBuffer32};
pub use uniform::UniformBuffer;
pub use vertex::VertexBuffer;

use vstd::prelude::*;

verus! {

/// Overwrite the first `src.len()` entries of `dst` with `src`, leaving
/// the entries beyond them untouched.
pub fn write_prefix<T: Copy>(dst: &mut Vec<T>, src: &[T])
    requires
        src@.len() <= old(dst)@.len(),
    ensures
        final(dst)@ == src@ + old(dst)@.skip(src@.len() as int),
{
    let n = src.len();
    let mut i: usize = 0;
    while i < n
        invariant
            n == src@.len() <= dst@.len(),
            dst@.len() == old(dst)@.len(),
            0 <= i <= n,
            forall|j: int| 0 <= j < i ==> dst@[j] == src@[j],
            forall|j: int| i <= j < dst@.len() ==> dst@[j] == old(dst)@[j],
        decreases n - i,
    {
        dst[i] = src[i];
        i = i + 1;
    }
    proof {
        assert(dst@ =~= src@ + old(dst)@.skip(n as int));
    }
}

} // verus!
