//! A trait for things that can be turned into a vertex buffer.

use vstd::prelude::*;
use crate::buffers::vertex::VertexBuffer;
use crate::painter::Painter;

verus! {

/// Trait for things that are paintable: anything that can hand the
/// painter a vertex buffer of itself.
pub trait Paintable {
    /// Build the vertex buffer of this object.
    fn buffer(&self, p: &Painter) -> VertexBuffer;

    /// Consume the object into its vertex buffer.
    fn finish(self, p: &Painter) -> VertexBuffer where Self: Sized;
}

} // verus!
