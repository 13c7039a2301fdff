//! The vertex buffer record.

use vstd::prelude::*;

verus! {

/// The record of a vertex buffer: its capacity in bytes, the bytes the
/// native buffer holds, and its debug name.
#[derive(Debug, Clone)]
pub struct VertexBuffer {
    /// Capacity of the buffer in bytes.
    pub size: u32,
    /// The bytes the native buffer holds.
    pub data: Vec<u8>,
    /// Name of the vertex buffer.
    pub name: Option<String>,
}

impl VertexBuffer {
    /// The recorded capacity agrees with the held bytes.
    pub open spec fn well_formed(self) -> bool {
        self.size == self.data.len()
    }

    /// The bytes the native buffer holds.
    pub fn slice(&self) -> (s: &[u8])
        ensures
            s@ == self.data@,
    {
        self.data.as_slice()
    }
}

} // verus!
