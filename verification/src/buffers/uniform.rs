//! The uniform buffer record.

use vstd::prelude::*;
use crate::binding::{Bind, BindGroupEntry, BindingResource};

verus! {

/// The record of a uniform buffer: the byte size of one element, the
/// element count, the bytes the native buffer holds, and its debug name.
/// The capacity in bytes is the element size times the count.
#[derive(Debug, Clone)]
pub struct UniformBuffer {
    /// Byte size of one element.
    pub size: usize,
    /// Number of elements.
    pub count: usize,
    /// The bytes the native buffer holds.
    pub data: Vec<u8>,
    /// Name of the uniform buffer.
    pub name: Option<String>,
}

impl UniformBuffer {
    /// The capacity of the buffer in bytes.
    pub open spec fn spec_capacity(self) -> int {
        self.size * self.count
    }

    /// The recorded element size and count agree with the held bytes.
    pub open spec fn well_formed(self) -> bool {
        self.data.len() == self.spec_capacity()
    }
}

impl Bind for UniformBuffer {
    /// The whole capacity of the buffer, bound at offset 0. On a
    /// well-formed buffer the capacity fits the byte-range type; a
    /// capacity beyond it is clamped to its largest value.
    open spec fn resource(&self) -> BindingResource {
        BindingResource::UniformBuffer {
            offset: 0,
            size_bytes: if self.spec_capacity() <= u64::MAX {
                self.spec_capacity() as u64
            } else {
                u64::MAX
            },
        }
    }

    fn binding(&self, index: u32) -> (e: BindGroupEntry) {
        let size_bytes = match (self.size as u64).checked_mul(self.count as u64) {
            Some(p) => p,
            None => u64::MAX,
        };
        BindGroupEntry {
            binding: index,
            resource: BindingResource::UniformBuffer { offset: 0, size_bytes },
        }
    }
}

} // verus!
