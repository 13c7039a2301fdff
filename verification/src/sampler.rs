//! The sampler record.

use vstd::prelude::*;
use crate::binding::{Bind, BindGroupEntry, BindingResource};

verus! {

/// How a sampler filters when a texture is magnified or minified.
#[derive(Debug, Clone, Copy, PartialEq, Eq, Structural)]
pub enum FilterMode {
    /// Take the nearest texel.
    Nearest,
    /// Interpolate between texels.
    Linear,
}

/// How a sampler treats coordinates outside the texture.
#[derive(Debug, Clone, Copy, PartialEq, Eq, Structural)]
pub enum AddressMode {
    /// Clamp to the edge texel.
    ClampToEdge,
    /// Repeat the texture.
    Repeat,
    /// Repeat the texture, mirrored.
    MirrorRepeat,
}

/// The record of a sampler: how a pipeline will sample a texture view.
/// Every sampler clamps to the edge on all three axes and takes the
/// nearest mip level.
#[derive(Debug, Clone, Copy, PartialEq, Eq, Structural)]
pub struct Sampler {
    /// Filtering when magnified.
    pub mag_filter: FilterMode,
    /// Filtering when minified.
    pub min_filter: FilterMode,
}

impl Bind for Sampler {
    open spec fn resource(&self) -> BindingResource {
        BindingResource::Sampler
    }

    fn binding(&self, index: u32) -> (e: BindGroupEntry) {
        BindGroupEntry { binding: index, resource: BindingResource::Sampler }
    }
}

} // verus!
