//! The binding layer: a declarative list of shader-visible resource slots
//! and the groups of concrete resources bound to them.

use vstd::prelude::*;

verus! {

/// A mask of the shader stages a binding is visible to. Bit 0 is the vertex
/// stage, bit 1 the fragment stage, bit 2 the compute stage.
#[derive(Debug, Clone, Copy, PartialEq, Eq, Structural)]
pub struct ShaderStages {
    /// The raw mask bits.
    pub bits: u32,
}

impl ShaderStages {
    /// Visible to no stage.
    pub fn none() -> (s: Self)
        ensures
            s.bits == 0,
    {
        ShaderStages { bits: 0 }
    }

    /// Visible to the vertex stage.
    pub fn vertex() -> (s: Self)
        ensures
            s.bits == 1,
    {
        ShaderStages { bits: 1 }
    }

    /// Visible to the fragment stage.
    pub fn fragment() -> (s: Self)
        ensures
            s.bits == 2,
    {
        ShaderStages { bits: 2 }
    }

    /// Visible to the compute stage.
    pub fn compute() -> (s: Self)
        ensures
            s.bits == 4,
    {
        ShaderStages { bits: 4 }
    }

    /// Visible to the vertex and fragment stages.
    pub fn vertex_fragment() -> (s: Self)
        ensures
            s.bits == 3,
    {
        ShaderStages { bits: 3 }
    }
}

/// The kind of resource a binding slot accepts.
#[derive(Debug, Clone, Copy, PartialEq, Eq, Structural)]
pub enum BindingType {
    /// A uniform buffer.
    UniformBuffer,
    /// A filtering sampler.
    Sampler,
    /// A filterable 2D float texture.
    Texture,
}

/// One declared binding slot: its kind and its shader-stage visibility.
#[derive(Debug, Clone, Copy, PartialEq, Eq, Structural)]
pub struct Binding {
    /// The kind of resource the slot accepts.
    pub binding: BindingType,
    /// The stages the slot is visible to.
    pub stage: ShaderStages,
}

/// One entry of a built binding-group layout: the slot's binding index
/// within the group, its visibility and its kind.
#[derive(Debug, Clone, Copy, PartialEq, Eq, Structural)]
pub struct BindGroupLayoutEntry {
    /// Binding index within the group, assigned in declaration order.
    pub binding: u32,
    /// The stages the slot is visible to.
    pub visibility: ShaderStages,
    /// The kind of resource the slot accepts.
    pub ty: BindingType,
}

/// The layout of a [`BindingGroup`]: the set index it is attached at, its
/// built entries, and its slot count.
#[derive(Debug, Clone)]
pub struct BindingGroupLayout {
    /// The built layout entries, one per declared slot.
    pub entries: Vec<BindGroupLayoutEntry>,
    /// The number of slots the layout declares.
    pub size: usize,
    /// The set index a group with this layout binds at.
    pub set_index: u32,
}

impl BindingGroupLayout {
    /// The slot count matches the entries, and entry `i` binds at index `i`.
    pub open spec fn well_formed(self) -> bool {
        &&& self.size == self.entries.len()
        &&& forall|i: int| 0 <= i < self.entries.len() ==> #[trigger] self.entries[i].binding == i
    }

    /// Assemble a layout from its parts.
    pub fn new(set_index: u32, entries: Vec<BindGroupLayoutEntry>, size: usize) -> (l: Self)
        ensures
            l == (BindingGroupLayout { entries, size, set_index }),
    {
        BindingGroupLayout { entries, size, set_index }
    }
}

/// A reference to one bindable resource: its kind and, for a uniform
/// buffer, the byte range bound.
#[derive(Debug, Clone, Copy, PartialEq, Eq, Structural)]
pub enum BindingResource {
    /// A uniform buffer, bound from byte `offset` for `size_bytes`
    /// bytes.
    UniformBuffer { offset: u64, size_bytes: u64 },
    /// A sampler.
    Sampler,
    /// A texture view.
    TextureView,
}

/// One entry of a built binding group: a resource bound at a binding index.
#[derive(Debug, Clone, Copy, PartialEq, Eq, Structural)]
pub struct BindGroupEntry {
    /// Binding index within the group.
    pub binding: u32,
    /// The bound resource.
    pub resource: BindingResource,
}

/// Represents an object that can be bound in a binding group.
pub trait Bind {
    /// The resource reference this object binds as.
    spec fn resource(&self) -> BindingResource;

    /// Bind this object at the given binding index.
    fn binding(&self, index: u32) -> (e: BindGroupEntry)
        ensures
            e.binding == index,
            e.resource == self.resource(),
    ;
}

/// A group of concrete resources bound to the slots of one layout, tagged
/// with the set index it must be attached at during a draw call.
#[derive(Debug, Clone)]
pub struct BindingGroup {
    /// The bound resources, one per slot of the layout.
    pub entries: Vec<BindGroupEntry>,
    /// The set index the group binds at.
    pub set_index: u32,
}

impl BindingGroup {
    /// Assemble a group from its parts.
    pub fn new(set_index: u32, entries: Vec<BindGroupEntry>) -> (g: Self)
        ensures
            g == (BindingGroup { entries, set_index }),
    {
        BindingGroup { entries, set_index }
    }
}

} // verus!
