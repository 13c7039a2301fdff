//! The main interface of the layer: creation calls forwarded to the
//! device facade, and the buffer growth/update protocol.
//!
//! # The growth protocol
//!
//! Every update of a vertex, index or uniform buffer follows one rule.
//! When the new data fits the buffer's capacity, it is written in place at
//! offset 0: the buffer's capacity, identity and debug name are untouched,
//! the region beyond the written data keeps its old content, and no
//! replacement is returned. When the new data exceeds the capacity, a
//! brand-new buffer of exactly the data's size is returned, carrying the
//! original debug name; the caller swaps its stored buffer for the
//! replacement ([`Painter::update_pipeline`] does so in place). Capacity
//! never shrinks.

use vstd::prelude::*;
use crate::binding::{BindingGroup, BindingGroupLayout, BindingResource};
use crate::buffers::depth::DepthBuffer;
use crate::buffers::frame::FrameBuffer;
use crate::buffers::index::{padded, padded_len, IndexBuffer, IndexBuffer32};
use crate::buffers::uniform::UniformBuffer;
use crate::buffers::vertex::VertexBuffer;
use crate::device::{Device, PresentMode};
use crate::error::ParrotError;
use crate::pipeline::{Blending, MultisampleState, PipelineFactory, Plumber};
use crate::sampler::{FilterMode, Sampler};
use crate::texture::{Texture, TextureFormat, TextureUsages};
use crate::transform::ScreenSize;
use crate::vertex::VertexLayout;

verus! {

/// What one uniform-buffer update leaves behind: writing `data` into a
/// buffer of the capacity `pre` records either fits and rewrites the
/// buffer in place, or returns a brand-new buffer and leaves the old one
/// untouched.
pub open spec fn uniform_update_spec(
    pre: UniformBuffer,
    post: UniformBuffer,
    r: Option<UniformBuffer>,
    data: Seq<u8>,
    elem_size: int,
) -> bool {
    if data.len() <= pre.spec_capacity() {
        &&& r is None
        &&& post.size == pre.size
        &&& post.count == pre.count
        &&& post.name == pre.name
        &&& post.data@ == data + pre.data@.skip(data.len() as int)
    } else {
        &&& post == pre
        &&& r matches Some(nb) && {
            &&& nb.size == elem_size
            &&& nb.count == data.len() as int / elem_size
            &&& nb.data@ == data
            &&& nb.name == pre.name
        }
    }
}

/// What one vertex-buffer update leaves behind.
pub open spec fn vertex_update_spec(
    pre: VertexBuffer,
    post: VertexBuffer,
    r: Option<VertexBuffer>,
    data: Seq<u8>,
) -> bool {
    if data.len() <= pre.size {
        &&& r is None
        &&& post.size == pre.size
        &&& post.name == pre.name
        &&& post.data@ == data + pre.data@.skip(data.len() as int)
    } else {
        &&& post == pre
        &&& r matches Some(nb) && {
            &&& nb.size == data.len()
            &&& nb.data@ == data
            &&& nb.name == pre.name
        }
    }
}

/// What one 16-bit index-buffer update leaves behind: the written run is
/// padded to the write granularity, and the live count becomes the run's
/// logical length.
pub open spec fn index_update_spec(
    pre: IndexBuffer,
    post: IndexBuffer,
    r: Option<IndexBuffer>,
    indices: Seq<u16>,
) -> bool {
    if indices.len() <= pre.size {
        &&& r is None
        &&& post.size == pre.size
        &&& post.name == pre.name
        &&& post.elements == indices.len()
        &&& post.data@ == padded(indices) + pre.data@.skip(padded_len(indices.len() as int))
    } else {
        &&& post == pre
        &&& r matches Some(nb) && {
            &&& nb.size == indices.len()
            &&& nb.elements == indices.len()
            &&& nb.data@ == padded(indices)
            &&& nb.name == pre.name
        }
    }
}

/// What one 32-bit index-buffer update leaves behind.
pub open spec fn index32_update_spec(
    pre: IndexBuffer32,
    post: IndexBuffer32,
    r: Option<IndexBuffer32>,
    indices: Seq<u32>,
) -> bool {
    if indices.len() <= pre.size {
        &&& r is None
        &&& post.size == pre.size
        &&& post.name == pre.name
        &&& post.elements == indices.len()
        &&& post.data@ == indices + pre.data@.skip(indices.len() as int)
    } else {
        &&& post == pre
        &&& r matches Some(nb) && {
            &&& nb.size == indices.len()
            &&& nb.elements == indices.len()
            &&& nb.data@ == indices
            &&& nb.name == pre.name
        }
    }
}

/// The vertex buffer a caller holds after one update of the growth
/// protocol, once any replacement has been swapped in: rewritten in
/// place when the data fits the capacity, else the brand-new buffer of
/// exactly the data's size, under the original debug name.
pub open spec fn vertex_buffer_after_update(
    pre: VertexBuffer,
    live: VertexBuffer,
    data: Seq<u8>,
) -> bool {
    if data.len() <= pre.size {
        &&& live.size == pre.size
        &&& live.name == pre.name
        &&& live.data@ == data + pre.data@.skip(data.len() as int)
    } else {
        &&& live.size == data.len()
        &&& live.data@ == data
        &&& live.name == pre.name
    }
}

/// The 16-bit index buffer a caller holds after one update of the
/// growth protocol, once any replacement has been swapped in.
pub open spec fn index_buffer_after_update(
    pre: IndexBuffer,
    live: IndexBuffer,
    indices: Seq<u16>,
) -> bool {
    if indices.len() <= pre.size {
        &&& live.size == pre.size
        &&& live.name == pre.name
        &&& live.elements == indices.len()
        &&& live.data@ == padded(indices) + pre.data@.skip(padded_len(indices.len() as int))
    } else {
        &&& live.size == indices.len()
        &&& live.elements == indices.len()
        &&& live.data@ == padded(indices)
        &&& live.name == pre.name
    }
}

/// The main interface for the layer.
///
/// Use the painter to create buffers, textures, samplers, binding groups
/// and pipelines, and to run the growth/update protocol on the buffers of
/// a custom pipeline each frame.
#[derive(Debug, Clone)]
pub struct Painter {
    /// The device facade.
    pub device: Device,
    /// Samples per pixel; values above 1 enable multisampling.
    pub sample_count: u32,
    /// The preferred texture format of the surface.
    pub pref_format: TextureFormat,
}

impl Painter {
    /// The painter for a freshly acquired device, with the given sample
    /// count and the surface's preferred texture format.
    pub fn new(sample_count: u32, pref_format: TextureFormat) -> (p: Self)
        ensures
            p.sample_count == sample_count,
            p.pref_format == pref_format,
            p.device.config() is None,
    {
        Painter { device: Device::new(), sample_count, pref_format }
    }

    /// Returns the preferred texture format of the surface.
    pub fn preferred_format(&self) -> (f: TextureFormat)
        ensures
            f == self.pref_format,
    {
        self.pref_format
    }

    /// Get the sample count.
    pub fn sample_count(&self) -> (c: u32)
        ensures
            c == self.sample_count,
    {
        self.sample_count
    }

    /// Get the size of the surface.
    pub fn size(&self) -> (s: ScreenSize)
        ensures
            s == self.device.size(),
    {
        self.device.get_size()
    }

    /// Update the sample count. The caller takes responsibility for
    /// rebuilding the pipelines and textures that depend on it.
    pub fn update_sample_count(&mut self, samples: u32)
        ensures
            final(self).sample_count == samples,
            final(self).pref_format == old(self).pref_format,
            final(self).device == old(self).device,
    {
        self.sample_count = samples;
    }

    /// Configure the surface.
    pub fn configure(&mut self, size: ScreenSize, mode: PresentMode, format: TextureFormat)
        ensures
            final(self).device.size() == size,
            final(self).device.config() matches Some(c) && c.format == format
                && c.present_mode == mode && c.width == size.width && c.height == size.height,
            final(self).sample_count == old(self).sample_count,
            final(self).pref_format == old(self).pref_format,
    {
        self.device.configure(size, mode, format)
    }

    /// Create a texture of the given size, format and usage. A
    /// multisampled texture takes the painter's sample count; any other
    /// takes a single sample.
    pub fn texture(
        &self,
        size: ScreenSize,
        format: TextureFormat,
        usage: TextureUsages,
        name: Option<String>,
        multisampled: bool,
    ) -> (t: Texture)
        ensures
            t.size == size,
            t.format == format,
            t.usage == usage,
            t.sample_count == (if multisampled {
                self.sample_count
            } else {
                1u32
            }),
            t.well_formed(),
    {
        let sample_count = if multisampled {
            self.sample_count
        } else {
            1
        };
        self.device.create_texture(size, format, usage, name, sample_count)
    }

    /// Create a depth buffer covering the surface, with the painter's
    /// sample count.
    pub fn depth_buffer(&self, name: Option<String>) -> (b: DepthBuffer)
        ensures
            b.texture.format == TextureFormat::Depth32Float,
            b.texture.size == self.device.size(),
            b.texture.sample_count == self.sample_count,
            b.texture.well_formed(),
    {
        self.device.create_depth_buffer(self.sample_count, name)
    }

    /// Create a vertex buffer holding the given bytes.
    pub fn vertex_buffer(&self, verts: &[u8], name: Option<String>) -> (b: VertexBuffer)
        requires
            verts@.len() <= u32::MAX,
        ensures
            b.size == verts@.len(),
            b.data@ == verts@,
            b.name == name,
            b.well_formed(),
    {
        self.device.create_vertex_buffer(verts, name)
    }

    /// Create a 16-bit index buffer holding the given indices.
    pub fn index_buffer(&self, indicies: &[u16], name: Option<String>) -> (b: IndexBuffer)
        requires
            indicies@.len() + 3 <= u32::MAX,
        ensures
            b.size == indicies@.len(),
            b.elements == indicies@.len(),
            b.data@ == padded(indicies@),
            b.name == name,
            b.well_formed(),
    {
        self.device.create_index_buffer(indicies, name)
    }

    /// Create a 32-bit index buffer holding the given indices.
    pub fn index_buffer_32(&self, indicies: &[u32], name: Option<String>) -> (b: IndexBuffer32)
        requires
            indicies@.len() <= u32::MAX,
        ensures
            b.size == indicies@.len(),
            b.elements == indicies@.len(),
            b.data@ == indicies@,
            b.name == name,
            b.well_formed(),
    {
        self.device.create_index_buffer_32(indicies, name)
    }

    /// Create a uniform buffer holding the given bytes, laid out as
    /// `count` elements of `elem_size` bytes each.
    pub fn uniform_buffer(
        &self,
        buf: &[u8],
        elem_size: usize,
        count: usize,
        name: Option<String>,
    ) -> (b: UniformBuffer)
        requires
            elem_size * count == buf@.len(),
        ensures
            b.size == elem_size,
            b.count == count,
            b.data@ == buf@,
            b.name == name,
            b.well_formed(),
    {
        self.device.create_uniform_buffer(buf, elem_size, count, name)
    }

    /// Create a binding group; see
    /// [`Device::create_binding_group`](crate::device::Device::create_binding_group).
    pub fn binding_group(
        &self,
        layout: &BindingGroupLayout,
        binds: &[BindingResource],
        name: Option<String>,
    ) -> (r: Result<BindingGroup, ParrotError>)
        requires
            binds@.len() <= u32::MAX,
        ensures
            r is Ok <==> binds@.len() == layout.size,
            r matches Ok(g) ==> {
                &&& g.set_index == layout.set_index
                &&& g.entries@.len() == binds@.len()
                &&& forall|i: int| 0 <= i < binds@.len() ==> #[trigger] g.entries@[i].binding == i
                    && g.entries@[i].resource == binds@[i]
            },
            r matches Err(e) ==> e == (ParrotError::BindingSizeMismatch {
                expected: layout.size,
                actual: binds@.len() as usize,
            }),
    {
        self.device.create_binding_group(layout, binds, name)
    }

    /// Create a sampler with the given minification and magnification
    /// filters.
    pub fn sampler(
        &self,
        min_filter: FilterMode,
        mag_filter: FilterMode,
        name: Option<String>,
    ) -> (s: Sampler)
        ensures
            s == (Sampler { mag_filter, min_filter }),
    {
        self.device.create_sampler(mag_filter, min_filter, name)
    }

    /// Create a pipeline with a depth-stencil stage, from the description
    /// the [`Plumber`] type supplies.
    pub fn pipeline<T: Plumber>(
        &self,
        blending: Blending,
        format: TextureFormat,
        shader_name: Option<String>,
    ) -> (t: T) {
        let desc = T::description();
        let pipe_layout = self.device.create_pipeline_layout(
            match &desc.pipeline_layout {
                Some(v) => Some(v.as_slice()),
                None => None,
            },
        );
        let vertex_layout = VertexLayout::from(desc.vertex_layout.as_slice());
        let shader = self.device.create_shader(desc.shader, shader_name);
        let pipe = self.device.create_pipeline(
            pipe_layout,
            vertex_layout,
            blending,
            shader,
            format,
            self.multisample_state(),
            desc.name,
        );
        T::setup(pipe, self)
    }

    /// Create a pipeline without any depth-stencil stage, from the
    /// description the [`Plumber`] type supplies.
    pub fn pipeline_no_depth<T: Plumber>(
        &self,
        blending: Blending,
        format: TextureFormat,
        shader_name: Option<String>,
    ) -> (t: T) {
        let desc = T::description();
        let pipe_layout = self.device.create_pipeline_layout(
            match &desc.pipeline_layout {
                Some(v) => Some(v.as_slice()),
                None => None,
            },
        );
        let vertex_layout = VertexLayout::from(desc.vertex_layout.as_slice());
        let shader = self.device.create_shader(desc.shader, shader_name);
        let pipe = self.device.create_pipeline_no_depth(
            pipe_layout,
            vertex_layout,
            blending,
            shader,
            format,
            self.multisample_state(),
            desc.name,
        );
        T::setup(pipe, self)
    }

    /// Create a pipeline whose native pipeline object the caller builds
    /// itself, through the supplied factory.
    pub fn custom_pipeline<T: Plumber, F: PipelineFactory>(
        &self,
        shader_name: Option<String>,
        factory: &F,
    ) -> (t: T) {
        let desc = T::description();
        let pipe_layout = self.device.create_pipeline_layout(
            match &desc.pipeline_layout {
                Some(v) => Some(v.as_slice()),
                None => None,
            },
        );
        let vertex_layout = VertexLayout::from(desc.vertex_layout.as_slice());
        let shader = self.device.create_shader(desc.shader, shader_name);
        let pipe = factory.build(
            &self.device,
            pipe_layout,
            vertex_layout,
            shader,
            self.multisample_state(),
            desc.name,
        );
        T::setup(pipe, self)
    }

    /// The multisample settings every built pipeline takes: the painter's
    /// sample count, every sample written, coverage not driven by alpha.
    pub fn multisample_state(&self) -> (m: MultisampleState)
        ensures
            m == (MultisampleState {
                count: self.sample_count,
                mask: u64::MAX,
                alpha_to_coverage_enabled: false,
            }),
    {
        MultisampleState {
            count: self.sample_count,
            mask: u64::MAX,
            alpha_to_coverage_enabled: false,
        }
    }

    /// Update the pipeline: run the caller's `prepare` hook and apply the
    /// growth/update protocol to each uniform buffer it names. A
    /// replacement buffer is swapped into the pipeline core in place.
    /// Updates that name no uniform buffer of the core, or whose data
    /// does not fit whole elements, or whose buffer records disagree with
    /// their held bytes, are ignored.
    pub fn update_pipeline<T: Plumber>(&mut self, pipe: &mut T, prep: T::PrepareContext) {
        let updates = pipe.prepare(prep, self);
        let pc = pipe.pipeline_core_mut();
        let n = updates.len();
        let mut i: usize = 0;
        while i < n
            invariant
                n == updates@.len(),
                0 <= i <= n,
            decreases n - i,
        {
            let u = &updates[i];
            if u.buffer_index < pc.uniforms.len() && u.elem_size > 0 && u.data.len()
                % u.elem_size == 0 {
                let buffer = &mut pc.uniforms[u.buffer_index];
                let capacity_ok = match buffer.size.checked_mul(buffer.count) {
                    Some(c) => c == buffer.data.len(),
                    None => false,
                };
                if capacity_ok {
                    if let Some(nb) = self.update_buffer(u.data.as_slice(), u.elem_size, buffer) {
                        pc.uniforms[u.buffer_index] = nb;
                    }
                }
            }
            i = i + 1;
        }
    }

    /// Update a uniform buffer by the growth protocol: write in place
    /// when the bytes fit the capacity, else hand back a brand-new buffer
    /// of exactly the bytes' size, laid out as elements of `elem_size`
    /// bytes, under the original debug name.
    pub fn update_buffer(&mut self, data: &[u8], elem_size: usize, buffer: &mut UniformBuffer) -> (
        r: Option<UniformBuffer>)
        requires
            old(buffer).well_formed(),
            elem_size > 0,
            data@.len() as int % (elem_size as int) == 0,
        ensures
            uniform_update_spec(*old(buffer), *final(buffer), r, data@, elem_size as int),
            final(buffer).well_formed(),
            r matches Some(nb) ==> nb.well_formed(),
            *final(self) == *old(self),
    {
        if data.len() <= buffer.size * buffer.count {
            self.device.update_buffer(data, buffer);
            None
        } else {
            let count = data.len() / elem_size;
            proof {
                vstd::arithmetic::div_mod::lemma_fundamental_div_mod(
                    data@.len() as int,
                    elem_size as int,
                );
            }
            let name = clone_name(&buffer.name);
            Some(self.device.create_uniform_buffer(data, elem_size, count, name))
        }
    }

    /// Update a vertex buffer by the growth protocol: write in place when
    /// the bytes fit the capacity, else hand back a brand-new buffer of
    /// exactly the bytes' size under the original debug name.
    pub fn update_vertex_buffer(&mut self, vertices: &[u8], buffer: &mut VertexBuffer) -> (r:
        Option<VertexBuffer>)
        requires
            old(buffer).well_formed(),
            vertices@.len() <= u32::MAX,
        ensures
            vertex_update_spec(*old(buffer), *final(buffer), r, vertices@),
            final(buffer).well_formed(),
            r matches Some(nb) ==> nb.well_formed(),
            *final(self) == *old(self),
    {
        if vertices.len() <= buffer.size as usize {
            self.device.update_vertex_buffer(vertices, buffer);
            None
        } else {
            let name = clone_name(&buffer.name);
            Some(self.device.create_vertex_buffer(vertices, name))
        }
    }

    /// Update a 16-bit index buffer by the growth protocol: write in
    /// place, padded to the write granularity, when the run fits the
    /// capacity in indices, else hand back a brand-new buffer of exactly
    /// the run's length under the original debug name. Either way the
    /// live count becomes the run's length.
    pub fn update_index_buffer(&mut self, indicies: Vec<u16>, buffer: &mut IndexBuffer) -> (r:
        Option<IndexBuffer>)
        requires
            old(buffer).well_formed(),
            indicies@.len() + 3 <= u32::MAX,
        ensures
            index_update_spec(*old(buffer), *final(buffer), r, indicies@),
            final(buffer).well_formed(),
            r matches Some(nb) ==> nb.well_formed(),
            *final(self) == *old(self),
    {
        if indicies.len() <= buffer.size as usize {
            self.device.update_index_buffer(indicies, buffer);
            None
        } else {
            let name = clone_name(&buffer.name);
            Some(self.device.create_index_buffer(indicies.as_slice(), name))
        }
    }

    /// Update a 32-bit index buffer by the growth protocol: write in
    /// place when the run fits the capacity in indices, else hand back a
    /// brand-new buffer of exactly the run's length under the original
    /// debug name. Either way the live count becomes the run's length.
    pub fn update_index_buffer_32(&mut self, indicies: Vec<u32>, buffer: &mut IndexBuffer32) -> (r:
        Option<IndexBuffer32>)
        requires
            old(buffer).well_formed(),
            indicies@.len() <= u32::MAX,
        ensures
            index32_update_spec(*old(buffer), *final(buffer), r, indicies@),
            final(buffer).well_formed(),
            r matches Some(nb) ==> nb.well_formed(),
            *final(self) == *old(self),
    {
        if indicies.len() <= buffer.size as usize {
            self.device.update_index_buffer_32(indicies, buffer);
            None
        } else {
            let name = clone_name(&buffer.name);
            Some(self.device.create_index_buffer_32(indicies.as_slice(), name))
        }
    }

    /// Creates a [`FrameBuffer`] with a depth texture; both take the
    /// painter's sample count.
    pub fn create_frame_buffer(&self, size: ScreenSize, format: TextureFormat, name: Option<
        String>) -> (f: FrameBuffer)
        ensures
            f.texture.size == size,
            f.texture.format == format,
            f.texture.sample_count == self.sample_count,
            f.depth matches Some(d) && d.texture.format == TextureFormat::Depth32Float
                && d.texture.sample_count == self.sample_count,
    {
        self.device.create_frame_buffer(size, format, self.sample_count, name, true)
    }

    /// Creates a [`FrameBuffer`] with no depth texture, at the painter's
    /// sample count.
    pub fn create_frame_buffer_no_depth(&self, size: ScreenSize, format: TextureFormat, name:
        Option<String>) -> (f: FrameBuffer)
        ensures
            f.texture.size == size,
            f.texture.format == format,
            f.texture.sample_count == self.sample_count,
            f.depth is None,
    {
        self.device.create_frame_buffer(size, format, self.sample_count, name, false)
    }
}

/// Clone an optional debug name.
fn clone_name(name: &Option<String>) -> (r: Option<String>)
    ensures
        r == *name,
{
    match name {
        Some(n) => Some(n.clone()),
        None => None,
    }
}

/// Writing back what a vertex buffer already holds changes nothing:
/// when the data fits the capacity and equals the buffer's own leading
/// bytes, the update leaves the buffer exactly as it was and returns no
/// replacement.
pub proof fn lemma_vertex_update_idempotent(
    pre: VertexBuffer,
    post: VertexBuffer,
    r: Option<VertexBuffer>,
    data: Seq<u8>,
)
    requires
        vertex_update_spec(pre, post, r, data),
        data.len() <= pre.size,
        pre.well_formed(),
        data == pre.data@.take(data.len() as int),
    ensures
        r is None,
        post.size == pre.size,
        post.name == pre.name,
        post.data@ == pre.data@,
{
    assert(post.data@ =~= pre.data@);
}

/// Writing back what a uniform buffer already holds changes nothing:
/// when the data fits the capacity and equals the buffer's own leading
/// bytes, the update leaves the buffer exactly as it was and returns no
/// replacement.
pub proof fn lemma_uniform_update_idempotent(
    pre: UniformBuffer,
    post: UniformBuffer,
    r: Option<UniformBuffer>,
    data: Seq<u8>,
    elem_size: int,
)
    requires
        uniform_update_spec(pre, post, r, data, elem_size),
        data.len() <= pre.spec_capacity(),
        pre.well_formed(),
        data == pre.data@.take(data.len() as int),
    ensures
        r is None,
        post.size == pre.size,
        post.count == pre.count,
        post.name == pre.name,
        post.data@ == pre.data@,
{
    assert(post.data@ =~= pre.data@);
}

/// Capacity never shrinks: after a uniform-buffer update, the buffer the
/// caller holds — the replacement if one was returned, else the updated
/// buffer — has at least the capacity the buffer had before.
pub proof fn lemma_uniform_capacity_monotonic(
    pre: UniformBuffer,
    post: UniformBuffer,
    r: Option<UniformBuffer>,
    data: Seq<u8>,
    elem_size: int,
)
    requires
        elem_size > 0,
        data.len() as int % elem_size == 0,
        uniform_update_spec(pre, post, r, data, elem_size),
    ensures
        (match r {
            None => post,
            Some(nb) => nb,
        }).spec_capacity() >= pre.spec_capacity(),
{
    if data.len() > pre.spec_capacity() {
        let nb = r->Some_0;
        assert(nb.spec_capacity() == elem_size * (data.len() as int / elem_size));
        vstd::arithmetic::div_mod::lemma_fundamental_div_mod(data.len() as int, elem_size);
    }
}

/// Capacity never shrinks: after a vertex-buffer update, the buffer the
/// caller holds has at least the capacity the buffer had before.
pub proof fn lemma_vertex_capacity_monotonic(
    pre: VertexBuffer,
    post: VertexBuffer,
    r: Option<VertexBuffer>,
    data: Seq<u8>,
)
    requires
        vertex_update_spec(pre, post, r, data),
    ensures
        (match r {
            None => post,
            Some(nb) => nb,
        }).size >= pre.size,
{
}

/// Capacity never shrinks: after a 16-bit index-buffer update, the
/// buffer the caller holds has at least the capacity the buffer had
/// before.
pub proof fn lemma_index_capacity_monotonic(
    pre: IndexBuffer,
    post: IndexBuffer,
    r: Option<IndexBuffer>,
    indices: Seq<u16>,
)
    requires
        index_update_spec(pre, post, r, indices),
    ensures
        (match r {
            None => post,
            Some(nb) => nb,
        }).size >= pre.size,
{
}

/// Capacity never shrinks: after a 32-bit index-buffer update, the
/// buffer the caller holds has at least the capacity the buffer had
/// before.
pub proof fn lemma_index32_capacity_monotonic(
    pre: IndexBuffer32,
    post: IndexBuffer32,
    r: Option<IndexBuffer32>,
    indices: Seq<u32>,
)
    requires
        index32_update_spec(pre, post, r, indices),
    ensures
        (match r {
            None => post,
            Some(nb) => nb,
        }).size >= pre.size,
{
}

} // verus!
