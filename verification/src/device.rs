//! The device facade: the construction and update entry point for
//! buffers, textures, samplers, binding groups and pipelines.
//!
//! The facade decides every creation and write in terms of the library's
//! records; the unverified adapter that owns the native device and queue
//! mirrors each decision onto the driver.

use vstd::prelude::*;
use crate::binding::{BindGroupEntry, BindGroupLayoutEntry, Binding, BindingGroup,
    BindingGroupLayout, BindingResource};
use crate::buffers::depth::DepthBuffer;
use crate::buffers::frame::FrameBuffer;
use crate::buffers::index::{padded, padded_len, pad_indices, lemma_padded_len,
    lemma_padded_len_monotonic, IndexBuffer, IndexBuffer32};
use crate::buffers::uniform::UniformBuffer;
use crate::buffers::vertex::VertexBuffer;
use crate::buffers::write_prefix;
use crate::error::ParrotError;
use crate::pipeline::{render_pipeline_desc, spec_color_target, spec_depth_stencil, BindingSet,
    Blending, MultisampleState, Pipeline, PipelineLayout};
use crate::sampler::{FilterMode, Sampler};
use crate::shader::{Shader, ShaderFile};
use crate::texture::{Extent3d, Texture, TextureFormat, TextureUsages};
use crate::transform::ScreenSize;

verus! {

/// How presented frames are paced.
#[derive(Debug, Clone, Copy, PartialEq, Eq, Structural)]
pub enum PresentMode {
    /// Tear-free: frames wait for the display's vertical blank.
    Fifo,
    /// Immediate: frames replace the screen contents at once.
    Immediate,
    /// Tear-free with frame replacement while waiting.
    Mailbox,
}

/// The configuration a surface was last given.
#[derive(Debug, Clone, Copy, PartialEq, Eq, Structural)]
pub struct SurfaceConfiguration {
    /// Usage of the surface's textures.
    pub usage: TextureUsages,
    /// Pixel format of the surface.
    pub format: TextureFormat,
    /// How presented frames are paced.
    pub present_mode: PresentMode,
    /// Width of the surface in pixels.
    pub width: u32,
    /// Height of the surface in pixels.
    pub height: u32,
}

/// The layout entries a binding-group layout built from `slots` holds:
/// one per slot, binding indices assigned sequentially from 0 in
/// declaration order, each entry carrying its slot's kind and visibility.
pub open spec fn entries_for(slots: Seq<Binding>) -> Seq<BindGroupLayoutEntry> {
    Seq::new(
        slots.len(),
        |i: int|
            BindGroupLayoutEntry {
                binding: i as u32,
                visibility: slots[i].stage,
                ty: slots[i].binding,
            },
    )
}

/// The record of a device: the size its surface was last configured to
/// and the configuration itself. The native device, queue and surface
/// live with the unverified adapter.
#[derive(Debug, Clone)]
pub struct Device {
    /// Size of the surface.
    size: ScreenSize,
    /// The configuration the surface was last given, if any.
    config: Option<SurfaceConfiguration>,
}

impl Device {
    /// The record of a freshly acquired device: no surface configuration
    /// yet, and a zero surface size.
    pub fn new() -> (d: Self)
        ensures
            d.size() == (ScreenSize { width: 0, height: 0 }),
            d.config() is None,
    {
        Device { size: ScreenSize { width: 0, height: 0 }, config: None }
    }

    /// Size of the surface.
    pub closed spec fn size(self) -> ScreenSize {
        self.size
    }

    /// The configuration the surface was last given.
    pub closed spec fn config(self) -> Option<SurfaceConfiguration> {
        self.config
    }

    /// Size of the surface.
    pub fn get_size(&self) -> (s: ScreenSize)
        ensures
            s == self.size(),
    {
        self.size
    }

    /// The configuration the surface was last given.
    pub fn get_config(&self) -> (c: Option<SurfaceConfiguration>)
        ensures
            c == self.config(),
    {
        self.config
    }

    /// Configure the surface: its textures are render attachments of the
    /// given format and size, paced by the given present mode.
    pub fn configure(&mut self, size: ScreenSize, mode: PresentMode, format: TextureFormat)
        ensures
            final(self).size() == size,
            final(self).config() == Some(SurfaceConfiguration {
                usage: TextureUsages { bits: 16 },
                format,
                present_mode: mode,
                width: size.width,
                height: size.height,
            }),
    {
        let usage = TextureUsages::render_attachment();
        self.config = Some(SurfaceConfiguration {
            usage,
            format,
            present_mode: mode,
            width: size.width,
            height: size.height,
        });
        self.size = size;
    }

    /// Create a shader module record from a shader source.
    pub fn create_shader(&self, source: ShaderFile, name: Option<String>) -> (s: Shader)
        ensures
            s == (Shader { file: source, name }),
    {
        Shader { file: source, name }
    }

    /// Create a vertex buffer holding the given bytes: its capacity is
    /// exactly their length.
    pub fn create_vertex_buffer(&self, vertices: &[u8], name: Option<String>) -> (b: VertexBuffer)
        requires
            vertices@.len() <= u32::MAX,
        ensures
            b.size == vertices@.len(),
            b.data@ == vertices@,
            b.name == name,
            b.well_formed(),
    {
        let data = slice_to_vec(vertices);
        VertexBuffer { size: data.len() as u32, data, name }
    }

    /// Create a 16-bit index buffer holding the given indices: its
    /// capacity and live count are exactly their number, and the native
    /// allocation is that number padded to the write granularity, the
    /// padding zero-valued.
    pub fn create_index_buffer(&self, indicies: &[u16], name: Option<String>) -> (b: IndexBuffer)
        requires
            indicies@.len() + 3 <= u32::MAX,
        ensures
            b.size == indicies@.len(),
            b.elements == indicies@.len(),
            b.data@ == padded(indicies@),
            b.name == name,
            b.well_formed(),
    {
        let v = slice_to_vec(indicies);
        let n = v.len() as u32;
        let data = pad_indices(v);
        IndexBuffer { size: n, elements: n, data, name }
    }

    /// Create a 32-bit index buffer holding the given indices: its
    /// capacity and live count are exactly their number.
    pub fn create_index_buffer_32(&self, indicies: &[u32], name: Option<String>) -> (b:
        IndexBuffer32)
        requires
            indicies@.len() <= u32::MAX,
        ensures
            b.size == indicies@.len(),
            b.elements == indicies@.len(),
            b.data@ == indicies@,
            b.name == name,
            b.well_formed(),
    {
        let data = slice_to_vec(indicies);
        IndexBuffer32 { size: data.len() as u32, elements: data.len() as u32, data, name }
    }

    /// Create a uniform buffer holding the given bytes, laid out as
    /// `count` elements of `elem_size` bytes each.
    pub fn create_uniform_buffer(
        &self,
        buf: &[u8],
        elem_size: usize,
        count: usize,
        name: Option<String>,
    ) -> (b: UniformBuffer)
        requires
            elem_size * count == buf@.len(),
        ensures
            b.size == elem_size,
            b.count == count,
            b.data@ == buf@,
            b.name == name,
            b.well_formed(),
    {
        UniformBuffer { size: elem_size, count, data: slice_to_vec(buf), name }
    }

    /// Create a depth buffer covering the surface, in the depth format,
    /// with the given sample count. Its texture is a copy destination
    /// and a render attachment.
    pub fn create_depth_buffer(&self, sample_count: u32, name: Option<String>) -> (b: DepthBuffer)
        ensures
            b.texture.format == TextureFormat::Depth32Float,
            b.texture.size == self.size(),
            b.texture.sample_count == sample_count,
            b.texture.usage.bits == 2 | 16,
            b.texture.well_formed(),
    {
        let extent = Extent3d {
            width: self.size.width,
            height: self.size.height,
            depth_or_array_layers: 1,
        };
        let usage = TextureUsages::copy_dst().or(TextureUsages::render_attachment());
        DepthBuffer {
            texture: Texture {
                extent,
                format: TextureFormat::Depth32Float,
                size: self.size,
                sample_count,
                usage,
            },
        }
    }

    /// Create a texture of the given size, format, usage and sample
    /// count, one layer deep.
    pub fn create_texture(
        &self,
        size: ScreenSize,
        format: TextureFormat,
        usage: TextureUsages,
        name: Option<String>,
        sample_count: u32,
    ) -> (t: Texture)
        ensures
            t == (Texture {
                extent: Extent3d {
                    width: size.width,
                    height: size.height,
                    depth_or_array_layers: 1,
                },
                format,
                size,
                sample_count,
                usage,
            }),
            t.well_formed(),
    {
        Texture {
            extent: Extent3d { width: size.width, height: size.height, depth_or_array_layers: 1 },
            format,
            size,
            sample_count,
            usage,
        }
    }

    /// Create a sampler with the given filters.
    pub fn create_sampler(
        &self,
        mag_filter: FilterMode,
        min_filter: FilterMode,
        name: Option<String>,
    ) -> (s: Sampler)
        ensures
            s == (Sampler { mag_filter, min_filter }),
    {
        Sampler { mag_filter, min_filter }
    }

    /// Create a frame buffer of the given size, format and sample count;
    /// when `depth` is set it carries a depth buffer covering the
    /// surface, created with the same sample count, else none. The color
    /// texture can be sampled, copied either way, and rendered onto.
    pub fn create_frame_buffer(
        &self,
        size: ScreenSize,
        format: TextureFormat,
        sample_count: u32,
        name: Option<String>,
        depth: bool,
    ) -> (f: FrameBuffer)
        ensures
            f.texture == (Texture {
                extent: Extent3d {
                    width: size.width,
                    height: size.height,
                    depth_or_array_layers: 1,
                },
                format,
                size,
                sample_count,
                usage: TextureUsages { bits: 1u32 | 2 | 4 | 16 },
            }),
            depth ==> (f.depth matches Some(d) && d.texture.format == TextureFormat::Depth32Float
                && d.texture.size == self.size() && d.texture.sample_count == sample_count),
            !depth ==> f.depth is None,
    {
        let usage = TextureUsages::copy_src().or(TextureUsages::copy_dst()).or(
            TextureUsages::texture_binding(),
        ).or(TextureUsages::render_attachment());
        let texture = Texture {
            extent: Extent3d { width: size.width, height: size.height, depth_or_array_layers: 1 },
            format,
            size,
            sample_count,
            usage,
        };
        if depth {
            let name2 = match &name {
                Some(n) => Some(n.clone()),
                None => None,
            };
            FrameBuffer { texture, depth: Some(self.create_depth_buffer(sample_count, name2)) }
        } else {
            FrameBuffer { texture, depth: None }
        }
    }

    /// Build a binding-group layout from an ordered list of slots: one
    /// entry per slot, binding indices assigned sequentially from 0 in
    /// declaration order, each entry carrying its slot's kind and
    /// visibility.
    pub fn create_binding_group_layout(
        &self,
        index: u32,
        slots: &[Binding],
        name: Option<String>,
    ) -> (l: BindingGroupLayout)
        requires
            slots@.len() <= u32::MAX,
        ensures
            l.set_index == index,
            l.size == slots@.len(),
            l.entries@ == entries_for(slots@),
            l.well_formed(),
    {
        let mut bindings: Vec<BindGroupLayoutEntry> = Vec::new();
        let n = slots.len();
        let mut i: usize = 0;
        while i < n
            invariant
                n == slots@.len() <= u32::MAX,
                0 <= i <= n,
                bindings@.len() == i,
                forall|j: int| 0 <= j < i ==> bindings@[j] == entries_for(slots@)[j],
            decreases n - i,
        {
            let s = &slots[i];
            bindings.push(BindGroupLayoutEntry {
                binding: i as u32,
                visibility: s.stage,
                ty: s.binding,
            });
            i = i + 1;
        }
        proof {
            assert(bindings@ =~= entries_for(slots@));
        }
        let size = bindings.len();
        BindingGroupLayout::new(index, bindings, size)
    }

    /// Build a binding group from a layout and the resources to bind: the
    /// resources are bound in order at binding indices 0 up, and the group
    /// is tagged with the layout's set index. The build fails — nothing is
    /// truncated or padded — exactly when the number of resources differs
    /// from the slot count the layout declares.
    pub fn create_binding_group(
        &self,
        layout: &BindingGroupLayout,
        binds: &[BindingResource],
        name: Option<String>,
    ) -> (r: Result<BindingGroup, ParrotError>)
        requires
            binds@.len() <= u32::MAX,
        ensures
            r is Ok <==> binds@.len() == layout.size,
            r matches Ok(g) ==> {
                &&& g.set_index == layout.set_index
                &&& g.entries@.len() == binds@.len()
                &&& forall|i: int| 0 <= i < binds@.len() ==> #[trigger] g.entries@[i] == (
                BindGroupEntry { binding: i as u32, resource: binds@[i] })
            },
            r matches Err(e) ==> e == (ParrotError::BindingSizeMismatch {
                expected: layout.size,
                actual: binds@.len() as usize,
            }),
    {
        if binds.len() != layout.size {
            return Err(ParrotError::BindingSizeMismatch {
                expected: layout.size,
                actual: binds.len(),
            });
        }
        let mut entries: Vec<BindGroupEntry> = Vec::new();
        let n = binds.len();
        let mut i: usize = 0;
        while i < n
            invariant
                n == binds@.len() <= u32::MAX,
                0 <= i <= n,
                entries@.len() == i,
                forall|j: int| 0 <= j < i ==> #[trigger] entries@[j] == (BindGroupEntry {
                    binding: j as u32,
                    resource: binds@[j],
                }),
            decreases n - i,
        {
            entries.push(BindGroupEntry { binding: i as u32, resource: binds[i] });
            i = i + 1;
        }
        Ok(BindingGroup::new(layout.set_index, entries))
    }

    /// Create a pipeline layout from a list of binding sets: one
    /// binding-group layout per set, set indices assigned sequentially
    /// from 0 in declaration order. No sets give an empty layout.
    pub fn create_pipeline_layout(&self, sets: Option<&[BindingSet]>) -> (l: PipelineLayout)
        requires
            sets matches Some(ss) ==> ss@.len() <= u32::MAX && forall|i: int|
                0 <= i < ss@.len() ==> #[trigger] ss@[i].0@.len() <= u32::MAX,
        ensures
            sets is None ==> l.b_layouts@.len() == 0,
            sets matches Some(ss) ==> {
                &&& l.b_layouts@.len() == ss@.len()
                &&& forall|i: int| 0 <= i < ss@.len() ==> {
                    &&& (#[trigger] l.b_layouts@[i]).set_index == i
                    &&& l.b_layouts@[i].size == ss@[i].0@.len()
                    &&& l.b_layouts@[i].entries@ == entries_for(ss@[i].0@)
                    &&& l.b_layouts@[i].well_formed()
                }
            },
    {
        let mut b_layouts: Vec<BindingGroupLayout> = Vec::new();
        if let Some(ss) = sets {
            let n = ss.len();
            let mut i: usize = 0;
            while i < n
                invariant
                    n == ss@.len() <= u32::MAX,
                    forall|k: int| 0 <= k < n ==> #[trigger] ss@[k].0@.len() <= u32::MAX,
                    0 <= i <= n,
                    b_layouts@.len() == i,
                    forall|k: int| 0 <= k < i ==> {
                        &&& (#[trigger] b_layouts@[k]).set_index == k
                        &&& b_layouts@[k].size == ss@[k].0@.len()
                        &&& b_layouts@[k].entries@ == entries_for(ss@[k].0@)
                        &&& b_layouts@[k].well_formed()
                    },
                decreases n - i,
            {
                let set = &ss[i];
                let name = match &set.1 {
                    Some(s) => Some(s.clone()),
                    None => None,
                };
                let l = self.create_binding_group_layout(i as u32, set.0.as_slice(), name);
                b_layouts.push(l);
                i = i + 1;
            }
        }
        PipelineLayout { b_layouts }
    }

    /// Write bytes into a uniform buffer at offset 0. The buffer's
    /// capacity, layout and name are untouched; the region beyond the
    /// written bytes keeps its old content.
    pub fn update_buffer(&self, slice: &[u8], buf: &mut UniformBuffer)
        requires
            old(buf).well_formed(),
            slice@.len() <= old(buf).data@.len(),
        ensures
            final(buf).size == old(buf).size,
            final(buf).count == old(buf).count,
            final(buf).name == old(buf).name,
            final(buf).data@ == slice@ + old(buf).data@.skip(slice@.len() as int),
            final(buf).well_formed(),
    {
        write_prefix(&mut buf.data, slice);
    }

    /// Write bytes into a vertex buffer at offset 0. The buffer's
    /// capacity and name are untouched; the region beyond the written
    /// bytes keeps its old content.
    pub fn update_vertex_buffer(&self, vertices: &[u8], buf: &mut VertexBuffer)
        requires
            old(buf).well_formed(),
            vertices@.len() <= old(buf).data@.len(),
        ensures
            final(buf).size == old(buf).size,
            final(buf).name == old(buf).name,
            final(buf).data@ == vertices@ + old(buf).data@.skip(vertices@.len() as int),
            final(buf).well_formed(),
    {
        write_prefix(&mut buf.data, vertices);
    }

    /// Write 16-bit indices into an index buffer at offset 0, padded with
    /// zero-value indices to the write granularity. The buffer's capacity
    /// and name are untouched and its live count becomes the number of
    /// indices written; the region beyond the padded write keeps its old
    /// content.
    pub fn update_index_buffer(&self, indicies: Vec<u16>, buf: &mut IndexBuffer)
        requires
            old(buf).well_formed(),
            indicies@.len() <= old(buf).size,
        ensures
            final(buf).size == old(buf).size,
            final(buf).name == old(buf).name,
            final(buf).elements == indicies@.len(),
            final(buf).data@ == padded(indicies@) + old(buf).data@.skip(
                padded_len(indicies@.len() as int),
            ),
            final(buf).well_formed(),
    {
        proof {
            lemma_padded_len_monotonic(indicies@.len() as int, old(buf).size as int);
            lemma_padded_len(old(buf).size as int);
        }
        let n = indicies.len() as u32;
        let aligned = pad_indices(indicies);
        write_prefix(&mut buf.data, aligned.as_slice());
        buf.elements = n;
    }

    /// Write 32-bit indices into an index buffer at offset 0. The
    /// buffer's capacity and name are untouched and its live count
    /// becomes the number of indices written; the region beyond the
    /// written indices keeps its old content.
    pub fn update_index_buffer_32(&self, indicies: Vec<u32>, buf: &mut IndexBuffer32)
        requires
            old(buf).well_formed(),
            indicies@.len() <= old(buf).size,
        ensures
            final(buf).size == old(buf).size,
            final(buf).name == old(buf).name,
            final(buf).elements == indicies@.len(),
            final(buf).data@ == indicies@ + old(buf).data@.skip(indicies@.len() as int),
            final(buf).well_formed(),
    {
        let n = indicies.len() as u32;
        write_prefix(&mut buf.data, indicies.as_slice());
        buf.elements = n;
    }

    /// Build a pipeline with a depth-stencil stage: the descriptor of
    /// [`render_pipeline_desc`] with the depth stage attached, carrying
    /// the given layout and vertex layout.
    pub fn create_pipeline(
        &self,
        pipeline_layout: PipelineLayout,
        vertex_layout: crate::vertex::VertexLayout,
        blending: Blending,
        shader: Shader,
        tex_format: TextureFormat,
        multisample: MultisampleState,
        name: Option<String>,
    ) -> (p: Pipeline)
        ensures
            p.desc.target == spec_color_target(blending, tex_format),
            p.desc.depth_stencil == Some(spec_depth_stencil()),
            p.desc.multisample == multisample,
            p.desc.primitive.topology is TriangleList,
            p.desc.primitive.front_face is Ccw,
            p.desc.vertex_entry_point@ == "vs_main"@,
            p.desc.fragment_entry_point@ == "fs_main"@,
            p.layout == pipeline_layout,
            p.vertex_layout == vertex_layout,
    {
        let desc = render_pipeline_desc(blending, tex_format, multisample, true);
        Pipeline { desc, layout: pipeline_layout, vertex_layout }
    }

    /// Build a pipeline without any depth-stencil stage: the descriptor
    /// of [`render_pipeline_desc`] with the depth stage entirely absent,
    /// carrying the given layout and vertex layout.
    pub fn create_pipeline_no_depth(
        &self,
        pipeline_layout: PipelineLayout,
        vertex_layout: crate::vertex::VertexLayout,
        blending: Blending,
        shader: Shader,
        tex_format: TextureFormat,
        multisample: MultisampleState,
        name: Option<String>,
    ) -> (p: Pipeline)
        ensures
            p.desc.target == spec_color_target(blending, tex_format),
            p.desc.depth_stencil is None,
            p.desc.multisample == multisample,
            p.desc.primitive.topology is TriangleList,
            p.desc.primitive.front_face is Ccw,
            p.desc.vertex_entry_point@ == "vs_main"@,
            p.desc.fragment_entry_point@ == "fs_main"@,
            p.layout == pipeline_layout,
            p.vertex_layout == vertex_layout,
    {
        let desc = render_pipeline_desc(blending, tex_format, multisample, false);
        Pipeline { desc, layout: pipeline_layout, vertex_layout }
    }
}

/// Copy a slice into a fresh vector.
fn slice_to_vec<T: Copy>(s: &[T]) -> (v: Vec<T>)
    ensures
        v@ == s@,
{
    let mut v: Vec<T> = Vec::new();
    let n = s.len();
    let mut i: usize = 0;
    while i < n
        invariant
            n == s@.len(),
            0 <= i <= n,
            v@ == s@.take(i as int),
        decreases n - i,
    {
        v.push(s[i]);
        proof {
            assert(v@ =~= s@.take(i + 1));
        }
        i = i + 1;
    }
    proof {
        assert(s@.take(n as int) =~= s@);
    }
    v
}

} // verus!
