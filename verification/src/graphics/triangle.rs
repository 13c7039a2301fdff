//! A pipeline without texturing: each vertex carries a position and a
//! color. Useful for drawing primitives.

use vstd::prelude::*;
use crate::binding::{BindGroupEntry, Binding, BindingGroup, BindingResource, BindingType,
    ShaderStages};
use crate::buffers::index::{padded_len_of, IndexBuffer};
use crate::buffers::vertex::VertexBuffer;
use crate::graphics::batch::{breakdowns_valid, cat_indices, cat_vertices, lemma_cat_lengths,
    merge_breakdowns, total_index_count, validate_breakdowns, RenderInformation};
use crate::painter::{index_buffer_after_update, vertex_buffer_after_update, Painter};
use crate::pipeline::{BindingSet, Pipeline, PipelineCore, PipelineDescription, Plumber,
    UniformUpdate};
use crate::shader::ShaderFile;
use crate::vertex::VertexFormat;

verus! {

/// The shader of the triangle pipeline: a position and a color per
/// vertex, transformed by one uniform matrix.
pub const TRIANGLE_SHADER: &'static str = "
struct Transform { matrix: mat4x4<f32> };
@group(0) @binding(0) var<uniform> transform: Transform;

struct VertexOutput {
    @builtin(position) position: vec4<f32>,
    @location(0) color: vec4<f32>,
};

@vertex
fn vs_main(@location(0) pos: vec3<f32>, @location(1) color: vec4<f32>) -> VertexOutput {
    var out: VertexOutput;
    out.position = transform.matrix * vec4<f32>(pos, 1.0);
    out.color = color;
    return out;
}

@fragment
fn fs_main(in: VertexOutput) -> @location(0) vec4<f32> {
    return in.color;
}
";

/// The byte size of one vertex of the triangle pipeline: three position
/// floats and four color floats.
pub const TRIANGLE_VERTEX_SIZE: usize = 28;

/// A pipeline which doesn't have any texturing capabilities. Instead it
/// has a color for each vertex.
#[derive(Debug)]
pub struct TrianglePipe {
    /// The merged vertices of the frame's shapes.
    pub vertex_buffer: VertexBuffer,
    /// The merged indices of the frame's shapes.
    pub index_buffer: IndexBuffer,
    /// The pipeline core a render pass reads.
    pub pc: PipelineCore,
}

impl Plumber for TrianglePipe {
    type PrepareContext = RenderInformation;

    fn description() -> (d: PipelineDescription)
        ensures
            d.vertex_layout@ == seq![VertexFormat::Floatx3, VertexFormat::Floatx4],
            d.pipeline_layout matches Some(ss) && ss@.len() == 1 && ss@[0].0@ == seq![
                Binding {
                    binding: BindingType::UniformBuffer,
                    stage: ShaderStages { bits: 1 },
                },
            ],
            d.shader matches ShaderFile::Wgsl(s) && s@ == TRIANGLE_SHADER@,
            d.name matches Some(n) && n@ == "Triangle pipeline"@,
    {
        let mut vertex_layout: Vec<VertexFormat> = Vec::new();
        vertex_layout.push(VertexFormat::Floatx3);
        vertex_layout.push(VertexFormat::Floatx4);
        let mut slots: Vec<Binding> = Vec::new();
        slots.push(
            Binding { binding: BindingType::UniformBuffer, stage: ShaderStages::vertex() },
        );
        let mut sets: Vec<BindingSet> = Vec::new();
        sets.push(BindingSet(slots, Some("Triangle transform bind group".to_owned())));
        PipelineDescription {
            vertex_layout,
            pipeline_layout: Some(sets),
            shader: ShaderFile::Wgsl(TRIANGLE_SHADER),
            name: Some("Triangle pipeline".to_owned()),
        }
    }

    fn setup(pipe: Pipeline, paint: &Painter) -> (result: Self)
        ensures
            result.pc.pipeline == pipe,
            result.pc.uniforms@.len() == 1,
            result.pc.uniforms@[0].size == 64,
            result.pc.uniforms@[0].count == 1,
            result.pc.uniforms@[0].well_formed(),
            result.pc.bindings@.len() == 1,
            result.pc.bindings@[0].entries@.len() == 1,
            result.pc.bindings@[0].entries@[0] == (BindGroupEntry {
                binding: 0,
                resource: BindingResource::UniformBuffer { offset: 0, size_bytes: 64 },
            }),
            pipe.layout.b_layouts@.len() == 1 && pipe.layout.b_layouts@[0].size == 1
                ==> result.pc.bindings@[0].set_index == pipe.layout.b_layouts@[0].set_index,
            result.vertex_buffer.size == 0,
            result.vertex_buffer.well_formed(),
            result.index_buffer.size == 0,
            result.index_buffer.elements == 0,
            result.index_buffer.well_formed(),
    {
        let no_bytes: Vec<u8> = Vec::new();
        let no_indices: Vec<u16> = Vec::new();
        let vertex_buffer = paint.vertex_buffer(
            no_bytes.as_slice(),
            Some("Triangle vertex buffer".to_owned()),
        );
        let index_buffer = paint.index_buffer(
            no_indices.as_slice(),
            Some("Triangle index buffer".to_owned()),
        );
        let identity = identity_matrix_bytes();
        let transform_buffer = paint.uniform_buffer(
            identity.as_slice(),
            64,
            1,
            Some("Triangle transform buffer".to_owned()),
        );
        let mut binds: Vec<BindingResource> = Vec::new();
        binds.push(BindingResource::UniformBuffer { offset: 0, size_bytes: 64 });
        let bind_group = if pipe.layout.b_layouts.len() == 1 {
            match paint.binding_group(
                &pipe.layout.b_layouts[0],
                binds.as_slice(),
                Some("Triangle transform binding group".to_owned()),
            ) {
                Ok(g) => {
                    proof {
                        assert(binds@.len() == 1);
                        assert(binds@[0] == (BindingResource::UniformBuffer { offset: 0, size_bytes: 64 }));
                        assert(g.entries@.len() == 1);
                        assert(g.entries@[0].binding == 0);
                        assert(g.entries@[0].resource == binds@[0]);
                    }
                    g
                },
                Err(_) => fallback_transform_group(),
            }
        } else {
            fallback_transform_group()
        };
        let mut bindings: Vec<BindingGroup> = Vec::new();
        bindings.push(bind_group);
        let mut uniforms: Vec<crate::buffers::uniform::UniformBuffer> = Vec::new();
        uniforms.push(transform_buffer);
        TrianglePipe {
            vertex_buffer,
            index_buffer,
            pc: PipelineCore { pipeline: pipe, bindings, uniforms },
        }
    }

    fn prepare(&mut self, context: Self::PrepareContext, painter: &mut Painter) -> (r: Vec<
        UniformUpdate,
    >)
        ensures
            r@.len() == 1,
            r@[0].buffer_index == 0,
            r@[0].elem_size == 64,
            r@[0].data@ == context.transform@,
            final(self).pc == old(self).pc,
            breakdowns_valid(context.shapes@) && old(self).vertex_buffer.well_formed()
                && cat_vertices(context.shapes@).len() <= u32::MAX
                ==> vertex_buffer_after_update(
                old(self).vertex_buffer,
                final(self).vertex_buffer,
                cat_vertices(context.shapes@),
            ),
            breakdowns_valid(context.shapes@) && old(self).index_buffer.well_formed()
                && total_index_count(context.shapes@) + 3 <= u32::MAX
                ==> index_buffer_after_update(
                old(self).index_buffer,
                final(self).index_buffer,
                cat_indices(context.shapes@),
            ),
    {
        if validate_breakdowns(&context.shapes) {
            let (vertices, indices) = merge_breakdowns(&context.shapes);
            proof {
                lemma_cat_lengths(context.shapes@);
            }
            let vertex_ok = self.vertex_buffer.data.len() == self.vertex_buffer.size as usize
                && vertices.len() <= u32::MAX as usize;
            if vertex_ok {
                if let Some(v) = painter.update_vertex_buffer(
                    vertices.as_slice(),
                    &mut self.vertex_buffer,
                ) {
                    self.vertex_buffer = v;
                }
            }
            let index_ok = self.index_buffer.elements <= self.index_buffer.size
                && self.index_buffer.data.len() as u64 == padded_len_of(self.index_buffer.size)
                && indices.len() as u64 <= u32::MAX as u64 - 3;
            if index_ok {
                if let Some(b) = painter.update_index_buffer(indices, &mut self.index_buffer) {
                    self.index_buffer = b;
                }
            }
        }
        let mut updates: Vec<UniformUpdate> = Vec::new();
        updates.push(UniformUpdate { buffer_index: 0, data: context.transform, elem_size: 64 });
        updates
    }

    fn pipeline_core(&self) -> &PipelineCore {
        &self.pc
    }

    fn pipeline_core_mut(&mut self) -> &mut PipelineCore {
        &mut self.pc
    }
}

/// The native bytes of the identity 4-by-4 float matrix: a one at the
/// start of each of the four diagonal positions, zeros elsewhere. The
/// float value one carries the bytes 0, 0, 128, 63 in little-endian
/// order.
pub fn identity_matrix_bytes() -> (m: Vec<u8>)
    ensures
        m@.len() == 64,
        forall|j: int| 0 <= j < 64 ==> #[trigger] m@[j] == (if j % 20 == 2 {
            128u8
        } else if j % 20 == 3 {
            63u8
        } else {
            0u8
        }),
{
    let mut m: Vec<u8> = Vec::new();
    let mut j: usize = 0;
    while j < 64
        invariant
            0 <= j <= 64,
            m@.len() == j,
            forall|k: int| 0 <= k < j ==> #[trigger] m@[k] == (if k % 20 == 2 {
                128u8
            } else if k % 20 == 3 {
                63u8
            } else {
                0u8
            }),
        decreases 64 - j,
    {
        let r = j % 20;
        let b: u8 = if r == 2 {
            128
        } else if r == 3 {
            63
        } else {
            0
        };
        m.push(b);
        j = j + 1;
    }
    m
}

/// The binding group used when a pipeline's layout does not carry the
/// single transform set this pipeline declares: the one uniform entry,
/// bound at set 0.
fn fallback_transform_group() -> (g: BindingGroup)
    ensures
        g.set_index == 0,
        g.entries@.len() == 1,
        g.entries@[0] == (BindGroupEntry {
        binding: 0,
        resource: BindingResource::UniformBuffer { offset: 0, size_bytes: 64 },
    }),
{
    let mut entries: Vec<BindGroupEntry> = Vec::new();
    entries.push(
        BindGroupEntry {
            binding: 0,
            resource: BindingResource::UniformBuffer { offset: 0, size_bytes: 64 },
        },
    );
    BindingGroup::new(0, entries)
}

} // verus!
