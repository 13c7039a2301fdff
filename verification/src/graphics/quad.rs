//! A pipeline for drawing textured quads.

use vstd::prelude::*;
use std::collections::HashMap;
use crate::binding::{BindGroupEntry, Binding, BindingGroup, BindingResource, BindingType,
    ShaderStages};
use crate::buffers::index::{padded_len_of, IndexBuffer};
use crate::buffers::vertex::VertexBuffer;
use crate::graphics::batch::{breakdowns_valid, cat_groups, cat_indices, cat_vertices,
    lemma_cat_lengths, merge_textured_breakdowns, total_index_count, validate_breakdowns,
    validate_textured, Group, RenderInformation};
use crate::graphics::texture::Texture;
use crate::graphics::triangle::identity_matrix_bytes;
use crate::painter::{index_buffer_after_update, vertex_buffer_after_update, Painter};
use crate::pipeline::{BindingSet, Pipeline, PipelineCore, PipelineDescription, Plumber,
    UniformUpdate};
use crate::shader::ShaderFile;
use crate::vertex::VertexFormat;

verus! {

broadcast use vstd::std_specs::hash::group_hash_axioms;

/// The shader of the quad pipeline: a position and texture coordinates
/// per vertex, one sampled texture, one uniform transform matrix.
pub const QUAD_SHADER: &'static str = "
struct Transform { matrix: mat4x4<f32> };
@group(1) @binding(0) var<uniform> transform: Transform;
@group(0) @binding(0) var tex: texture_2d<f32>;
@group(0) @binding(1) var sam: sampler;

struct VertexOutput {
    @builtin(position) position: vec4<f32>,
    @location(0) uv: vec2<f32>,
};

@vertex
fn vs_main(@location(0) pos: vec3<f32>, @location(1) uv: vec2<f32>) -> VertexOutput {
    var out: VertexOutput;
    out.position = transform.matrix * vec4<f32>(pos, 1.0);
    out.uv = uv;
    return out;
}

@fragment
fn fs_main(in: VertexOutput) -> @location(0) vec4<f32> {
    return textureSample(tex, sam, in.uv);
}
";

/// The byte size of one vertex of the quad pipeline: three position
/// floats and two texture-coordinate floats.
pub const QUAD_VERTEX_SIZE: usize = 20;

/// Pipeline for drawing textured quads.
#[derive(Debug)]
pub struct QuadPipe {
    /// The merged vertices of the frame's shapes.
    pub vertex_buffer: VertexBuffer,
    /// The merged indices of the frame's shapes.
    pub index_buffer: IndexBuffer,
    /// Which index range each texture is drawn over.
    pub groups: Vec<Group>,
    /// The binding group of each texture the pipeline has seen, by
    /// texture id.
    pub texture_binds: HashMap<u64, BindingGroup>,
    /// The pipeline core a render pass reads.
    pub pc: PipelineCore,
}

impl QuadPipe {
    /// Build and remember the binding group of a texture: its view and
    /// its sampler, bound in that order, registered under the texture's
    /// id.
    pub fn add_texture(&mut self, paint: &Painter, tex: &Texture)
        ensures
            final(self).texture_binds@ == old(self).texture_binds@.insert(
                tex.id,
                final(self).texture_binds@[tex.id],
            ),
            final(self).texture_binds@.contains_key(tex.id),
            final(self).vertex_buffer == old(self).vertex_buffer,
            final(self).index_buffer == old(self).index_buffer,
            final(self).groups == old(self).groups,
            final(self).pc == old(self).pc,
    {
        let bind_group = if self.pc.pipeline.layout.b_layouts.len() >= 1 {
            let binds = [BindingResource::TextureView, BindingResource::Sampler];
            match paint.binding_group(
                &self.pc.pipeline.layout.b_layouts[0],
                &binds,
                Some(tex.name.clone()),
            ) {
                Ok(g) => g,
                Err(_) => fallback_texture_group(),
            }
        } else {
            fallback_texture_group()
        };
        self.texture_binds.insert(tex.id, bind_group);
    }
}

impl Plumber for QuadPipe {
    type PrepareContext = RenderInformation;

    fn description() -> (d: PipelineDescription)
        ensures
            d.vertex_layout@ == seq![VertexFormat::Floatx3, VertexFormat::Floatx2],
            d.pipeline_layout matches Some(ss) && ss@.len() == 2 && ss@[0].0@ == seq![
                Binding { binding: BindingType::Texture, stage: ShaderStages { bits: 2 } },
                Binding { binding: BindingType::Sampler, stage: ShaderStages { bits: 2 } },
            ] && ss@[1].0@ == seq![
                Binding {
                    binding: BindingType::UniformBuffer,
                    stage: ShaderStages { bits: 1 },
                },
            ],
            d.shader matches ShaderFile::Wgsl(s) && s@ == QUAD_SHADER@,
            d.name matches Some(n) && n@ == "Quad pipeline"@,
    {
        let mut vertex_layout: Vec<VertexFormat> = Vec::new();
        vertex_layout.push(VertexFormat::Floatx3);
        vertex_layout.push(VertexFormat::Floatx2);
        let mut tex_slots: Vec<Binding> = Vec::new();
        tex_slots.push(Binding { binding: BindingType::Texture, stage: ShaderStages::fragment() });
        tex_slots.push(Binding { binding: BindingType::Sampler, stage: ShaderStages::fragment() });
        let mut uniform_slots: Vec<Binding> = Vec::new();
        uniform_slots.push(
            Binding { binding: BindingType::UniformBuffer, stage: ShaderStages::vertex() },
        );
        let mut sets: Vec<BindingSet> = Vec::new();
        sets.push(BindingSet(tex_slots, Some("Quad texture bind group".to_owned())));
        sets.push(BindingSet(uniform_slots, Some("Quad transform bind group".to_owned())));
        PipelineDescription {
            vertex_layout,
            pipeline_layout: Some(sets),
            shader: ShaderFile::Wgsl(QUAD_SHADER),
            name: Some("Quad pipeline".to_owned()),
        }
    }

    fn setup(pipe: Pipeline, paint: &Painter) -> (result: Self)
        ensures
            result.pc.pipeline == pipe,
            result.pc.uniforms@.len() == 1,
            result.pc.uniforms@[0].size == 64,
            result.pc.uniforms@[0].count == 1,
            result.pc.uniforms@[0].well_formed(),
            result.pc.bindings@.len() == 1,
            result.pc.bindings@[0].entries@.len() == 1,
            result.pc.bindings@[0].entries@[0] == (BindGroupEntry {
                binding: 0,
                resource: BindingResource::UniformBuffer { offset: 0, size_bytes: 64 },
            }),
            pipe.layout.b_layouts@.len() == 2 && pipe.layout.b_layouts@[1].size == 1
                ==> result.pc.bindings@[0].set_index == pipe.layout.b_layouts@[1].set_index,
            result.vertex_buffer.size == 0,
            result.vertex_buffer.well_formed(),
            result.index_buffer.size == 0,
            result.index_buffer.elements == 0,
            result.index_buffer.well_formed(),
            result.groups@.len() == 0,
            result.texture_binds@ == Map::<u64, BindingGroup>::empty(),
    {
        let no_bytes: Vec<u8> = Vec::new();
        let no_indices: Vec<u16> = Vec::new();
        let vertex_buffer = paint.vertex_buffer(
            no_bytes.as_slice(),
            Some("Quad vertex buffer".to_owned()),
        );
        let index_buffer = paint.index_buffer(
            no_indices.as_slice(),
            Some("Quad index buffer".to_owned()),
        );
        let identity = identity_matrix_bytes();
        let transform_buffer = paint.uniform_buffer(
            identity.as_slice(),
            64,
            1,
            Some("Quad transform buffer".to_owned()),
        );
        let mut binds: Vec<BindingResource> = Vec::new();
        binds.push(BindingResource::UniformBuffer { offset: 0, size_bytes: 64 });
        let bind_group = if pipe.layout.b_layouts.len() == 2 {
            match paint.binding_group(
                &pipe.layout.b_layouts[1],
                binds.as_slice(),
                Some("Quad transform binding group".to_owned()),
            ) {
                Ok(g) => {
                    proof {
                        assert(binds@.len() == 1);
                        assert(binds@[0] == (BindingResource::UniformBuffer { offset: 0, size_bytes: 64 }));
                        assert(g.entries@.len() == 1);
                        assert(g.entries@[0].binding == 0);
                        assert(g.entries@[0].resource == binds@[0]);
                    }
                    g
                },
                Err(_) => fallback_transform_group(),
            }
        } else {
            fallback_transform_group()
        };
        let mut bindings: Vec<BindingGroup> = Vec::new();
        bindings.push(bind_group);
        let mut uniforms: Vec<crate::buffers::uniform::UniformBuffer> = Vec::new();
        uniforms.push(transform_buffer);
        QuadPipe {
            vertex_buffer,
            index_buffer,
            groups: Vec::new(),
            texture_binds: HashMap::new(),
            pc: PipelineCore { pipeline: pipe, bindings, uniforms },
        }
    }

    fn prepare(&mut self, context: Self::PrepareContext, painter: &mut Painter) -> (r: Vec<
        UniformUpdate,
    >)
        ensures
            r@.len() == 1,
            r@[0].buffer_index == 0,
            r@[0].elem_size == 64,
            r@[0].data@ == context.transform@,
            final(self).pc == old(self).pc,
            ({
                let textured = forall|i: int|
                    0 <= i < context.shapes@.len() ==> (#[trigger] context.shapes@[i]).texture
                        is Some;
                &&& breakdowns_valid(context.shapes@) && textured ==> final(self).groups@
                    == cat_groups(context.shapes@)
                &&& breakdowns_valid(context.shapes@) && textured ==> forall|i: int|
                    0 <= i < context.shapes@.len() ==> final(self).texture_binds@.contains_key(
                        (#[trigger] context.shapes@[i]).texture->Some_0.id,
                    )
                &&& breakdowns_valid(context.shapes@) && textured && old(
                    self,
                ).vertex_buffer.well_formed() && cat_vertices(context.shapes@).len() <= u32::MAX
                    ==> vertex_buffer_after_update(
                    old(self).vertex_buffer,
                    final(self).vertex_buffer,
                    cat_vertices(context.shapes@),
                )
                &&& breakdowns_valid(context.shapes@) && textured && old(
                    self,
                ).index_buffer.well_formed() && total_index_count(context.shapes@) + 3
                    <= u32::MAX ==> index_buffer_after_update(
                    old(self).index_buffer,
                    final(self).index_buffer,
                    cat_indices(context.shapes@),
                )
            }),
    {
        if validate_breakdowns(&context.shapes) && validate_textured(&context.shapes) {
            let n = context.shapes.len();
            let mut i: usize = 0;
            while i < n
                invariant
                    n == context.shapes@.len(),
                    0 <= i <= n,
                    self.pc == old(self).pc,
                    self.vertex_buffer == old(self).vertex_buffer,
                    self.index_buffer == old(self).index_buffer,
                    self.groups == old(self).groups,
                    forall|k: int| 0 <= k < i && (#[trigger] context.shapes@[k]).texture is Some
                        ==> self.texture_binds@.contains_key(
                        context.shapes@[k].texture->Some_0.id,
                    ),
                decreases n - i,
            {
                if let Some(tex) = &context.shapes[i].texture {
                    if !self.texture_binds.contains_key(&tex.id) {
                        self.add_texture(painter, tex);
                    }
                }
                proof {
                    assert forall|k: int|
                        0 <= k < i + 1 && (#[trigger] context.shapes@[k]).texture
                            is Some implies self.texture_binds@.contains_key(
                        context.shapes@[k].texture->Some_0.id,
                    ) by {}
                }
                i = i + 1;
            }
            let (vertices, indices, groups) = merge_textured_breakdowns(&context.shapes);
            proof {
                lemma_cat_lengths(context.shapes@);
            }
            self.groups = groups;
            let vertex_ok = self.vertex_buffer.data.len() == self.vertex_buffer.size as usize
                && vertices.len() <= u32::MAX as usize;
            if vertex_ok {
                if let Some(v) = painter.update_vertex_buffer(
                    vertices.as_slice(),
                    &mut self.vertex_buffer,
                ) {
                    self.vertex_buffer = v;
                }
            }
            let index_ok = self.index_buffer.elements <= self.index_buffer.size
                && self.index_buffer.data.len() as u64 == padded_len_of(self.index_buffer.size)
                && indices.len() as u64 <= u32::MAX as u64 - 3;
            if index_ok {
                if let Some(b) = painter.update_index_buffer(indices, &mut self.index_buffer) {
                    self.index_buffer = b;
                }
            }
        }
        let mut updates: Vec<UniformUpdate> = Vec::new();
        updates.push(UniformUpdate { buffer_index: 0, data: context.transform, elem_size: 64 });
        updates
    }

    fn pipeline_core(&self) -> &PipelineCore {
        &self.pc
    }

    fn pipeline_core_mut(&mut self) -> &mut PipelineCore {
        &mut self.pc
    }
}

/// One step of a draw plan: bind a texture's binding group, or draw a
/// range of indices.
#[derive(Debug, Clone, Copy, PartialEq, Eq, Structural)]
pub enum DrawStep {
    /// Bind the binding group of the texture with this id.
    SetBinding { tex_id: u64 },
    /// Draw the indices from `start` up to `end`.
    DrawIndexed { start: u32, end: u32 },
}

/// The draw plan of a run of texture groups: each group's index range is
/// drawn in order, and a group's binding group is bound before its draw
/// exactly when it is the first group or its texture differs from the
/// group before it.
pub open spec fn draw_plan_spec(groups: Seq<Group>) -> Seq<DrawStep>
    decreases groups.len(),
{
    if groups.len() == 0 {
        Seq::empty()
    } else {
        let last = groups.last();
        let rest = draw_plan_spec(groups.drop_last());
        let with_binding = if groups.len() == 1 || groups[groups.len() - 2].tex_id
            != last.tex_id {
            rest.push(DrawStep::SetBinding { tex_id: last.tex_id })
        } else {
            rest
        };
        with_binding.push(DrawStep::DrawIndexed { start: last.start, end: last.end })
    }
}

/// Decide the draw steps of a frame's texture groups: one draw per group
/// in order, with the texture's binding group bound before a draw
/// exactly when the texture changes from the group before.
pub fn draw_plan(groups: &Vec<Group>) -> (r: Vec<DrawStep>)
    ensures
        r@ == draw_plan_spec(groups@),
{
    let mut r: Vec<DrawStep> = Vec::new();
    let n = groups.len();
    let mut i: usize = 0;
    while i < n
        invariant
            n == groups@.len(),
            0 <= i <= n,
            r@ == draw_plan_spec(groups@.take(i as int)),
        decreases n - i,
    {
        proof {
            assert(groups@.take(i + 1).drop_last() =~= groups@.take(i as int));
            assert(groups@.take(i + 1).last() == groups@[i as int]);
        }
        let g = groups[i];
        if i == 0 || groups[i - 1].tex_id != g.tex_id {
            r.push(DrawStep::SetBinding { tex_id: g.tex_id });
        }
        r.push(DrawStep::DrawIndexed { start: g.start, end: g.end });
        proof {
            assert(r@ =~= draw_plan_spec(groups@.take(i + 1)));
        }
        i = i + 1;
    }
    proof {
        assert(groups@.take(n as int) =~= groups@);
    }
    r
}

/// The binding group used when a pipeline's layout does not carry the
/// two sets this pipeline declares: the one uniform entry, bound at set
/// 1.
fn fallback_transform_group() -> (g: BindingGroup)
    ensures
        g.set_index == 1,
        g.entries@.len() == 1,
        g.entries@[0] == (BindGroupEntry {
        binding: 0,
        resource: BindingResource::UniformBuffer { offset: 0, size_bytes: 64 },
    }),
{
    let mut entries: Vec<BindGroupEntry> = Vec::new();
    entries.push(
        BindGroupEntry {
            binding: 0,
            resource: BindingResource::UniformBuffer { offset: 0, size_bytes: 64 },
        },
    );
    BindingGroup::new(1, entries)
}

/// The binding group used when a pipeline's layout does not carry the
/// texture set this pipeline declares: a texture view and a sampler,
/// bound at set 0.
fn fallback_texture_group() -> (g: BindingGroup)
    ensures
        g.set_index == 0,
        g.entries@.len() == 2,
{
    let mut entries: Vec<BindGroupEntry> = Vec::new();
    entries.push(BindGroupEntry { binding: 0, resource: BindingResource::TextureView });
    entries.push(BindGroupEntry { binding: 1, resource: BindingResource::Sampler });
    BindingGroup::new(0, entries)
}

} // verus!
