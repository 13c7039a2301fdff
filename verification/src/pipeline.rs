//! Pipelines: the declarative description a custom pipeline supplies, the
//! blend modes, and the concrete render-pipeline descriptor built from
//! them.

use vstd::prelude::*;
use crate::binding::{Binding, BindingGroup, BindingGroupLayout};
use crate::buffers::uniform::UniformBuffer;
use crate::device::Device;
use crate::painter::Painter;
use crate::shader::{Shader, ShaderFile};
use crate::texture::TextureFormat;
use crate::vertex::{VertexFormat, VertexLayout};

verus! {

/// A blend factor applied to a source or destination color.
#[derive(Debug, Clone, Copy, PartialEq, Eq, Structural)]
pub enum BlendFactor {
    One,
    Zero,
    SrcAlpha,
    OneMinusSrcAlpha,
}

/// The operation combining the scaled source and destination colors.
#[derive(Debug, Clone, Copy, PartialEq, Eq, Structural)]
pub enum BlendOp {
    Add,
}

/// A blend mode: a source factor, a destination factor, and the operation
/// combining them, applied identically to color and alpha channels.
#[derive(Debug, Clone, Copy, PartialEq, Eq, Structural)]
pub struct Blending {
    /// Factor applied to the source color.
    pub src_factor: BlendFactor,
    /// Factor applied to the destination color.
    pub dst_factor: BlendFactor,
    /// Operation combining the two scaled colors.
    pub operation: BlendOp,
}

impl Blending {
    /// Pack a blend mode from its parts.
    pub fn new(src_factor: BlendFactor, dst_factor: BlendFactor, operation: BlendOp) -> (b: Self)
        ensures
            b == (Blending { src_factor, dst_factor, operation }),
    {
        Blending { src_factor, dst_factor, operation }
    }

    /// The replacing blend mode: the source color alone is kept.
    pub fn constant() -> (b: Self)
        ensures
            b == (Blending {
                src_factor: BlendFactor::One,
                dst_factor: BlendFactor::Zero,
                operation: BlendOp::Add,
            }),
    {
        Blending {
            src_factor: BlendFactor::One,
            dst_factor: BlendFactor::Zero,
            operation: BlendOp::Add,
        }
    }
}

impl Default for Blending {
    /// Standard alpha blending: the source weighted by its alpha over the
    /// destination weighted by the rest.
    fn default() -> (b: Self)
        ensures
            b == (Blending {
                src_factor: BlendFactor::SrcAlpha,
                dst_factor: BlendFactor::OneMinusSrcAlpha,
                operation: BlendOp::Add,
            }),
    {
        Blending {
            src_factor: BlendFactor::SrcAlpha,
            dst_factor: BlendFactor::OneMinusSrcAlpha,
            operation: BlendOp::Add,
        }
    }
}

/// The blend settings of one channel group of a color target.
#[derive(Debug, Clone, Copy, PartialEq, Eq, Structural)]
pub struct BlendComponent {
    /// Factor applied to the source.
    pub src_factor: BlendFactor,
    /// Factor applied to the destination.
    pub dst_factor: BlendFactor,
    /// Operation combining the two.
    pub operation: BlendOp,
}

/// The blend settings of a color target: one component for the color
/// channels and one for alpha.
#[derive(Debug, Clone, Copy, PartialEq, Eq, Structural)]
pub struct BlendState {
    /// Blend settings of the color channels.
    pub color: BlendComponent,
    /// Blend settings of the alpha channel.
    pub alpha: BlendComponent,
}

/// The color target of a render pipeline.
#[derive(Debug, Clone, Copy, PartialEq, Eq, Structural)]
pub struct ColorTargetState {
    /// Pixel format of the target.
    pub format: TextureFormat,
    /// Blend settings of the target.
    pub blend: BlendState,
    /// Mask of the channels written; bits 0 to 3 are red, green, blue and
    /// alpha.
    pub write_mask: u32,
}

/// A depth comparison function.
#[derive(Debug, Clone, Copy, PartialEq, Eq, Structural)]
pub enum CompareFunction {
    Never,
    Less,
    Equal,
    LessEqual,
    Greater,
    NotEqual,
    GreaterEqual,
    Always,
}

/// The depth-stencil stage of a render pipeline.
#[derive(Debug, Clone, Copy, PartialEq, Eq, Structural)]
pub struct DepthStencilState {
    /// Format of the depth attachment.
    pub format: TextureFormat,
    /// Whether depth writes are enabled.
    pub depth_write_enabled: bool,
    /// The depth comparison applied.
    pub depth_compare: CompareFunction,
    /// Stencil read mask; 0 disables stencil reads.
    pub stencil_read_mask: u32,
    /// Stencil write mask; 0 disables stencil writes.
    pub stencil_write_mask: u32,
    /// Constant depth bias.
    pub bias_constant: i32,
}

/// How vertices are assembled into primitives.
#[derive(Debug, Clone, Copy, PartialEq, Eq, Structural)]
pub enum PrimitiveTopology {
    PointList,
    LineList,
    LineStrip,
    TriangleList,
    TriangleStrip,
}

/// Which winding order makes a face front-facing.
#[derive(Debug, Clone, Copy, PartialEq, Eq, Structural)]
pub enum FrontFace {
    /// Counter-clockwise faces are front faces.
    Ccw,
    /// Clockwise faces are front faces.
    Cw,
}

/// The primitive assembly of a render pipeline.
#[derive(Debug, Clone, Copy, PartialEq, Eq, Structural)]
pub struct PrimitiveState {
    /// How vertices are assembled into primitives.
    pub topology: PrimitiveTopology,
    /// The winding order of front faces.
    pub front_face: FrontFace,
}

/// The multisample settings of a render pipeline.
#[derive(Debug, Clone, Copy, PartialEq, Eq, Structural)]
pub struct MultisampleState {
    /// Samples per pixel; 1 disables multisampling.
    pub count: u32,
    /// Mask of the samples written.
    pub mask: u64,
    /// Whether the alpha channel drives sample coverage.
    pub alpha_to_coverage_enabled: bool,
}

/// The concrete descriptor a render pipeline was built from: the choices
/// baked permanently into the native pipeline object.
#[derive(Debug, Clone, Copy, PartialEq, Eq)]
pub struct RenderPipelineDesc {
    /// The color target.
    pub target: ColorTargetState,
    /// The depth-stencil stage, or none at all.
    pub depth_stencil: Option<DepthStencilState>,
    /// The primitive assembly.
    pub primitive: PrimitiveState,
    /// The multisample settings.
    pub multisample: MultisampleState,
    /// Name of the vertex-stage entry point in the shader.
    pub vertex_entry_point: &'static str,
    /// Name of the fragment-stage entry point in the shader.
    pub fragment_entry_point: &'static str,
}

/// Resolve a blend mode and target format into the color target of a
/// pipeline: the same component is applied to the color and the alpha
/// channels, and every channel is written.
pub open spec fn spec_color_target(blending: Blending, format: TextureFormat) -> ColorTargetState {
    ColorTargetState {
        format,
        blend: BlendState {
            color: BlendComponent {
                src_factor: blending.src_factor,
                dst_factor: blending.dst_factor,
                operation: blending.operation,
            },
            alpha: BlendComponent {
                src_factor: blending.src_factor,
                dst_factor: blending.dst_factor,
                operation: blending.operation,
            },
        },
        write_mask: 0xf,
    }
}

/// The one depth-stencil stage this layer ever attaches: depth in the
/// depth format, less-or-equal comparison, depth writes enabled, stencil
/// disabled, no bias.
pub open spec fn spec_depth_stencil() -> DepthStencilState {
    DepthStencilState {
        format: TextureFormat::Depth32Float,
        depth_write_enabled: true,
        depth_compare: CompareFunction::LessEqual,
        stencil_read_mask: 0,
        stencil_write_mask: 0,
        bias_constant: 0,
    }
}

/// Build the concrete render-pipeline descriptor: triangle-list topology
/// with counter-clockwise front faces, the resolved color target, the
/// given multisample settings, the mandated shader entry-point names,
/// and — exactly when `with_depth` is set — the depth-stencil stage of
/// [`spec_depth_stencil`].
pub fn render_pipeline_desc(
    blending: Blending,
    tex_format: TextureFormat,
    multisample: MultisampleState,
    with_depth: bool,
) -> (d: RenderPipelineDesc)
    ensures
        d.target == spec_color_target(blending, tex_format),
        with_depth ==> d.depth_stencil == Some(spec_depth_stencil()),
        !with_depth ==> d.depth_stencil is None,
        d.primitive == (PrimitiveState {
            topology: PrimitiveTopology::TriangleList,
            front_face: FrontFace::Ccw,
        }),
        d.multisample == multisample,
        d.vertex_entry_point@ == "vs_main"@,
        d.fragment_entry_point@ == "fs_main"@,
{
    let component = BlendComponent {
        src_factor: blending.src_factor,
        dst_factor: blending.dst_factor,
        operation: blending.operation,
    };
    let depth_stencil = if with_depth {
        Some(
            DepthStencilState {
                format: TextureFormat::Depth32Float,
                depth_write_enabled: true,
                depth_compare: CompareFunction::LessEqual,
                stencil_read_mask: 0,
                stencil_write_mask: 0,
                bias_constant: 0,
            },
        )
    } else {
        None
    };
    RenderPipelineDesc {
        target: ColorTargetState {
            format: tex_format,
            blend: BlendState { color: component, alpha: component },
            write_mask: 0xf,
        },
        depth_stencil,
        primitive: PrimitiveState {
            topology: PrimitiveTopology::TriangleList,
            front_face: FrontFace::Ccw,
        },
        multisample,
        vertex_entry_point: "vs_main",
        fragment_entry_point: "fs_main",
    }
}

/// The layout of a pipeline: its binding-group layouts, in set order.
#[derive(Debug, Clone)]
pub struct PipelineLayout {
    /// The binding-group layouts, one per set.
    pub b_layouts: Vec<BindingGroupLayout>,
}

/// A built pipeline: immutable once built. It records its concrete
/// descriptor, its layout and its vertex layout; the native pipeline
/// object lives with the unverified adapter.
#[derive(Debug, Clone)]
pub struct Pipeline {
    /// The descriptor the native pipeline was built from.
    pub desc: RenderPipelineDesc,
    /// Layout of the pipeline.
    pub layout: PipelineLayout,
    /// Layout of the vertices in the pipeline.
    pub vertex_layout: VertexLayout,
}

/// A set of binding slots of one binding group, with its debug name.
#[derive(Debug, Clone)]
pub struct BindingSet(pub Vec<Binding>, pub Option<String>);

/// A description of how a pipeline is laid out: its vertex format tags,
/// its binding-group sets, its shader, and its debug name.
#[derive(Debug, Clone)]
pub struct PipelineDescription {
    /// Vertex layout of the pipeline.
    pub vertex_layout: Vec<VertexFormat>,
    /// Binding sets used to create a pipeline layout.
    pub pipeline_layout: Option<Vec<BindingSet>>,
    /// Shader file.
    pub shader: ShaderFile,
    /// Name of the pipeline.
    pub name: Option<String>,
}

/// The core components of a pipeline: what a render pass reads of any
/// custom pipeline.
#[derive(Debug, Clone)]
pub struct PipelineCore {
    /// The built pipeline.
    pub pipeline: Pipeline,
    /// The binding groups bound during a render pass.
    pub bindings: Vec<BindingGroup>,
    /// The uniform buffers updated each frame.
    pub uniforms: Vec<UniformBuffer>,
}

/// The bounds a pipeline description must respect so that shader
/// locations, binding indices and set indices all fit their native index
/// types.
pub open spec fn description_bounds(d: PipelineDescription) -> bool {
    &&& d.vertex_layout@.len() * 16 <= u32::MAX
    &&& d.pipeline_layout matches Some(ss) ==> ss@.len() <= u32::MAX && forall|i: int|
        0 <= i < ss@.len() ==> (#[trigger] ss@[i]).0@.len() <= u32::MAX
}

/// A trait for creating and managing a pipeline: the contract a custom
/// render pipeline satisfies so that the painter can build it and update
/// its uniforms each frame.
pub trait Plumber: Sized {
    /// A type that contains the necessary data for updating the uniform
    /// buffers.
    type PrepareContext;

    /// The description the pipeline is built from: its vertex format
    /// tags, its binding sets and its shader file. It respects
    /// [`description_bounds`], so shader locations and binding indices
    /// fit their native index types.
    fn description() -> (d: PipelineDescription)
        ensures
            description_bounds(d),
    ;

    /// Wrap the built pipeline in the caller's own struct.
    fn setup(pipe: Pipeline, painter: &Painter) -> Self;

    /// Produce the uniform updates for one frame from the supplied
    /// prepare context.
    fn prepare(&mut self, context: Self::PrepareContext, painter: &mut Painter) -> Vec<
        UniformUpdate,
    >;

    /// The pipeline core a render pass reads.
    fn pipeline_core(&self) -> &PipelineCore;

    /// The pipeline core, for the painter to update its uniform buffers
    /// in place.
    fn pipeline_core_mut(&mut self) -> &mut PipelineCore;
}

/// A builder the caller supplies when it wants to construct the native
/// pipeline itself rather than take the one the device facade builds.
pub trait PipelineFactory {
    /// Build a pipeline from the prepared layout, vertex layout and
    /// shader.
    fn build(
        &self,
        device: &Device,
        layout: PipelineLayout,
        vertex_layout: VertexLayout,
        shader: Shader,
        multisample: MultisampleState,
        name: Option<String>,
    ) -> Pipeline;
}

/// New uniform values for one uniform buffer of a pipeline core: the
/// buffer's position among the core's uniform buffers, the new bytes, and
/// the byte size of one element of them.
#[derive(Debug, Clone)]
pub struct UniformUpdate {
    /// Position of the buffer in the pipeline core's uniform list.
    pub buffer_index: usize,
    /// The new uniform bytes.
    pub data: Vec<u8>,
    /// Byte size of one element of the new bytes.
    pub elem_size: usize,
}

} // verus!
