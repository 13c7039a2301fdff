use pigeon_parrot::device::Device;
use pigeon_parrot::pipeline::{
    render_pipeline_desc, BlendFactor, BlendOp, Blending, CompareFunction, FrontFace,
    MultisampleState, PipelineLayout, PrimitiveTopology,
};
use pigeon_parrot::shader::{Shader, ShaderFile};
use pigeon_parrot::texture::TextureFormat;
use pigeon_parrot::vertex::{VertexFormat, VertexLayout};

fn multisample() -> MultisampleState {
    MultisampleState { count: 1, mask: u64::MAX, alpha_to_coverage_enabled: false }
}

fn shader() -> Shader {
    Shader { file: ShaderFile::Wgsl("shader text"), name: None }
}

#[test]
fn depth_pipeline_carries_less_equal_depth_stage() {
    let device = Device::new();
    let p = device.create_pipeline(
        PipelineLayout { b_layouts: vec![] },
        VertexLayout::from(&[VertexFormat::Floatx2]),
        Blending::default(),
        shader(),
        TextureFormat::Bgra8UnormSrgb,
        multisample(),
        None,
    );
    let ds = p.desc.depth_stencil.expect("the depth stage must be present");
    assert_eq!(ds.depth_compare, CompareFunction::LessEqual);
    assert!(ds.depth_write_enabled);
    assert_eq!(ds.format, TextureFormat::Depth32Float);
    assert_eq!(ds.stencil_read_mask, 0);
    assert_eq!(ds.stencil_write_mask, 0);
}

#[test]
fn no_depth_pipeline_has_no_depth_stage_at_all() {
    let device = Device::new();
    let p = device.create_pipeline_no_depth(
        PipelineLayout { b_layouts: vec![] },
        VertexLayout::from(&[VertexFormat::Floatx2]),
        Blending::default(),
        shader(),
        TextureFormat::Bgra8UnormSrgb,
        multisample(),
        None,
    );
    assert!(p.desc.depth_stencil.is_none());
}

#[test]
fn blending_resolves_identically_for_color_and_alpha() {
    let d = render_pipeline_desc(
        Blending::new(BlendFactor::SrcAlpha, BlendFactor::OneMinusSrcAlpha, BlendOp::Add),
        TextureFormat::Rgba8UnormSrgb,
        multisample(),
        true,
    );
    assert_eq!(d.target.blend.color.src_factor, BlendFactor::SrcAlpha);
    assert_eq!(d.target.blend.color.dst_factor, BlendFactor::OneMinusSrcAlpha);
    assert_eq!(d.target.blend.color.operation, BlendOp::Add);
    assert_eq!(d.target.blend.color, d.target.blend.alpha);
    assert_eq!(d.target.format, TextureFormat::Rgba8UnormSrgb);
}

#[test]
fn constant_blending_replaces_the_destination() {
    let b = Blending::constant();
    let d = render_pipeline_desc(b, TextureFormat::Bgra8UnormSrgb, multisample(), false);
    assert_eq!(d.target.blend.color.src_factor, BlendFactor::One);
    assert_eq!(d.target.blend.color.dst_factor, BlendFactor::Zero);
    assert_eq!(d.target.blend.color.operation, BlendOp::Add);
}

#[test]
fn pipelines_fix_topology_and_winding() {
    let d = render_pipeline_desc(
        Blending::default(),
        TextureFormat::Bgra8UnormSrgb,
        multisample(),
        true,
    );
    assert_eq!(d.primitive.topology, PrimitiveTopology::TriangleList);
    assert_eq!(d.primitive.front_face, FrontFace::Ccw);
}

#[test]
fn pipeline_keeps_its_multisample_state() {
    let ms = MultisampleState { count: 4, mask: u64::MAX, alpha_to_coverage_enabled: false };
    let d = render_pipeline_desc(Blending::default(), TextureFormat::Bgra8UnormSrgb, ms, true);
    assert_eq!(d.multisample, ms);
}
