use pigeon_parrot::binding::{Bind, BindingResource, ShaderStages};
use pigeon_parrot::buffers::depth::DepthBuffer;
use pigeon_parrot::device::Device;
use pigeon_parrot::error::ParrotError;
use pigeon_parrot::pipeline::{BlendFactor, BlendOp, Blending};
use pigeon_parrot::sampler::FilterMode;
use pigeon_parrot::shader::ShaderFile;
use pigeon_parrot::texture::{TextureFormat, TextureUsages};
use pigeon_parrot::transform::ScreenSize;

#[test]
fn shader_stage_masks() {
    assert_eq!(ShaderStages::none().bits, 0);
    assert_eq!(ShaderStages::vertex().bits, 1);
    assert_eq!(ShaderStages::fragment().bits, 2);
    assert_eq!(ShaderStages::compute().bits, 4);
    assert_eq!(ShaderStages::vertex_fragment().bits, 3);
}

#[test]
fn default_blending_is_alpha_over() {
    let b = Blending::default();
    assert_eq!(b.src_factor, BlendFactor::SrcAlpha);
    assert_eq!(b.dst_factor, BlendFactor::OneMinusSrcAlpha);
    assert_eq!(b.operation, BlendOp::Add);
}

#[test]
fn blending_new_packs_its_parts() {
    let b = Blending::new(BlendFactor::One, BlendFactor::Zero, BlendOp::Add);
    assert_eq!(b, Blending::constant());
}

#[test]
fn depth_buffers_use_the_depth_format() {
    assert_eq!(DepthBuffer::format(), TextureFormat::Depth32Float);
}

#[test]
fn bindable_resources_report_their_kind() {
    let device = Device::new();
    let sampler = device.create_sampler(FilterMode::Linear, FilterMode::Nearest, None);
    let e = sampler.binding(7);
    assert_eq!(e.binding, 7);
    assert_eq!(e.resource, BindingResource::Sampler);

    let texture = device.create_texture(
        ScreenSize::new(1, 1),
        TextureFormat::Rgba8Unorm,
        TextureUsages::texture_binding(),
        None,
        1,
    );
    let e = texture.binding(0);
    assert_eq!(e.resource, BindingResource::TextureView);

    let uniform = device.create_uniform_buffer(&[0; 4], 4, 1, None);
    let e = uniform.binding(1);
    // the bound range covers the buffer's whole capacity
    assert_eq!(e.resource, BindingResource::UniformBuffer { offset: 0, size_bytes: 4 });
}

#[test]
fn sampler_records_its_filters() {
    let device = Device::new();
    let s = device.create_sampler(FilterMode::Linear, FilterMode::Nearest, None);
    assert_eq!(s.mag_filter, FilterMode::Linear);
    assert_eq!(s.min_filter, FilterMode::Nearest);
}

#[test]
fn shader_record_keeps_its_source() {
    let device = Device::new();
    let s = device.create_shader(ShaderFile::Wgsl("source text"), Some("s".to_string()));
    assert!(matches!(s.file, ShaderFile::Wgsl("source text")));
    assert_eq!(s.name.as_deref(), Some("s"));
}

#[test]
fn error_messages_name_the_failure() {
    assert_eq!(
        ParrotError::NoAdaptersFound.message(),
        "Suitable graphics adapter was not found"
    );
    assert_eq!(ParrotError::RequestDeviceError.message(), "Device creation error");
    assert_eq!(
        ParrotError::BindingSizeMismatch { expected: 2, actual: 1 }.message(),
        "Layout slot count doesn't match bindings"
    );
}

#[test]
fn painter_sampler_records_each_filter_in_its_role() {
    let p = pigeon_parrot::painter::Painter::new(1, TextureFormat::Bgra8UnormSrgb);
    let s = p.sampler(FilterMode::Linear, FilterMode::Nearest, None);
    assert_eq!(s.min_filter, FilterMode::Linear);
    assert_eq!(s.mag_filter, FilterMode::Nearest);
}

#[test]
fn update_sample_count_changes_only_the_sample_count() {
    let mut p = pigeon_parrot::painter::Painter::new(1, TextureFormat::Bgra8UnormSrgb);
    p.update_sample_count(4);
    assert_eq!(p.sample_count(), 4);
    assert_eq!(p.preferred_format(), TextureFormat::Bgra8UnormSrgb);
}
