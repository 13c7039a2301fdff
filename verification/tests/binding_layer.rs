use pigeon_parrot::binding::{Binding, BindingResource, BindingType, ShaderStages};
use pigeon_parrot::painter::Painter;
use pigeon_parrot::pipeline::BindingSet;
use pigeon_parrot::texture::TextureFormat;
use pigeon_parrot::device::Device;
use pigeon_parrot::error::ParrotError;

fn slots() -> Vec<Binding> {
    vec![
        Binding { binding: BindingType::UniformBuffer, stage: ShaderStages::vertex() },
        Binding { binding: BindingType::Sampler, stage: ShaderStages::fragment() },
        Binding { binding: BindingType::Texture, stage: ShaderStages::fragment() },
    ]
}

#[test]
fn layout_assigns_binding_indices_in_order() {
    let device = Device::new();
    let layout = device.create_binding_group_layout(2, &slots(), None);
    assert_eq!(layout.set_index, 2);
    assert_eq!(layout.size, 3);
    assert_eq!(layout.entries.len(), 3);
    assert_eq!(layout.entries[0].binding, 0);
    assert_eq!(layout.entries[1].binding, 1);
    assert_eq!(layout.entries[2].binding, 2);
}

#[test]
fn layout_entries_carry_declared_kind_and_visibility() {
    let device = Device::new();
    let layout = device.create_binding_group_layout(0, &slots(), None);
    assert_eq!(layout.entries[0].ty, BindingType::UniformBuffer);
    assert_eq!(layout.entries[1].ty, BindingType::Sampler);
    assert_eq!(layout.entries[2].ty, BindingType::Texture);
    assert_eq!(layout.entries[0].visibility.bits, 1);
    assert_eq!(layout.entries[1].visibility.bits, 2);
    assert_eq!(layout.entries[2].visibility.bits, 2);
}

#[test]
fn group_with_matching_count_binds_in_order() {
    let device = Device::new();
    let layout = device.create_binding_group_layout(1, &slots(), None);
    let binds = [
        BindingResource::UniformBuffer { offset: 0, size_bytes: 16 },
        BindingResource::Sampler,
        BindingResource::TextureView,
    ];
    let group = device.create_binding_group(&layout, &binds, None).unwrap();
    assert_eq!(group.set_index, 1);
    assert_eq!(group.entries.len(), 3);
    for (i, e) in group.entries.iter().enumerate() {
        assert_eq!(e.binding, i as u32);
    }
    assert_eq!(
        group.entries[0].resource,
        BindingResource::UniformBuffer { offset: 0, size_bytes: 16 }
    );
    assert_eq!(group.entries[1].resource, BindingResource::Sampler);
    assert_eq!(group.entries[2].resource, BindingResource::TextureView);
}

#[test]
fn group_with_too_few_resources_fails() {
    let device = Device::new();
    let layout = device.create_binding_group_layout(0, &slots(), None);
    let binds = [
        BindingResource::UniformBuffer { offset: 0, size_bytes: 16 },
        BindingResource::Sampler,
    ];
    let r = device.create_binding_group(&layout, &binds, None);
    assert_eq!(r.unwrap_err(), ParrotError::BindingSizeMismatch { expected: 3, actual: 2 });
}

#[test]
fn group_with_too_many_resources_fails() {
    let device = Device::new();
    let layout = device.create_binding_group_layout(0, &slots(), None);
    let binds = [
        BindingResource::UniformBuffer { offset: 0, size_bytes: 16 },
        BindingResource::Sampler,
        BindingResource::TextureView,
        BindingResource::TextureView,
    ];
    let r = device.create_binding_group(&layout, &binds, None);
    assert_eq!(r.unwrap_err(), ParrotError::BindingSizeMismatch { expected: 3, actual: 4 });
}

#[test]
fn painter_forwards_binding_group_construction() {
    let p = Painter::new(1, TextureFormat::Bgra8UnormSrgb);
    let layout = p.device.create_binding_group_layout(0, &slots(), None);
    let r = p.binding_group(
        &layout,
        &[BindingResource::UniformBuffer { offset: 0, size_bytes: 16 }],
        None,
    );
    assert_eq!(r.unwrap_err(), ParrotError::BindingSizeMismatch { expected: 3, actual: 1 });
}

#[test]
fn pipeline_layout_assigns_set_indices_in_order() {
    let device = Device::new();
    let sets = vec![
        BindingSet(
            vec![Binding { binding: BindingType::Texture, stage: ShaderStages::fragment() }],
            Some("textures".to_string()),
        ),
        BindingSet(
            vec![Binding { binding: BindingType::UniformBuffer, stage: ShaderStages::vertex() }],
            Some("transforms".to_string()),
        ),
    ];
    let layout = device.create_pipeline_layout(Some(&sets));
    assert_eq!(layout.b_layouts.len(), 2);
    assert_eq!(layout.b_layouts[0].set_index, 0);
    assert_eq!(layout.b_layouts[1].set_index, 1);
    assert_eq!(layout.b_layouts[0].size, 1);
    assert_eq!(layout.b_layouts[0].entries[0].ty, BindingType::Texture);
    assert_eq!(layout.b_layouts[1].entries[0].ty, BindingType::UniformBuffer);

    let empty = device.create_pipeline_layout(None);
    assert_eq!(empty.b_layouts.len(), 0);
}
