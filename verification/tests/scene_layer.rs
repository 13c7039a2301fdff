use pigeon_parrot::binding::BindingResource;
use pigeon_parrot::device::Device;
use pigeon_parrot::error::EguiBackendError;
use pigeon_parrot::graphics::batch::{
    merge_breakdowns, merge_textured_breakdowns, Breakdown, RenderInformation,
};
use pigeon_parrot::graphics::texture::{IdAllocator, Texture, TextureRegistry, TextureSetAction};
use pigeon_parrot::graphics::triangle::TrianglePipe;
use pigeon_parrot::graphics::quad::{draw_plan, DrawStep, QuadPipe};
use pigeon_parrot::graphics::batch::Group;
use pigeon_parrot::painter::Painter;
use pigeon_parrot::pipeline::{Blending, Plumber};
use pigeon_parrot::sampler::FilterMode;
use pigeon_parrot::texture::{TextureFormat, TextureUsages};
use pigeon_parrot::transform::ScreenSize;

fn painter() -> Painter {
    Painter::new(1, TextureFormat::Bgra8UnormSrgb)
}

fn scene_texture(ids: &mut IdAllocator, name: &str) -> Texture {
    let device = Device::new();
    let t = device.create_texture(
        ScreenSize::new(2, 2),
        TextureFormat::Rgba8UnormSrgb,
        TextureUsages::copy_dst().or(TextureUsages::texture_binding()),
        None,
        1,
    );
    let sampler = device.create_sampler(FilterMode::Nearest, FilterMode::Nearest, None);
    Texture::new(t, sampler, name.to_string(), ids)
}

#[test]
fn id_allocator_hands_out_distinct_increasing_ids() {
    let mut ids = IdAllocator::new();
    let a = ids.get_id();
    let b = ids.get_id();
    let c = ids.get_id();
    assert_eq!(a, 1);
    assert_eq!(b, 2);
    assert_eq!(c, 3);
}

#[test]
fn registry_plans_updates_and_creation_by_id_and_region() {
    let mut ids = IdAllocator::new();
    let mut reg = TextureRegistry::new();
    let tex = scene_texture(&mut ids, "t");
    let id = tex.id;
    reg.insert(tex);

    assert_eq!(reg.plan_set(id, true), Ok(TextureSetAction::UpdateRegion));
    assert_eq!(reg.plan_set(id, false), Ok(TextureSetAction::UpdateWhole));
    assert_eq!(reg.plan_set(id + 1, false), Ok(TextureSetAction::Create));
    assert_eq!(reg.plan_set(id + 1, true), Err(EguiBackendError::UnknownTextureId(id + 1)));
}

#[test]
fn freeing_registered_textures_succeeds() {
    let mut ids = IdAllocator::new();
    let mut reg = TextureRegistry::new();
    let t1 = scene_texture(&mut ids, "a");
    let t2 = scene_texture(&mut ids, "b");
    let (id1, id2) = (t1.id, t2.id);
    reg.insert(t1);
    reg.insert(t2);
    assert_eq!(reg.free_textures(&[id1, id2]), Ok(()));
    assert!(!reg.contains(id1));
    assert!(!reg.contains(id2));
}

#[test]
fn freeing_an_unknown_texture_fails() {
    let mut ids = IdAllocator::new();
    let mut reg = TextureRegistry::new();
    let t1 = scene_texture(&mut ids, "a");
    let id1 = t1.id;
    reg.insert(t1);
    let r = reg.free_textures(&[id1, 99]);
    assert_eq!(r, Err(EguiBackendError::UnknownTextureId(99)));
    // the earlier id was already freed when the walk stopped
    assert!(!reg.contains(id1));
}

#[test]
fn freeing_the_same_texture_twice_fails() {
    let mut ids = IdAllocator::new();
    let mut reg = TextureRegistry::new();
    let t1 = scene_texture(&mut ids, "a");
    let id1 = t1.id;
    reg.insert(t1);
    let r = reg.free_textures(&[id1, id1]);
    assert_eq!(r, Err(EguiBackendError::UnknownTextureId(id1)));
}

fn plain_breakdown(vertex_count: usize, fill: u8, indicies: Vec<u16>) -> Breakdown {
    Breakdown {
        vertices: vec![fill; vertex_count * 28],
        vertex_count,
        indicies,
        texture: None,
    }
}

#[test]
fn merge_shifts_indices_by_vertices_before() {
    let items = vec![
        plain_breakdown(3, 1, vec![0, 1, 2]),
        plain_breakdown(4, 2, vec![0, 1, 3, 0, 3, 2]),
    ];
    let (vertices, indices) = merge_breakdowns(&items);
    assert_eq!(vertices.len(), 3 * 28 + 4 * 28);
    assert_eq!(&vertices[..84], &[1u8; 84][..]);
    assert_eq!(&vertices[84..], &[2u8; 112][..]);
    assert_eq!(indices, vec![0, 1, 2, 3, 4, 6, 3, 6, 5]);
}

#[test]
fn merge_of_no_breakdowns_is_empty() {
    let items: Vec<Breakdown> = vec![];
    let (vertices, indices) = merge_breakdowns(&items);
    assert!(vertices.is_empty());
    assert!(indices.is_empty());
}

#[test]
fn textured_merge_records_one_group_per_shape() {
    let mut ids = IdAllocator::new();
    let t1 = scene_texture(&mut ids, "a");
    let t2 = scene_texture(&mut ids, "b");
    let (id1, id2) = (t1.id, t2.id);
    let items = vec![
        Breakdown {
            vertices: vec![1; 4 * 20],
            vertex_count: 4,
            indicies: vec![0, 1, 3, 0, 3, 2],
            texture: Some(t1),
        },
        Breakdown {
            vertices: vec![2; 4 * 20],
            vertex_count: 4,
            indicies: vec![0, 1, 3, 0, 3, 2],
            texture: Some(t2),
        },
    ];
    let (vertices, indices, groups) = merge_textured_breakdowns(&items);
    assert_eq!(vertices.len(), 160);
    assert_eq!(indices, vec![0, 1, 3, 0, 3, 2, 4, 5, 7, 4, 7, 6]);
    assert_eq!(groups.len(), 2);
    assert_eq!((groups[0].start, groups[0].end, groups[0].tex_id), (0, 6, id1));
    assert_eq!((groups[1].start, groups[1].end, groups[1].tex_id), (6, 12, id2));
}

#[test]
fn triangle_pipe_builds_and_updates_through_the_painter() {
    let mut p = painter();
    let mut pipe: TrianglePipe = p.pipeline(
        Blending::default(),
        TextureFormat::Bgra8UnormSrgb,
        Some("triangle shader".to_string()),
    );
    let core = pipe.pipeline_core();
    assert!(core.pipeline.desc.depth_stencil.is_some());
    assert_eq!(core.bindings.len(), 1);
    assert_eq!(core.uniforms.len(), 1);
    assert_eq!(core.uniforms[0].size, 64);
    assert_eq!(core.uniforms[0].count, 1);
    assert_eq!(
        core.bindings[0].entries[0].resource,
        // the whole 64-byte transform matrix is bound
        BindingResource::UniformBuffer { offset: 0, size_bytes: 64 }
    );

    let info = RenderInformation {
        shapes: vec![
            plain_breakdown(3, 1, vec![0, 1, 2]),
            plain_breakdown(3, 2, vec![0, 2, 1]),
        ],
        transform: vec![7; 64],
    };
    p.update_pipeline(&mut pipe, info);
    assert_eq!(pipe.vertex_buffer.size, 6 * 28);
    assert_eq!(pipe.index_buffer.size, 6);
    assert_eq!(pipe.index_buffer.elements, 6);
    assert_eq!(pipe.index_buffer.data, vec![0, 1, 2, 3, 5, 4, 0, 0]);
    assert_eq!(pipe.pipeline_core().uniforms[0].data, vec![7; 64]);
}

#[test]
fn quad_pipe_registers_each_texture_once() {
    let mut p = painter();
    let mut pipe: QuadPipe = p.pipeline(
        Blending::default(),
        TextureFormat::Bgra8UnormSrgb,
        Some("quad shader".to_string()),
    );
    assert!(pipe.pipeline_core().pipeline.desc.depth_stencil.is_some());

    let mut ids = IdAllocator::new();
    let tex = scene_texture(&mut ids, "sprite");
    let id = tex.id;
    let info = RenderInformation {
        shapes: vec![
            Breakdown {
                vertices: vec![1; 4 * 20],
                vertex_count: 4,
                indicies: vec![0, 1, 3, 0, 3, 2],
                texture: Some(tex.clone()),
            },
            Breakdown {
                vertices: vec![2; 4 * 20],
                vertex_count: 4,
                indicies: vec![0, 1, 3, 0, 3, 2],
                texture: Some(tex),
            },
        ],
        transform: vec![0; 64],
    };
    p.update_pipeline(&mut pipe, info);
    assert_eq!(pipe.groups.len(), 2);
    assert_eq!(pipe.groups[0].tex_id, id);
    assert_eq!(pipe.groups[1].tex_id, id);
    assert_eq!(pipe.texture_binds.len(), 1);
    let group = pipe.texture_binds.get(&id).expect("the texture must be registered");
    assert_eq!(group.entries.len(), 2);
    assert_eq!(group.entries[0].resource, BindingResource::TextureView);
    assert_eq!(group.entries[1].resource, BindingResource::Sampler);
    assert_eq!(pipe.vertex_buffer.size, 160);
    assert_eq!(pipe.index_buffer.elements, 12);
}

#[test]
fn draw_plan_binds_only_on_texture_change() {
    let groups = vec![
        Group { start: 0, end: 6, tex_id: 1 },
        Group { start: 6, end: 12, tex_id: 1 },
        Group { start: 12, end: 18, tex_id: 2 },
    ];
    let plan = draw_plan(&groups);
    assert_eq!(
        plan,
        vec![
            DrawStep::SetBinding { tex_id: 1 },
            DrawStep::DrawIndexed { start: 0, end: 6 },
            DrawStep::DrawIndexed { start: 6, end: 12 },
            DrawStep::SetBinding { tex_id: 2 },
            DrawStep::DrawIndexed { start: 12, end: 18 },
        ]
    );
    assert!(draw_plan(&vec![]).is_empty());
}

#[test]
fn identity_matrix_bytes_carry_ones_on_the_diagonal() {
    let m = pigeon_parrot::graphics::triangle::identity_matrix_bytes();
    assert_eq!(m.len(), 64);
    // the float value one is the bytes 0, 0, 128, 63; the diagonal sits
    // 20 bytes apart
    for d in 0..4 {
        assert_eq!(&m[d * 20..d * 20 + 4], &[0, 0, 128, 63]);
    }
    assert_eq!(m[4], 0);
    assert_eq!(m[63], 63);
    assert_eq!(m.iter().filter(|b| **b != 0).count(), 8);
}
