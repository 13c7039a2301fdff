use pigeon_parrot::vertex::{VertexFormat, VertexLayout};

#[test]
fn empty_layout_has_zero_stride() {
    let layout = VertexLayout::from(&[]);
    assert_eq!(layout.size, 0);
    assert_eq!(layout.wgpu_attrs.len(), 0);
}

#[test]
fn single_format_sizes() {
    assert_eq!(VertexLayout::from(&[VertexFormat::Floatx1]).size, 4);
    assert_eq!(VertexLayout::from(&[VertexFormat::Floatx2]).size, 8);
    assert_eq!(VertexLayout::from(&[VertexFormat::Floatx3]).size, 12);
    assert_eq!(VertexLayout::from(&[VertexFormat::Floatx4]).size, 16);
    assert_eq!(VertexLayout::from(&[VertexFormat::Uint32]).size, 4);
}

#[test]
fn bytesize_of_each_format() {
    assert_eq!(VertexFormat::Floatx1.bytesize(), 4);
    assert_eq!(VertexFormat::Floatx2.bytesize(), 8);
    assert_eq!(VertexFormat::Floatx3.bytesize(), 12);
    assert_eq!(VertexFormat::Floatx4.bytesize(), 16);
    assert_eq!(VertexFormat::Uint32.bytesize(), 4);
}

#[test]
fn stride_is_sum_of_format_widths() {
    let layout = VertexLayout::from(&[VertexFormat::Floatx3, VertexFormat::Floatx4]);
    assert_eq!(layout.size, 28);

    let layout = VertexLayout::from(&[
        VertexFormat::Floatx1,
        VertexFormat::Uint32,
        VertexFormat::Floatx2,
        VertexFormat::Floatx3,
    ]);
    assert_eq!(layout.size, 4 + 4 + 8 + 12);
}

#[test]
fn offsets_are_contiguous_from_zero() {
    let layout = VertexLayout::from(&[
        VertexFormat::Floatx1,
        VertexFormat::Uint32,
        VertexFormat::Floatx2,
        VertexFormat::Floatx3,
    ]);
    let offsets: Vec<u64> = layout.wgpu_attrs.iter().map(|a| a.offset).collect();
    assert_eq!(offsets, vec![0, 4, 8, 16]);
    for w in layout.wgpu_attrs.windows(2) {
        assert!(w[0].offset < w[1].offset);
    }
}

#[test]
fn shader_locations_are_dense_from_zero() {
    let layout = VertexLayout::from(&[
        VertexFormat::Floatx3,
        VertexFormat::Floatx2,
        VertexFormat::Uint32,
    ]);
    let locations: Vec<u32> = layout.wgpu_attrs.iter().map(|a| a.shader_location).collect();
    assert_eq!(locations, vec![0, 1, 2]);
    assert_eq!(layout.wgpu_attrs[0].format, VertexFormat::Floatx3);
    assert_eq!(layout.wgpu_attrs[1].format, VertexFormat::Floatx2);
    assert_eq!(layout.wgpu_attrs[2].format, VertexFormat::Uint32);
}
