use pigeon_parrot::buffers::index::pad_indices;
use pigeon_parrot::painter::Painter;
use pigeon_parrot::texture::TextureFormat;

fn painter() -> Painter {
    Painter::new(1, TextureFormat::Bgra8UnormSrgb)
}

#[test]
fn uniform_update_in_place_keeps_capacity_and_name() {
    let mut p = painter();
    let mut buf = p.uniform_buffer(&[1, 2, 3, 4, 5, 6, 7, 8], 4, 2, Some("u".to_string()));
    let r = p.update_buffer(&[9, 9, 9, 9], 4, &mut buf);
    assert!(r.is_none());
    assert_eq!(buf.size, 4);
    assert_eq!(buf.count, 2);
    assert_eq!(buf.name.as_deref(), Some("u"));
    // the written prefix, then the untouched stale region
    assert_eq!(buf.data, vec![9, 9, 9, 9, 5, 6, 7, 8]);
}

#[test]
fn uniform_update_grows_to_exact_size_preserving_name() {
    let mut p = painter();
    let mut buf = p.uniform_buffer(&[1, 2, 3, 4], 4, 1, Some("u".to_string()));
    let r = p.update_buffer(&[1, 2, 3, 4, 5, 6, 7, 8, 9, 10, 11, 12], 4, &mut buf);
    let nb = r.expect("growth must hand back a replacement");
    assert_eq!(nb.size, 4);
    assert_eq!(nb.count, 3);
    assert_eq!(nb.data.len(), 12);
    assert_eq!(nb.name.as_deref(), Some("u"));
    // the old buffer is untouched
    assert_eq!(buf.data, vec![1, 2, 3, 4]);
    assert_eq!(buf.size * buf.count, 4);
}

#[test]
fn uniform_update_at_exact_capacity_stays_in_place() {
    let mut p = painter();
    let mut buf = p.uniform_buffer(&[0, 0, 0, 0], 4, 1, None);
    let r = p.update_buffer(&[7, 7, 7, 7], 4, &mut buf);
    assert!(r.is_none());
    assert_eq!(buf.data, vec![7, 7, 7, 7]);
}

#[test]
fn vertex_update_in_place_keeps_stale_tail() {
    let mut p = painter();
    let mut buf = p.vertex_buffer(&[10, 20, 30, 40, 50, 60], Some("v".to_string()));
    let r = p.update_vertex_buffer(&[1, 2], &mut buf);
    assert!(r.is_none());
    assert_eq!(buf.size, 6);
    assert_eq!(buf.data, vec![1, 2, 30, 40, 50, 60]);
    assert_eq!(buf.name.as_deref(), Some("v"));
}

#[test]
fn vertex_update_grows_to_exact_size() {
    let mut p = painter();
    let mut buf = p.vertex_buffer(&[1, 2, 3], Some("v".to_string()));
    let r = p.update_vertex_buffer(&[9; 10], &mut buf);
    let nb = r.expect("growth must hand back a replacement");
    assert_eq!(nb.size, 10);
    assert_eq!(nb.data, vec![9; 10]);
    assert_eq!(nb.name.as_deref(), Some("v"));
    assert_eq!(buf.size, 3);
}

#[test]
fn pad_indices_rounds_up_to_four_with_zeros() {
    let r = pad_indices(vec![5, 6, 7, 8, 9]);
    assert_eq!(r, vec![5, 6, 7, 8, 9, 0, 0, 0]);
    let r = pad_indices(vec![1]);
    assert_eq!(r, vec![1, 0, 0, 0]);
    let r = pad_indices(vec![1, 2, 3, 4]);
    assert_eq!(r, vec![1, 2, 3, 4]);
    let r = pad_indices(vec![]);
    assert_eq!(r, Vec::<u16>::new());
}

#[test]
fn index_write_covers_padded_run_but_reports_logical_count() {
    let mut p = painter();
    // capacity 8: the native allocation is exactly 8 (a multiple of 4)
    let mut buf = p.index_buffer(&[1, 2, 3, 4, 5, 6, 7, 8], Some("i".to_string()));
    assert_eq!(buf.size, 8);
    assert_eq!(buf.elements, 8);
    // write 5 indices: the native write covers ceil(5/4)*4 == 8 slots,
    // the extra three set to zero; the logical count is 5
    let r = p.update_index_buffer(vec![9, 9, 9, 9, 9], &mut buf);
    assert!(r.is_none());
    assert_eq!(buf.size, 8);
    assert_eq!(buf.elements, 5);
    assert_eq!(buf.data, vec![9, 9, 9, 9, 9, 0, 0, 0]);
}

#[test]
fn index_creation_pads_native_allocation_only() {
    let p = painter();
    let buf = p.index_buffer(&[1, 2, 3, 4, 5], Some("i".to_string()));
    assert_eq!(buf.size, 5);
    assert_eq!(buf.elements, 5);
    assert_eq!(buf.data, vec![1, 2, 3, 4, 5, 0, 0, 0]);
}

#[test]
fn index_update_grows_to_exact_logical_size() {
    let mut p = painter();
    let mut buf = p.index_buffer(&[1, 2], Some("i".to_string()));
    let r = p.update_index_buffer(vec![1, 2, 3], &mut buf);
    let nb = r.expect("growth must hand back a replacement");
    assert_eq!(nb.size, 3);
    assert_eq!(nb.elements, 3);
    assert_eq!(nb.data, vec![1, 2, 3, 0]);
    assert_eq!(nb.name.as_deref(), Some("i"));
}

#[test]
fn index32_update_follows_the_same_protocol() {
    let mut p = painter();
    let mut buf = p.index_buffer_32(&[1, 2, 3, 4], Some("i32".to_string()));
    let r = p.update_index_buffer_32(vec![7, 8], &mut buf);
    assert!(r.is_none());
    assert_eq!(buf.size, 4);
    assert_eq!(buf.elements, 2);
    assert_eq!(buf.data, vec![7, 8, 3, 4]);

    let r = p.update_index_buffer_32(vec![1, 2, 3, 4, 5], &mut buf);
    let nb = r.expect("growth must hand back a replacement");
    assert_eq!(nb.size, 5);
    assert_eq!(nb.elements, 5);
    assert_eq!(nb.data, vec![1, 2, 3, 4, 5]);
    assert_eq!(nb.name.as_deref(), Some("i32"));
}

#[test]
fn rewriting_what_a_buffer_holds_changes_nothing() {
    let mut p = painter();
    let mut vb = p.vertex_buffer(&[1, 2, 3], Some("v".to_string()));
    let r = p.update_vertex_buffer(&[1, 2, 3], &mut vb);
    assert!(r.is_none());
    assert_eq!(vb.data, vec![1, 2, 3]);
    assert_eq!(vb.size, 3);

    let mut ub = p.uniform_buffer(&[4, 5, 6, 7], 4, 1, None);
    let r = p.update_buffer(&[4, 5, 6, 7], 4, &mut ub);
    assert!(r.is_none());
    assert_eq!(ub.data, vec![4, 5, 6, 7]);
}

#[test]
fn index_slice_covers_logical_entries_not_padding() {
    let p = painter();
    let buf = p.index_buffer(&[1, 2, 3, 4, 5], None);
    // the native allocation holds 8 entries, but the slice handed to
    // draws covers only the 5 logical ones
    assert_eq!(buf.data.len(), 8);
    assert_eq!(buf.slice(), &[1, 2, 3, 4, 5]);

    let buf32 = p.index_buffer_32(&[7, 8, 9], None);
    assert_eq!(buf32.slice(), &[7, 8, 9]);
}

#[test]
fn capacity_never_shrinks_across_updates() {
    let mut p = painter();
    let mut buf = p.vertex_buffer(&[0; 8], None);
    let mut capacity = buf.size;
    for data in [vec![1u8; 2], vec![2u8; 8], vec![3u8; 16], vec![4u8; 4]] {
        if let Some(nb) = p.update_vertex_buffer(&data, &mut buf) {
            buf = nb;
        }
        assert!(buf.size >= capacity);
        capacity = buf.size;
    }
    assert_eq!(capacity, 16);
}
