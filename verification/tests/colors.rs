use pigeon_parrot::color::{Bgra8, Rgba8};

#[test]
fn rgba8_new_packs_channels() {
    let c = Rgba8::new(1, 2, 3, 4);
    assert_eq!(c, Rgba8 { r: 1, g: 2, b: 3, a: 4 });
}

#[test]
fn bgra8_new_packs_channels() {
    let c = Bgra8::new(1, 2, 3, 4);
    assert_eq!(c, Bgra8 { b: 1, g: 2, r: 3, a: 4 });
}

#[test]
fn bgra_to_rgba_keeps_channel_values() {
    let bgra = Bgra8::new(10, 20, 30, 40);
    let rgba = Rgba8::from(bgra);
    assert_eq!(rgba, Rgba8 { r: 30, g: 20, b: 10, a: 40 });
}

#[test]
fn rgba8_align_reads_whole_pixels() {
    let bytes = [1, 2, 3, 4, 5, 6, 7, 8];
    let pixels = Rgba8::align(&bytes);
    assert_eq!(pixels, vec![Rgba8::new(1, 2, 3, 4), Rgba8::new(5, 6, 7, 8)]);
}

#[test]
fn bgra8_align_reads_whole_pixels() {
    let bytes = [1, 2, 3, 4];
    let pixels = Bgra8::align(&bytes);
    assert_eq!(pixels, vec![Bgra8::new(1, 2, 3, 4)]);
}

#[test]
fn align_of_empty_slice_is_empty() {
    let bytes: [u8; 0] = [];
    assert!(Rgba8::align(&bytes).is_empty());
}
