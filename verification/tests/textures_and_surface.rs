use pigeon_parrot::device::{Device, PresentMode};
use pigeon_parrot::painter::Painter;
use pigeon_parrot::texture::{TextureFormat, TextureUsages};
use pigeon_parrot::transform::{Rect, ScreenSize};

#[test]
fn configure_records_size_and_surface_configuration() {
    let mut p = Painter::new(1, TextureFormat::Bgra8UnormSrgb);
    p.configure(ScreenSize::new(800, 600), PresentMode::Fifo, TextureFormat::Bgra8UnormSrgb);
    assert_eq!(p.size(), ScreenSize::new(800, 600));
    let cfg = p.device.get_config().expect("the surface must be configured");
    assert_eq!(cfg.width, 800);
    assert_eq!(cfg.height, 600);
    assert_eq!(cfg.present_mode, PresentMode::Fifo);
    assert_eq!(cfg.format, TextureFormat::Bgra8UnormSrgb);
    // surface textures are render attachments
    assert_eq!(cfg.usage.bits, 16);
}

#[test]
fn created_texture_records_extent_format_and_size() {
    let device = Device::new();
    let t = device.create_texture(
        ScreenSize::new(64, 32),
        TextureFormat::Rgba8Unorm,
        TextureUsages::copy_dst(),
        Some("atlas".to_string()),
        1,
    );
    assert_eq!(t.size, ScreenSize::new(64, 32));
    assert_eq!(t.extent.width, 64);
    assert_eq!(t.extent.height, 32);
    assert_eq!(t.extent.depth_or_array_layers, 1);
    assert_eq!(t.format, TextureFormat::Rgba8Unorm);
}

#[test]
fn depth_buffer_covers_the_surface_in_depth_format() {
    let mut p = Painter::new(4, TextureFormat::Bgra8UnormSrgb);
    p.configure(ScreenSize::new(100, 50), PresentMode::Immediate, TextureFormat::Bgra8UnormSrgb);
    let d = p.depth_buffer(Some("depth".to_string()));
    assert_eq!(d.texture.format, TextureFormat::Depth32Float);
    assert_eq!(d.texture.size, ScreenSize::new(100, 50));
}

#[test]
fn frame_buffer_carries_a_depth_buffer_only_when_asked() {
    let p = Painter::new(1, TextureFormat::Bgra8UnormSrgb);
    let with = p.create_frame_buffer(
        ScreenSize::new(10, 10),
        TextureFormat::Rgba8UnormSrgb,
        None,
    );
    assert!(with.depth.is_some());
    assert_eq!(with.width(), 10);
    assert_eq!(with.height(), 10);
    assert_eq!(with.size(), 100);
    let without = p.create_frame_buffer_no_depth(
        ScreenSize::new(10, 10),
        TextureFormat::Rgba8UnormSrgb,
        None,
    );
    assert!(without.depth.is_none());
}

#[test]
fn fill_covers_the_whole_texture_from_the_top_left() {
    let device = Device::new();
    let t = device.create_texture(
        ScreenSize::new(4, 2),
        TextureFormat::Rgba8UnormSrgb,
        TextureUsages::copy_dst(),
        None,
        1,
    );
    let c = t.fill(8, 32);
    assert_eq!((c.origin_x, c.origin_y), (0, 0));
    assert_eq!(c.extent, t.extent);
    assert_eq!(c.bytes_per_row, 16);
    assert_eq!(c.rows_per_image, 2);
}

#[test]
fn transfer_flips_the_y_axis() {
    let device = Device::new();
    let t = device.create_texture(
        ScreenSize::new(10, 10),
        TextureFormat::Rgba8UnormSrgb,
        TextureUsages::copy_dst(),
        None,
        1,
    );
    let c = t.transfer(Rect::new(2, 3, ScreenSize::new(4, 5)));
    assert_eq!(c.origin_x, 2);
    // the native y axis points down: the destination origin is flipped
    assert_eq!(c.origin_y, 10 - (3 + 5));
    assert_eq!(c.extent.width, 4);
    assert_eq!(c.extent.height, 5);
    assert_eq!(c.extent.depth_or_array_layers, 1);
    assert_eq!(c.bytes_per_row, 16);
    assert_eq!(c.rows_per_image, 5);
}

#[test]
fn textures_record_their_sample_count_and_usage() {
    let p = Painter::new(4, TextureFormat::Bgra8UnormSrgb);
    let usage = TextureUsages::copy_dst().or(TextureUsages::texture_binding());
    let multi = p.texture(ScreenSize::new(8, 8), TextureFormat::Rgba8Unorm, usage, None, true);
    assert_eq!(multi.sample_count, 4);
    assert_eq!(multi.usage, usage);
    let single = p.texture(ScreenSize::new(8, 8), TextureFormat::Rgba8Unorm, usage, None, false);
    assert_eq!(single.sample_count, 1);
}

#[test]
fn depth_and_frame_buffers_share_the_painter_sample_count() {
    let mut p = Painter::new(4, TextureFormat::Bgra8UnormSrgb);
    p.configure(ScreenSize::new(20, 20), PresentMode::Fifo, TextureFormat::Bgra8UnormSrgb);
    let d = p.depth_buffer(None);
    assert_eq!(d.texture.sample_count, 4);
    assert_eq!(d.texture.usage.bits, 2 | 16);
    let fb = p.create_frame_buffer(ScreenSize::new(10, 10), TextureFormat::Rgba8UnormSrgb, None);
    assert_eq!(fb.texture.sample_count, 4);
    assert_eq!(fb.texture.usage.bits, 1 | 2 | 4 | 16);
    assert_eq!(fb.depth.unwrap().texture.sample_count, 4);
}

#[test]
fn clear_decides_one_pixel_per_texel() {
    let device = Device::new();
    let t = device.create_texture(
        ScreenSize::new(2, 2),
        TextureFormat::Rgba8UnormSrgb,
        TextureUsages::copy_dst(),
        None,
        1,
    );
    let (pixels, copy) = t.clear(pigeon_parrot::color::Rgba8::new(9, 8, 7, 6));
    assert_eq!(pixels, vec![9, 8, 7, 6, 9, 8, 7, 6, 9, 8, 7, 6, 9, 8, 7, 6]);
    assert_eq!((copy.origin_x, copy.origin_y), (0, 0));
    assert_eq!(copy.extent, t.extent);
    assert_eq!(copy.bytes_per_row, 8);
    assert_eq!(copy.rows_per_image, 2);
}

#[test]
fn blit_accepts_equal_areas_of_different_shape() {
    let device = Device::new();
    let t = device.create_texture(
        ScreenSize::new(10, 10),
        TextureFormat::Rgba8UnormSrgb,
        TextureUsages::copy_src().or(TextureUsages::copy_dst()),
        None,
        1,
    );
    // 2 by 3 and 3 by 2 cover the same number of pixels
    let e = t.blit(
        Rect::new(0, 0, ScreenSize::new(2, 3)),
        Rect::new(4, 4, ScreenSize::new(3, 2)),
    );
    assert_eq!((e.width, e.height), (2, 3));
}

#[test]
fn blit_covers_the_common_extent() {
    let device = Device::new();
    let t = device.create_texture(
        ScreenSize::new(10, 10),
        TextureFormat::Rgba8UnormSrgb,
        TextureUsages::copy_src().or(TextureUsages::copy_dst()),
        None,
        1,
    );
    let e = t.blit(
        Rect::new(0, 0, ScreenSize::new(3, 4)),
        Rect::new(5, 5, ScreenSize::new(3, 4)),
    );
    assert_eq!((e.width, e.height, e.depth_or_array_layers), (3, 4, 1));
}

#[test]
fn usage_masks_combine_bitwise() {
    let u = TextureUsages::copy_src()
        .or(TextureUsages::copy_dst())
        .or(TextureUsages::render_attachment());
    assert_eq!(u.bits, 1 | 2 | 16);
}

#[test]
fn screen_size_area_is_width_times_height() {
    assert_eq!(ScreenSize::new(0, 7).area(), 0);
    assert_eq!(ScreenSize::new(3, 7).area(), 21);
    assert_eq!(ScreenSize::new(u32::MAX, u32::MAX).area(), (u32::MAX as u64) * (u32::MAX as u64));
}
