use blitframe::{Color, Context, Image, PixelBuffer, Renderable};

fn packed_white() -> u32 {
    Color::white().as_u32()
}

#[test]
fn round_trip_keeps_color() {
    let samples = [
        Color::new(0, 0, 0),
        Color::new(255, 255, 255),
        Color::new(0x12, 0x34, 0x56),
        Color::new(1, 128, 254),
    ];
    for c in samples {
        assert_eq!(Color::from_u32(c.as_u32()), c);
    }
}

#[test]
fn packing_puts_red_high() {
    assert_eq!(Color::new(0x12, 0x34, 0x56).as_u32(), 0x123456);
    assert_eq!(Color::white().as_u32(), 0x00ff_ffff);
    assert_eq!(Color::black().as_u32(), 0);
}

#[test]
fn unpacking_ignores_high_bits() {
    assert_eq!(Color::from_u32(0xab12_3456), Color::new(0x12, 0x34, 0x56));
    assert_eq!(Color::from_u32(0xff00_0000), Color::black());
}

#[test]
fn new_buffer_is_black() {
    let b = PixelBuffer::new(4, 3);
    assert_eq!(b.width(), 4);
    assert_eq!(b.height(), 3);
    assert_eq!(b.as_ref().len(), 12);
    assert!(b.as_ref().iter().all(|&p| p == 0));
}

#[test]
fn get_last_pixel_in_bounds() {
    let b = PixelBuffer::new(4, 3);
    assert_eq!(*b.at(3, 2), 0);
}

#[test]
fn empty_buffer_does_not_panic() {
    let b = PixelBuffer::new(0, 5);
    assert_eq!(b.as_ref().len(), 0);
    let mut c = Context::new(0, 0, None);
    c.clear(Some(Color::white()));
    c.insert_slice(0, 0, 1, 1, &[Color::white()]);
    assert_eq!(c.buffer().len(), 0);
}

#[test]
fn at_mut_writes_one_cell() {
    let mut b = PixelBuffer::new(4, 3);
    *b.at_mut(1, 2) = 7;
    assert_eq!(*b.at(1, 2), 7);
    assert_eq!(b.as_ref()[2 * 4 + 1], 7);
    assert_eq!(b.as_ref().iter().filter(|&&p| p != 0).count(), 1);
}

#[test]
fn set_and_fill() {
    let mut b = PixelBuffer::new(3, 2);
    b.set(2, 1, 9);
    assert_eq!(b.as_ref(), &[0, 0, 0, 0, 0, 9]);
    b.fill(5);
    assert_eq!(b.as_ref(), &[5; 6]);
}

#[test]
fn clear_white_fills_every_pixel() {
    let mut c = Context::new(5, 4, None);
    c.clear(Some(Color::white()));
    assert_eq!(c.buffer().len(), 20);
    assert!(c.buffer().iter().all(|&p| p == packed_white()));
}

#[test]
fn clear_defaults_to_black() {
    let mut c = Context::new(3, 3, None);
    c.clear(Some(Color::white()));
    c.clear(None);
    assert!(c.buffer().iter().all(|&p| p == 0));
}

#[test]
fn clear_twice_same_as_once() {
    let color = Color::new(10, 20, 30);
    let mut once = Context::new(4, 4, None);
    once.insert_pixel(1, 1, Color::white());
    once.clear(Some(color));
    let mut twice = Context::new(4, 4, None);
    twice.insert_pixel(1, 1, Color::white());
    twice.clear(Some(color));
    twice.clear(Some(color));
    assert_eq!(once.buffer(), twice.buffer());
}

#[test]
fn insert_pixel_sets_exactly_one() {
    let mut c = Context::new(4, 3, None);
    c.insert_pixel(3, 2, Color::new(1, 2, 3));
    for (k, &p) in c.buffer().iter().enumerate() {
        if k == 2 * 4 + 3 {
            assert_eq!(p, 0x010203);
        } else {
            assert_eq!(p, 0);
        }
    }
}

#[test]
fn clipped_region_touches_only_visible_corner() {
    let red = Color::new(255, 0, 0);
    let mut c = Context::new(8, 8, None);
    c.insert_slice(-2, -2, 4, 4, &[red; 16]);
    for y in 0..8 {
        for x in 0..8 {
            let p = c.buffer()[y * 8 + x];
            if x < 2 && y < 2 {
                assert_eq!(p, 0xff0000);
            } else {
                assert_eq!(p, 0);
            }
        }
    }
}

#[test]
fn region_past_bottom_right_is_clipped() {
    let mut c = Context::new(4, 4, None);
    let src: Vec<Color> = (0..9u8).map(|i| Color::new(0, 0, i + 1)).collect();
    c.insert_slice(2, 3, 3, 3, &src);
    let b = c.buffer();
    assert_eq!(b[3 * 4 + 2], 1);
    assert_eq!(b[3 * 4 + 3], 2);
    assert_eq!(b.iter().filter(|&&p| p != 0).count(), 2);
}

#[test]
fn region_keeps_row_major_order() {
    let mut c = Context::new(4, 4, None);
    let src: Vec<Color> = (0..6u8).map(|i| Color::new(0, 0, i + 1)).collect();
    c.insert_slice(1, 1, 3, 2, &src);
    let b = c.buffer();
    assert_eq!(&b[4..8], &[0, 1, 2, 3]);
    assert_eq!(&b[8..12], &[0, 4, 5, 6]);
}

#[test]
fn draw_white_square_on_black() {
    let mut c = Context::new(8, 8, None);
    c.clear(Some(Color::black()));
    c.insert_slice(3, 3, 2, 2, &[Color::white(); 4]);
    for y in 0..8 {
        for x in 0..8 {
            let p = c.buffer()[y * 8 + x];
            if (x == 3 || x == 4) && (y == 3 || y == 4) {
                assert_eq!(p, packed_white());
            } else {
                assert_eq!(p, Color::black().as_u32());
            }
        }
    }
}

#[test]
fn image_from_rgb_reads_triples() {
    let img = Image::from_rgb(2, 1, &vec![1, 2, 3, 4, 5, 6]).unwrap();
    assert_eq!(img.dimensions(), (2, 1));
    assert_eq!(img.data(), &vec![Color::new(1, 2, 3), Color::new(4, 5, 6)]);
}

#[test]
fn image_from_rgb_rejects_wrong_length() {
    assert!(Image::from_rgb(2, 1, &vec![1, 2, 3, 4, 5]).is_none());
    assert!(Image::from_rgb(1, 1, &vec![1, 2, 3, 4]).is_none());
    assert!(Image::from_rgb(usize::MAX, 2, &vec![]).is_none());
}

#[test]
fn render_image_at_offset() {
    let img = Image::from_rgb(2, 2, &vec![0, 0, 1, 0, 0, 2, 0, 0, 3, 0, 0, 4]).unwrap();
    let mut c = Context::new(3, 3, None);
    c.render(1, -1, &img);
    assert_eq!(c.buffer(), &[0, 3, 4, 0, 0, 0, 0, 0, 0]);
}

#[test]
fn surface_size_scales_dimensions() {
    let c = Context::new(8, 6, Some(3));
    assert_eq!(c.scale(), 3);
    assert_eq!(c.surface_size(), Some((24, 18)));
    assert_eq!(c.width(), 8);
    assert_eq!(c.height(), 6);
    let d = Context::new(8, 6, None);
    assert_eq!(d.surface_size(), Some((8, 6)));
    let e = Context::new(2, 1, Some(usize::MAX));
    assert_eq!(e.surface_size(), None);
}
