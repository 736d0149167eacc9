use math_render::canvas::Canvas;
use math_render::geometry::SizeError;

#[test]
fn new_canvas_is_transparent() {
    let c = Canvas::new(3, 2).unwrap();
    assert_eq!(c.width(), 3);
    assert_eq!(c.height(), 2);
    for y in 0..2 {
        for x in 0..3 {
            assert_eq!(c.pixel(x, y), Some((0, 0, 0, 0)));
        }
    }
}

#[test]
fn zero_sized_canvas_is_degenerate() {
    assert!(matches!(Canvas::new(0, 5), Err(SizeError::Degenerate)));
    assert!(matches!(Canvas::new(5, 0), Err(SizeError::Degenerate)));
}

#[test]
fn huge_canvas_is_too_large() {
    assert!(matches!(Canvas::new(u32::MAX, u32::MAX), Err(SizeError::TooLarge)));
    assert!(matches!(Canvas::new(1 << 20, 1 << 20), Err(SizeError::TooLarge)));
}

#[test]
fn fill_overwrites_every_pixel() {
    let mut c = Canvas::new(4, 3).unwrap();
    c.fill_opaque(10, 20, 30);
    for y in 0..3 {
        for x in 0..4 {
            assert_eq!(c.pixel(x, y), Some((10, 20, 30, 255)));
        }
    }
}

#[test]
fn draw_copies_opaque_pixels_and_keeps_the_rest() {
    let mut bg = Canvas::new(3, 3).unwrap();
    bg.fill_opaque(255, 255, 255);
    let mut fg = Canvas::new(1, 1).unwrap();
    fg.fill_opaque(9, 8, 7);
    bg.draw_at(1, 1, &fg);
    assert_eq!(bg.pixel(1, 1), Some((9, 8, 7, 255)));
    for (x, y) in [(0, 0), (1, 0), (2, 0), (0, 1), (2, 1), (0, 2), (1, 2), (2, 2)] {
        assert_eq!(bg.pixel(x, y), Some((255, 255, 255, 255)));
    }
}

#[test]
fn draw_of_transparent_image_changes_nothing() {
    let mut bg = Canvas::new(2, 2).unwrap();
    bg.fill_opaque(1, 2, 3);
    let fg = Canvas::new(2, 2).unwrap();
    bg.draw_at(0, 0, &fg);
    for y in 0..2 {
        for x in 0..2 {
            assert_eq!(bg.pixel(x, y), Some((1, 2, 3, 255)));
        }
    }
}

#[test]
fn oversized_dimension_is_too_large() {
    // Within the byte budget, but one dimension exceeds the coordinate cap.
    assert!(matches!(Canvas::new(8388609, 1), Err(SizeError::TooLarge)));
    assert!(matches!(Canvas::new(1, 8388609), Err(SizeError::TooLarge)));
}

#[test]
fn pixmap_round_trip_keeps_the_canvas() {
    let mut c = Canvas::new(2, 2).unwrap();
    c.fill_opaque(5, 6, 7);
    let pix = c.into_pixmap();
    let c2 = Canvas::from_pixmap(pix).unwrap();
    assert_eq!(c2.width(), 2);
    assert_eq!(c2.height(), 2);
    assert_eq!(c2.pixel(1, 1), Some((5, 6, 7, 255)));
}

#[test]
fn oversized_pixmap_is_refused_by_the_wrapper() {
    // tiny_skia itself accepts this width; the library's cap refuses it.
    let pix = resvg::tiny_skia::Pixmap::new(8388609, 1).unwrap();
    assert!(matches!(
        Canvas::from_pixmap(pix),
        Err(SizeError::TooLarge)
    ));
}
