use math_render::canvas::Canvas;
use math_render::compose::composite;
use math_render::encode::encode_canvas;
use math_render::geometry::{SizeError, PADDING};

fn png_dims(bytes: &[u8]) -> (u32, u32) {
    assert_eq!(&bytes[0..8], &[0x89, b'P', b'N', b'G', b'\r', b'\n', 0x1a, b'\n']);
    let w = u32::from_be_bytes([bytes[16], bytes[17], bytes[18], bytes[19]]);
    let h = u32::from_be_bytes([bytes[20], bytes[21], bytes[22], bytes[23]]);
    (w, h)
}

#[test]
fn padded_canvas_has_the_padded_dimensions() {
    let math = Canvas::new(200, 100).unwrap();
    let padded = composite(&math, PADDING).unwrap();
    assert_eq!(padded.width(), 240);
    assert_eq!(padded.height(), 140);
}

#[test]
fn border_pixels_are_opaque_white() {
    let mut math = Canvas::new(10, 5).unwrap();
    math.fill_opaque(0, 0, 0);
    let padded = composite(&math, 4).unwrap();
    // Corners and edges of the border.
    for (x, y) in [(0, 0), (17, 12), (0, 12), (17, 0), (3, 6), (14, 6), (8, 3), (8, 9)] {
        assert_eq!(padded.pixel(x, y), Some((255, 255, 255, 255)), "at {x},{y}");
    }
    // Covered region holds the opaque math pixels.
    assert_eq!(padded.pixel(4, 4), Some((0, 0, 0, 255)));
    assert_eq!(padded.pixel(13, 8), Some((0, 0, 0, 255)));
}

#[test]
fn transparent_math_image_leaves_the_canvas_white() {
    let math = Canvas::new(6, 6).unwrap();
    let padded = composite(&math, 2).unwrap();
    for y in 0..10 {
        for x in 0..10 {
            assert_eq!(padded.pixel(x, y), Some((255, 255, 255, 255)));
        }
    }
}

#[test]
fn composite_overflow_is_too_large() {
    let math = Canvas::new(4, 4).unwrap();
    assert!(matches!(composite(&math, u32::MAX / 2), Err(SizeError::TooLarge)));
}

#[test]
fn encoding_twice_is_byte_identical() {
    let mut math = Canvas::new(33, 17).unwrap();
    math.fill_opaque(120, 30, 200);
    let padded = composite(&math, 3).unwrap();
    let once = encode_canvas(&padded).unwrap();
    let twice = encode_canvas(&padded).unwrap();
    assert_eq!(once, twice);
}

#[test]
fn different_content_encodes_differently() {
    let mut a = Canvas::new(8, 8).unwrap();
    a.fill_opaque(10, 10, 10);
    let mut b = Canvas::new(8, 8).unwrap();
    b.fill_opaque(200, 10, 10);
    assert_ne!(encode_canvas(&a).unwrap(), encode_canvas(&b).unwrap());
}

#[test]
fn encoded_stream_is_a_png_with_the_canvas_size() {
    let math = Canvas::new(200, 100).unwrap();
    let padded = composite(&math, PADDING).unwrap();
    let bytes = encode_canvas(&padded).unwrap();
    assert_eq!(png_dims(&bytes), (240, 140));
}

#[test]
fn combined_padding_overflow_is_a_size_error() {
    let math = Canvas::new(4, 4).unwrap();
    assert!(matches!(
        math_render::encode::render_padded_png(&math, u32::MAX / 2),
        Err(math_render::errors::RenderError::Size(SizeError::TooLarge))
    ));
}

#[test]
fn combined_padding_and_encoding_matches_the_two_steps() {
    let mut math = Canvas::new(12, 7).unwrap();
    math.fill_opaque(90, 91, 92);
    let combined = math_render::encode::render_padded_png(&math, 5).unwrap();
    let padded = composite(&math, 5).unwrap();
    let stepped = encode_canvas(&padded).unwrap();
    assert_eq!(combined, stepped);
}

#[test]
fn encoded_stream_decodes_back_to_the_pixels() {
    let mut c = Canvas::new(2, 1).unwrap();
    c.fill_opaque(11, 22, 33);
    let bytes = encode_canvas(&c).unwrap();
    let decoded = resvg::tiny_skia::Pixmap::decode_png(&bytes).unwrap();
    assert_eq!(decoded.width(), 2);
    assert_eq!(decoded.height(), 1);
    let p = decoded.pixel(0, 0).unwrap();
    assert_eq!(
        (p.red(), p.green(), p.blue(), p.alpha()),
        (11, 22, 33, 255)
    );
}
