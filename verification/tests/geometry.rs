use math_render::geometry::{padded_size, scale_to_height, SizeError, PADDING, TARGET_HEIGHT};

#[test]
fn scale_matches_aspect_ratio_exactly() {
    assert_eq!(scale_to_height(40, 20, 100), Ok((200, 100)));
}

#[test]
fn scaled_height_is_always_the_target() {
    for (w, h) in [(40, 20), (1, 1), (1000, 3), (7, 13), (99, 100)] {
        let (_, th) = scale_to_height(w, h, TARGET_HEIGHT).unwrap();
        assert_eq!(th, TARGET_HEIGHT);
    }
}

#[test]
fn zero_intrinsic_height_is_degenerate() {
    assert_eq!(scale_to_height(40, 0, 100), Err(SizeError::Degenerate));
}

#[test]
fn zero_intrinsic_width_is_degenerate() {
    assert_eq!(scale_to_height(0, 20, 100), Err(SizeError::Degenerate));
}

#[test]
fn zero_target_height_is_degenerate() {
    assert_eq!(scale_to_height(40, 20, 0), Err(SizeError::Degenerate));
}

#[test]
fn width_rounding_is_half_up() {
    // 1 * 100 / 200 = 0.5 rounds up to 1.
    assert_eq!(scale_to_height(1, 200, 100), Ok((1, 100)));
    // 3 * 100 / 2 = 150 exactly.
    assert_eq!(scale_to_height(3, 2, 100), Ok((150, 100)));
    // 1 * 100 / 1000 = 0.1 rounds to a zero width.
    assert_eq!(scale_to_height(1, 1000, 100), Err(SizeError::Degenerate));
    // 2 * 100 / 300 = 0.666... rounds up to 1.
    assert_eq!(scale_to_height(2, 300, 100), Ok((1, 100)));
}

#[test]
fn oversized_scaled_width_is_too_large() {
    // u32::MAX * 3 / 2 overflows the width.
    assert_eq!(scale_to_height(u32::MAX, 2, 3), Err(SizeError::TooLarge));
}

#[test]
fn padded_size_adds_padding_on_both_sides() {
    assert_eq!(padded_size(200, 100, PADDING), Ok((240, 140)));
    assert_eq!(padded_size(1, 1, 0), Ok((1, 1)));
}

#[test]
fn padded_size_overflow_is_too_large() {
    assert_eq!(padded_size(u32::MAX, 1, 1), Err(SizeError::TooLarge));
    assert_eq!(padded_size(1, u32::MAX, 1), Err(SizeError::TooLarge));
}

#[test]
fn size_error_text_names_the_failure() {
    assert_eq!(SizeError::Degenerate.text(), "document geometry is degenerate");
    assert_eq!(SizeError::TooLarge.text(), "image size is out of range");
}
