use vstd::prelude::*;

verus! {

/// Fixed height of the rasterized math image, in pixels.
pub const TARGET_HEIGHT: u32 = 100;

/// Width of the white border added around the math image, in pixels.
pub const PADDING: u32 = 20;

/// Geometry that cannot be rasterized: a degenerate (zero) dimension, or a
/// size too large for a pixel buffer.
#[derive(Debug, Clone, Copy, PartialEq, Eq, Structural)]
pub enum SizeError {
    /// A dimension of the document, or of the scaled image, is zero.
    Degenerate,
    /// The computed size does not fit the pixel-buffer limits.
    TooLarge,
}

impl SizeError {
    /// The reported description.
    pub open spec fn spec_text(&self) -> Seq<char> {
        match self {
            SizeError::Degenerate => "document geometry is degenerate"@,
            SizeError::TooLarge => "image size is out of range"@,
        }
    }

    /// The description of this error.
    pub fn text(&self) -> (r: &'static str)
        ensures
            r@ == self.spec_text(),
    {
        match self {
            SizeError::Degenerate => "document geometry is degenerate",
            SizeError::TooLarge => "image size is out of range",
        }
    }
}

/// `round(n / d)` for `d > 0`, with halves rounded up.
pub open spec fn round_div(n: int, d: int) -> int
    recommends
        d > 0,
{
    (2 * n + d) / (2 * d)
}

/// The width that preserves the aspect ratio of an intrinsic size `(w, h)`
/// when its height is scaled to `target_h`, rounded to the nearest integer.
pub open spec fn scaled_width(w: int, h: int, target_h: int) -> int
    recommends
        h > 0,
{
    round_div(w * target_h, h)
}

/// Scale an intrinsic size `(w, h)` so that its height becomes exactly
/// `target_h`, rounding the width to the nearest integer. The two axes are
/// scaled independently afterwards, so a sub-pixel aspect distortion from the
/// rounding is accepted.
pub fn scale_to_height(w: u32, h: u32, target_h: u32) -> (r: Result<(u32, u32), SizeError>)
    ensures
        r matches Ok(s) <==> (w > 0 && h > 0 && target_h > 0 && 1 <= scaled_width(
            w as int,
            h as int,
            target_h as int,
        ) <= u32::MAX),
        r matches Ok(s) ==> s.0 == scaled_width(w as int, h as int, target_h as int) && s.1
            == target_h,
        r matches Err(e) ==> (e == SizeError::Degenerate <==> (w == 0 || h == 0 || target_h == 0
            || scaled_width(w as int, h as int, target_h as int) == 0)),
        r matches Err(e) ==> (e == SizeError::TooLarge <==> (w > 0 && h > 0 && target_h > 0
            && scaled_width(w as int, h as int, target_h as int) > u32::MAX)),
{
    if w == 0 || h == 0 || target_h == 0 {
        return Err(SizeError::Degenerate);
    }
    let wu: u128 = w as u128;
    let hu: u128 = h as u128;
    let tu: u128 = target_h as u128;
    assert(wu * tu <= 0xFFFF_FFFF * 0xFFFF_FFFF) by (nonlinear_arith)
        requires
            wu <= 0xFFFF_FFFF,
            tu <= 0xFFFF_FFFF,
    ;
    let prod: u128 = wu * tu;
    let num: u128 = 2 * prod + hu;
    let den: u128 = 2 * hu;
    let sw: u128 = num / den;
    proof {
        lemma_u128_div_is_round_div(prod, hu);
        assert(prod == w as int * target_h as int);
    }
    if sw == 0 {
        Err(SizeError::Degenerate)
    } else if sw > u32::MAX as u128 {
        Err(SizeError::TooLarge)
    } else {
        Ok((sw as u32, target_h))
    }
}

/// Unsigned division `(2n + d) / (2d)` agrees with the mathematical
/// `round_div` when `d > 0`.
proof fn lemma_u128_div_is_round_div(n: u128, d: u128)
    requires
        d > 0,
        2 * n + d <= u128::MAX,
    ensures
        (2 * n + d) / (2 * d) == round_div(n as int, d as int),
{
    assert((2 * n + d) as int / (2 * d) as int == (2 * (n as int) + d as int) / (2 * (d as int)));
}

/// The size of the padded canvas: each dimension of the math image grows by
/// `padding` on both sides.
pub open spec fn padded_dim(d: int, padding: int) -> int {
    d + 2 * padding
}

/// Compute the dimensions of a canvas that holds an image of size `(w, h)`
/// surrounded by a border `padding` pixels wide.
pub fn padded_size(w: u32, h: u32, padding: u32) -> (r: Result<(u32, u32), SizeError>)
    ensures
        r matches Ok(s) <==> (padded_dim(w as int, padding as int) <= u32::MAX && padded_dim(
            h as int,
            padding as int,
        ) <= u32::MAX),
        r matches Ok(s) ==> s.0 == padded_dim(w as int, padding as int) && s.1 == padded_dim(
            h as int,
            padding as int,
        ),
        r matches Err(e) ==> e == SizeError::TooLarge,
{
    let pw: u64 = w as u64 + 2 * (padding as u64);
    let ph: u64 = h as u64 + 2 * (padding as u64);
    if pw > u32::MAX as u64 || ph > u32::MAX as u64 {
        Err(SizeError::TooLarge)
    } else {
        Ok((pw as u32, ph as u32))
    }
}

} // verus!
