use vstd::prelude::*;

use crate::canvas::{canvas_model, fits_pixmap, pix_dims, pix_exact, pix_of, Canvas};
use crate::compose::{composed_pixels, composite};
use crate::errors::RenderError;
use crate::geometry::{padded_dim, SizeError};

verus! {

#[verifier::external_type_specification]
#[verifier::external_body]
pub struct ExPngEncodingError(png::EncodingError);

/// The byte stream the PNG encoder produces for the given dimensions and
/// pixels: a function of the canvas content alone, since the encoder embeds
/// no timestamps and uses fixed compression parameters.
pub uninterp spec fn png_bytes_of(w: u32, h: u32, pix: Seq<(u8, u8, u8, u8)>) -> Seq<u8>;

/// Relies on tiny_skia::Pixmap::encode_png: a deterministic encoding of the
/// pixmap's dimensions and pixels. Its only error path reports a buffer
/// whose size does not match the dimensions, so on a pixmap whose buffer is
/// exact it succeeds; it never fails because of the pixel values.
#[verifier::external_body]
fn pm_encode(p: &resvg::tiny_skia::Pixmap) -> (r: Result<Vec<u8>, png::EncodingError>)
    ensures
        r matches Ok(b) ==> b@ == png_bytes_of(pix_dims(*p).0, pix_dims(*p).1, pix_of(*p)),
        pix_exact(*p) ==> r is Ok,
{
    p.encode_png()
}

/// Relies on png::EncodingError's Display impl for the codec's message.
#[verifier::external_body]
fn encode_error_text(e: &png::EncodingError) -> String {
    format!("{}", e)
}

/// Bitmap Encoder: serialize the canvas as a PNG byte stream. The bytes are
/// determined by the canvas dimensions and pixels alone, and a canvas with
/// an exact buffer — every canvas the library allocates — is owed success.
pub fn encode_canvas(c: &Canvas) -> (r: Result<Vec<u8>, RenderError>)
    ensures
        c.exact() ==> r is Ok,
        r matches Ok(b) ==> b@ == png_bytes_of(c.spec_width(), c.spec_height(), c.pixels()),
        r matches Err(e) ==> e is Encode,
{
    proof {
        canvas_model(c);
    }
    match pm_encode(&c.pix) {
        Ok(b) => Ok(b),
        Err(e) => Err(RenderError::Encode(encode_error_text(&e))),
    }
}

/// Compositor and encoder chained: pad the math image on opaque white and
/// serialize the result. It succeeds exactly when the padded size is in
/// range — the composited canvas has an exact buffer, so the encoder is
/// owed success on it — and the byte stream is pinned by the math pixels,
/// the padding, and the encoder's function alone.
pub fn render_padded_png(math: &Canvas, padding: u32) -> (r: Result<Vec<u8>, RenderError>)
    requires
        math.wf(),
    ensures
        r is Ok <==> fits_pixmap(
            padded_dim(math.spec_width() as int, padding as int),
            padded_dim(math.spec_height() as int, padding as int),
        ),
        r matches Ok(b) ==> b@ == png_bytes_of(
            padded_dim(math.spec_width() as int, padding as int) as u32,
            padded_dim(math.spec_height() as int, padding as int) as u32,
            composed_pixels(
                math.pixels(),
                math.spec_width() as int,
                math.spec_height() as int,
                padding as int,
            ),
        ),
        r matches Err(e) ==> e == RenderError::Size(SizeError::TooLarge),
{
    match composite(math, padding) {
        Err(e) => Err(RenderError::Size(e)),
        Ok(c) => encode_canvas(&c),
    }
}

/// Law: encoding is deterministic. Two canvases with the same dimensions and
/// the same pixel contents encode, whenever both encodings succeed, to
/// byte-identical streams.
pub proof fn lemma_encode_deterministic(c1: Canvas, c2: Canvas, b1: Seq<u8>, b2: Seq<u8>)
    requires
        c1.spec_width() == c2.spec_width(),
        c1.spec_height() == c2.spec_height(),
        c1.pixels() == c2.pixels(),
        b1 == png_bytes_of(c1.spec_width(), c1.spec_height(), c1.pixels()),
        b2 == png_bytes_of(c2.spec_width(), c2.spec_height(), c2.pixels()),
    ensures
        b1 == b2,
{
}

} // verus!
