use vstd::prelude::*;

use crate::geometry::SizeError;

verus! {

/// The library's cap on a canvas's pixel count: a buffer of at most
/// `i32::MAX` bytes, at four bytes per pixel. tiny_skia itself caps only the
/// width (its row must fit `i32::MAX` bytes); staying under this stricter
/// cap keeps every buffer index within `u32` as well.
pub const MAX_PIXELS: u64 = 536870911;

/// The library's cap on a canvas dimension: up to `2^23`, every pixel
/// center `m + 0.5` that the drawing routine samples is exactly
/// representable in its `f32` arithmetic, so nearest-neighbor sampling
/// cannot drift to a neighboring pixel.
pub const MAX_DIM: u32 = 8388608;

#[verifier::external_type_specification]
#[verifier::external_body]
pub struct ExPixmap(resvg::tiny_skia::Pixmap);

/// The pixels a pixmap holds, row-major, as premultiplied RGBA channels.
pub uninterp spec fn pix_of(p: resvg::tiny_skia::Pixmap) -> Seq<(u8, u8, u8, u8)>;

/// The width and height a pixmap was allocated with.
pub uninterp spec fn pix_dims(p: resvg::tiny_skia::Pixmap) -> (u32, u32);

/// The pixel that source-over compositing of `fg` over `bg` produces.
pub uninterp spec fn blend_over(fg: (u8, u8, u8, u8), bg: (u8, u8, u8, u8)) -> (u8, u8, u8, u8);

/// Whether a pixmap's buffer holds exactly `width * height` pixels and
/// nothing more. True of every pixmap the library allocates; tiny_skia can
/// also build pixmaps over larger caller-supplied buffers, which the
/// encoder refuses, so the encoder's success promise is conditioned on it.
pub uninterp spec fn pix_exact(p: resvg::tiny_skia::Pixmap) -> bool;

/// Fully transparent black: the state of a freshly allocated pixel.
pub open spec fn transparent() -> (u8, u8, u8, u8) {
    (0u8, 0u8, 0u8, 0u8)
}

/// Opaque white: the background of the padded canvas.
pub open spec fn white() -> (u8, u8, u8, u8) {
    (255u8, 255u8, 255u8, 255u8)
}

/// Whether the library accepts a `w` by `h` pixel buffer: both dimensions
/// nonzero and within the coordinate cap, the buffer within the byte cap.
pub open spec fn fits_pixmap(w: int, h: int) -> bool {
    1 <= w <= MAX_DIM && 1 <= h <= MAX_DIM && w * h <= MAX_PIXELS
}

/// Index of the pixel in column `x` of row `y` in a row-major buffer of width `w`.
pub open spec fn pix_index(w: int, x: int, y: int) -> int {
    y * w + x
}

/// Whether column `x`, row `y` lies in the rectangle of size `fw` by `fh`
/// whose top-left corner is at `(ox, oy)`.
pub open spec fn in_rect(x: int, y: int, ox: int, oy: int, fw: int, fh: int) -> bool {
    ox <= x < ox + fw && oy <= y < oy + fh
}

/// Relies on tiny_skia::Pixmap::new: it allocates a pixmap filled with
/// transparent black, and its source returns `Some` exactly when both
/// dimensions are nonzero and the buffer stays within the byte limit, which
/// the precondition guarantees.
#[verifier::external_body]
fn pm_new(w: u32, h: u32) -> (r: resvg::tiny_skia::Pixmap)
    requires
        fits_pixmap(w as int, h as int),
    ensures
        pix_dims(r) == (w, h),
        pix_of(r) == Seq::new((w * h) as nat, |i: int| transparent()),
        pix_exact(r),
{
    resvg::tiny_skia::Pixmap::new(w, h).unwrap()
}

/// Relies on tiny_skia::Pixmap::width.
#[verifier::external_body]
fn pm_width(p: &resvg::tiny_skia::Pixmap) -> (r: u32)
    ensures
        r == pix_dims(*p).0,
{
    p.width()
}

/// Relies on tiny_skia::Pixmap::height.
#[verifier::external_body]
fn pm_height(p: &resvg::tiny_skia::Pixmap) -> (r: u32)
    ensures
        r == pix_dims(*p).1,
{
    p.height()
}

/// Relies on tiny_skia::Pixmap::fill: it overwrites every pixel with the
/// given color; an opaque color premultiplies to its own channel values.
#[verifier::external_body]
fn pm_fill_opaque(p: &mut resvg::tiny_skia::Pixmap, r: u8, g: u8, b: u8)
    ensures
        pix_dims(*final(p)) == pix_dims(*old(p)),
        pix_of(*final(p)) == Seq::new(pix_of(*old(p)).len(), |i: int| (r, g, b, 255u8)),
        pix_exact(*final(p)) == pix_exact(*old(p)),
{
    p.fill(resvg::tiny_skia::Color::from_rgba8(r, g, b, 255))
}

/// Relies on tiny_skia::Pixmap::draw_pixmap with the default paint
/// (source-over blending, full opacity, no anti-aliasing) and the identity
/// transform: it rewrites exactly the rectangle covered by `fg`, blending
/// each source pixel over the destination pixel; a fully transparent source
/// pixel leaves the destination unchanged and a fully opaque one replaces it,
/// and blending anything over a fully opaque destination stays fully opaque,
/// as source-over compositing plainly does at those alphas. Its sampling
/// adds `0.5` to coordinates in `f32` and indexes pixels in `i32`, so the
/// dimensions are capped at `MAX_DIM` and the pixel counts at `MAX_PIXELS`,
/// under which both computations are exact.
#[verifier::external_body]
fn pm_draw_at(bg: &mut resvg::tiny_skia::Pixmap, x: u32, y: u32, fg: &resvg::tiny_skia::Pixmap)
    requires
        x + pix_dims(*fg).0 <= pix_dims(*old(bg)).0,
        y + pix_dims(*fg).1 <= pix_dims(*old(bg)).1,
        pix_dims(*old(bg)).0 <= MAX_DIM,
        pix_dims(*old(bg)).1 <= MAX_DIM,
        pix_dims(*old(bg)).0 * pix_dims(*old(bg)).1 <= MAX_PIXELS,
        pix_dims(*fg).0 * pix_dims(*fg).1 <= MAX_PIXELS,
        pix_of(*old(bg)).len() == pix_dims(*old(bg)).0 * pix_dims(*old(bg)).1,
        pix_of(*fg).len() == pix_dims(*fg).0 * pix_dims(*fg).1,
    ensures
        pix_dims(*final(bg)) == pix_dims(*old(bg)),
        pix_of(*final(bg)).len() == pix_of(*old(bg)).len(),
        pix_exact(*final(bg)) == pix_exact(*old(bg)),
        forall|px: int, py: int|
            0 <= px < pix_dims(*old(bg)).0 && 0 <= py < pix_dims(*old(bg)).1 && !in_rect(
                px,
                py,
                x as int,
                y as int,
                pix_dims(*fg).0 as int,
                pix_dims(*fg).1 as int,
            ) ==> #[trigger] pix_of(*final(bg))[pix_index(pix_dims(*old(bg)).0 as int, px, py)]
                == pix_of(*old(bg))[pix_index(pix_dims(*old(bg)).0 as int, px, py)],
        forall|px: int, py: int|
            0 <= px < pix_dims(*old(bg)).0 && 0 <= py < pix_dims(*old(bg)).1 && in_rect(
                px,
                py,
                x as int,
                y as int,
                pix_dims(*fg).0 as int,
                pix_dims(*fg).1 as int,
            ) ==> #[trigger] pix_of(*final(bg))[pix_index(pix_dims(*old(bg)).0 as int, px, py)]
                == blend_over(
                pix_of(*fg)[pix_index(pix_dims(*fg).0 as int, px - x, py - y)],
                pix_of(*old(bg))[pix_index(pix_dims(*old(bg)).0 as int, px, py)],
            ),
        forall|px: int, py: int|
            0 <= px < pix_dims(*old(bg)).0 && 0 <= py < pix_dims(*old(bg)).1 && in_rect(
                px,
                py,
                x as int,
                y as int,
                pix_dims(*fg).0 as int,
                pix_dims(*fg).1 as int,
            ) && pix_of(*fg)[pix_index(pix_dims(*fg).0 as int, px - x, py - y)].3 == 0
                ==> #[trigger] pix_of(*final(bg))[pix_index(pix_dims(*old(bg)).0 as int, px, py)]
                == pix_of(*old(bg))[pix_index(pix_dims(*old(bg)).0 as int, px, py)],
        forall|px: int, py: int|
            0 <= px < pix_dims(*old(bg)).0 && 0 <= py < pix_dims(*old(bg)).1 && in_rect(
                px,
                py,
                x as int,
                y as int,
                pix_dims(*fg).0 as int,
                pix_dims(*fg).1 as int,
            ) && pix_of(*fg)[pix_index(pix_dims(*fg).0 as int, px - x, py - y)].3 == 255
                ==> #[trigger] pix_of(*final(bg))[pix_index(pix_dims(*old(bg)).0 as int, px, py)]
                == pix_of(*fg)[pix_index(pix_dims(*fg).0 as int, px - x, py - y)],
        forall|px: int, py: int|
            0 <= px < pix_dims(*old(bg)).0 && 0 <= py < pix_dims(*old(bg)).1 && in_rect(
                px,
                py,
                x as int,
                y as int,
                pix_dims(*fg).0 as int,
                pix_dims(*fg).1 as int,
            ) && pix_of(*old(bg))[pix_index(pix_dims(*old(bg)).0 as int, px, py)].3 == 255
                ==> #[trigger] pix_of(*final(bg))[pix_index(pix_dims(*old(bg)).0 as int, px, py)].3
                == 255,
{
    bg.draw_pixmap(
        x as i32,
        y as i32,
        fg.as_ref(),
        &resvg::tiny_skia::PixmapPaint::default(),
        resvg::tiny_skia::Transform::default(),
        None,
    )
}

/// Relies on tiny_skia::Pixmap::pixel: it reads the pixel at the given
/// in-bounds position from the row-major buffer. Its index arithmetic is
/// `u32`, so the pixel count is capped at `MAX_PIXELS`, under which the
/// computation cannot overflow.
#[verifier::external_body]
fn pm_pixel(p: &resvg::tiny_skia::Pixmap, x: u32, y: u32) -> (r: Option<(u8, u8, u8, u8)>)
    requires
        pix_dims(*p).0 * pix_dims(*p).1 <= MAX_PIXELS,
    ensures
        x < pix_dims(*p).0 && y < pix_dims(*p).1 && pix_index(
            pix_dims(*p).0 as int,
            x as int,
            y as int,
        ) < pix_of(*p).len() ==> r == Some(
            pix_of(*p)[pix_index(pix_dims(*p).0 as int, x as int, y as int)],
        ),
{
    match p.pixel(x, y) {
        Some(c) => Some((c.red(), c.green(), c.blue(), c.alpha())),
        None => None,
    }
}

/// A pixel buffer owned by one request's pipeline, modeled by its dimensions
/// and its row-major sequence of premultiplied RGBA pixels.
pub struct Canvas {
    pub(crate) pix: resvg::tiny_skia::Pixmap,
}

/// Relies on tiny_skia::Pixmap's construction invariant, which every one of
/// its constructors guards: the buffer holds exactly `width * height`
/// pixels, and both dimensions are nonzero. Nothing more is claimed — in
/// particular not the library's own size caps, which tiny_skia does not
/// enforce.
#[verifier::external_body]
fn pm_wrap(p: resvg::tiny_skia::Pixmap) -> (c: Canvas)
    ensures
        c.spec_width() == pix_dims(p).0,
        c.spec_height() == pix_dims(p).1,
        c.pixels() == pix_of(p),
        c.pixels().len() == c.spec_width() * c.spec_height(),
        c.spec_width() >= 1,
        c.spec_height() >= 1,
{
    Canvas { pix: p }
}

impl Canvas {
    /// The width in pixels.
    pub closed spec fn spec_width(&self) -> u32 {
        pix_dims(self.pix).0
    }

    /// The height in pixels.
    pub closed spec fn spec_height(&self) -> u32 {
        pix_dims(self.pix).1
    }

    /// The pixels, row-major, as premultiplied RGBA channels.
    pub closed spec fn pixels(&self) -> Seq<(u8, u8, u8, u8)> {
        pix_of(self.pix)
    }

    /// The buffer holds exactly the pixels and nothing more; the encoder is
    /// owed success on such a canvas. Holds for every canvas the library
    /// allocates, but not necessarily for a wrapped outside pixmap.
    pub closed spec fn exact(&self) -> bool {
        pix_exact(self.pix)
    }

    /// Well-formed: the buffer matches the dimensions, which a pixmap can hold.
    pub open spec fn wf(&self) -> bool {
        &&& self.pixels().len() == self.spec_width() * self.spec_height()
        &&& fits_pixmap(self.spec_width() as int, self.spec_height() as int)
    }

    /// Allocate a fully transparent canvas of the given size.
    pub fn new(w: u32, h: u32) -> (r: Result<Canvas, SizeError>)
        ensures
            r matches Ok(c) <==> fits_pixmap(w as int, h as int),
            r matches Ok(c) ==> {
                &&& c.wf()
                &&& c.exact()
                &&& c.spec_width() == w
                &&& c.spec_height() == h
                &&& c.pixels() == Seq::new((w * h) as nat, |i: int| transparent())
            },
            r matches Err(e) ==> (e == SizeError::Degenerate <==> (w == 0 || h == 0)),
            r matches Err(e) ==> (e == SizeError::TooLarge <==> (w >= 1 && h >= 1 && (w > MAX_DIM
                || h > MAX_DIM || w * h > MAX_PIXELS))),
    {
        if w == 0 || h == 0 {
            return Err(SizeError::Degenerate);
        }
        if w > MAX_DIM || h > MAX_DIM {
            return Err(SizeError::TooLarge);
        }
        let wu: u64 = w as u64;
        let hu: u64 = h as u64;
        proof {
            lemma_u32_product_fits_u64(wu, hu);
        }
        let count: u64 = wu * hu;
        if count > MAX_PIXELS {
            return Err(SizeError::TooLarge);
        }
        let pix = pm_new(w, h);
        Ok(Canvas { pix })
    }

    /// The width in pixels.
    pub fn width(&self) -> (r: u32)
        ensures
            r == self.spec_width(),
    {
        pm_width(&self.pix)
    }

    /// The height in pixels.
    pub fn height(&self) -> (r: u32)
        ensures
            r == self.spec_height(),
    {
        pm_height(&self.pix)
    }

    /// Overwrite every pixel with the given opaque color.
    pub fn fill_opaque(&mut self, r: u8, g: u8, b: u8)
        ensures
            final(self).spec_width() == old(self).spec_width(),
            final(self).spec_height() == old(self).spec_height(),
            final(self).pixels() == Seq::new(
                old(self).pixels().len(),
                |i: int| (r, g, b, 255u8),
            ),
            old(self).wf() ==> final(self).wf(),
            final(self).exact() == old(self).exact(),
    {
        pm_fill_opaque(&mut self.pix, r, g, b)
    }

    /// Draw `fg` onto this canvas with its top-left corner at `(x, y)`,
    /// blending source-over: pixels outside the covered rectangle keep their
    /// value, and each covered pixel becomes the blend of the `fg` pixel over
    /// the old pixel — unchanged under a fully transparent source pixel,
    /// replaced under a fully opaque one.
    pub fn draw_at(&mut self, x: u32, y: u32, fg: &Canvas)
        requires
            old(self).wf(),
            fg.wf(),
            x + fg.spec_width() <= old(self).spec_width(),
            y + fg.spec_height() <= old(self).spec_height(),
        ensures
            final(self).wf(),
            final(self).exact() == old(self).exact(),
            final(self).spec_width() == old(self).spec_width(),
            final(self).spec_height() == old(self).spec_height(),
            final(self).pixels().len() == old(self).pixels().len(),
            forall|px: int, py: int|
                0 <= px < old(self).spec_width() && 0 <= py < old(self).spec_height() && !in_rect(
                    px,
                    py,
                    x as int,
                    y as int,
                    fg.spec_width() as int,
                    fg.spec_height() as int,
                ) ==> #[trigger] final(self).pixels()[pix_index(
                    old(self).spec_width() as int,
                    px,
                    py,
                )] == old(self).pixels()[pix_index(old(self).spec_width() as int, px, py)],
            forall|px: int, py: int|
                0 <= px < old(self).spec_width() && 0 <= py < old(self).spec_height() && in_rect(
                    px,
                    py,
                    x as int,
                    y as int,
                    fg.spec_width() as int,
                    fg.spec_height() as int,
                ) ==> #[trigger] final(self).pixels()[pix_index(
                    old(self).spec_width() as int,
                    px,
                    py,
                )] == blend_over(
                    fg.pixels()[pix_index(fg.spec_width() as int, px - x, py - y)],
                    old(self).pixels()[pix_index(old(self).spec_width() as int, px, py)],
                ),
            forall|px: int, py: int|
                0 <= px < old(self).spec_width() && 0 <= py < old(self).spec_height() && in_rect(
                    px,
                    py,
                    x as int,
                    y as int,
                    fg.spec_width() as int,
                    fg.spec_height() as int,
                ) && fg.pixels()[pix_index(fg.spec_width() as int, px - x, py - y)].3 == 0
                    ==> #[trigger] final(self).pixels()[pix_index(
                    old(self).spec_width() as int,
                    px,
                    py,
                )] == old(self).pixels()[pix_index(old(self).spec_width() as int, px, py)],
            forall|px: int, py: int|
                0 <= px < old(self).spec_width() && 0 <= py < old(self).spec_height() && in_rect(
                    px,
                    py,
                    x as int,
                    y as int,
                    fg.spec_width() as int,
                    fg.spec_height() as int,
                ) && fg.pixels()[pix_index(fg.spec_width() as int, px - x, py - y)].3 == 255
                    ==> #[trigger] final(self).pixels()[pix_index(
                    old(self).spec_width() as int,
                    px,
                    py,
                )] == fg.pixels()[pix_index(fg.spec_width() as int, px - x, py - y)],
            forall|px: int, py: int|
                0 <= px < old(self).spec_width() && 0 <= py < old(self).spec_height() && in_rect(
                    px,
                    py,
                    x as int,
                    y as int,
                    fg.spec_width() as int,
                    fg.spec_height() as int,
                ) && old(self).pixels()[pix_index(old(self).spec_width() as int, px, py)].3 == 255
                    ==> #[trigger] final(self).pixels()[pix_index(
                    old(self).spec_width() as int,
                    px,
                    py,
                )].3 == 255,
    {
        pm_draw_at(&mut self.pix, x, y, &fg.pix)
    }

    /// Read the pixel at column `x` of row `y`.
    pub fn pixel(&self, x: u32, y: u32) -> (r: Option<(u8, u8, u8, u8)>)
        requires
            self.wf(),
        ensures
            x < self.spec_width() && y < self.spec_height() ==> r == Some(
                self.pixels()[pix_index(self.spec_width() as int, x as int, y as int)],
            ),
    {
        proof {
            if x < self.spec_width() && y < self.spec_height() {
                lemma_pix_index_in_bounds(
                    self.spec_width() as int,
                    self.spec_height() as int,
                    x as int,
                    y as int,
                );
            }
        }
        pm_pixel(&self.pix, x, y)
    }

    /// Give up the canvas and hand out the pixmap it holds.
    pub fn into_pixmap(self) -> (r: resvg::tiny_skia::Pixmap)
        ensures
            pix_dims(r) == (self.spec_width(), self.spec_height()),
            pix_of(r) == self.pixels(),
    {
        self.pix
    }

    /// Wrap a pixmap, for one rendered outside the library. Nothing is known
    /// of its contents; it is accepted exactly when its dimensions are
    /// within the library's caps.
    pub fn from_pixmap(p: resvg::tiny_skia::Pixmap) -> (r: Result<Canvas, SizeError>)
        ensures
            r matches Ok(c) <==> fits_pixmap(pix_dims(p).0 as int, pix_dims(p).1 as int),
            r matches Ok(c) ==> {
                &&& c.wf()
                &&& c.spec_width() == pix_dims(p).0
                &&& c.spec_height() == pix_dims(p).1
                &&& c.pixels() == pix_of(p)
            },
            r matches Err(e) ==> e == SizeError::TooLarge,
    {
        let c = pm_wrap(p);
        let w = c.width();
        let h = c.height();
        if w > MAX_DIM || h > MAX_DIM {
            return Err(SizeError::TooLarge);
        }
        let wu: u64 = w as u64;
        let hu: u64 = h as u64;
        proof {
            lemma_u32_product_fits_u64(wu, hu);
        }
        if wu * hu > MAX_PIXELS {
            return Err(SizeError::TooLarge);
        }
        Ok(c)
    }
}

/// The product of two values below `2^32` stays within `u64`.
proof fn lemma_u32_product_fits_u64(a: u64, b: u64)
    requires
        a <= 0xFFFF_FFFF,
        b <= 0xFFFF_FFFF,
    ensures
        a * b <= 0xFFFF_FFFF * 0xFFFF_FFFF,
{
    assert(a * b <= 0xFFFF_FFFF * 0xFFFF_FFFF) by (nonlinear_arith)
        requires
            a <= 0xFFFF_FFFF,
            b <= 0xFFFF_FFFF,
    ;
}

/// The canvas model is the model of the pixmap it holds.
pub(crate) proof fn canvas_model(c: &Canvas)
    ensures
        c.spec_width() == pix_dims(c.pix).0,
        c.spec_height() == pix_dims(c.pix).1,
        c.pixels() == pix_of(c.pix),
        c.exact() == pix_exact(c.pix),
{
}

/// A row-major index computed from an in-bounds column and row lies within
/// a buffer of `w * h` pixels.
pub proof fn lemma_pix_index_in_bounds(w: int, h: int, x: int, y: int)
    requires
        0 <= x < w,
        0 <= y < h,
    ensures
        0 <= pix_index(w, x, y) < w * h,
{
    assert(y * w + x < w * h) by (nonlinear_arith)
        requires
            0 <= x < w,
            0 <= y < h,
    ;
    assert(y * w + x >= 0) by (nonlinear_arith)
        requires
            0 <= x,
            0 <= y,
            w > 0,
    ;
}

} // verus!
