use vstd::prelude::*;

use crate::canvas::{blend_over, fits_pixmap, in_rect, pix_index, white, Canvas};
use crate::canvas::lemma_pix_index_in_bounds;
use crate::geometry::{padded_dim, padded_size, SizeError};

verus! {

/// The content of the padded canvas, as a row-major sequence: opaque white
/// everywhere except the rectangle of the math image at offset
/// `(padding, padding)`, where each math pixel is blended over white.
pub open spec fn composed_pixels(m: Seq<(u8, u8, u8, u8)>, mw: int, mh: int, padding: int) -> Seq<
    (u8, u8, u8, u8),
> {
    let w = padded_dim(mw, padding);
    let h = padded_dim(mh, padding);
    Seq::new(
        (w * h) as nat,
        |i: int|
            if in_rect(i % w, i / w, padding, padding, mw, mh) {
                blend_over(m[pix_index(mw, i % w - padding, i / w - padding)], white())
            } else {
                white()
            },
    )
}

/// Compositor: allocate a canvas larger than the math image by `padding` on
/// every side, fill it with opaque white, and draw the math image
/// source-over at offset `(padding, padding)`. Every pixel of the border —
/// and every pixel under a fully transparent math pixel — is opaque white;
/// a fully opaque math pixel is copied; every other covered pixel is the
/// blend of the math pixel over white. Blending over the opaque fill keeps
/// every pixel of the result fully opaque.
pub fn composite(math: &Canvas, padding: u32) -> (r: Result<Canvas, SizeError>)
    requires
        math.wf(),
    ensures
        r matches Ok(c) <==> fits_pixmap(
            padded_dim(math.spec_width() as int, padding as int),
            padded_dim(math.spec_height() as int, padding as int),
        ),
        r matches Ok(c) ==> {
            &&& c.wf()
            &&& c.exact()
            &&& c.spec_width() == padded_dim(math.spec_width() as int, padding as int)
            &&& c.spec_height() == padded_dim(math.spec_height() as int, padding as int)
        },
        r matches Ok(c) ==> forall|px: int, py: int|
            0 <= px < c.spec_width() && 0 <= py < c.spec_height() && !in_rect(
                px,
                py,
                padding as int,
                padding as int,
                math.spec_width() as int,
                math.spec_height() as int,
            ) ==> #[trigger] c.pixels()[pix_index(c.spec_width() as int, px, py)] == white(),
        r matches Ok(c) ==> forall|px: int, py: int|
            0 <= px < c.spec_width() && 0 <= py < c.spec_height() && in_rect(
                px,
                py,
                padding as int,
                padding as int,
                math.spec_width() as int,
                math.spec_height() as int,
            ) ==> #[trigger] c.pixels()[pix_index(c.spec_width() as int, px, py)] == blend_over(
                math.pixels()[pix_index(math.spec_width() as int, px - padding, py - padding)],
                white(),
            ),
        r matches Ok(c) ==> forall|px: int, py: int|
            0 <= px < c.spec_width() && 0 <= py < c.spec_height() && in_rect(
                px,
                py,
                padding as int,
                padding as int,
                math.spec_width() as int,
                math.spec_height() as int,
            ) && math.pixels()[pix_index(
                math.spec_width() as int,
                px - padding,
                py - padding,
            )].3 == 0 ==> #[trigger] c.pixels()[pix_index(c.spec_width() as int, px, py)]
                == white(),
        r matches Ok(c) ==> forall|px: int, py: int|
            0 <= px < c.spec_width() && 0 <= py < c.spec_height() && in_rect(
                px,
                py,
                padding as int,
                padding as int,
                math.spec_width() as int,
                math.spec_height() as int,
            ) && math.pixels()[pix_index(
                math.spec_width() as int,
                px - padding,
                py - padding,
            )].3 == 255 ==> #[trigger] c.pixels()[pix_index(c.spec_width() as int, px, py)]
                == math.pixels()[pix_index(math.spec_width() as int, px - padding, py - padding)],
        r matches Ok(c) ==> forall|px: int, py: int|
            0 <= px < c.spec_width() && 0 <= py < c.spec_height()
                ==> #[trigger] c.pixels()[pix_index(c.spec_width() as int, px, py)].3 == 255,
        r matches Ok(c) ==> c.pixels() == composed_pixels(
            math.pixels(),
            math.spec_width() as int,
            math.spec_height() as int,
            padding as int,
        ),
        r matches Err(e) ==> e == SizeError::TooLarge,
{
    let mw = math.width();
    let mh = math.height();
    let (pw, ph) = match padded_size(mw, mh, padding) {
        Err(e) => {
            proof {
                let pdw = padded_dim(math.spec_width() as int, padding as int);
                let pdh = padded_dim(math.spec_height() as int, padding as int);
                assert(pdw * pdh >= pdw && pdw * pdh >= pdh) by (nonlinear_arith)
                    requires
                        pdw >= 1,
                        pdh >= 1,
                ;
            }
            return Err(e);
        },
        Ok(s) => s,
    };
    let mut background = match Canvas::new(pw, ph) {
        Err(e) => {
            return Err(SizeError::TooLarge);
        },
        Ok(c) => c,
    };
    background.fill_opaque(255, 255, 255);
    assert(background.pixels().len() == pw * ph);
    proof {
        assert forall|px: int, py: int| 0 <= px < pw && 0 <= py < ph implies background.pixels()[
            #[trigger] pix_index(pw as int, px, py)
        ] == white() by {
            lemma_pix_index_in_bounds(pw as int, ph as int, px, py);
        };
    }
    background.draw_at(padding, padding, math);
    proof {
        assert forall|px: int, py: int| 0 <= px < pw && 0 <= py < ph implies 0 <= #[trigger]
        pix_index(pw as int, px, py) < pw * ph by {
            lemma_pix_index_in_bounds(pw as int, ph as int, px, py);
        };
        assert forall|px: int, py: int| 0 <= px < pw && 0 <= py < ph implies background.pixels()[
            #[trigger] pix_index(pw as int, px, py)
        ].3 == 255 by {
            lemma_pix_index_in_bounds(pw as int, ph as int, px, py);
        };
        let mpix = math.pixels();
        let mw_i = math.spec_width() as int;
        let mh_i = math.spec_height() as int;
        let pad = padding as int;
        let pd_w = pw as int;
        let pd_h = ph as int;
        let target = composed_pixels(mpix, mw_i, mh_i, pad);
        assert forall|i: int| 0 <= i < pd_w * pd_h implies background.pixels()[i] == target[i] by {
            vstd::arithmetic::div_mod::lemma_fundamental_div_mod(i, pd_w);
            vstd::arithmetic::div_mod::lemma_mod_bound(i, pd_w);
            let px = i % pd_w;
            let py = i / pd_w;
            assert(py >= 0) by (nonlinear_arith)
                requires
                    pd_w * py + px == i,
                    i >= 0,
                    0 <= px < pd_w,
            ;
            assert(py < pd_h) by (nonlinear_arith)
                requires
                    pd_w * py + px == i,
                    i < pd_w * pd_h,
                    0 <= px < pd_w,
                    pd_w >= 1,
                    pd_h >= 1,
            ;
            assert(pd_w * py == py * pd_w) by (nonlinear_arith);
            assert(i == pix_index(pd_w, px, py));
            assert(background.pixels()[pix_index(pd_w, px, py)] == target[i]);
        };
        assert(background.pixels() =~= target);
    }
    Ok(background)
}

} // verus!
