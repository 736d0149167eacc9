use vstd::prelude::*;

use crate::canvas::{fits_pixmap, transparent, Canvas};
use crate::geometry::{scale_to_height, scaled_width, SizeError};
use crate::scene::Document;

verus! {

/// Rasterizer, geometric part: compute the target size of the math image —
/// height exactly `target_h`, width scaled to keep the document's aspect
/// ratio — and allocate the fully transparent canvas it is rendered into.
/// The caller renders the document's tree into the canvas, scaling each axis
/// independently by `target / intrinsic`.
pub fn alloc_math_canvas(doc: &Document, target_h: u32) -> (r: Result<Canvas, SizeError>)
    ensures
        r matches Ok(c) <==> (doc.spec_width() > 0 && doc.spec_height() > 0 && target_h > 0
            && 1 <= scaled_width(
            doc.spec_width() as int,
            doc.spec_height() as int,
            target_h as int,
        ) <= u32::MAX && fits_pixmap(
            scaled_width(doc.spec_width() as int, doc.spec_height() as int, target_h as int),
            target_h as int,
        )),
        r matches Ok(c) ==> {
            &&& c.wf()
            &&& c.spec_height() == target_h
            &&& c.spec_width() == scaled_width(
                doc.spec_width() as int,
                doc.spec_height() as int,
                target_h as int,
            )
            &&& c.pixels() == Seq::new(
                (c.spec_width() * c.spec_height()) as nat,
                |i: int| transparent(),
            )
        },
        r matches Err(e) ==> (e == SizeError::Degenerate <==> (doc.spec_width() == 0
            || doc.spec_height() == 0 || target_h == 0 || scaled_width(
            doc.spec_width() as int,
            doc.spec_height() as int,
            target_h as int,
        ) == 0)),
{
    let (tw, th) = match scale_to_height(doc.width(), doc.height(), target_h) {
        Err(e) => {
            return Err(e);
        },
        Ok(s) => s,
    };
    Canvas::new(tw, th)
}

} // verus!
