use vstd::prelude::*;

use crate::errors::RenderError;
use usvg::TreeParsing;
use usvg::TreeTextToPath;

verus! {

use vstd::string::StringExecFns;

#[verifier::external_type_specification]
#[verifier::external_body]
pub struct ExUsvgTree(usvg::Tree);

#[verifier::external_type_specification]
#[verifier::external_body]
pub struct ExUsvgError(usvg::Error);

#[verifier::external_type_specification]
#[verifier::external_body]
pub struct ExFontDatabase(usvg::fontdb::Database);

#[verifier::external_type_specification]
#[verifier::external_body]
pub struct ExRenderTree(resvg::Tree);

/// What the vector-document parser decides: whether the bytes form a
/// well-formed document. A function of the bytes alone, since the parsing
/// options are fixed defaults.
pub uninterp spec fn svg_well_formed(data: Seq<u8>) -> bool;

/// Relies on usvg::Tree::from_data with default options: it parses the bytes
/// as a vector document and returns Ok exactly on well-formed input — UTF-8,
/// valid markup, a positive size, within the element limit — which depends
/// on the bytes alone. A resource reference that cannot be resolved is
/// skipped by the parser, never an error, so success does not depend on the
/// machine.
#[verifier::external_body]
fn svg_from_data(data: &Vec<u8>) -> (r: Result<usvg::Tree, usvg::Error>)
    ensures
        r is Ok <==> svg_well_formed(data@),
{
    usvg::Tree::from_data(data.as_slice(), &usvg::Options::default())
}

/// Relies on usvg::Error's Display impl for the parser's message.
#[verifier::external_body]
fn vector_error_text(e: &usvg::Error) -> String {
    format!("{}", e)
}

/// Relies on usvg::Tree::convert_text: it replaces every text node with
/// glyph-outline paths looked up in the given font database; a font family
/// the database does not know falls back to its designated generic family,
/// so the conversion always succeeds.
#[verifier::external_body]
fn resolve_text_nodes(t: &mut usvg::Tree, db: &usvg::fontdb::Database) {
    t.convert_text(db)
}

/// Relies on resvg::Tree::from_usvg: it builds the render tree of the
/// resolved document.
#[verifier::external_body]
fn build_render_tree(t: &usvg::Tree) -> resvg::Tree {
    resvg::Tree::from_usvg(t)
}

/// Relies on resvg::Tree's size and tiny_skia's Size::to_int_size, whose
/// source rounds each dimension and clamps it to at least one.
#[verifier::external_body]
fn render_tree_int_size(t: &resvg::Tree) -> (r: (u32, u32))
    ensures
        r.0 >= 1,
        r.1 >= 1,
{
    let s = t.size.to_int_size();
    (s.width(), s.height())
}

/// Relies on fontdb::Database::new.
#[verifier::external_body]
fn fdb_new() -> usvg::fontdb::Database {
    usvg::fontdb::Database::new()
}

/// Relies on fontdb::Database::load_system_fonts: it scans the host's font
/// directories; what it finds depends on the machine, so nothing is claimed
/// of the contents.
#[verifier::external_body]
fn fdb_load_system(db: &mut usvg::fontdb::Database) {
    db.load_system_fonts()
}

/// Relies on fontdb::Database::set_serif_family: it records the family that
/// serif (and, through text conversion, unknown) font references resolve to.
#[verifier::external_body]
fn fdb_set_serif(db: &mut usvg::fontdb::Database, family: &str) {
    db.set_serif_family(family)
}

/// The process-wide font registry: the font database used to resolve text
/// nodes, and the serif family unknown font references fall back to. Meant
/// to be built once — eagerly at startup or behind a once-only guard — and
/// read by every request afterwards.
pub struct FontRegistry {
    db: usvg::fontdb::Database,
    fallback: String,
}

impl FontRegistry {
    /// The designated fallback serif family.
    pub closed spec fn spec_fallback(&self) -> Seq<char> {
        self.fallback@
    }

    /// Enumerate the fonts installed on the host and designate `fallback` as
    /// the serif family used when a document names no known font.
    pub fn new(fallback: &str) -> (r: FontRegistry)
        ensures
            r.spec_fallback() == fallback@,
    {
        let mut db = fdb_new();
        fdb_load_system(&mut db);
        fdb_set_serif(&mut db, fallback);
        FontRegistry { db, fallback: String::from_str(fallback) }
    }

    /// The fallback family.
    pub fn fallback_family(&self) -> (r: &str)
        ensures
            r@ == self.spec_fallback(),
    {
        self.fallback.as_str()
    }
}

/// A loaded vector document whose text nodes have been resolved to glyph
/// outlines: the render tree, and the intrinsic size in integer units.
pub struct Document {
    tree: resvg::Tree,
    width: u32,
    height: u32,
}

impl Document {
    /// The intrinsic width, in integer units.
    pub closed spec fn spec_width(&self) -> u32 {
        self.width
    }

    /// The intrinsic height, in integer units.
    pub closed spec fn spec_height(&self) -> u32 {
        self.height
    }

    /// Well-formed: both intrinsic dimensions are at least one.
    pub open spec fn wf(&self) -> bool {
        self.spec_width() >= 1 && self.spec_height() >= 1
    }

    /// The intrinsic width.
    pub fn width(&self) -> (r: u32)
        ensures
            r == self.spec_width(),
    {
        self.width
    }

    /// The intrinsic height.
    pub fn height(&self) -> (r: u32)
        ensures
            r == self.spec_height(),
    {
        self.height
    }

    /// Hand out the render tree, for the caller that rasterizes it.
    pub fn into_tree(self) -> resvg::Tree {
        self.tree
    }
}

/// Vector Document Loader: parse raw vector-document bytes and resolve every
/// text node against the font registry. Returns the renderable document with
/// its intrinsic size, or the parser's error for malformed input.
pub fn load_document(raw: &Vec<u8>, fonts: &FontRegistry) -> (r: Result<Document, RenderError>)
    ensures
        r is Ok <==> svg_well_formed(raw@),
        r matches Ok(d) ==> d.wf(),
        r matches Err(e) ==> e is Vector,
{
    match svg_from_data(raw) {
        Err(e) => Err(RenderError::Vector(vector_error_text(&e))),
        Ok(mut t) => {
            resolve_text_nodes(&mut t, &fonts.db);
            let rt = build_render_tree(&t);
            let (w, h) = render_tree_int_size(&rt);
            Ok(Document { tree: rt, width: w, height: h })
        },
    }
}

} // verus!
