//! A math-rendering core: it loads a vector-graphic document, scales it to a
//! fixed output height, pads it on an opaque white background, and encodes
//! the result as a PNG byte stream. The geometry, the compositing rules and
//! the error classification are verified; the vector parser, the glyph
//! resolution and the pixel-level codec are relied on through narrow,
//! documented contracts.

pub mod canvas;
pub mod compose;
pub mod encode;
pub mod errors;
pub mod geometry;
pub mod raster;
pub mod scene;
