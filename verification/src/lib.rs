//! Layout and text-rendering core of a retained-mode UI toolkit.
//!
//! The crate turns a tree of styled nodes into solver-ready layout inputs and
//! turns resolved text primitives into a flat list of drawable glyph quads,
//! using a signed-distance-field font atlas for per-character metrics.
//!
//! All fractional quantities (style values, coordinates, glyph metrics) are
//! carried as fixed-point integers in thousandths, so that every computation
//! here is exact and verifiable.

use vstd::prelude::*;

pub mod extract;
pub mod font;
pub mod font_mapping;
pub mod node;
pub mod quad;
pub mod style;

verus! {

/// Fixed-point scale used throughout the crate: `UNIT` thousandths stand for
/// one whole unit (one pixel, one stretch weight, one atlas unit).
pub const UNIT: i64 = 1000;

} // verus!
