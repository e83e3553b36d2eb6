//! The output side of the core: drawable quad records and the per-frame
//! accumulator that collects them for the rendering backend.

use vstd::prelude::*;
use crate::font_mapping::FontHandle;

verus! {

/// A point in pixel space, in thousandths of a pixel.
#[derive(Debug, Clone, Copy, PartialEq, Eq, Structural)]
pub struct Vec2 {
    pub x: i64,
    pub y: i64,
}

/// An axis-aligned rectangle in pixel space, by its minimum and maximum
/// corners.
#[derive(Debug, Clone, Copy, PartialEq, Eq, Structural)]
pub struct Rect {
    pub min: Vec2,
    pub max: Vec2,
}

/// An RGBA color, each channel in thousandths.
#[derive(Debug, Clone, Copy, PartialEq, Eq, Structural)]
pub struct Color {
    pub r: i64,
    pub g: i64,
    pub b: i64,
    pub a: i64,
}

/// What kind of drawable a quad is.
#[derive(Debug, Clone, Copy, PartialEq, Eq, Structural)]
pub enum UIQuadType {
    Quad,
    Text,
    Image,
}

/// One drawable quad, the unit of work handed to the draw-batching stage.
/// A quad of type `Text` always carries a font handle and a resolved
/// character id.
#[derive(Debug, Clone, Copy, PartialEq, Eq)]
pub struct ExtractedQuad {
    pub font_handle: Option<FontHandle>,
    pub rect: Rect,
    pub color: Color,
    pub char_id: u32,
    pub z_index: i64,
    pub quad_type: UIQuadType,
    pub border_radius: (i64, i64, i64, i64),
    pub uv_min: Option<Vec2>,
    pub uv_max: Option<Vec2>,
}

/// The per-frame quad list: append-only accumulation, no transformation of
/// its own.
pub struct RenderQuadBuilder {
    quads: Vec<ExtractedQuad>,
}

impl View for RenderQuadBuilder {
    type V = Seq<ExtractedQuad>;

    closed spec fn view(&self) -> Seq<ExtractedQuad> {
        self.quads@
    }
}

impl RenderQuadBuilder {
    /// An empty list for a fresh frame.
    pub fn new() -> (r: Self)
        ensures
            r@ == Seq::<ExtractedQuad>::empty(),
    {
        RenderQuadBuilder { quads: Vec::new() }
    }

    /// Append one quad.
    pub fn push(&mut self, quad: ExtractedQuad)
        requires
            old(self)@.len() < usize::MAX,
        ensures
            final(self)@ == old(self)@.push(quad),
    {
        self.quads.push(quad);
    }

    /// Append a batch of quads, keeping their order.
    pub fn append(&mut self, quads: Vec<ExtractedQuad>)
        requires
            old(self)@.len() + quads@.len() <= usize::MAX,
        ensures
            final(self)@ == old(self)@ + quads@,
    {
        let ghost all = old(self)@ + quads@;
        let mut i: usize = 0;
        while i < quads.len()
            invariant
                i <= quads@.len(),
                all == old(self)@ + quads@,
                self.quads@ == old(self)@ + quads@.take(i as int),
            decreases quads@.len() - i,
        {
            self.quads.push(quads[i]);
            proof {
                assert(quads@.take(i + 1 as int) =~= quads@.take(i as int).push(quads@[i as int]));
                assert(old(self)@ + quads@.take(i as int).push(quads@[i as int]) =~= (old(self)@
                    + quads@.take(i as int)).push(quads@[i as int]));
            }
            i = i + 1;
        }
        proof {
            assert(quads@.take(quads@.len() as int) =~= quads@);
        }
    }

    /// Hand the finished list to the rendering backend.
    pub fn finish(self) -> (r: Vec<ExtractedQuad>)
        ensures
            r@ == self@,
    {
        self.quads
    }
}

} // verus!
