//! The in-memory model of a signed-distance-field font atlas, as this core
//! consumes it: per-glyph metrics, a character-id table, and the uniform
//! maximum glyph bounding box used for quad sizing.
//!
//! Atlas-unit quantities are fixed-point thousandths; the atlas pixel size is
//! a whole number of pixels.

use vstd::prelude::*;
use crate::font_mapping::FontHandle;

verus! {

/// Largest magnitude, in thousandths, an atlas metric (advance, ink offset,
/// ink size, maximum glyph box) may have.
pub const METRIC_LIMIT: i64 = 1_000_000;

/// Largest font size, in whole pixels, a text primitive may request.
pub const FONT_SIZE_LIMIT: i64 = 100_000;

/// Largest magnitude, in thousandths of a pixel, a resolved layout
/// coordinate may have.
pub const COORD_LIMIT: i64 = 1_000_000_000_000;

/// Most characters one text primitive may carry.
pub const CONTENT_LIMIT: usize = 100_000;

/// Where a glyph's visible ink sits relative to its advance origin, in
/// thousandths of an atlas unit.
#[derive(Debug, Clone, Copy, PartialEq, Eq, Structural)]
pub struct PlaneBounds {
    pub left: i64,
    pub top: i64,
    pub width: i64,
    pub height: i64,
}

/// Per-character metrics: the Unicode scalar, the horizontal advance in
/// thousandths of an atlas unit, and the optional ink rectangle. Absent
/// bounds mean a non-rendering character (such as a space) that contributes
/// only advance.
#[derive(Debug, Clone, Copy, PartialEq, Eq, Structural)]
pub struct Glyph {
    pub unicode: char,
    pub advance: i64,
    pub plane_bounds: Option<PlaneBounds>,
}

/// One row of the character-id table: the stable key the rendering backend
/// later uses to index the atlas region for a Unicode scalar.
#[derive(Debug, Clone, Copy, PartialEq, Eq, Structural)]
pub struct CharIdEntry {
    pub unicode: char,
    pub id: u32,
}

/// The atlas for one font: its pixel size, the uniform maximum glyph
/// bounding box (thousandths of an atlas unit), the glyph table, and the
/// character-id table.
#[derive(Debug, Clone, PartialEq, Eq)]
pub struct FontAtlas {
    pub size: i64,
    pub max_glyph_width: i64,
    pub max_glyph_height: i64,
    pub glyphs: Vec<Glyph>,
    pub char_ids: Vec<CharIdEntry>,
}

/// The first glyph at or after position `i` whose Unicode scalar is `c`.
pub open spec fn glyph_from(glyphs: Seq<Glyph>, c: char, i: int) -> Option<Glyph>
    decreases glyphs.len() - i,
{
    if i < 0 || i >= glyphs.len() {
        None
    } else if glyphs[i].unicode == c {
        Some(glyphs[i])
    } else {
        glyph_from(glyphs, c, i + 1)
    }
}

/// The glyph a character resolves to: the first exact Unicode match in the
/// glyph table, or nothing for a character the font does not cover.
pub open spec fn glyph_for(glyphs: Seq<Glyph>, c: char) -> Option<Glyph> {
    glyph_from(glyphs, c, 0)
}

/// The first character-id entry at or after position `i` for scalar `c`.
pub open spec fn char_id_from(ids: Seq<CharIdEntry>, c: char, i: int) -> Option<u32>
    decreases ids.len() - i,
{
    if i < 0 || i >= ids.len() {
        None
    } else if ids[i].unicode == c {
        Some(ids[i].id)
    } else {
        char_id_from(ids, c, i + 1)
    }
}

/// The character id a scalar resolves to: the first match in the table.
pub open spec fn char_id_for(ids: Seq<CharIdEntry>, c: char) -> Option<u32> {
    char_id_from(ids, c, 0)
}

/// A glyph's metrics are within the machine bounds.
pub open spec fn glyph_wf(g: Glyph) -> bool {
    &&& -METRIC_LIMIT <= g.advance <= METRIC_LIMIT
    &&& match g.plane_bounds {
        Some(b) => {
            &&& -METRIC_LIMIT <= b.left <= METRIC_LIMIT
            &&& -METRIC_LIMIT <= b.top <= METRIC_LIMIT
            &&& -METRIC_LIMIT <= b.width <= METRIC_LIMIT
            &&& -METRIC_LIMIT <= b.height <= METRIC_LIMIT
        },
        None => true,
    }
}

/// A well-formed atlas: positive pixel size, a non-negative bounded maximum
/// glyph box, bounded glyph metrics, and a character id for every covered
/// glyph (a glyph confirmed present whose id cannot be resolved is a caller
/// bug upstream).
pub open spec fn atlas_wf(a: FontAtlas) -> bool {
    &&& 0 < a.size <= METRIC_LIMIT
    &&& 0 <= a.max_glyph_width <= METRIC_LIMIT
    &&& 0 <= a.max_glyph_height <= METRIC_LIMIT
    &&& forall|i: int| 0 <= i < a.glyphs@.len() ==> glyph_wf(#[trigger] a.glyphs@[i])
    &&& forall|c: char| glyph_for(a.glyphs@, c) is Some ==> char_id_for(a.char_ids@, c) is Some
}

/// A found glyph is an element of the table, so a well-formed atlas only
/// yields glyphs with bounded metrics.
pub proof fn lemma_glyph_from_is_member(glyphs: Seq<Glyph>, c: char, i: int, g: Glyph)
    requires
        glyph_from(glyphs, c, i) == Some(g),
    ensures
        exists|j: int| 0 <= j < glyphs.len() && glyphs[j] == g,
    decreases glyphs.len() - i,
{
    if 0 <= i < glyphs.len() {
        if glyphs[i].unicode == c {
            assert(glyphs[i] == g);
        } else {
            lemma_glyph_from_is_member(glyphs, c, i + 1, g);
        }
    }
}

impl FontAtlas {
    /// Linear scan of the glyph table for an exact Unicode match; there is no
    /// fallback glyph and no kerning.
    pub fn find_glyph(&self, c: char) -> (r: Option<Glyph>)
        ensures
            r == glyph_for(self.glyphs@, c),
    {
        let mut i: usize = 0;
        while i < self.glyphs.len()
            invariant
                i <= self.glyphs@.len(),
                glyph_for(self.glyphs@, c) == glyph_from(self.glyphs@, c, i as int),
            decreases self.glyphs@.len() - i,
        {
            if self.glyphs[i].unicode == c {
                return Some(self.glyphs[i]);
            }
            i = i + 1;
        }
        None
    }

    /// Linear scan of the character-id table for an exact Unicode match.
    pub fn get_char_id(&self, c: char) -> (r: Option<u32>)
        ensures
            r == char_id_for(self.char_ids@, c),
    {
        let mut i: usize = 0;
        while i < self.char_ids.len()
            invariant
                i <= self.char_ids@.len(),
                char_id_for(self.char_ids@, c) == char_id_from(self.char_ids@, c, i as int),
            decreases self.char_ids@.len() - i,
        {
            if self.char_ids[i].unicode == c {
                return Some(self.char_ids[i].id);
            }
            i = i + 1;
        }
        None
    }
}

/// The external asset store as this core sees it: the parsed atlas for each
/// font handle, looked up by handle.
pub struct FontStore {
    pub fonts: Vec<(FontHandle, FontAtlas)>,
}

/// The first atlas at or after position `i` stored under handle `h`.
pub open spec fn store_from(fonts: Seq<(FontHandle, FontAtlas)>, h: FontHandle, i: int) -> Option<
    FontAtlas,
>
    decreases fonts.len() - i,
{
    if i < 0 || i >= fonts.len() {
        None
    } else if fonts[i].0 == h {
        Some(fonts[i].1)
    } else {
        store_from(fonts, h, i + 1)
    }
}

/// The atlas a handle resolves to: the first entry stored under it.
pub open spec fn store_lookup(fonts: Seq<(FontHandle, FontAtlas)>, h: FontHandle) -> Option<
    FontAtlas,
> {
    store_from(fonts, h, 0)
}

impl View for FontStore {
    type V = Seq<(FontHandle, FontAtlas)>;

    closed spec fn view(&self) -> Seq<(FontHandle, FontAtlas)> {
        self.fonts@
    }
}

impl FontStore {
    /// An empty store.
    pub fn new() -> (r: Self)
        ensures
            r@ == Seq::<(FontHandle, FontAtlas)>::empty(),
    {
        FontStore { fonts: Vec::new() }
    }

    /// Record the atlas for a handle.
    pub fn insert(&mut self, handle: FontHandle, atlas: FontAtlas)
        requires
            old(self)@.len() < usize::MAX,
        ensures
            final(self)@ == old(self)@.push((handle, atlas)),
    {
        self.fonts.push((handle, atlas));
    }

    /// Look the atlas for a handle up.
    pub fn get(&self, handle: FontHandle) -> (r: Option<&FontAtlas>)
        ensures
            (match r {
                Some(a) => store_lookup(self@, handle) == Some(*a),
                None => store_lookup(self@, handle) is None,
            }),
    {
        let mut i: usize = 0;
        while i < self.fonts.len()
            invariant
                i <= self.fonts@.len(),
                store_lookup(self@, handle) == store_from(self@, handle, i as int),
            decreases self.fonts@.len() - i,
        {
            if self.fonts[i].0 == handle {
                return Some(&self.fonts[i].1);
            }
            i = i + 1;
        }
        None
    }
}

} // verus!
