//! Glyph extraction: turning resolved text render primitives into drawable
//! glyph quads.
//!
//! For each text primitive, each character of its content is looked up in
//! the font's atlas by exact Unicode match; a covered character emits one
//! textured quad placed from its ink offsets and advances the horizontal
//! cursor, while an uncovered character is skipped silently and leaves the
//! cursor untouched. Every quad of one primitive shares the same size: the
//! atlas's maximum glyph box scaled by the requested font size, a deliberate
//! trade of precision for a uniform atlas-region size.

use vstd::prelude::*;
use crate::font::{
    CONTENT_LIMIT, COORD_LIMIT, FONT_SIZE_LIMIT, FontAtlas, FontStore, Glyph, METRIC_LIMIT,
    atlas_wf, char_id_for, glyph_for, glyph_wf, lemma_glyph_from_is_member, store_lookup,
};
use crate::font_mapping::{FontHandle, FontMapping, spec_resolve};
use crate::quad::{Color, ExtractedQuad, Rect, UIQuadType, Vec2};
use crate::UNIT;

verus! {

/// A node's resolved geometry after layout, in thousandths of a pixel, with
/// its paint order.
#[derive(Debug, Clone, Copy, PartialEq, Eq, Structural)]
pub struct Layout {
    pub posx: i64,
    pub posy: i64,
    pub width: i64,
    pub height: i64,
    pub z_index: i64,
}

/// A resolved render primitive. This core consumes only the text variant:
/// its color, its post-layout geometry, the requested font size in whole
/// pixels, its content, and the dense id of its font.
#[derive(Debug, Clone, PartialEq)]
pub enum RenderPrimitive {
    Text { color: Color, layout: Layout, size: i64, content: Vec<char>, font: u16 },
    Empty,
}

/// A glyph's ink offset from its advance origin: zero on each axis when the
/// glyph has no ink.
pub open spec fn glyph_left(g: Glyph) -> int {
    match g.plane_bounds {
        Some(b) => b.left as int,
        None => 0,
    }
}

/// See `glyph_left`.
pub open spec fn glyph_top(g: Glyph) -> int {
    match g.plane_bounds {
        Some(b) => b.top as int,
        None => 0,
    }
}

/// The uniform quad width for a primitive: the atlas's maximum glyph width
/// scaled by `size / atlas.size`, the factor converting atlas units to the
/// requested pixel size. The quotient rounds towards zero.
pub open spec fn resized_max_width(atlas: FontAtlas, size: int) -> int {
    atlas.max_glyph_width * size / atlas.size as int
}

/// See `resized_max_width`.
pub open spec fn resized_max_height(atlas: FontAtlas, size: int) -> int {
    atlas.max_glyph_height * size / atlas.size as int
}

/// The quad one covered character emits, with the cursor at `x`: positioned
/// from the primitive's layout corner, the cursor, and the glyph's ink
/// offsets (the atlas Y axis is inverted relative to screen Y, and one full
/// font size aligns the baseline), sized uniformly from the atlas's maximum
/// glyph box.
pub open spec fn glyph_quad(
    color: Color,
    layout: Layout,
    size: int,
    handle: FontHandle,
    atlas: FontAtlas,
    g: Glyph,
    cid: u32,
    x: int,
) -> ExtractedQuad {
    let px = layout.posx + x + glyph_left(g) * size;
    let py = layout.posy + (-glyph_top(g)) * size + size * (UNIT as int);
    ExtractedQuad {
        font_handle: Some(handle),
        rect: Rect {
            min: Vec2 { x: px as i64, y: py as i64 },
            max: Vec2 {
                x: (px + resized_max_width(atlas, size)) as i64,
                y: (py + resized_max_height(atlas, size)) as i64,
            },
        },
        color: color,
        char_id: cid,
        z_index: layout.z_index,
        quad_type: UIQuadType::Text,
        border_radius: (0, 0, 0, 0),
        uv_min: None,
        uv_max: None,
    }
}

/// The quads the characters of `content` from position `i` on emit, with
/// the cursor at `x`: an uncovered character emits nothing and keeps the
/// cursor; a covered one emits its quad and advances the cursor by its
/// advance scaled to the font size.
pub open spec fn text_quads_from(
    color: Color,
    layout: Layout,
    size: int,
    content: Seq<char>,
    handle: FontHandle,
    atlas: FontAtlas,
    i: int,
    x: int,
) -> Seq<ExtractedQuad>
    decreases content.len() - i,
{
    if i < 0 || i >= content.len() {
        Seq::empty()
    } else {
        match glyph_for(atlas.glyphs@, content[i]) {
            None => text_quads_from(color, layout, size, content, handle, atlas, i + 1, x),
            Some(g) => {
                let rest = text_quads_from(
                    color,
                    layout,
                    size,
                    content,
                    handle,
                    atlas,
                    i + 1,
                    x + g.advance * size,
                );
                match char_id_for(atlas.char_ids@, content[i]) {
                    Some(cid) => seq![glyph_quad(color, layout, size, handle, atlas, g, cid, x)]
                        + rest,
                    None => rest,
                }
            },
        }
    }
}

/// The quads one whole text primitive emits: its characters in order, the
/// cursor starting at zero.
pub open spec fn text_quads(
    color: Color,
    layout: Layout,
    size: int,
    content: Seq<char>,
    handle: FontHandle,
    atlas: FontAtlas,
) -> Seq<ExtractedQuad> {
    text_quads_from(color, layout, size, content, handle, atlas, 0, 0)
}

/// The quads one primitive emits: nothing unless it is a text primitive
/// whose font id resolves to a handle with a stored atlas.
pub open spec fn prim_quads(
    p: RenderPrimitive,
    reg: Seq<FontHandle>,
    fonts: Seq<(FontHandle, FontAtlas)>,
) -> Seq<ExtractedQuad> {
    match p {
        RenderPrimitive::Text { color, layout, size, content, font } => {
            match spec_resolve(reg, font) {
                Some(handle) => match store_lookup(fonts, handle) {
                    Some(atlas) => text_quads(color, layout, size as int, content@, handle, atlas),
                    None => Seq::empty(),
                },
                None => Seq::empty(),
            }
        },
        RenderPrimitive::Empty => Seq::empty(),
    }
}

/// The concatenated quads of the primitives from position `i` on, in
/// primitive order.
pub open spec fn extract_from(
    prims: Seq<RenderPrimitive>,
    reg: Seq<FontHandle>,
    fonts: Seq<(FontHandle, FontAtlas)>,
    i: int,
) -> Seq<ExtractedQuad>
    decreases prims.len() - i,
{
    if i < 0 || i >= prims.len() {
        Seq::empty()
    } else {
        prim_quads(prims[i], reg, fonts) + extract_from(prims, reg, fonts, i + 1)
    }
}

/// The full extraction output: every primitive's quads, concatenated in
/// primitive order, character order within each primitive.
pub open spec fn extract_spec(
    prims: Seq<RenderPrimitive>,
    reg: Seq<FontHandle>,
    fonts: Seq<(FontHandle, FontAtlas)>,
) -> Seq<ExtractedQuad> {
    extract_from(prims, reg, fonts, 0)
}

/// A primitive within the machine bounds: font size, layout coordinates and
/// content length small enough that every placement computation fits the
/// fixed-point range.
pub open spec fn prim_wf(p: RenderPrimitive) -> bool {
    match p {
        RenderPrimitive::Text { layout, size, content, .. } => {
            &&& 0 <= size <= FONT_SIZE_LIMIT
            &&& -COORD_LIMIT <= layout.posx <= COORD_LIMIT
            &&& -COORD_LIMIT <= layout.posy <= COORD_LIMIT
            &&& content@.len() <= CONTENT_LIMIT
        },
        RenderPrimitive::Empty => true,
    }
}

/// A primitive whose font is resolvable: its id is registered, the handle
/// has a stored atlas, and that atlas is well formed. A text primitive that
/// fails this references an unregistered font, which is a caller bug.
pub open spec fn prim_resolvable(
    p: RenderPrimitive,
    reg: Seq<FontHandle>,
    fonts: Seq<(FontHandle, FontAtlas)>,
) -> bool {
    match p {
        RenderPrimitive::Text { font, .. } => {
            match spec_resolve(reg, font) {
                Some(handle) => match store_lookup(fonts, handle) {
                    Some(atlas) => atlas_wf(atlas),
                    None => false,
                },
                None => false,
            }
        },
        RenderPrimitive::Empty => true,
    }
}

/// A bounded atlas metric times a bounded font size stays within the
/// fixed-point range.
proof fn lemma_metric_product_bound(m: int, s: int)
    requires
        -(METRIC_LIMIT as int) <= m <= METRIC_LIMIT as int,
        0 <= s <= FONT_SIZE_LIMIT as int,
    ensures
        -(METRIC_LIMIT as int) * (FONT_SIZE_LIMIT as int) <= m * s <= (METRIC_LIMIT as int) * (
        FONT_SIZE_LIMIT as int),
{
    assert(-(METRIC_LIMIT as int) * (FONT_SIZE_LIMIT as int) <= m * s <= (METRIC_LIMIT as int) * (
    FONT_SIZE_LIMIT as int)) by (nonlinear_arith)
        requires
            -(METRIC_LIMIT as int) <= m <= METRIC_LIMIT as int,
            0 <= s <= FONT_SIZE_LIMIT as int,
    ;
}

/// Walk the resolved primitives and emit one quad per covered character of
/// each text primitive, in primitive order then character order.
#[verifier::loop_isolation(false)]
pub fn extract_texts(
    primitives: &Vec<RenderPrimitive>,
    font_mapping: &FontMapping,
    fonts: &FontStore,
) -> (r: Vec<ExtractedQuad>)
    requires
        font_mapping.wf(),
        forall|i: int| 0 <= i < primitives@.len() ==> prim_wf(#[trigger] primitives@[i]),
        forall|i: int| 0 <= i < primitives@.len() ==> prim_resolvable(
            #[trigger] primitives@[i],
            font_mapping@,
            fonts@,
        ),
    ensures
        r@ == extract_spec(primitives@, font_mapping@, fonts@),
{
    let mut extracted: Vec<ExtractedQuad> = Vec::new();
    let mut pi: usize = 0;
    while pi < primitives.len()
        invariant
            pi <= primitives@.len(),
            extracted@ + extract_from(primitives@, font_mapping@, fonts@, pi as int)
                == extract_spec(primitives@, font_mapping@, fonts@),
        decreases primitives@.len() - pi,
    {
        let ghost before_prim = extracted@;
        match &primitives[pi] {
            RenderPrimitive::Text { color, layout, size, content, font } => {
                let font_handle = font_mapping.get_handle(*font).unwrap();
                let atlas = fonts.get(font_handle).unwrap();
                let size = *size;
                proof {
                    assert(prim_wf(primitives@[pi as int]));
                    assert(prim_resolvable(primitives@[pi as int], font_mapping@, fonts@));
                    assert(atlas_wf(*atlas));
                    assert(0 <= size <= FONT_SIZE_LIMIT);
                    assert(content@.len() <= CONTENT_LIMIT);
                }
                let mut x: i64 = 0;
                let mut ci: usize = 0;
                while ci < content.len()
                    invariant
                        ci <= content@.len(),
                        -((ci as int) * ((METRIC_LIMIT as int) * (FONT_SIZE_LIMIT as int))) <= x
                            as int <= (ci as int) * ((METRIC_LIMIT as int) * (
                        FONT_SIZE_LIMIT as int)),
                        extracted@ + text_quads_from(
                            *color,
                            *layout,
                            size as int,
                            content@,
                            font_handle,
                            *atlas,
                            ci as int,
                            x as int,
                        ) == before_prim + text_quads(
                            *color,
                            *layout,
                            size as int,
                            content@,
                            font_handle,
                            *atlas,
                        ),
                    decreases content@.len() - ci,
                {
                    let c = content[ci];
                    match atlas.find_glyph(c) {
                        Some(glyph) => {
                            proof {
                                lemma_glyph_from_is_member(atlas.glyphs@, c, 0, glyph);
                                let j = choose|j: int|
                                    0 <= j < atlas.glyphs@.len() && atlas.glyphs@[j] == glyph;
                                assert(glyph_wf(atlas.glyphs@[j]));
                            }
                            let (left, top) = match glyph.plane_bounds {
                                Some(b) => (b.left, b.top),
                                None => (0i64, 0i64),
                            };
                            proof {
                                lemma_metric_product_bound(
                                    atlas.max_glyph_width as int,
                                    size as int,
                                );
                                lemma_metric_product_bound(
                                    atlas.max_glyph_height as int,
                                    size as int,
                                );
                                lemma_metric_product_bound(left as int, size as int);
                                lemma_metric_product_bound(top as int, size as int);
                                lemma_metric_product_bound(-(top as int), size as int);
                                lemma_metric_product_bound(glyph.advance as int, size as int);
                            }
                            let resized_w = atlas.max_glyph_width * size / atlas.size;
                            let resized_h = atlas.max_glyph_height * size / atlas.size;
                            let position_x = layout.posx + x + left * size;
                            let position_y = layout.posy + (-top) * size + size * UNIT;
                            let char_id = atlas.get_char_id(c).unwrap();
                            let quad = ExtractedQuad {
                                font_handle: Some(font_handle),
                                rect: Rect {
                                    min: Vec2 { x: position_x, y: position_y },
                                    max: Vec2 {
                                        x: position_x + resized_w,
                                        y: position_y + resized_h,
                                    },
                                },
                                color: *color,
                                char_id,
                                z_index: layout.z_index,
                                quad_type: UIQuadType::Text,
                                border_radius: (0, 0, 0, 0),
                                uv_min: None,
                                uv_max: None,
                            };
                            proof {
                                assert(quad == glyph_quad(
                                    *color,
                                    *layout,
                                    size as int,
                                    font_handle,
                                    *atlas,
                                    glyph,
                                    char_id,
                                    x as int,
                                ));
                            }
                            extracted.push(quad);
                            x = x + glyph.advance * size;
                            proof {
                                assert(extracted@ =~= extracted@.subrange(
                                    0,
                                    extracted@.len() - 1,
                                ).push(quad));
                                assert(extracted@.subrange(0, extracted@.len() - 1) + (seq![quad]
                                    + text_quads_from(
                                    *color,
                                    *layout,
                                    size as int,
                                    content@,
                                    font_handle,
                                    *atlas,
                                    ci + 1,
                                    x as int,
                                )) =~= extracted@ + text_quads_from(
                                    *color,
                                    *layout,
                                    size as int,
                                    content@,
                                    font_handle,
                                    *atlas,
                                    ci + 1,
                                    x as int,
                                ));
                            }
                        },
                        None => {},
                    }
                    ci = ci + 1;
                }
            },
            RenderPrimitive::Empty => {},
        }
        proof {
            assert(before_prim + (prim_quads(primitives@[pi as int], font_mapping@, fonts@)
                + extract_from(primitives@, font_mapping@, fonts@, pi + 1)) =~= (before_prim
                + prim_quads(primitives@[pi as int], font_mapping@, fonts@)) + extract_from(
                primitives@,
                font_mapping@,
                fonts@,
                pi + 1,
            ));
        }
        pi = pi + 1;
    }
    extracted
}

/// Law: a character the atlas does not cover contributes no quad and leaves
/// the cursor position unchanged.
pub proof fn lemma_missing_char_skipped(
    color: Color,
    layout: Layout,
    size: int,
    content: Seq<char>,
    handle: FontHandle,
    atlas: FontAtlas,
    i: int,
    x: int,
)
    requires
        0 <= i < content.len(),
        glyph_for(atlas.glyphs@, content[i]) is None,
    ensures
        text_quads_from(color, layout, size, content, handle, atlas, i, x) == text_quads_from(
            color,
            layout,
            size,
            content,
            handle,
            atlas,
            i + 1,
            x,
        ),
{
}

/// Every quad a text primitive emits is a text quad carrying the resolved
/// font handle.
pub proof fn lemma_text_quads_carry_font(
    color: Color,
    layout: Layout,
    size: int,
    content: Seq<char>,
    handle: FontHandle,
    atlas: FontAtlas,
    i: int,
    x: int,
)
    ensures
        forall|k: int|
            0 <= k < text_quads_from(color, layout, size, content, handle, atlas, i, x).len()
                ==> ((#[trigger] text_quads_from(color, layout, size, content, handle, atlas, i, x)[k]).quad_type
                == UIQuadType::Text && text_quads_from(
                color,
                layout,
                size,
                content,
                handle,
                atlas,
                i,
                x,
            )[k].font_handle == Some(handle)),
    decreases content.len() - i,
{
    if 0 <= i < content.len() {
        match glyph_for(atlas.glyphs@, content[i]) {
            None => {
                lemma_text_quads_carry_font(color, layout, size, content, handle, atlas, i + 1, x);
            },
            Some(g) => {
                lemma_text_quads_carry_font(
                    color,
                    layout,
                    size,
                    content,
                    handle,
                    atlas,
                    i + 1,
                    x + g.advance * size,
                );
            },
        }
    }
}

/// Law: every quad extraction emits is of quad type text and carries a
/// non-absent font reference.
pub proof fn lemma_extracted_quads_are_text(
    prims: Seq<RenderPrimitive>,
    reg: Seq<FontHandle>,
    fonts: Seq<(FontHandle, FontAtlas)>,
    i: int,
)
    ensures
        forall|k: int|
            0 <= k < extract_from(prims, reg, fonts, i).len() ==> ((#[trigger] extract_from(
                prims,
                reg,
                fonts,
                i,
            )[k]).quad_type == UIQuadType::Text && extract_from(prims, reg, fonts, i)[k].font_handle
                is Some),
    decreases prims.len() - i,
{
    if 0 <= i < prims.len() {
        lemma_extracted_quads_are_text(prims, reg, fonts, i + 1);
        match prims[i] {
            RenderPrimitive::Text { color, layout, size, content, font } => {
                match spec_resolve(reg, font) {
                    Some(handle) => {
                        match store_lookup(fonts, handle) {
                            Some(atlas) => {
                                lemma_text_quads_carry_font(
                                    color,
                                    layout,
                                    size as int,
                                    content@,
                                    handle,
                                    atlas,
                                    0,
                                    0,
                                );
                            },
                            None => {},
                        }
                    },
                    None => {},
                }
            },
            RenderPrimitive::Empty => {},
        }
    }
}

/// Law: extraction is a pure function of the primitive list, the registry
/// and the font store; two runs over the same unchanged inputs yield the
/// same quad sequence.
pub proof fn lemma_extract_deterministic(
    r1: Seq<ExtractedQuad>,
    r2: Seq<ExtractedQuad>,
    prims: Seq<RenderPrimitive>,
    reg: Seq<FontHandle>,
    fonts: Seq<(FontHandle, FontAtlas)>,
)
    requires
        r1 == extract_spec(prims, reg, fonts),
        r2 == extract_spec(prims, reg, fonts),
    ensures
        r1 == r2,
{
}

} // verus!
