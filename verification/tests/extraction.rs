use kayak_core::extract::{extract_texts, Layout, RenderPrimitive};
use kayak_core::font::{CharIdEntry, FontAtlas, FontStore, Glyph, PlaneBounds};
use kayak_core::font_mapping::{FontHandle, FontMapping};
use kayak_core::quad::{Color, ExtractedQuad, RenderQuadBuilder, UIQuadType, Vec2};

const WHITE: Color = Color { r: 1000, g: 1000, b: 1000, a: 1000 };

fn test_atlas() -> FontAtlas {
    FontAtlas {
        size: 5,
        max_glyph_width: 2000,
        max_glyph_height: 3000,
        glyphs: vec![
            Glyph {
                unicode: 'A',
                advance: 600,
                plane_bounds: Some(PlaneBounds { left: 0, top: 700, width: 500, height: 600 }),
            },
            Glyph {
                unicode: 'B',
                advance: 550,
                plane_bounds: Some(PlaneBounds { left: 0, top: 0, width: 400, height: 500 }),
            },
            Glyph { unicode: ' ', advance: 300, plane_bounds: None },
        ],
        char_ids: vec![
            CharIdEntry { unicode: 'A', id: 1 },
            CharIdEntry { unicode: 'B', id: 2 },
            CharIdEntry { unicode: ' ', id: 3 },
        ],
    }
}

fn test_world() -> (FontMapping, FontStore, u16, FontHandle) {
    let mut mapping = FontMapping::default();
    let handle = FontHandle { id: 42 };
    let font_id = mapping.add(handle);
    let mut store = FontStore::new();
    store.insert(handle, test_atlas());
    (mapping, store, font_id, handle)
}

fn text_prim(content: &str, font_id: u16) -> RenderPrimitive {
    RenderPrimitive::Text {
        color: WHITE,
        layout: Layout { posx: 100_000, posy: 200_000, width: 50_000, height: 20_000, z_index: 5 },
        size: 10,
        content: content.chars().collect(),
        font: font_id,
    }
}

#[test]
fn two_covered_characters_emit_two_quads() {
    let (mapping, store, font_id, handle) = test_world();
    let prims = vec![text_prim("AB", font_id)];
    let quads = extract_texts(&prims, &mapping, &store);
    assert_eq!(quads.len(), 2);

    // Quad for 'A': cursor 0, ink offset left 0 / top 0.7, baseline shift of
    // one font size; sized from the maximum glyph box times 10 / 5.
    let a = &quads[0];
    assert_eq!(a.font_handle, Some(handle));
    assert_eq!(a.quad_type, UIQuadType::Text);
    assert_eq!(a.char_id, 1);
    assert_eq!(a.z_index, 5);
    assert_eq!(a.color, WHITE);
    assert_eq!(a.rect.min, Vec2 { x: 100_000, y: 203_000 });
    assert_eq!(a.rect.max, Vec2 { x: 104_000, y: 209_000 });
    assert_eq!(a.border_radius, (0, 0, 0, 0));
    assert_eq!(a.uv_min, None);
    assert_eq!(a.uv_max, None);

    // Quad for 'B': the cursor advanced by 0.6 of an atlas unit times font
    // size 10, i.e. six whole pixels.
    let b = &quads[1];
    assert_eq!(b.char_id, 2);
    assert_eq!(b.rect.min, Vec2 { x: 106_000, y: 210_000 });
    assert_eq!(b.rect.max, Vec2 { x: 110_000, y: 216_000 });

    // Both quads share one size: the resized maximum glyph box.
    assert_eq!(a.rect.max.x - a.rect.min.x, b.rect.max.x - b.rect.min.x);
    assert_eq!(a.rect.max.y - a.rect.min.y, b.rect.max.y - b.rect.min.y);
}

#[test]
fn uncovered_character_is_skipped_without_advance() {
    let (mapping, store, font_id, _) = test_world();
    let covered = extract_texts(&vec![text_prim("AB", font_id)], &mapping, &store);
    let with_gap = extract_texts(&vec![text_prim("A\u{20AC}B", font_id)], &mapping, &store);
    // The euro sign has no glyph: no quad for it, and 'B' sits exactly where
    // it would without it.
    assert_eq!(with_gap.len(), 2);
    assert_eq!(with_gap, covered);
}

#[test]
fn boundless_character_still_emits_and_advances() {
    let (mapping, store, font_id, _) = test_world();
    let quads = extract_texts(&vec![text_prim("A B", font_id)], &mapping, &store);
    assert_eq!(quads.len(), 3);
    // The space has no ink: offsets are zero, yet a quad of the shared size
    // is still emitted at the cursor.
    let space = &quads[1];
    assert_eq!(space.char_id, 3);
    assert_eq!(space.rect.min, Vec2 { x: 106_000, y: 210_000 });
    assert_eq!(space.rect.max, Vec2 { x: 110_000, y: 216_000 });
    // 'B' follows after the space's advance of 0.3 atlas units times 10.
    assert_eq!(quads[2].rect.min.x, 109_000);
}

#[test]
fn non_text_primitives_contribute_nothing() {
    let (mapping, store, font_id, _) = test_world();
    let only_text = extract_texts(&vec![text_prim("AB", font_id)], &mapping, &store);
    let mixed = extract_texts(
        &vec![RenderPrimitive::Empty, text_prim("AB", font_id), RenderPrimitive::Empty],
        &mapping,
        &store,
    );
    assert_eq!(mixed, only_text);
}

#[test]
fn primitive_order_then_character_order() {
    let (mapping, store, font_id, _) = test_world();
    let quads = extract_texts(
        &vec![text_prim("AB", font_id), text_prim("B", font_id)],
        &mapping,
        &store,
    );
    assert_eq!(quads.len(), 3);
    assert_eq!(quads[0].char_id, 1);
    assert_eq!(quads[1].char_id, 2);
    assert_eq!(quads[2].char_id, 2);
    // The second primitive starts its own cursor at zero.
    assert_eq!(quads[2].rect.min.x, 100_000);
}

#[test]
fn extraction_is_idempotent() {
    let (mapping, store, font_id, _) = test_world();
    let prims = vec![text_prim("A B", font_id), text_prim("BAB", font_id)];
    let first = extract_texts(&prims, &mapping, &store);
    let second = extract_texts(&prims, &mapping, &store);
    assert_eq!(first, second);
}

#[test]
fn empty_content_emits_nothing() {
    let (mapping, store, font_id, _) = test_world();
    let quads = extract_texts(&vec![text_prim("", font_id)], &mapping, &store);
    assert_eq!(quads.len(), 0);
}

#[test]
fn quad_builder_accumulates_in_order() {
    let (mapping, store, font_id, _) = test_world();
    let quads = extract_texts(&vec![text_prim("AB", font_id)], &mapping, &store);
    let mut builder = RenderQuadBuilder::new();
    builder.push(quads[0]);
    builder.append(quads.clone());
    let all: Vec<ExtractedQuad> = builder.finish();
    assert_eq!(all.len(), 3);
    assert_eq!(all[0], quads[0]);
    assert_eq!(all[1], quads[0]);
    assert_eq!(all[2], quads[1]);
}

#[test]
fn font_store_returns_first_entry_for_handle() {
    let handle = FontHandle { id: 8 };
    let other = FontHandle { id: 9 };
    let mut store = FontStore::new();
    store.insert(handle, test_atlas());
    assert!(store.get(handle).is_some());
    assert_eq!(store.get(handle).unwrap(), &test_atlas());
    assert!(store.get(other).is_none());
}
