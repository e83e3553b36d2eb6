use kayak_core::node::{Arena, Index, Node, NodeBuilder, NodeIndex};
use kayak_core::style::{LayoutType, PositionType, Style, StyleProp, Units};
use kayak_core::UNIT;

fn arena_with(styles: Style) -> (Arena<Option<Node>>, NodeIndex) {
    let mut arena: Arena<Option<Node>> = Arena::new();
    let idx = arena.insert(Some(NodeBuilder::new(Index(0), styles).build()));
    (arena, NodeIndex(idx))
}

#[test]
fn default_style_resolves_to_solver_defaults() {
    let (arena, node) = arena_with(Style::default());
    assert_eq!(node.layout_type(&arena), Some(LayoutType::Column));
    assert_eq!(node.position_type(&arena), Some(PositionType::ParentDirected));
    assert_eq!(node.width(&arena), Some(Units::Stretch(UNIT)));
    assert_eq!(node.height(&arena), Some(Units::Stretch(UNIT)));
    assert_eq!(node.left(&arena), Some(Units::Auto));
    assert_eq!(node.right(&arena), Some(Units::Auto));
    assert_eq!(node.top(&arena), Some(Units::Auto));
    assert_eq!(node.bottom(&arena), Some(Units::Auto));
}

#[test]
fn hard_defaulted_accessors_never_absent() {
    let (arena, node) = arena_with(Style::default());
    assert_eq!(node.min_width(&arena), Some(Units::Auto));
    assert_eq!(node.min_height(&arena), Some(Units::Auto));
    assert_eq!(node.max_width(&arena), Some(Units::Auto));
    assert_eq!(node.max_height(&arena), Some(Units::Auto));
    assert_eq!(node.min_left(&arena), Some(Units::Auto));
    assert_eq!(node.max_left(&arena), Some(Units::Auto));
    assert_eq!(node.min_right(&arena), Some(Units::Auto));
    assert_eq!(node.max_right(&arena), Some(Units::Auto));
    assert_eq!(node.min_top(&arena), Some(Units::Auto));
    assert_eq!(node.max_top(&arena), Some(Units::Auto));
    assert_eq!(node.min_bottom(&arena), Some(Units::Auto));
    assert_eq!(node.max_bottom(&arena), Some(Units::Auto));
    assert_eq!(node.child_left(&arena), Some(Units::Auto));
    assert_eq!(node.child_right(&arena), Some(Units::Auto));
    assert_eq!(node.child_top(&arena), Some(Units::Auto));
    assert_eq!(node.child_bottom(&arena), Some(Units::Auto));
    assert_eq!(node.row_between(&arena), Some(Units::Auto));
    assert_eq!(node.col_between(&arena), Some(Units::Auto));
    assert_eq!(node.grid_rows(&arena), Some(vec![]));
    assert_eq!(node.grid_cols(&arena), Some(vec![]));
    assert_eq!(node.row_index(&arena), Some(0));
    assert_eq!(node.col_index(&arena), Some(0));
    assert_eq!(node.row_span(&arena), Some(1));
    assert_eq!(node.col_span(&arena), Some(1));
    assert_eq!(node.border_left(&arena), Some(Units::Auto));
    assert_eq!(node.border_right(&arena), Some(Units::Auto));
    assert_eq!(node.border_top(&arena), Some(Units::Auto));
    assert_eq!(node.border_bottom(&arena), Some(Units::Auto));
}

#[test]
fn hard_defaulted_accessors_ignore_missing_node() {
    let arena: Arena<Option<Node>> = Arena::new();
    let node = NodeIndex(Index(7));
    assert_eq!(node.min_width(&arena), Some(Units::Auto));
    assert_eq!(node.border_bottom(&arena), Some(Units::Auto));
    assert_eq!(node.row_span(&arena), Some(1));
}

#[test]
fn explicit_value_passes_through() {
    let styles = Style {
        width: StyleProp::Value(Units::Pixels(5000)),
        height: StyleProp::Value(Units::Percentage(50_000)),
        left: StyleProp::Value(Units::Pixels(250)),
        layout_type: StyleProp::Value(LayoutType::Row),
        position_type: StyleProp::Value(PositionType::SelfDirected),
        ..Style::default()
    };
    let (arena, node) = arena_with(styles);
    assert_eq!(node.width(&arena), Some(Units::Pixels(5000)));
    assert_eq!(node.height(&arena), Some(Units::Percentage(50_000)));
    assert_eq!(node.left(&arena), Some(Units::Pixels(250)));
    assert_eq!(node.layout_type(&arena), Some(LayoutType::Row));
    assert_eq!(node.position_type(&arena), Some(PositionType::SelfDirected));
}

#[test]
fn unset_style_resolves_absent() {
    let styles = Style { width: StyleProp::Unset, layout_type: StyleProp::Unset, ..Style::default() };
    let (arena, node) = arena_with(styles);
    assert_eq!(node.width(&arena), None);
    assert_eq!(node.layout_type(&arena), None);
    assert_eq!(node.height(&arena), Some(Units::Stretch(UNIT)));
}

#[test]
fn missing_or_vacant_node_resolves_absent() {
    let mut arena: Arena<Option<Node>> = Arena::new();
    let vacant = arena.insert(None);
    let missing = NodeIndex(Index(9));
    assert_eq!(missing.width(&arena), None);
    assert_eq!(missing.layout_type(&arena), None);
    assert_eq!(NodeIndex(vacant).width(&arena), None);
    assert_eq!(NodeIndex(vacant).bottom(&arena), None);
}

#[test]
fn builder_accumulates_parts() {
    let empty = NodeBuilder::empty();
    assert_eq!(empty.children, vec![]);
    assert_eq!(empty.id, Index(0));
    assert_eq!(empty.styles, Style::default());

    let built = NodeBuilder::new(Index(3), Style::default())
        .with_id(Index(4))
        .with_children(vec![Index(10), Index(11)])
        .with_children(vec![Index(12)])
        .with_styles(Style { width: StyleProp::Unset, ..Style::default() })
        .build();
    assert_eq!(built.id, Index(4));
    assert_eq!(built.children, vec![Index(10), Index(11), Index(12)]);
    assert_eq!(built.styles.width, StyleProp::Unset);
    assert_eq!(built.z, 0);
}
