//! The node tree and the adapter that exposes it to the layout solver.
//!
//! Nodes live in an arena and reference their children by stable index, not
//! by pointer: the solver revisits nodes by index repeatedly and the tree is
//! rebuilt wholesale between frames. `NodeIndex` presents one node as a
//! source of per-axis layout inputs with a strict default-resolution policy,
//! so the solver never receives an inapplicable value.

use vstd::prelude::*;
use crate::style::{LayoutType, PositionType, Style, StyleProp, Units, default_style, resolve_prop};
use crate::UNIT;

verus! {

/// A stable position in the arena.
#[derive(Debug, Clone, Copy, Hash, PartialEq, Eq, Structural)]
pub struct Index(pub usize);

impl Default for Index {
    /// The first arena slot.
    fn default() -> (r: Self)
        ensures
            r == (Index(0)),
    {
        Index(0)
    }
}

/// A dense arena: a growable vector of slots addressed by `Index`. A lookup
/// past the end answers nothing rather than failing, so an index may outlive
/// the tree it came from.
pub struct Arena<T> {
    items: Vec<T>,
}

impl<T> View for Arena<T> {
    type V = Seq<T>;

    closed spec fn view(&self) -> Seq<T> {
        self.items@
    }
}

impl<T> Arena<T> {
    /// An empty arena.
    pub fn new() -> (r: Self)
        ensures
            r@ == Seq::<T>::empty(),
    {
        Arena { items: Vec::new() }
    }

    /// Append a value; its index is the previous length.
    pub fn insert(&mut self, value: T) -> (idx: Index)
        requires
            old(self)@.len() < usize::MAX,
        ensures
            final(self)@ == old(self)@.push(value),
            idx == (Index(old(self)@.len() as usize)),
    {
        let idx = Index(self.items.len());
        self.items.push(value);
        idx
    }

    /// Look a slot up; an index past the end answers nothing.
    pub fn get(&self, index: Index) -> (r: Option<&T>)
        ensures
            index.0 < self@.len() ==> (r matches Some(v) && *v == self@[index.0 as int]),
            index.0 >= self@.len() ==> r is None,
    {
        if index.0 < self.items.len() {
            Some(&self.items[index.0])
        } else {
            None
        }
    }

    /// The number of slots.
    pub fn len(&self) -> (n: usize)
        ensures
            n == self@.len(),
    {
        self.items.len()
    }
}

/// A tree element: its children (by arena index), its own identity, its
/// style bundle, and its paint order, in thousandths.
#[derive(Debug, Clone)]
pub struct Node {
    pub children: Vec<Index>,
    pub id: Index,
    pub styles: Style,
    pub z: i64,
}

/// Step-by-step construction of a `Node`.
#[derive(Debug, Clone)]
pub struct NodeBuilder {
    pub children: Vec<Index>,
    pub id: Index,
    pub styles: Style,
}

impl NodeBuilder {
    /// A builder with no children, the default index and the default style.
    pub fn empty() -> (r: Self)
        ensures
            r.children@ == Seq::<Index>::empty(),
            r.id == (Index(0)),
            r.styles == default_style(),
    {
        NodeBuilder { children: Vec::new(), id: Index::default(), styles: Style::default() }
    }

    /// A builder for a given identity and style, with no children yet.
    pub fn new(id: Index, styles: Style) -> (r: Self)
        ensures
            r.children@ == Seq::<Index>::empty(),
            r.id == id,
            r.styles == styles,
    {
        NodeBuilder { children: Vec::new(), id, styles }
    }

    /// Replace the identity.
    pub fn with_id(self, id: Index) -> (r: Self)
        ensures
            r.children@ == self.children@,
            r.id == id,
            r.styles == self.styles,
    {
        let mut r = self;
        r.id = id;
        r
    }

    /// Append children after those already present.
    pub fn with_children(self, children: Vec<Index>) -> (r: Self)
        ensures
            r.children@ == self.children@ + children@,
            r.id == self.id,
            r.styles == self.styles,
    {
        let mut r = self;
        let mut i: usize = 0;
        while i < children.len()
            invariant
                i <= children@.len(),
                r.children@ == self.children@ + children@.take(i as int),
                r.id == self.id,
                r.styles == self.styles,
            decreases children@.len() - i,
        {
            r.children.push(children[i]);
            proof {
                assert(children@.take(i + 1 as int) =~= children@.take(i as int).push(
                    children@[i as int],
                ));
                assert(self.children@ + children@.take(i as int).push(children@[i as int])
                    =~= (self.children@ + children@.take(i as int)).push(children@[i as int]));
            }
            i = i + 1;
        }
        proof {
            assert(children@.take(children@.len() as int) =~= children@);
        }
        r
    }

    /// Replace the style bundle.
    pub fn with_styles(self, styles: Style) -> (r: Self)
        ensures
            r.children@ == self.children@,
            r.id == self.id,
            r.styles == styles,
    {
        let mut r = self;
        r.styles = styles;
        r
    }

    /// Finish: the node carries the builder's parts and paint order zero.
    pub fn build(self) -> (r: Node)
        ensures
            r.children@ == self.children@,
            r.id == self.id,
            r.styles == self.styles,
            r.z == 0,
    {
        Node { children: self.children, id: self.id, styles: self.styles, z: 0 }
    }
}

/// The node a store holds at an index: nothing if the index is past the end
/// or the slot is vacant.
pub open spec fn node_at(store: Seq<Option<Node>>, idx: Index) -> Option<Node> {
    if idx.0 < store.len() {
        store[idx.0 as int]
    } else {
        None
    }
}

/// Resolution of a style-read property: an absent node contributes nothing;
/// otherwise the node's tri-state property resolves against the solver
/// default `d` for the axis.
pub open spec fn resolve_at<T>(
    store: Seq<Option<Node>>,
    idx: Index,
    prop: spec_fn(Style) -> StyleProp<T>,
    d: T,
) -> Option<T> {
    match node_at(store, idx) {
        Some(node) => resolve_prop(prop(node.styles), d),
        None => None,
    }
}

/// What the layout-type accessor yields: the solver's standard column
/// algorithm by default.
pub open spec fn spec_layout_type(store: Seq<Option<Node>>, idx: Index) -> Option<LayoutType> {
    resolve_at(store, idx, |s: Style| s.layout_type, LayoutType::Column)
}

/// What the position-type accessor yields: parent-directed by default.
pub open spec fn spec_position_type(store: Seq<Option<Node>>, idx: Index) -> Option<PositionType> {
    resolve_at(store, idx, |s: Style| s.position_type, PositionType::ParentDirected)
}

/// What the width accessor yields: stretch weight one by default.
pub open spec fn spec_width(store: Seq<Option<Node>>, idx: Index) -> Option<Units> {
    resolve_at(store, idx, |s: Style| s.width, Units::Stretch(UNIT))
}

/// What the height accessor yields: stretch weight one by default.
pub open spec fn spec_height(store: Seq<Option<Node>>, idx: Index) -> Option<Units> {
    resolve_at(store, idx, |s: Style| s.height, Units::Stretch(UNIT))
}

/// What the left-space accessor yields: no constraint by default.
pub open spec fn spec_left(store: Seq<Option<Node>>, idx: Index) -> Option<Units> {
    resolve_at(store, idx, |s: Style| s.left, Units::Auto)
}

/// What the right-space accessor yields: no constraint by default.
pub open spec fn spec_right(store: Seq<Option<Node>>, idx: Index) -> Option<Units> {
    resolve_at(store, idx, |s: Style| s.right, Units::Auto)
}

/// What the top-space accessor yields: no constraint by default.
pub open spec fn spec_top(store: Seq<Option<Node>>, idx: Index) -> Option<Units> {
    resolve_at(store, idx, |s: Style| s.top, Units::Auto)
}

/// What the bottom-space accessor yields: no constraint by default.
pub open spec fn spec_bottom(store: Seq<Option<Node>>, idx: Index) -> Option<Units> {
    resolve_at(store, idx, |s: Style| s.bottom, Units::Auto)
}

/// A node's face towards the layout solver: one side-effect-free accessor
/// per layout property, querying the arena the tree lives in. The
/// min/max/spacing/border/grid accessors are not read from node style and
/// resolve to fixed policy defaults; per-node overrides for those axes are a
/// future extension.
#[derive(Debug, Clone, Copy, Hash, PartialEq, Eq, Structural)]
pub struct NodeIndex(pub Index);

impl NodeIndex {
    pub fn layout_type(&self, store: &Arena<Option<Node>>) -> (r: Option<LayoutType>)
        ensures
            r == spec_layout_type(store@, self.0),
    {
        match store.get(self.0) {
            Some(slot) => match slot {
                Some(node) => match node.styles.layout_type {
                    StyleProp::Default => Some(LayoutType::Column),
                    StyleProp::Value(prop) => Some(prop),
                    _ => None,
                },
                None => None,
            },
            None => None,
        }
    }

    pub fn position_type(&self, store: &Arena<Option<Node>>) -> (r: Option<PositionType>)
        ensures
            r == spec_position_type(store@, self.0),
    {
        match store.get(self.0) {
            Some(slot) => match slot {
                Some(node) => match node.styles.position_type {
                    StyleProp::Default => Some(PositionType::ParentDirected),
                    StyleProp::Value(prop) => Some(prop),
                    _ => None,
                },
                None => None,
            },
            None => None,
        }
    }

    pub fn width(&self, store: &Arena<Option<Node>>) -> (r: Option<Units>)
        ensures
            r == spec_width(store@, self.0),
    {
        match store.get(self.0) {
            Some(slot) => match slot {
                Some(node) => match node.styles.width {
                    StyleProp::Default => Some(Units::Stretch(UNIT)),
                    StyleProp::Value(prop) => Some(prop),
                    _ => None,
                },
                None => None,
            },
            None => None,
        }
    }

    pub fn height(&self, store: &Arena<Option<Node>>) -> (r: Option<Units>)
        ensures
            r == spec_height(store@, self.0),
    {
        match store.get(self.0) {
            Some(slot) => match slot {
                Some(node) => match node.styles.height {
                    StyleProp::Default => Some(Units::Stretch(UNIT)),
                    StyleProp::Value(prop) => Some(prop),
                    _ => None,
                },
                None => None,
            },
            None => None,
        }
    }

    pub fn left(&self, store: &Arena<Option<Node>>) -> (r: Option<Units>)
        ensures
            r == spec_left(store@, self.0),
    {
        match store.get(self.0) {
            Some(slot) => match slot {
                Some(node) => match node.styles.left {
                    StyleProp::Default => Some(Units::Auto),
                    StyleProp::Value(prop) => Some(prop),
                    _ => None,
                },
                None => None,
            },
            None => None,
        }
    }

    pub fn right(&self, store: &Arena<Option<Node>>) -> (r: Option<Units>)
        ensures
            r == spec_right(store@, self.0),
    {
        match store.get(self.0) {
            Some(slot) => match slot {
                Some(node) => match node.styles.right {
                    StyleProp::Default => Some(Units::Auto),
                    StyleProp::Value(prop) => Some(prop),
                    _ => None,
                },
                None => None,
            },
            None => None,
        }
    }

    pub fn top(&self, store: &Arena<Option<Node>>) -> (r: Option<Units>)
        ensures
            r == spec_top(store@, self.0),
    {
        match store.get(self.0) {
            Some(slot) => match slot {
                Some(node) => match node.styles.top {
                    StyleProp::Default => Some(Units::Auto),
                    StyleProp::Value(prop) => Some(prop),
                    _ => None,
                },
                None => None,
            },
            None => None,
        }
    }

    pub fn bottom(&self, store: &Arena<Option<Node>>) -> (r: Option<Units>)
        ensures
            r == spec_bottom(store@, self.0),
    {
        match store.get(self.0) {
            Some(slot) => match slot {
                Some(node) => match node.styles.bottom {
                    StyleProp::Default => Some(Units::Auto),
                    StyleProp::Value(prop) => Some(prop),
                    _ => None,
                },
                None => None,
            },
            None => None,
        }
    }

    pub fn min_width(&self, _store: &Arena<Option<Node>>) -> (r: Option<Units>)
        ensures
            r == Some(Units::Auto),
    {
        Some(Units::Auto)
    }

    pub fn min_height(&self, _store: &Arena<Option<Node>>) -> (r: Option<Units>)
        ensures
            r == Some(Units::Auto),
    {
        Some(Units::Auto)
    }

    pub fn max_width(&self, _store: &Arena<Option<Node>>) -> (r: Option<Units>)
        ensures
            r == Some(Units::Auto),
    {
        Some(Units::Auto)
    }

    pub fn max_height(&self, _store: &Arena<Option<Node>>) -> (r: Option<Units>)
        ensures
            r == Some(Units::Auto),
    {
        Some(Units::Auto)
    }

    pub fn min_left(&self, _store: &Arena<Option<Node>>) -> (r: Option<Units>)
        ensures
            r == Some(Units::Auto),
    {
        Some(Units::Auto)
    }

    pub fn max_left(&self, _store: &Arena<Option<Node>>) -> (r: Option<Units>)
        ensures
            r == Some(Units::Auto),
    {
        Some(Units::Auto)
    }

    pub fn min_right(&self, _store: &Arena<Option<Node>>) -> (r: Option<Units>)
        ensures
            r == Some(Units::Auto),
    {
        Some(Units::Auto)
    }

    pub fn max_right(&self, _store: &Arena<Option<Node>>) -> (r: Option<Units>)
        ensures
            r == Some(Units::Auto),
    {
        Some(Units::Auto)
    }

    pub fn min_top(&self, _store: &Arena<Option<Node>>) -> (r: Option<Units>)
        ensures
            r == Some(Units::Auto),
    {
        Some(Units::Auto)
    }

    pub fn max_top(&self, _store: &Arena<Option<Node>>) -> (r: Option<Units>)
        ensures
            r == Some(Units::Auto),
    {
        Some(Units::Auto)
    }

    pub fn min_bottom(&self, _store: &Arena<Option<Node>>) -> (r: Option<Units>)
        ensures
            r == Some(Units::Auto),
    {
        Some(Units::Auto)
    }

    pub fn max_bottom(&self, _store: &Arena<Option<Node>>) -> (r: Option<Units>)
        ensures
            r == Some(Units::Auto),
    {
        Some(Units::Auto)
    }

    pub fn child_left(&self, _store: &Arena<Option<Node>>) -> (r: Option<Units>)
        ensures
            r == Some(Units::Auto),
    {
        Some(Units::Auto)
    }

    pub fn child_right(&self, _store: &Arena<Option<Node>>) -> (r: Option<Units>)
        ensures
            r == Some(Units::Auto),
    {
        Some(Units::Auto)
    }

    pub fn child_top(&self, _store: &Arena<Option<Node>>) -> (r: Option<Units>)
        ensures
            r == Some(Units::Auto),
    {
        Some(Units::Auto)
    }

    pub fn child_bottom(&self, _store: &Arena<Option<Node>>) -> (r: Option<Units>)
        ensures
            r == Some(Units::Auto),
    {
        Some(Units::Auto)
    }

    pub fn row_between(&self, _store: &Arena<Option<Node>>) -> (r: Option<Units>)
        ensures
            r == Some(Units::Auto),
    {
        Some(Units::Auto)
    }

    pub fn col_between(&self, _store: &Arena<Option<Node>>) -> (r: Option<Units>)
        ensures
            r == Some(Units::Auto),
    {
        Some(Units::Auto)
    }

    pub fn grid_rows(&self, _store: &Arena<Option<Node>>) -> (r: Option<Vec<Units>>)
        ensures
            r matches Some(v) && v@ == Seq::<Units>::empty(),
    {
        Some(Vec::new())
    }

    pub fn grid_cols(&self, _store: &Arena<Option<Node>>) -> (r: Option<Vec<Units>>)
        ensures
            r matches Some(v) && v@ == Seq::<Units>::empty(),
    {
        Some(Vec::new())
    }

    pub fn row_index(&self, _store: &Arena<Option<Node>>) -> (r: Option<usize>)
        ensures
            r == Some(0usize),
    {
        Some(0)
    }

    pub fn col_index(&self, _store: &Arena<Option<Node>>) -> (r: Option<usize>)
        ensures
            r == Some(0usize),
    {
        Some(0)
    }

    pub fn row_span(&self, _store: &Arena<Option<Node>>) -> (r: Option<usize>)
        ensures
            r == Some(1usize),
    {
        Some(1)
    }

    pub fn col_span(&self, _store: &Arena<Option<Node>>) -> (r: Option<usize>)
        ensures
            r == Some(1usize),
    {
        Some(1)
    }

    pub fn border_left(&self, _store: &Arena<Option<Node>>) -> (r: Option<Units>)
        ensures
            r == Some(Units::Auto),
    {
        Some(Units::Auto)
    }

    pub fn border_right(&self, _store: &Arena<Option<Node>>) -> (r: Option<Units>)
        ensures
            r == Some(Units::Auto),
    {
        Some(Units::Auto)
    }

    pub fn border_top(&self, _store: &Arena<Option<Node>>) -> (r: Option<Units>)
        ensures
            r == Some(Units::Auto),
    {
        Some(Units::Auto)
    }

    pub fn border_bottom(&self, _store: &Arena<Option<Node>>) -> (r: Option<Units>)
        ensures
            r == Some(Units::Auto),
    {
        Some(Units::Auto)
    }
}

/// Law: for a node present in the store whose style leaves every property at
/// its default, each style-read accessor resolves to the documented solver
/// default, never to an absent value.
pub proof fn lemma_default_style_resolution(store: Seq<Option<Node>>, idx: Index)
    requires
        node_at(store, idx) matches Some(node) && node.styles == default_style(),
    ensures
        spec_layout_type(store, idx) == Some(LayoutType::Column),
        spec_position_type(store, idx) == Some(PositionType::ParentDirected),
        spec_width(store, idx) == Some(Units::Stretch(UNIT)),
        spec_height(store, idx) == Some(Units::Stretch(UNIT)),
        spec_left(store, idx) == Some(Units::Auto),
        spec_right(store, idx) == Some(Units::Auto),
        spec_top(store, idx) == Some(Units::Auto),
        spec_bottom(store, idx) == Some(Units::Auto),
{
}

} // verus!
