//! Style properties attached to tree nodes.
//!
//! A style value is tri-state: inherit the solver's default, hold an explicit
//! value, or be unset (the node contributes nothing for that axis).

use vstd::prelude::*;

verus! {

/// A layout dimension in the solver's vocabulary. Fractional payloads are in
/// thousandths (`crate::UNIT` stands for one).
#[derive(Debug, Clone, Copy, PartialEq, Eq, Structural)]
pub enum Units {
    /// An exact size, in thousandths of a pixel.
    Pixels(i64),
    /// A fraction of the parent's size, in thousandths of a percent point.
    Percentage(i64),
    /// A stretch weight, in thousandths (`crate::UNIT` is weight one).
    Stretch(i64),
    /// No constraint: the solver chooses freely.
    Auto,
}

/// The algorithm a node lays its children out with.
#[derive(Debug, Clone, Copy, PartialEq, Eq, Structural)]
pub enum LayoutType {
    Row,
    Column,
    Grid,
}

/// Whether a node is positioned by its parent or places itself.
#[derive(Debug, Clone, Copy, PartialEq, Eq, Structural)]
pub enum PositionType {
    ParentDirected,
    SelfDirected,
}

/// A tri-state style property.
#[derive(Debug, Clone, Copy, PartialEq, Eq, Structural)]
pub enum StyleProp<T> {
    /// Resolve to the solver's intrinsic default for the axis.
    Default,
    /// Resolve to this explicit value.
    Value(T),
    /// Unset: the node contributes nothing for this axis.
    Unset,
}

/// The style bundle a node carries: one tri-state property per layout axis
/// read by this core.
#[derive(Debug, Clone, Copy, PartialEq, Eq, Structural)]
pub struct Style {
    pub width: StyleProp<Units>,
    pub height: StyleProp<Units>,
    pub left: StyleProp<Units>,
    pub right: StyleProp<Units>,
    pub top: StyleProp<Units>,
    pub bottom: StyleProp<Units>,
    pub layout_type: StyleProp<LayoutType>,
    pub position_type: StyleProp<PositionType>,
}

/// The style of a freshly built node: every property inherits the solver's
/// default.
pub open spec fn default_style() -> Style {
    Style {
        width: StyleProp::Default,
        height: StyleProp::Default,
        left: StyleProp::Default,
        right: StyleProp::Default,
        top: StyleProp::Default,
        bottom: StyleProp::Default,
        layout_type: StyleProp::Default,
        position_type: StyleProp::Default,
    }
}

impl Default for Style {
    fn default() -> (r: Self)
        ensures
            r == default_style(),
    {
        Style {
            width: StyleProp::Default,
            height: StyleProp::Default,
            left: StyleProp::Default,
            right: StyleProp::Default,
            top: StyleProp::Default,
            bottom: StyleProp::Default,
            layout_type: StyleProp::Default,
            position_type: StyleProp::Default,
        }
    }
}

/// How a tri-state property resolves against the solver default `d` for its
/// axis: `Default` yields `d`, an explicit value is passed through verbatim,
/// and `Unset` resolves to nothing.
pub open spec fn resolve_prop<T>(prop: StyleProp<T>, d: T) -> Option<T> {
    match prop {
        StyleProp::Default => Some(d),
        StyleProp::Value(v) => Some(v),
        StyleProp::Unset => None,
    }
}

} // verus!
