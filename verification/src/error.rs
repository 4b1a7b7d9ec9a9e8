//! The errors this toolkit can report.

use vstd::prelude::*;

verus! {

/// One of the six sibling percentage groups: widths are capped per row
/// (top / center / bottom), heights per column (left / center / right).
#[derive(Clone, Copy, Debug, PartialEq, Eq, Structural)]
pub enum AxisGroup {
    /// Widths of siblings in the top row.
    TopWidth,
    /// Widths of siblings in the center row.
    CenterWidth,
    /// Widths of siblings in the bottom row.
    BottomWidth,
    /// Heights of siblings in the left column.
    LeftHeight,
    /// Heights of siblings in the center column.
    CenterHeight,
    /// Heights of siblings in the right column.
    RightHeight,
}

/// Everything that can go wrong while building or laying out a widget tree.
#[derive(Clone, Copy, Debug, PartialEq, Eq, Structural)]
pub enum Error {
    /// A hex color string is malformed.
    ColorFormat,
    /// The declared percentages of one sibling group add up to more than
    /// 100.
    LayoutOverflow(AxisGroup),
    /// A `parent_id` does not resolve to any widget in the tree.
    DanglingParent,
    /// A `Full` size reached the geometry kernel without prior
    /// normalization.
    UnresolvedSize,
    /// Following parent links never reached the root: the tree contains a
    /// parent cycle.
    CyclicHierarchy,
    /// An exact-arithmetic intermediate left the machine representation's
    /// bounds.
    NumericRange,
    /// A label's text size must be greater than 0 and at most 100.
    TextSizeRange,
    /// A widget with this id is already in the tree; ids are unique.
    DuplicateId,
}

impl Error {
    /// A short human-readable description.
    pub fn message(&self) -> &'static str {
        match self {
            Error::ColorFormat => "the hex color must be #RRGGBB or #RRGGBBAA",
            Error::LayoutOverflow(group) => match group {
                AxisGroup::TopWidth => "the top width exceeds the maximum 100%",
                AxisGroup::CenterWidth => "the center width exceeds the maximum 100%",
                AxisGroup::BottomWidth => "the bottom width exceeds the maximum 100%",
                AxisGroup::LeftHeight => "the left height exceeds the maximum 100%",
                AxisGroup::CenterHeight => "the center height exceeds the maximum 100%",
                AxisGroup::RightHeight => "the right height exceeds the maximum 100%",
            },
            Error::DanglingParent => "attempted to use an id that does not exist",
            Error::UnresolvedSize => "a Full size was not normalized before drawing",
            Error::CyclicHierarchy => "the parent links contain a cycle",
            Error::NumericRange => "an exact layout computation left the machine bounds",
            Error::TextSizeRange => "the text size must be greater than 0 and at most 100",
            Error::DuplicateId => "a widget with this id already exists",
        }
    }
}

} // verus!
