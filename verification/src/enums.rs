//! The small enumerations of the toolkit: positions, sizes, orientations,
//! widget kinds and run states.

use vstd::prelude::*;

use crate::frac::Frac;
use crate::frac::Rat;
use crate::frac::rat_of_int;

verus! {

/// The position of a widget within its parent: one of the nine buckets of
/// the 3x3 grid.
#[derive(Clone, Copy, Debug, PartialEq, Eq, Structural, Hash)]
pub enum Position {
    /// Position the widget at the top left of the parent.
    TopLeft,
    /// Position the widget at the top center of the parent.
    Top,
    /// Position the widget at the top right of the parent.
    TopRight,
    /// Position the widget at the center left of the parent.
    Left,
    /// Position the widget at the center of the parent.
    Center,
    /// Position the widget at the center right of the parent.
    Right,
    /// Position the widget at the bottom left of the parent.
    BottomLeft,
    /// Position the widget at the bottom center of the parent.
    Bottom,
    /// Position the widget at the bottom right of the parent.
    BottomRight,
}

impl Default for Position {
    /// The default position is the center bucket.
    fn default() -> (r: Self)
        ensures
            r == Position::Center,
    {
        Position::Center
    }
}

/// How a widget's box is anchored along one axis of its parent's box:
/// flush against the low edge, centered, or flush against the high edge.
#[derive(Clone, Copy, Debug, PartialEq, Eq, Structural, Hash)]
pub enum Anchor {
    /// Flush against the low end of the axis.
    Low,
    /// Centered along the axis.
    Mid,
    /// Flush against the high end of the axis.
    High,
}

/// The horizontal anchor a position bucket dictates: the left column is
/// flush low, the right column flush high, the middle column centered.
pub open spec fn spec_x_anchor(p: Position) -> Anchor {
    match p {
        Position::TopLeft | Position::Left | Position::BottomLeft => Anchor::Low,
        Position::Top | Position::Center | Position::Bottom => Anchor::Mid,
        Position::TopRight | Position::Right | Position::BottomRight => Anchor::High,
    }
}

/// The vertical anchor a position bucket dictates: the top row is flush
/// low, the bottom row flush high, the middle row centered.
pub open spec fn spec_y_anchor(p: Position) -> Anchor {
    match p {
        Position::TopLeft | Position::Top | Position::TopRight => Anchor::Low,
        Position::Left | Position::Center | Position::Right => Anchor::Mid,
        Position::BottomLeft | Position::Bottom | Position::BottomRight => Anchor::High,
    }
}

/// Executable form of [`spec_x_anchor`].
#[verifier::when_used_as_spec(spec_x_anchor)]
pub fn x_anchor(p: Position) -> (r: Anchor)
    ensures
        r == spec_x_anchor(p),
{
    match p {
        Position::TopLeft | Position::Left | Position::BottomLeft => Anchor::Low,
        Position::Top | Position::Center | Position::Bottom => Anchor::Mid,
        Position::TopRight | Position::Right | Position::BottomRight => Anchor::High,
    }
}

/// Executable form of [`spec_y_anchor`].
#[verifier::when_used_as_spec(spec_y_anchor)]
pub fn y_anchor(p: Position) -> (r: Anchor)
    ensures
        r == spec_y_anchor(p),
{
    match p {
        Position::TopLeft | Position::Top | Position::TopRight => Anchor::Low,
        Position::Left | Position::Center | Position::Right => Anchor::Mid,
        Position::BottomLeft | Position::Bottom | Position::BottomRight => Anchor::High,
    }
}

/// The row of the 3x3 grid a position belongs to; sibling widths are
/// summed and capped per row.
#[derive(Clone, Copy, Debug, PartialEq, Eq, Structural, Hash)]
pub enum Row {
    /// The top row.
    Top,
    /// The middle row.
    Center,
    /// The bottom row.
    Bottom,
}

/// The column of the 3x3 grid a position belongs to; sibling heights are
/// summed and capped per column.
#[derive(Clone, Copy, Debug, PartialEq, Eq, Structural, Hash)]
pub enum Col {
    /// The left column.
    Left,
    /// The middle column.
    Center,
    /// The right column.
    Right,
}

/// The row of a position bucket.
pub open spec fn spec_row_of(p: Position) -> Row {
    match p {
        Position::TopLeft | Position::Top | Position::TopRight => Row::Top,
        Position::Left | Position::Center | Position::Right => Row::Center,
        Position::BottomLeft | Position::Bottom | Position::BottomRight => Row::Bottom,
    }
}

/// The column of a position bucket.
pub open spec fn spec_col_of(p: Position) -> Col {
    match p {
        Position::TopLeft | Position::Left | Position::BottomLeft => Col::Left,
        Position::Top | Position::Center | Position::Bottom => Col::Center,
        Position::TopRight | Position::Right | Position::BottomRight => Col::Right,
    }
}

/// Executable form of [`spec_row_of`].
#[verifier::when_used_as_spec(spec_row_of)]
pub fn row_of(p: Position) -> (r: Row)
    ensures
        r == spec_row_of(p),
{
    match p {
        Position::TopLeft | Position::Top | Position::TopRight => Row::Top,
        Position::Left | Position::Center | Position::Right => Row::Center,
        Position::BottomLeft | Position::Bottom | Position::BottomRight => Row::Bottom,
    }
}

/// Executable form of [`spec_col_of`].
#[verifier::when_used_as_spec(spec_col_of)]
pub fn col_of(p: Position) -> (r: Col)
    ensures
        r == spec_col_of(p),
{
    match p {
        Position::TopLeft | Position::Left | Position::BottomLeft => Col::Left,
        Position::Top | Position::Center | Position::Bottom => Col::Center,
        Position::TopRight | Position::Right | Position::BottomRight => Col::Right,
    }
}

/// The declared size of a widget.
#[derive(Clone, Copy, Debug, PartialEq)]
pub enum Size {
    /// Fill an equal share of whatever percentage of the parent remains
    /// unclaimed in this widget's sibling group.
    Full,
    /// A concrete (width, height) pair, each a percentage of the parent.
    Size(Frac, Frac),
}

impl Default for Size {
    /// The default size fills the remaining parent space.
    fn default() -> (r: Self)
        ensures
            r == Size::Full,
    {
        Size::Full
    }
}

/// The orientation of a toolbar or dock: the screen edge it is attached
/// to.
#[derive(Clone, Copy, Debug, PartialEq, Eq, Structural, Hash)]
pub enum Orientation {
    /// Attach the bar or dock to the top edge.
    Top,
    /// Attach the bar or dock to the left edge.
    Left,
    /// Attach the bar or dock to the right edge.
    Right,
    /// Attach the bar or dock to the bottom edge.
    Bottom,
}

impl Default for Orientation {
    /// The default orientation attaches to the top edge.
    fn default() -> (r: Self)
        ensures
            r == Orientation::Top,
    {
        Orientation::Top
    }
}

/// The thickness of a toolbar or dock, as a percentage of the parent.
#[derive(Clone, Copy, Debug, PartialEq, Eq, Structural, Hash)]
pub enum DockSize {
    /// A small bar or dock: 3.6% of the parent.
    Small,
    /// A normal bar or dock: 5.4% of the parent.
    Normal,
    /// A large bar or dock: 7.2% of the parent.
    Large,
    /// An extra-large bar or dock: 9% of the parent.
    XLarge,
}

/// The exact percentage a dock size denotes.
pub open spec fn spec_dock_size_percent(d: DockSize) -> Rat {
    match d {
        DockSize::Small => Rat { num: 18, den: 5 },
        DockSize::Normal => Rat { num: 27, den: 5 },
        DockSize::Large => Rat { num: 36, den: 5 },
        DockSize::XLarge => rat_of_int(9),
    }
}

impl DockSize {
    /// Convert the dock size to its exact percentage.
    pub fn into_percent(self) -> (r: Frac)
        ensures
            r@ == spec_dock_size_percent(self),
    {
        match self {
            DockSize::Small => Frac::new(18, 5).unwrap(),
            DockSize::Normal => Frac::new(27, 5).unwrap(),
            DockSize::Large => Frac::new(36, 5).unwrap(),
            DockSize::XLarge => Frac::from_int(9),
        }
    }
}

impl Default for DockSize {
    /// The default thickness is `Normal`.
    fn default() -> (r: Self)
        ensures
            r == DockSize::Normal,
    {
        DockSize::Normal
    }
}

/// The run state an application callback reports back to the event loop.
#[derive(Clone, Copy, Debug, PartialEq, Eq, Structural, Hash)]
pub enum Run {
    /// End the application.
    Done,
    /// Redraw the screen because a UI element has changed.
    Redraw,
    /// Keep running with no drawing changes.
    Continue,
}

impl Default for Run {
    /// The default run state keeps the application running.
    fn default() -> (r: Self)
        ensures
            r == Run::Continue,
    {
        Run::Continue
    }
}

/// The different widget kinds in the toolkit.
#[derive(Clone, Copy, Debug, PartialEq, Eq, Structural, Hash)]
pub enum WidgetType {
    /// The button widget.
    Button,
    /// The container widget.
    Container,
    /// The dock widget.
    Dock,
    /// The label widget.
    Label,
    /// The toolbar widget.
    Toolbar,
    /// An undefined widget.
    Unknown,
    /// The window container widget at the root of the tree.
    WindowContainer,
}

impl Default for WidgetType {
    /// The default widget kind is `Unknown`.
    fn default() -> (r: Self)
        ensures
            r == WidgetType::Unknown,
    {
        WidgetType::Unknown
    }
}

} // verus!
