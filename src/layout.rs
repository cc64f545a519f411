use vstd::prelude::*;
use crate::units::{Number, StyleUnit};

verus! {

/// Cross-axis alignment of flex items and lines.
#[derive(Clone, Copy, Debug, PartialEq, Eq, Structural)]
pub enum Align {
    Auto,
    FlexStart,
    Center,
    FlexEnd,
    Stretch,
    Baseline,
    SpaceBetween,
    SpaceAround,
}

/// Whether a node takes part in layout.
#[derive(Clone, Copy, Debug, PartialEq, Eq, Structural)]
pub enum Display {
    Flex,
    NoDisplay,
}

/// Main axis of a flex container.
#[derive(Clone, Copy, Debug, PartialEq, Eq, Structural)]
pub enum FlexDirection {
    Column,
    ColumnReverse,
    Row,
    RowReverse,
}

/// Main-axis distribution of free space.
#[derive(Clone, Copy, Debug, PartialEq, Eq, Structural)]
pub enum Justify {
    FlexStart,
    Center,
    FlexEnd,
    SpaceBetween,
    SpaceAround,
    SpaceEvenly,
}

/// Handling of content that does not fit its box.
#[derive(Clone, Copy, Debug, PartialEq, Eq, Structural)]
pub enum Overflow {
    Visible,
    Hidden,
    Scroll,
}

/// Positioning scheme of a node.
#[derive(Clone, Copy, Debug, PartialEq, Eq, Structural)]
pub enum PositionType {
    Relative,
    Absolute,
}

/// Line wrapping of a flex container.
#[derive(Clone, Copy, Debug, PartialEq, Eq, Structural)]
pub enum Wrap {
    NoWrap,
    Wrap,
    WrapReverse,
}

/// One layout (box model and flexbox) property with its value, in the
/// vocabulary of the layout engine. The library carries these unchanged,
/// except that the four per-side border widths feed the computed style.
#[derive(Clone, Copy, Debug, PartialEq, Eq, Structural)]
pub enum FlexStyle {
    AlignContent(Align),
    AlignItems(Align),
    AlignSelf(Align),
    AspectRatio(Number),
    BorderBottom(Number),
    BorderEnd(Number),
    BorderLeft(Number),
    BorderRight(Number),
    BorderStart(Number),
    BorderTop(Number),
    Border(Number),
    Bottom(StyleUnit),
    Display(Display),
    End(StyleUnit),
    Flex(Number),
    FlexBasis(StyleUnit),
    FlexDirection(FlexDirection),
    FlexGrow(Number),
    FlexShrink(Number),
    FlexWrap(Wrap),
    Height(StyleUnit),
    JustifyContent(Justify),
    Left(StyleUnit),
    Margin(StyleUnit),
    MarginBottom(StyleUnit),
    MarginEnd(StyleUnit),
    MarginHorizontal(StyleUnit),
    MarginLeft(StyleUnit),
    MarginRight(StyleUnit),
    MarginStart(StyleUnit),
    MarginTop(StyleUnit),
    MarginVertical(StyleUnit),
    MaxHeight(StyleUnit),
    MaxWidth(StyleUnit),
    MinHeight(StyleUnit),
    MinWidth(StyleUnit),
    Overflow(Overflow),
    Padding(StyleUnit),
    PaddingBottom(StyleUnit),
    PaddingEnd(StyleUnit),
    PaddingHorizontal(StyleUnit),
    PaddingLeft(StyleUnit),
    PaddingRight(StyleUnit),
    PaddingStart(StyleUnit),
    PaddingTop(StyleUnit),
    PaddingVertical(StyleUnit),
    Position(PositionType),
    Right(StyleUnit),
    Start(StyleUnit),
    Top(StyleUnit),
    Width(StyleUnit),
}

} // verus!
