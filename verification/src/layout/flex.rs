//! Flexbox axis, alignment and wrapping options.

use vstd::prelude::*;

verus! {

/// Main axis direction.
#[derive(Debug, Clone, Copy, PartialEq, Eq, Structural)]
pub enum Align {
    /// Lay out children in a horizontal row.
    Row,
    /// Lay out children in a vertical column.
    Column,
}

/// How to distribute remaining space on the main axis.
#[derive(Debug, Clone, Copy, PartialEq, Eq, Structural)]
pub enum JustifyContent {
    Start,
    End,
    Center,
    SpaceBetween,
    SpaceAround,
    SpaceEvenly,
}

/// Cross-axis alignment.
#[derive(Debug, Clone, Copy, PartialEq, Eq, Structural)]
pub enum CrossAlign {
    Start,
    End,
    Center,
    Stretch,
}

/// Wrapping behaviour.
#[derive(Debug, Clone, Copy, PartialEq, Eq, Structural)]
pub enum FlexWrap {
    NoWrap,
    Wrap,
}

} // verus!
