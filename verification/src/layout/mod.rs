//! Layout enumerations and grid placement.

pub mod flex;
pub mod grid;
pub mod scroll;

pub use flex::{Align, CrossAlign, FlexWrap, JustifyContent};
pub use grid::{grid_placements, GridCell, GridItem, GridSpan};
pub use scroll::ScrollDirection;
