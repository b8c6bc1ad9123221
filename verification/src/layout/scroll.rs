//! Scroll axes.

use vstd::prelude::*;

verus! {

/// Which axes can scroll.
#[derive(Debug, Clone, Copy, PartialEq, Eq, Structural)]
pub enum ScrollDirection {
    Vertical,
    Horizontal,
    Both,
}

} // verus!
