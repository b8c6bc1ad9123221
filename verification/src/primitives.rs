//! Spatial and visual primitives that carry no floating-point data.

use vstd::prelude::*;

verus! {

/// Font weight of a text style.
#[derive(Debug, Clone, Copy, PartialEq, Eq, Hash, Structural)]
pub enum FontWeight {
    Thin,
    Light,
    Regular,
    Medium,
    SemiBold,
    Bold,
    ExtraBold,
}

impl Default for FontWeight {
    /// The regular weight.
    fn default() -> (r: Self)
        ensures
            r == FontWeight::Regular,
    {
        FontWeight::Regular
    }
}

} // verus!
