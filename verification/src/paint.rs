//! Painting data that carries no floating-point values.

use vstd::prelude::*;

verus! {

/// Image handle for texture-backed drawing.
#[derive(Debug, Clone, Copy, PartialEq, Eq, Structural)]
pub struct ImageHandle {
    /// Unique image identifier.
    pub id: u64,
    /// Image dimensions.
    pub width: u32,
    pub height: u32,
}

impl ImageHandle {
    pub fn new(id: u64, width: u32, height: u32) -> (r: Self)
        ensures
            r.id == id,
            r.width == width,
            r.height == height,
    {
        ImageHandle { id, width, height }
    }
}

/// A no-op painter that discards all operations.
///
/// Used in headless mode (agent protocol, tests) where no visual output
/// is needed but widgets still run their logic and register ontology.
pub struct NullPainter;

} // verus!
