//! Two-dimensional extents, as used by windowing surfaces and image
//! resources.

use vstd::prelude::*;

verus! {

/// A width × height pair.
#[derive(Clone, Copy, Debug, PartialEq, Eq, Structural)]
pub struct Extent2D {
    pub width: u32,
    pub height: u32,
}

impl Extent2D {
    pub fn new(width: u32, height: u32) -> (e: Extent2D)
        ensures
            e.width == width,
            e.height == height,
    {
        Extent2D { width, height }
    }
}

} // verus!
