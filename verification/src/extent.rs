//! Pixel dimensions of a window or of a presentable surface.

use vstd::prelude::*;

verus! {

/// A width and a height in physical pixels.
#[derive(Clone, Copy, Debug, PartialEq, Eq, Structural)]
pub struct Extent {
    pub width: u32,
    pub height: u32,
}

impl Extent {
    /// A surface can be configured with these dimensions: neither is zero.
    pub open spec fn drawable(self) -> bool {
        self.width > 0 && self.height > 0
    }

    pub fn new(width: u32, height: u32) -> (extent: Extent)
        ensures
            extent == (Extent { width, height }),
    {
        Extent { width, height }
    }

    pub fn is_drawable(&self) -> (yes: bool)
        ensures
            yes == self.drawable(),
    {
        self.width > 0 && self.height > 0
    }
}

} // verus!
