//! Viewport configuration for browser window size

use vstd::prelude::*;

verus! {

/// Browser viewport dimensions
///
/// Controls the browser window size for tests. This is particularly important for visual
/// regression testing where screenshots must be captured at a consistent size.
#[derive(Copy, Clone, Eq, PartialEq, Debug, Structural)]
pub struct Viewport {
    /// The width of the browser window in pixels
    width: u32,
    /// The height of the browser window in pixels
    height: u32,
}

impl Viewport {
    /// The width that this viewport stands for
    pub closed spec fn spec_width(self) -> u32 {
        self.width
    }

    /// The height that this viewport stands for
    pub closed spec fn spec_height(self) -> u32 {
        self.height
    }

    /// Create a new viewport with the given dimensions
    pub fn new(width: u32, height: u32) -> (vp: Self)
        ensures
            vp.spec_width() == width,
            vp.spec_height() == height,
    {
        Self { width, height }
    }

    /// The width of the browser window in pixels
    pub fn width(&self) -> (w: u32)
        ensures
            w == self.spec_width(),
    {
        self.width
    }

    /// The height of the browser window in pixels
    pub fn height(&self) -> (h: u32)
        ensures
            h == self.spec_height(),
    {
        self.height
    }
}

} // verus!
