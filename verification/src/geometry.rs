//! Rectangles, points and the copy subregion handed to the GPU.

use vstd::prelude::*;

verus! {

/// A rectangle in signed screen coordinates, as the OS reports window
/// and monitor bounds.
#[derive(Clone, Copy, Debug, PartialEq, Eq, Structural)]
pub struct Rect {
    pub left: i32,
    pub top: i32,
    pub right: i32,
    pub bottom: i32,
}

/// A point in signed screen coordinates.
#[derive(Clone, Copy, Debug, PartialEq, Eq, Structural)]
pub struct Point {
    pub x: i32,
    pub y: i32,
}

impl Rect {
    /// A rectangle is well formed when its sides do not cross.
    pub open spec fn wf(self) -> bool {
        self.left <= self.right && self.top <= self.bottom
    }

    pub open spec fn spec_width(self) -> int {
        self.right - self.left
    }

    pub open spec fn spec_height(self) -> int {
        self.bottom - self.top
    }
}

/// The three-dimensional box that selects which subregion of a source
/// texture is copied into the staging texture. Depth is always the
/// single slice `front..back == 0..1`.
#[derive(Clone, Copy, Debug, PartialEq, Eq, Structural)]
pub struct CaptureBox {
    pub left: u32,
    pub top: u32,
    pub right: u32,
    pub bottom: u32,
    pub front: u32,
    pub back: u32,
}

impl CaptureBox {
    /// A capture box is well formed when its sides do not cross and it
    /// selects exactly the single depth slice.
    pub open spec fn wf(self) -> bool {
        self.left <= self.right && self.top <= self.bottom && self.front == 0 && self.back == 1
    }

    pub open spec fn spec_width(self) -> int {
        self.right - self.left
    }

    pub open spec fn spec_height(self) -> int {
        self.bottom - self.top
    }

    /// Width of the selected subregion, in pixels.
    pub fn width(&self) -> (w: u32)
        requires
            self.left <= self.right,
        ensures
            w == self.spec_width(),
    {
        self.right - self.left
    }

    /// Height of the selected subregion, in pixels.
    pub fn height(&self) -> (h: u32)
        requires
            self.top <= self.bottom,
        ensures
            h == self.spec_height(),
    {
        self.bottom - self.top
    }
}

} // verus!
