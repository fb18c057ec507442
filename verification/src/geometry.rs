//! Sizes in the two coordinate spaces of the viewer: logical units of the
//! user interface and physical pixels of a framebuffer.

use vstd::prelude::*;

verus! {

/// The smallest extent a GPU attachment or a presentation surface may have.
pub open spec fn at_least_one(extent: u32) -> u32 {
    if extent == 0 {
        1
    } else {
        extent
    }
}

/// Clamps one extent to at least one pixel.
pub fn clamp_extent(extent: u32) -> (clamped: u32)
    ensures
        clamped == at_least_one(extent),
{
    if extent == 0 {
        1
    } else {
        extent
    }
}

/// A size in physical pixels.
#[derive(Clone, Copy, Debug, PartialEq, Eq, Structural)]
pub struct PhysicalSize {
    pub width: u32,
    pub height: u32,
}

impl PhysicalSize {
    /// Neither extent is zero, so the size can back a GPU attachment.
    pub open spec fn is_drawable(self) -> bool {
        self.width >= 1 && self.height >= 1
    }

    /// The size with each extent raised to at least one pixel.
    pub open spec fn clamp(self) -> PhysicalSize {
        PhysicalSize { width: at_least_one(self.width), height: at_least_one(self.height) }
    }

    pub fn new(width: u32, height: u32) -> (size: PhysicalSize)
        ensures
            size.width == width,
            size.height == height,
    {
        PhysicalSize { width, height }
    }

    /// Raises each extent to at least one pixel and leaves drawable sizes as
    /// they are.
    pub fn clamped(self) -> (size: PhysicalSize)
        ensures
            size == self.clamp(),
            size.is_drawable(),
            self.is_drawable() ==> size == self,
    {
        PhysicalSize { width: clamp_extent(self.width), height: clamp_extent(self.height) }
    }
}

/// A size in logical units of the user interface, in whole units.
#[derive(Clone, Copy, Debug, PartialEq, Eq, Structural)]
pub struct LogicalSize {
    pub width: u32,
    pub height: u32,
}

impl LogicalSize {
    pub fn new(width: u32, height: u32) -> (size: LogicalSize)
        ensures
            size.width == width,
            size.height == height,
    {
        LogicalSize { width, height }
    }
}

} // verus!
