//! Sizes in pixels.
use vstd::prelude::*;

verus! {

/// A width and a height, in pixels.
#[derive(Clone, Copy, Debug, PartialEq, Eq, Structural)]
pub struct Size {
    pub width: u32,
    pub height: u32,
}

impl Size {
    /// Neither dimension is zero.
    pub open spec fn nonzero(self) -> bool {
        self.width > 0 && self.height > 0
    }

    /// The number of pixels of a buffer of this size.
    pub open spec fn area(self) -> int {
        self.width * self.height
    }

    /// Whether neither dimension is zero.
    pub fn is_nonzero(&self) -> (answer: bool)
        ensures
            answer == self.nonzero(),
    {
        self.width > 0 && self.height > 0
    }

    /// The number of pixels of a buffer of this size. It always fits.
    pub fn pixel_count(&self) -> (count: u64)
        ensures
            count == self.area(),
    {
        let width: u64 = self.width as u64;
        let height: u64 = self.height as u64;
        assert(width * height <= 0xffff_ffff * 0xffff_ffff) by (nonlinear_arith)
            requires
                width <= 0xffff_ffff,
                height <= 0xffff_ffff,
        ;
        width * height
    }
}

} // verus!
