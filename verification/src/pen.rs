//! The pen: a pixel size that is positive at all times.

use vstd::prelude::*;

verus! {

/// The pixel size a pen is given in place of one that is not positive.
pub const MIN_PIXEL_SIZE: i32 = 1;

/// The pixel size of a fresh pen.
pub const INITIAL_PIXEL_SIZE: i32 = 10;

/// `size` where it is positive, and the minimum where it is not.
pub open spec fn positive(size: i32) -> i32 {
    if size > 0 {
        size
    } else {
        MIN_PIXEL_SIZE
    }
}

/// A pen. Its pixel size counts whole UI units and is always positive.
pub struct Pen {
    pixel_size: i32,
}

impl View for Pen {
    type V = i32;

    closed spec fn view(&self) -> i32 {
        self.pixel_size
    }
}

impl Pen {
    /// What holds of every pen: its pixel size is positive.
    #[verifier::type_invariant]
    pub open spec fn is_positive(&self) -> bool {
        self@ > 0
    }

    /// A pen of the initial pixel size.
    pub fn new() -> (pen: Pen)
        ensures
            pen@ == INITIAL_PIXEL_SIZE,
    {
        Pen { pixel_size: INITIAL_PIXEL_SIZE }
    }

    /// The pixel size.
    pub fn pixel_size(&self) -> (pixel_size: i32)
        ensures
            pixel_size == self@,
            pixel_size > 0,
    {
        proof {
            use_type_invariant(self);
        }
        self.pixel_size
    }

    /// Gives the pen the pixel size `size` if that is positive, and the
    /// minimum if it is not.
    pub fn set(&mut self, size: i32)
        ensures
            final(self)@ == positive(size),
            final(self)@ > 0,
    {
        if size <= 0 {
            self.pixel_size = MIN_PIXEL_SIZE;
        } else {
            self.pixel_size = size;
        }
    }
}

} // verus!
