//! Tallies of the allocations that cross the boundary.
//!
//! Every value handed to the caller owns allocations of three kinds: text
//! buffers, record arrays, and the box of the result itself. A [`Footprint`]
//! says how many of each a value owns; a release function returns a
//! [`Reclaimed`] tally whose view is the footprint of the value it was given.

use vstd::prelude::*;

verus! {

/// The allocations a value owns, by kind.
pub struct Footprint {
    /// Null-terminated text buffers.
    pub texts: nat,
    /// Contiguous record arrays.
    pub arrays: nat,
    /// Boxes of results.
    pub boxes: nat,
}

impl Footprint {
    /// The footprint of a value that owns nothing.
    pub open spec fn nothing() -> Footprint {
        Footprint { texts: 0, arrays: 0, boxes: 0 }
    }
}

/// What one release call gave back to the allocator, by kind.
#[derive(Clone, Copy, Debug, PartialEq, Eq)]
pub struct Reclaimed {
    /// Null-terminated text buffers.
    pub texts: u128,
    /// Contiguous record arrays.
    pub arrays: u8,
    /// Boxes of results.
    pub boxes: u8,
}

impl View for Reclaimed {
    type V = Footprint;

    open spec fn view(&self) -> Footprint {
        Footprint { texts: self.texts as nat, arrays: self.arrays as nat, boxes: self.boxes as nat }
    }
}

impl Reclaimed {
    /// The tally of a release that had nothing to give back.
    pub fn nothing() -> (reclaimed: Reclaimed)
        ensures
            reclaimed@ == Footprint::nothing(),
    {
        Reclaimed { texts: 0, arrays: 0, boxes: 0 }
    }
}

} // verus!
