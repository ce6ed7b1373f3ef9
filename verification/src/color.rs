//! Colour values.

use vstd::prelude::*;

verus! {

/// An opaque sRGB colour with one byte per channel.
#[derive(Clone, Copy, Debug, PartialEq, Eq, Structural)]
pub struct RGB {
    pub r: u8,
    pub g: u8,
    pub b: u8,
}

impl RGB {
    /// The colour with the given channel values.
    pub fn new(r: u8, g: u8, b: u8) -> (color: RGB)
        ensures
            color == (RGB { r, g, b }),
    {
        RGB { r, g, b }
    }
}

} // verus!
