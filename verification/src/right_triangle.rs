//! A right triangle given by the two legs; the hypotenuse is derived,
//! not stored.

use vstd::prelude::*;
use crate::dimension::Dimension;

verus! {

/// A right triangle given by its base and height.
#[derive(Clone, Copy, PartialEq, Eq, Structural, Debug)]
pub struct RightTriangle {
    pub base: Dimension,
    pub height: Dimension,
}

impl RightTriangle {
    /// A right triangle with base and height of one unit.
    pub fn new() -> (t: RightTriangle)
        ensures
            t.base.raw == 10000,
            t.height.raw == 10000,
    {
        RightTriangle { base: Dimension { raw: 10000 }, height: Dimension { raw: 10000 } }
    }

    /// A right triangle with the given base and height.
    pub fn with_base_height(base: Dimension, height: Dimension) -> (t: RightTriangle)
        ensures
            t.base == base,
            t.height == height,
    {
        RightTriangle { base, height }
    }

    /// The canonical name of this shape.
    pub fn name(&self) -> (r: &'static str)
        ensures
            r@ == "Right Triangle"@,
    {
        "Right Triangle"
    }
}

} // verus!
