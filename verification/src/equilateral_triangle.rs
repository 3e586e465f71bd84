//! An equilateral triangle: a triangle with all sides equal.

use vstd::prelude::*;
use crate::dimension::Dimension;

verus! {

/// An equilateral triangle given by its one side length.
#[derive(Clone, Copy, PartialEq, Eq, Structural, Debug)]
pub struct EquilateralTriangle {
    pub side: Dimension,
}

impl EquilateralTriangle {
    /// An equilateral triangle with sides of one unit.
    pub fn new() -> (t: EquilateralTriangle)
        ensures
            t.side.raw == 10000,
    {
        EquilateralTriangle { side: Dimension { raw: 10000 } }
    }

    /// An equilateral triangle with the given side.
    pub fn with_side(side: Dimension) -> (t: EquilateralTriangle)
        ensures
            t.side == side,
    {
        EquilateralTriangle { side }
    }

    /// The canonical name of this shape.
    pub fn name(&self) -> (r: &'static str)
        ensures
            r@ == "Equilateral Triangle"@,
    {
        "Equilateral Triangle"
    }
}

} // verus!
