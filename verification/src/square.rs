//! A square.

use vstd::prelude::*;
use crate::dimension::Dimension;

verus! {

/// A square given by the length of one side.
#[derive(Clone, Copy, PartialEq, Eq, Structural, Debug)]
pub struct Square {
    pub side: Dimension,
}

impl Square {
    /// A square with the default side of one unit.
    pub fn new() -> (s: Square)
        ensures
            s.side.raw == 10000,
    {
        Square { side: Dimension { raw: 10000 } }
    }

    /// A square with the given side.
    pub fn with_side(side: Dimension) -> (s: Square)
        ensures
            s.side == side,
    {
        Square { side }
    }

    /// The canonical name of this shape.
    pub fn name(&self) -> (r: &'static str)
        ensures
            r@ == "Square"@,
    {
        "Square"
    }
}

} // verus!
