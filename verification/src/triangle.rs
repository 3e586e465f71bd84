//! A general triangle with three sides.

use vstd::prelude::*;
use crate::dimension::Dimension;

verus! {

/// A triangle given by its three side lengths.  No triangle inequality is
/// enforced: callers are responsible for physically meaningful dimensions.
#[derive(Clone, Copy, PartialEq, Eq, Structural, Debug)]
pub struct Triangle {
    pub side_a: Dimension,
    pub side_b: Dimension,
    pub side_c: Dimension,
}

impl Triangle {
    /// A triangle with all three sides of one unit.
    pub fn new() -> (t: Triangle)
        ensures
            t.side_a.raw == 10000,
            t.side_b.raw == 10000,
            t.side_c.raw == 10000,
    {
        Triangle {
            side_a: Dimension { raw: 10000 },
            side_b: Dimension { raw: 10000 },
            side_c: Dimension { raw: 10000 },
        }
    }

    /// A triangle with the given sides.
    pub fn with_sides(a: Dimension, b: Dimension, c: Dimension) -> (t: Triangle)
        ensures
            t.side_a == a,
            t.side_b == b,
            t.side_c == c,
    {
        Triangle { side_a: a, side_b: b, side_c: c }
    }

    /// The canonical name of this shape.
    pub fn name(&self) -> (r: &'static str)
        ensures
            r@ == "Triangle"@,
    {
        "Triangle"
    }
}

} // verus!
