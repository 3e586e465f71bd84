//! A circle (an ellipse with the same major and minor axis).

use vstd::prelude::*;
use crate::dimension::Dimension;

verus! {

/// A circle given by its radius.
#[derive(Clone, Copy, PartialEq, Eq, Structural, Debug)]
pub struct Circle {
    pub radius: Dimension,
}

impl Circle {
    /// A circle with the default radius of one unit.
    pub fn new() -> (c: Circle)
        ensures
            c.radius.raw == 10000,
    {
        Circle { radius: Dimension { raw: 10000 } }
    }

    /// A circle with the given radius.
    pub fn with_radius(r: Dimension) -> (c: Circle)
        ensures
            c.radius == r,
    {
        Circle { radius: r }
    }

    /// Twice the radius.
    pub fn diameter(&self) -> (d: Dimension)
        requires
            i64::MIN <= 2 * (self.radius.raw as int) <= i64::MAX,
        ensures
            d.raw == 2 * self.radius.raw,
    {
        Dimension { raw: 2 * self.radius.raw }
    }

    /// The canonical name of this shape.
    pub fn name(&self) -> (r: &'static str)
        ensures
            r@ == "Circle"@,
    {
        "Circle"
    }
}

} // verus!
