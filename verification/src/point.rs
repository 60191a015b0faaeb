//! One animated particle.

use vstd::prelude::*;
use crate::sign::Sign;

verus! {

/// The state of one particle: where it stands along the index axis, where the
/// curve puts it along the render axis, and which way it travels.
///
/// `C` is the type of a coordinate. Nothing here computes with coordinates;
/// they are carried from frame to frame as they were given.
#[derive(Debug)]
pub struct Point<C> {
    /// Position along the curve's independent axis.
    pub x_index: C,
    /// Position along the curve's dependent axis: what gets drawn.
    pub x_pos: C,
    /// Direction of travel along the index axis.
    pub direction: Sign,
}

impl<C: Copy> Clone for Point<C> {
    fn clone(&self) -> (p: Self)
        ensures
            p == *self,
    {
        Point { x_index: self.x_index, x_pos: self.x_pos, direction: self.direction }
    }
}

impl<C: Copy> Copy for Point<C> {

}

impl<C> Point<C> {
    /// The point from which every particle sets out: both coordinates at
    /// `origin`, travelling upwards.
    pub open spec fn spec_at_rest(origin: C) -> Point<C> {
        Point { x_index: origin, x_pos: origin, direction: Sign::Plus }
    }

    /// The direction in which a point leaves its place: its own direction,
    /// turned round where its index has reached a bound (see
    /// [`Sign::spec_reflected`]).
    pub open spec fn spec_heading(&self, at_upper: bool, at_lower: bool) -> Sign {
        self.direction.spec_reflected(at_upper, at_lower)
    }
}

impl<C: Copy> Point<C> {
    /// The point from which every particle sets out: both coordinates at
    /// `origin`, which is the caller's zero, travelling upwards.
    pub fn at_rest(origin: C) -> (p: Self)
        ensures
            p == Self::spec_at_rest(origin),
    {
        Point { x_index: origin, x_pos: origin, direction: Sign::Plus }
    }

    /// The direction in which the point leaves its present place. `at_upper`
    /// says that `x_index` is at or above the upper bound of the index axis,
    /// `at_lower` that it is at or below the lower bound; the caller compares.
    pub fn heading(&self, at_upper: bool, at_lower: bool) -> (d: Sign)
        ensures
            d == self.spec_heading(at_upper, at_lower),
            d.spec_value() == 1 || d.spec_value() == -1,
    {
        self.direction.reflected(at_upper, at_lower)
    }
}

} // verus!
