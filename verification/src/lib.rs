use vstd::prelude::*;

verus! {

/// A rectangle described by its width and height in whole units.
///
/// There is no invariant beyond the non-negativity that the unsigned
/// type already gives: zero sides are allowed and yield a degenerate
/// rectangle of area zero.
#[derive(Debug, Clone, Copy, PartialEq, Eq, Structural)]
pub struct Rectangle {
    pub width: u32,
    pub height: u32,
}

impl Rectangle {
    /// What the area of a rectangle is, as an unbounded integer.
    pub open spec fn area_spec(self) -> int {
        self.width * self.height
    }

    /// What it means for one rectangle to hold another: each side of
    /// `self` meets or exceeds the corresponding side of `other`.
    /// The comparison is per axis; no rotation is considered.
    pub open spec fn can_hold_spec(self, other: Rectangle) -> bool {
        self.width >= other.width && self.height >= other.height
    }

    /// The area of the rectangle, exactly `width * height`.
    ///
    /// The product must fit in `u32`; the caller answers for that.
    pub fn area(&self) -> (a: u32)
        requires
            self.area_spec() <= u32::MAX,
        ensures
            a == self.area_spec(),
    {
        self.width * self.height
    }

    /// Whether `self` can hold `other`, true exactly when both the
    /// width and the height of `self` meet or exceed those of `other`.
    pub fn can_hold(&self, other_rectangle: &Rectangle) -> (r: bool)
        ensures
            r == self.can_hold_spec(*other_rectangle),
    {
        self.width >= other_rectangle.width && self.height >= other_rectangle.height
    }

    /// A square: a rectangle with both sides equal to `dimension`.
    pub fn square(dimension: u32) -> (r: Rectangle)
        ensures
            r.width == dimension,
            r.height == dimension,
    {
        Rectangle { width: dimension, height: dimension }
    }
}

/// Containment is reflexive: every rectangle can hold itself.
pub proof fn lemma_can_hold_reflexive(r: Rectangle)
    ensures
        r.can_hold_spec(r),
{
}

/// Containment is antisymmetric: two rectangles that can each hold
/// the other have the same width and the same height.
pub proof fn lemma_can_hold_antisymmetric(a: Rectangle, b: Rectangle)
    requires
        a.can_hold_spec(b),
        b.can_hold_spec(a),
    ensures
        a.width == b.width,
        a.height == b.height,
{
}

/// A rectangle with both sides equal to `n` has area `n * n`.
pub proof fn lemma_square_area(r: Rectangle, n: u32)
    requires
        r.width == n,
        r.height == n,
    ensures
        r.area_spec() == n * n,
{
}

} // verus!
