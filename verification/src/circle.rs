//! A 2D circle with a center, a nonnegative radius, and a pairwise collision
//! test.
//!
//! Coordinates and radii are integers in a fixed unit chosen by the caller
//! (for example tenths of a world unit). The collision predicate compares
//! squared distances only, so it is invariant under that choice of scale.

use vstd::prelude::*;

verus! {

/// The one failure of this library: a negative radius was supplied to
/// construction or to the radius setter.
#[derive(Clone, Copy, Debug, PartialEq, Eq)]
pub enum CircleError {
    InvalidRadius,
}

/// A circle given by its center `(x, y)` and its radius `r`.
///
/// The radius is nonnegative at all times: construction and every mutation
/// of the radius reject a negative value, so `wf` holds of every circle a
/// caller can obtain.
#[derive(Clone, Copy, Debug)]
pub struct Circle {
    x: i32,
    y: i32,
    r: i32,
}

impl Circle {
    /// The center's horizontal coordinate, as a mathematical integer.
    pub closed spec fn x(self) -> int {
        self.x as int
    }

    /// The center's vertical coordinate, as a mathematical integer.
    pub closed spec fn y(self) -> int {
        self.y as int
    }

    /// The radius, as a mathematical integer.
    pub closed spec fn radius(self) -> int {
        self.r as int
    }

    /// The circle's invariant: the radius is nonnegative.
    pub open spec fn wf(self) -> bool {
        self.radius() >= 0
    }

    /// The distance-band test: the boundaries of `self` and `other` touch or
    /// overlap exactly when the squared distance `D` between the centers lies
    /// in the band `[(r1 - r2)^2, (r1 + r2)^2]`. Below the band one circle is
    /// strictly inside the other with no boundary contact; above it they are
    /// strictly apart.
    pub open spec fn spec_collides(self, other: Circle) -> bool {
        let dr = self.radius() - other.radius();
        let sr = self.radius() + other.radius();
        let dx = self.x() - other.x();
        let dy = self.y() - other.y();
        dr * dr <= dx * dx + dy * dy && dx * dx + dy * dy <= sr * sr
    }

    /// Constructs a circle with the given center and radius; fails with
    /// `InvalidRadius` exactly when the radius is negative.
    pub fn new(x_pos: i32, y_pos: i32, radius: i32) -> (result: Result<Circle, CircleError>)
        ensures
            radius >= 0 ==> (result matches Ok(c) && c.x() == x_pos && c.y() == y_pos
                && c.radius() == radius),
            radius < 0 ==> result == Err::<Circle, CircleError>(CircleError::InvalidRadius),
    {
        if radius < 0 {
            return Err(CircleError::InvalidRadius);
        }
        Ok(Circle { x: x_pos, y: y_pos, r: radius })
    }

    /// Moves the center; any coordinates are allowed, the radius is kept.
    pub fn set_position(&mut self, x: i32, y: i32)
        ensures
            final(self).x() == x,
            final(self).y() == y,
            final(self).radius() == old(self).radius(),
    {
        self.x = x;
        self.y = y;
    }

    /// Replaces the radius; fails with `InvalidRadius` exactly when the new
    /// radius is negative, and then leaves the circle unchanged.
    pub fn set_radius(&mut self, radius: i32) -> (result: Result<(), CircleError>)
        ensures
            radius >= 0 ==> (result is Ok && final(self).radius() == radius
                && final(self).x() == old(self).x() && final(self).y() == old(self).y()),
            radius < 0 ==> result == Err::<(), CircleError>(CircleError::InvalidRadius)
                && *final(self) == *old(self),
    {
        if radius < 0 {
            return Err(CircleError::InvalidRadius);
        }
        self.r = radius;
        Ok(())
    }

    /// Returns the center as `(x, y)`.
    pub fn get_position(&self) -> (position: (i32, i32))
        ensures
            position.0 == self.x(),
            position.1 == self.y(),
    {
        (self.x, self.y)
    }

    /// Returns the radius.
    pub fn get_radius(&self) -> (radius: i32)
        ensures
            radius == self.radius(),
    {
        self.r
    }

    /// Decides whether the two circles' boundaries touch or overlap, by the
    /// distance-band test of `spec_collides`. The differences and squares are
    /// computed in `i128`, which holds them exactly.
    pub fn check_collision(&self, other: &Circle) -> (collide: bool)
        requires
            self.wf(),
            other.wf(),
        ensures
            collide == self.spec_collides(*other),
    {
        let rad_difference: i128 = self.r as i128 - other.r as i128;
        let rad_sum: i128 = self.r as i128 + other.r as i128;
        let x_difference: i128 = self.x as i128 - other.x as i128;
        let y_difference: i128 = self.y as i128 - other.y as i128;
        proof {
            lemma_square_bounded(rad_difference as int, 0x1_0000_0000);
            lemma_square_bounded(rad_sum as int, 0x1_0000_0000);
            lemma_square_bounded(x_difference as int, 0x1_0000_0000);
            lemma_square_bounded(y_difference as int, 0x1_0000_0000);
        }
        let min_distance: i128 = rad_difference * rad_difference;
        let max_distance: i128 = rad_sum * rad_sum;
        let distance: i128 = x_difference * x_difference + y_difference * y_difference;
        distance >= min_distance && distance <= max_distance
    }
}

/// Collision is symmetric: `a` collides with `b` exactly when `b` collides
/// with `a`.
pub proof fn lemma_collision_symmetric(a: Circle, b: Circle)
    ensures
        a.spec_collides(b) == b.spec_collides(a),
{
    lemma_square_of_difference_symmetric(a.radius(), b.radius());
    lemma_square_of_difference_symmetric(a.x(), b.x());
    lemma_square_of_difference_symmetric(a.y(), b.y());
}

/// Two circles with the same center and the same radius always collide.
pub proof fn lemma_identical_circles_collide(a: Circle, b: Circle)
    requires
        a.x() == b.x(),
        a.y() == b.y(),
        a.radius() == b.radius(),
    ensures
        a.spec_collides(b),
{
    lemma_square_nonnegative(a.radius() + b.radius());
}

/// Externally tangent circles collide: when the centers are exactly the sum
/// of the radii apart, the squared center distance equals `(r1 + r2)^2` and
/// the inclusive upper bound of the distance band is met.
pub proof fn lemma_tangent_circles_collide(a: Circle, b: Circle)
    requires
        a.wf(),
        b.wf(),
        (a.x() - b.x()) * (a.x() - b.x()) + (a.y() - b.y()) * (a.y() - b.y())
            == (a.radius() + b.radius()) * (a.radius() + b.radius()),
    ensures
        a.spec_collides(b),
{
    lemma_difference_square_below_sum_square(a.radius(), b.radius());
}

/// A circle strictly nested in another with no boundary contact does not
/// collide: when the squared center distance lies below `(r1 - r2)^2`, the
/// distance band is missed.
pub proof fn lemma_nested_circles_do_not_collide(a: Circle, b: Circle)
    requires
        (a.x() - b.x()) * (a.x() - b.x()) + (a.y() - b.y()) * (a.y() - b.y())
            < (a.radius() - b.radius()) * (a.radius() - b.radius()),
    ensures
        !a.spec_collides(b),
{
}

/// A square of a bounded value is bounded: for `|a| <= m`, `a * a` lies in
/// `[0, m * m]`.
proof fn lemma_square_bounded(a: int, m: int)
    by (nonlinear_arith)
    requires
        -m <= a <= m,
    ensures
        0 <= a * a <= m * m,
{
}

/// A squared difference does not depend on the order of its operands.
proof fn lemma_square_of_difference_symmetric(p: int, q: int)
    by (nonlinear_arith)
    ensures
        (p - q) * (p - q) == (q - p) * (q - p),
{
}

/// A square is never negative.
proof fn lemma_square_nonnegative(a: int)
    by (nonlinear_arith)
    ensures
        a * a >= 0,
{
}

/// For nonnegative `p` and `q`, the squared difference is at most the squared
/// sum: they differ by `4 * p * q`.
proof fn lemma_difference_square_below_sum_square(p: int, q: int)
    by (nonlinear_arith)
    requires
        p >= 0,
        q >= 0,
    ensures
        (p - q) * (p - q) <= (p + q) * (p + q),
{
}

} // verus!
