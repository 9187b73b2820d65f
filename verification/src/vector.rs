//! Vector arithmetic on points, computed by `nalgebra`.

use vstd::prelude::*;
use crate::point::Point;

verus! {

/// Integer division that rounds toward zero, for a positive divisor.
pub open spec fn quotient(a: int, d: int) -> int
    recommends
        d > 0,
{
    if a >= 0 {
        a / d
    } else {
        -((-a) / d)
    }
}

/// A vector divided component by component by a positive scalar.
pub open spec fn scaled_down(v: Point, d: int) -> Point
    recommends
        d > 0,
{
    Point { x: quotient(v.x as int, d) as i16, y: quotient(v.y as int, d) as i16 }
}

/// Both products of the dot product, and their sum, fit in an `i16`.
pub open spec fn dot_fits(a: Point, b: Point) -> bool {
    &&& i16::MIN <= a.x * b.x <= i16::MAX
    &&& i16::MIN <= a.y * b.y <= i16::MAX
    &&& i16::MIN <= a.dot(b) <= i16::MAX
}

/// Calls `nalgebra::Matrix::dot` on two 2-vectors of `i16`. Trusted: for a
/// 2-vector nalgebra multiplies the first components, then the second ones,
/// and adds the two products, with the plain `i16` operators; the contract
/// admits only inputs on which none of the three overflows.
#[verifier::external_body]
pub(crate) fn vector_dot(a: &Point, b: &Point) -> (r: i16)
    requires
        dot_fits(*a, *b),
    ensures
        r == a.dot(*b),
{
    nalgebra::Vector2::new(a.x, a.y).dot(&nalgebra::Vector2::new(b.x, b.y))
}

/// Calls nalgebra's division of a matrix by a scalar on a 2-vector of
/// `i16`. Trusted: nalgebra divides each component by the scalar with the
/// plain `i16` operator, which rounds toward zero; the contract admits only
/// a positive divisor, for which that operator cannot fail.
#[verifier::external_body]
pub(crate) fn vector_div(v: &Point, d: i16) -> (r: Point)
    requires
        d > 0,
    ensures
        r == scaled_down(*v, d as int),
{
    let q = nalgebra::Vector2::new(v.x, v.y) / d;
    Point { x: q.x, y: q.y }
}

} // verus!
