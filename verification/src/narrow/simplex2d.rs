//! The simplex of the distance algorithm in the plane.
//!
//! The simplex holds up to three support points, the newest last. After a
//! point was added, the simplex is cut down to the feature that is closest
//! to the origin, and the search goes on in the direction from that feature
//! to the origin.
use vstd::prelude::*;
use crate::narrow::epa2d::Polytope;
use crate::narrow::support::SupportPoint;
use crate::scalar::{Additive, Scalar};
use crate::vector::{triple_product, triple_product_spec, Vector2, VectorSpace};

verus! {

/// Whether both components of the vector rank with zero.
pub open spec fn is_zero_spec<S: Scalar>(v: Vector2<S>) -> bool {
    v.x.rank() == S::zero_spec().rank() && v.y.rank() == S::zero_spec().rank()
}

pub fn is_zero<S: Scalar>(v: Vector2<S>) -> (r: bool)
    ensures
        r == is_zero_spec(v),
{
    let zero = S::zero();
    !v.x.lt(zero) && !zero.lt(v.x) && !v.y.lt(zero) && !zero.lt(v.y)
}

/// What a simplex is cut down to: whether it holds the origin, the points
/// that stay, and the direction in which to search on.
pub struct Reduction<S> {
    pub contains_origin: bool,
    pub simplex: Polytope<S>,
    pub direction: Vector2<S>,
}

/// The direction from the line through `a` and `b` to the origin; where
/// the origin lies on the line, a perpendicular of the line.
pub open spec fn line_direction<S: Scalar>(a: Vector2<S>, b: Vector2<S>) -> Vector2<S> {
    let ab = b.minus_spec(a);
    let d = triple_product_spec(ab, a.negated_spec(), ab);
    if is_zero_spec(d) {
        Vector2 { x: ab.y.negated_spec(), y: ab.x }
    } else {
        d
    }
}

/// The simplex cut down to the feature closest to the origin.
///
/// - One point: the search goes on from the point to the origin.
/// - Two points: the search goes on from the line to the origin.
/// - Three points `c`, `b`, `a`, with `a` the newest: where the origin lies
///   beyond the edge from `a` to `b`, `c` leaves; where it lies beyond the
///   edge from `a` to `c`, `b` leaves; else the triangle holds the origin,
///   also where the origin lies on one of the two edges.
/// - No point, or more than three: nothing changes.
pub open spec fn reduced<S: Scalar>(simplex: Polytope<S>, direction: Vector2<S>) -> Reduction<S> {
    if simplex.len() == 3 {
        let a = simplex[2].v;
        let b = simplex[1].v;
        let c = simplex[0].v;
        let ao = a.negated_spec();
        let ab = b.minus_spec(a);
        let ac = c.minus_spec(a);
        let abp = triple_product_spec(ac, ab, ab);
        let acp = triple_product_spec(ab, ac, ac);
        if S::zero_spec().rank() < abp.dot_spec(ao).rank() {
            Reduction { contains_origin: false, simplex: simplex.remove(0), direction: abp }
        } else if S::zero_spec().rank() < acp.dot_spec(ao).rank() {
            Reduction { contains_origin: false, simplex: simplex.remove(1), direction: acp }
        } else {
            Reduction { contains_origin: true, simplex, direction }
        }
    } else if simplex.len() == 2 {
        Reduction {
            contains_origin: false,
            simplex,
            direction: line_direction(simplex[1].v, simplex[0].v),
        }
    } else if simplex.len() == 1 {
        Reduction { contains_origin: false, simplex, direction: simplex[0].v.negated_spec() }
    } else {
        Reduction { contains_origin: false, simplex, direction }
    }
}

/// Cuts the simplex down to the feature closest to the origin and sets the
/// direction in which to search on. Tells whether the simplex holds the
/// origin.
pub fn reduce_to_closest_feature<S: Scalar>(
    simplex: &mut Vec<SupportPoint<Vector2<S>>>,
    direction: &mut Vector2<S>,
) -> (r: bool)
    ensures
        r == reduced(old(simplex)@, *old(direction)).contains_origin,
        final(simplex)@ == reduced(old(simplex)@, *old(direction)).simplex,
        *final(direction) == reduced(old(simplex)@, *old(direction)).direction,
{
    if simplex.len() == 3 {
        let a = simplex[2].v;
        let b = simplex[1].v;
        let c = simplex[0].v;
        let ao = a.negated();
        let ab = b.minus(a);
        let ac = c.minus(a);
        let abp = triple_product(ac, ab, ab);
        if S::zero().lt(abp.dot(ao)) {
            simplex.remove(0);
            *direction = abp;
            false
        } else {
            let acp = triple_product(ab, ac, ac);
            if S::zero().lt(acp.dot(ao)) {
                simplex.remove(1);
                *direction = acp;
                false
            } else {
                true
            }
        }
    } else if simplex.len() == 2 {
        let a = simplex[1].v;
        let b = simplex[0].v;
        let ab = b.minus(a);
        let d = triple_product(ab, a.negated(), ab);
        if is_zero(d) {
            *direction = Vector2 { x: ab.y.negated(), y: ab.x };
        } else {
            *direction = d;
        }
        false
    } else if simplex.len() == 1 {
        *direction = simplex[0].v.negated();
        false
    } else {
        false
    }
}

} // verus!
