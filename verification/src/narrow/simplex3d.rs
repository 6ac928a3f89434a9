//! The simplex of the distance algorithm in space.
//!
//! The simplex holds up to four support points, the newest last. After a
//! point was added, the simplex is cut down to the feature that is closest
//! to the origin, and the search goes on in the direction from that feature
//! to the origin.
use vstd::prelude::*;
use crate::narrow::support::SupportPoint;
use crate::scalar::{Additive, Scalar};
use crate::vector::{Cross, Vector3, VectorSpace};

verus! {

/// A simplex as a sequence of support points in space.
pub type Simplex3<S> = Seq<SupportPoint<Vector3<S>>>;

/// Whether all components of the vector rank with zero.
pub open spec fn is_zero_spec<S: Scalar>(v: Vector3<S>) -> bool {
    v.x.rank() == S::zero_spec().rank() && v.y.rank() == S::zero_spec().rank() && v.z.rank()
        == S::zero_spec().rank()
}

pub fn is_zero<S: Scalar>(v: Vector3<S>) -> (r: bool)
    ensures
        r == is_zero_spec(v),
{
    let zero = S::zero();
    !v.x.lt(zero) && !zero.lt(v.x) && !v.y.lt(zero) && !zero.lt(v.y) && !v.z.lt(zero) && !zero.lt(
        v.z,
    )
}

/// Whether the vector `v` points to the side of `toward`: their inner
/// product ranks above zero.
pub open spec fn faces_spec<S: Scalar>(v: Vector3<S>, toward: Vector3<S>) -> bool {
    S::zero_spec().rank() < v.dot_spec(toward).rank()
}

fn faces<S: Scalar>(v: Vector3<S>, toward: Vector3<S>) -> (r: bool)
    ensures
        r == faces_spec(v, toward),
{
    S::zero().lt(v.dot(toward))
}

/// The double cross product `(a x b) x a`: the part of `b` that is
/// perpendicular to `a`, scaled.
pub open spec fn double_cross_spec<S: Scalar>(a: Vector3<S>, b: Vector3<S>) -> Vector3<S> {
    a.cross_spec(b).cross_spec(a)
}

pub fn double_cross<S: Scalar>(a: Vector3<S>, b: Vector3<S>) -> (r: Vector3<S>)
    ensures
        r == double_cross_spec(a, b),
{
    a.cross(b).cross(a)
}

/// A perpendicular of `v`: its cross product with the x axis, or with the
/// y axis where `v` lies along the x axis.
pub open spec fn perpendicular_spec<S: Scalar>(v: Vector3<S>) -> Vector3<S> {
    let x_axis = Vector3 { x: S::one_spec(), y: S::zero_spec(), z: S::zero_spec() };
    let y_axis = Vector3 { x: S::zero_spec(), y: S::one_spec(), z: S::zero_spec() };
    if is_zero_spec(v.cross_spec(x_axis)) {
        v.cross_spec(y_axis)
    } else {
        v.cross_spec(x_axis)
    }
}

fn perpendicular<S: Scalar>(v: Vector3<S>) -> (r: Vector3<S>)
    ensures
        r == perpendicular_spec(v),
{
    let x_axis = Vector3 { x: S::one(), y: S::zero(), z: S::zero() };
    let y_axis = Vector3 { x: S::zero(), y: S::one(), z: S::zero() };
    let first = v.cross(x_axis);
    if is_zero(first) {
        v.cross(y_axis)
    } else {
        first
    }
}

/// What a simplex is cut down to: whether it holds the origin, the points
/// that stay, and the direction in which to search on.
pub struct Reduction3<S> {
    pub contains_origin: bool,
    pub simplex: Simplex3<S>,
    pub direction: Vector3<S>,
}

/// The direction from the line through `a` and `b` to the origin; where
/// the origin lies on the line, a perpendicular of the line.
pub open spec fn line_direction<S: Scalar>(a: Vector3<S>, b: Vector3<S>) -> Vector3<S> {
    let ab = b.minus_spec(a);
    let d = double_cross_spec(ab, a.negated_spec());
    if is_zero_spec(d) {
        perpendicular_spec(ab)
    } else {
        d
    }
}

/// The triangle `c`, `b`, `a`, with `a` the newest point and `normal` its
/// normal `ab x ac`, cut down to the feature closest to the origin.
///
/// Where the origin lies beyond the edge from `a` to `b`, `c` leaves;
/// where it lies beyond the edge from `a` to `c`, `b` leaves; in both cases
/// the search goes on from the edge to the origin. Else the origin lies
/// over or under the triangle. Over it, the search goes on along the
/// normal. Under it, `b` and `c` change places, so that the normal of the
/// triangle turns, and the search goes on against the old normal. With
/// `above` the origin is known to lie over the triangle, and with
/// `ignore_ab`, not to lie beyond the edge from `a` to `b`.
pub open spec fn triangle_reduced<S: Scalar>(
    triangle: Simplex3<S>,
    normal: Vector3<S>,
    above: bool,
    ignore_ab: bool,
) -> Reduction3<S> {
    let a = triangle[2].v;
    let b = triangle[1].v;
    let c = triangle[0].v;
    let ao = a.negated_spec();
    let ab = b.minus_spec(a);
    let ac = c.minus_spec(a);
    if !ignore_ab && faces_spec(ab.cross_spec(normal), ao) {
        Reduction3 {
            contains_origin: false,
            simplex: triangle.remove(0),
            direction: double_cross_spec(ab, ao),
        }
    } else if faces_spec(normal.cross_spec(ac), ao) {
        Reduction3 {
            contains_origin: false,
            simplex: triangle.remove(1),
            direction: double_cross_spec(ac, ao),
        }
    } else if above || faces_spec(normal, ao) {
        Reduction3 { contains_origin: false, simplex: triangle, direction: normal }
    } else {
        Reduction3 {
            contains_origin: false,
            simplex: seq![triangle[1], triangle[0], triangle[2]],
            direction: normal.negated_spec(),
        }
    }
}

/// The simplex cut down to the feature closest to the origin.
///
/// - One point: the search goes on from the point to the origin.
/// - Two points: the search goes on from the line to the origin.
/// - Three points: see `triangle_reduced`.
/// - Four points `d`, `c`, `b`, `a`, with `a` the newest: the three faces
///   that meet in `a` are looked at in turn. Where the origin lies beyond
///   one of them, the point opposite to that face leaves, and what stays is
///   cut down as a triangle. Where it lies beyond none, the tetrahedron
///   holds the origin, also where the origin lies on a face.
/// - No point, or more than four: nothing changes.
pub open spec fn reduced<S: Scalar>(simplex: Simplex3<S>, direction: Vector3<S>) -> Reduction3<S> {
    if simplex.len() == 4 {
        let a = simplex[3].v;
        let b = simplex[2].v;
        let c = simplex[1].v;
        let d = simplex[0].v;
        let ao = a.negated_spec();
        let ab = b.minus_spec(a);
        let ac = c.minus_spec(a);
        let ad = d.minus_spec(a);
        let abc = ab.cross_spec(ac);
        let acd = ac.cross_spec(ad);
        let adb = ad.cross_spec(ab);
        if faces_spec(abc, ao) {
            triangle_reduced(simplex.remove(0), abc, true, false)
        } else if faces_spec(acd, ao) {
            triangle_reduced(simplex.remove(2), acd, true, true)
        } else if faces_spec(adb, ao) {
            Reduction3 {
                contains_origin: false,
                simplex: seq![simplex[2], simplex[0], simplex[3]],
                direction: adb,
            }
        } else {
            Reduction3 { contains_origin: true, simplex, direction }
        }
    } else if simplex.len() == 3 {
        let a = simplex[2].v;
        let b = simplex[1].v;
        let c = simplex[0].v;
        triangle_reduced(simplex, b.minus_spec(a).cross_spec(c.minus_spec(a)), false, false)
    } else if simplex.len() == 2 {
        Reduction3 {
            contains_origin: false,
            simplex,
            direction: line_direction(simplex[1].v, simplex[0].v),
        }
    } else if simplex.len() == 1 {
        Reduction3 { contains_origin: false, simplex, direction: simplex[0].v.negated_spec() }
    } else {
        Reduction3 { contains_origin: false, simplex, direction }
    }
}

fn reduce_triangle<S: Scalar>(
    simplex: &mut Vec<SupportPoint<Vector3<S>>>,
    direction: &mut Vector3<S>,
    normal: Vector3<S>,
    above: bool,
    ignore_ab: bool,
)
    requires
        old(simplex)@.len() == 3,
    ensures
        final(simplex)@ == triangle_reduced(old(simplex)@, normal, above, ignore_ab).simplex,
        *final(direction) == triangle_reduced(old(simplex)@, normal, above, ignore_ab).direction,
{
    let a = simplex[2].v;
    let b = simplex[1].v;
    let c = simplex[0].v;
    let ao = a.negated();
    let ab = b.minus(a);
    let ac = c.minus(a);
    if !ignore_ab && faces(ab.cross(normal), ao) {
        simplex.remove(0);
        *direction = double_cross(ab, ao);
    } else if faces(normal.cross(ac), ao) {
        simplex.remove(1);
        *direction = double_cross(ac, ao);
    } else if above || faces(normal, ao) {
        *direction = normal;
    } else {
        let first = simplex.remove(0);
        simplex.insert(1, first);
        *direction = normal.negated();
        assert(simplex@ =~= seq![old(simplex)@[1], old(simplex)@[0], old(simplex)@[2]]);
    }
}

/// Cuts the simplex down to the feature closest to the origin and sets the
/// direction in which to search on. Tells whether the simplex holds the
/// origin.
pub fn reduce_to_closest_feature<S: Scalar>(
    simplex: &mut Vec<SupportPoint<Vector3<S>>>,
    direction: &mut Vector3<S>,
) -> (r: bool)
    ensures
        r == reduced(old(simplex)@, *old(direction)).contains_origin,
        final(simplex)@ == reduced(old(simplex)@, *old(direction)).simplex,
        *final(direction) == reduced(old(simplex)@, *old(direction)).direction,
{
    if simplex.len() == 4 {
        let a = simplex[3].v;
        let b = simplex[2].v;
        let c = simplex[1].v;
        let d = simplex[0].v;
        let ao = a.negated();
        let ab = b.minus(a);
        let ac = c.minus(a);
        let abc = ab.cross(ac);
        if faces(abc, ao) {
            simplex.remove(0);
            reduce_triangle(simplex, direction, abc, true, false);
            false
        } else {
            let ad = d.minus(a);
            let acd = ac.cross(ad);
            if faces(acd, ao) {
                simplex.remove(2);
                reduce_triangle(simplex, direction, acd, true, true);
                false
            } else {
                let adb = ad.cross(ab);
                if faces(adb, ao) {
                    simplex.remove(1);
                    let first = simplex.remove(0);
                    simplex.insert(1, first);
                    *direction = adb;
                    assert(simplex@ =~= seq![old(simplex)@[2], old(simplex)@[0], old(simplex)@[3]]);
                    false
                } else {
                    true
                }
            }
        }
    } else if simplex.len() == 3 {
        let a = simplex[2].v;
        let b = simplex[1].v;
        let c = simplex[0].v;
        let normal = b.minus(a).cross(c.minus(a));
        reduce_triangle(simplex, direction, normal, false, false);
        false
    } else if simplex.len() == 2 {
        let a = simplex[1].v;
        let b = simplex[0].v;
        let ab = b.minus(a);
        let d = double_cross(ab, a.negated());
        if is_zero(d) {
            *direction = perpendicular(ab);
        } else {
            *direction = d;
        }
        false
    } else if simplex.len() == 1 {
        *direction = simplex[0].v.negated();
        false
    } else {
        false
    }
}

} // verus!
