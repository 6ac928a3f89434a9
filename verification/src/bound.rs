//! Axis-aligned bounding boxes.
use vstd::prelude::*;
use crate::pose::Transform;
use crate::scalar::{Additive, Scalar};
use crate::vector::{Vector2, Vector3, VectorSpace};

verus! {

/// The scalar that comes first in the order; `a` where the two rank alike.
pub open spec fn min_spec<S: Scalar>(a: S, b: S) -> S {
    if b.rank() < a.rank() { b } else { a }
}

/// The scalar that comes last in the order; `a` where the two rank alike.
pub open spec fn max_spec<S: Scalar>(a: S, b: S) -> S {
    if a.rank() < b.rank() { b } else { a }
}

pub fn min_of<S: Scalar>(a: S, b: S) -> (r: S)
    ensures
        r == min_spec(a, b),
{
    if b.lt(a) { b } else { a }
}

pub fn max_of<S: Scalar>(a: S, b: S) -> (r: S)
    ensures
        r == max_spec(a, b),
{
    if a.lt(b) { b } else { a }
}

/// A volume seen as an interval along each of its axes.
pub trait Extent: Sized {
    type Scalar: Scalar;

    /// The number of axes.
    spec fn dimensions() -> nat;

    /// The least coordinate of the volume along `axis`.
    spec fn lower(&self, axis: int) -> Self::Scalar;

    /// The greatest coordinate of the volume along `axis`.
    spec fn upper(&self, axis: int) -> Self::Scalar;
}

/// Whether the extents of two volumes overlap along `axis`: each begins
/// strictly before the other ends.
pub open spec fn overlap_on<B: Extent>(a: &B, b: &B, axis: int) -> bool {
    a.upper(axis).rank() > b.lower(axis).rank() && a.lower(axis).rank() < b.upper(axis).rank()
}

/// Whether two volumes intersect: their extents overlap along every axis.
/// Volumes that only touch do not intersect.
pub open spec fn overlap<B: Extent>(a: &B, b: &B) -> bool {
    forall|axis: int| 0 <= axis < B::dimensions() ==> overlap_on(a, b, axis)
}

/// Whether the extent of `inner` lies within that of `outer` along `axis`.
pub open spec fn encloses_on<B: Extent>(outer: &B, inner: &B, axis: int) -> bool {
    outer.lower(axis).rank() <= inner.lower(axis).rank() && inner.upper(axis).rank()
        <= outer.upper(axis).rank()
}

/// Whether `outer` holds all of `inner`.
pub open spec fn encloses<B: Extent>(outer: &B, inner: &B) -> bool {
    forall|axis: int| 0 <= axis < B::dimensions() ==> encloses_on(outer, inner, axis)
}

/// A bounding volume: an extent with an intersection test and a union.
pub trait Bound: Extent + Copy {
    /// The points that the volume bounds.
    type Point: VectorSpace<Scalar = Self::Scalar>;

    /// The volume widened by `margin` on every side.
    spec fn with_margin_spec(&self, margin: Self::Point) -> Self;

    /// The number of corners of a volume.
    spec fn corners_spec() -> nat;

    /// The corner of the volume with the number `k`.
    spec fn corner_spec(&self, k: int) -> Self::Point;

    /// The volume that holds the point `p` and nothing else.
    spec fn around_spec(p: Self::Point) -> Self;

    /// The smallest volume that holds this volume and the point `p`.
    spec fn including_spec(&self, p: Self::Point) -> Self;


    /// The volume that holds only the origin.
    spec fn zero_spec() -> Self;

    /// The smallest volume that holds both.
    spec fn union_spec(&self, other: &Self) -> Self;

    proof fn law_union(a: &Self, b: &Self)
        ensures
            forall|axis: int|
                0 <= axis < Self::dimensions() ==> #[trigger] a.union_spec(b).lower(axis)
                    == min_spec(a.lower(axis), b.lower(axis)),
            forall|axis: int|
                0 <= axis < Self::dimensions() ==> #[trigger] a.union_spec(b).upper(axis)
                    == max_spec(a.upper(axis), b.upper(axis)),
    ;

    fn axes() -> (r: usize)
        ensures
            r == Self::dimensions(),
            r >= 1,
    ;

    fn min_extent(&self, axis: usize) -> (r: Self::Scalar)
        requires
            axis < Self::dimensions(),
        ensures
            r == self.lower(axis as int),
    ;

    fn max_extent(&self, axis: usize) -> (r: Self::Scalar)
        requires
            axis < Self::dimensions(),
        ensures
            r == self.upper(axis as int),
    ;

    fn intersects(&self, other: &Self) -> (r: bool)
        ensures
            r == overlap(self, other),
    ;

    fn contains(&self, other: &Self) -> (r: bool)
        ensures
            r == encloses(self, other),
    ;

    fn zero() -> (r: Self)
        ensures
            r == Self::zero_spec(),
    ;

    fn union(&self, other: &Self) -> (r: Self)
        ensures
            r == self.union_spec(other),
    ;

    fn with_margin(&self, margin: Self::Point) -> (r: Self)
        ensures
            r == self.with_margin_spec(margin),
    ;

    fn corners() -> (r: usize)
        ensures
            r == Self::corners_spec(),
            r >= 1,
    ;

    fn corner(&self, k: usize) -> (r: Self::Point)
        requires
            k < Self::corners_spec(),
        ensures
            r == self.corner_spec(k as int),
    ;

    fn around(p: Self::Point) -> (r: Self)
        ensures
            r == Self::around_spec(p),
    ;

    fn including(&self, p: Self::Point) -> (r: Self)
        ensures
            r == self.including_spec(p),
    ;
}

/// The smallest volume that holds the first `count` corners of `bound`
/// after `transform` has moved them.
pub open spec fn transformed_corners<B: Bound, T: Transform<B::Point>>(
    bound: &B,
    transform: &T,
    count: int,
) -> B
    decreases count,
{
    if count <= 1 {
        B::around_spec(transform.transform_point_spec(bound.corner_spec(0)))
    } else {
        transformed_corners(bound, transform, count - 1).including_spec(
            transform.transform_point_spec(bound.corner_spec(count - 1)),
        )
    }
}

/// The smallest volume that holds every corner of `bound` after `transform`
/// has moved it.
pub open spec fn transformed_spec<B: Bound, T: Transform<B::Point>>(bound: &B, transform: &T)
    -> B {
    transformed_corners(bound, transform, B::corners_spec() as int)
}

pub fn transformed<B: Bound, T: Transform<B::Point>>(bound: &B, transform: &T) -> (r: B)
    ensures
        r == transformed_spec(bound, transform),
{
    let count = B::corners();
    let mut result = B::around(transform.transform_point(bound.corner(0)));
    let mut k: usize = 1;
    while k < count
        invariant
            count == B::corners_spec(),
            1 <= k <= count,
            result == transformed_corners(bound, transform, k as int),
        decreases count - k,
    {
        result = result.including(transform.transform_point(bound.corner(k)));
        k += 1;
    }
    result
}

/// Intersection is symmetric.
pub proof fn lemma_overlap_symmetric<B: Bound>(a: &B, b: &B)
    ensures
        overlap(a, b) == overlap(b, a),
{
    if overlap(a, b) {
        assert forall|axis: int| 0 <= axis < B::dimensions() implies overlap_on(b, a, axis) by {
            assert(overlap_on(a, b, axis));
        }
    }
    if overlap(b, a) {
        assert forall|axis: int| 0 <= axis < B::dimensions() implies overlap_on(a, b, axis) by {
            assert(overlap_on(b, a, axis));
        }
    }
}

/// A union holds both of its parts.
pub proof fn lemma_union_encloses<B: Bound>(a: &B, b: &B)
    ensures
        encloses(&a.union_spec(b), a),
        encloses(&a.union_spec(b), b),
{
    B::law_union(a, b);
    let u = a.union_spec(b);
    assert forall|axis: int| 0 <= axis < B::dimensions() implies encloses_on(&u, a, axis) by {
        assert(u.lower(axis) == min_spec(a.lower(axis), b.lower(axis)));
        assert(u.upper(axis) == max_spec(a.upper(axis), b.upper(axis)));
    }
    assert forall|axis: int| 0 <= axis < B::dimensions() implies encloses_on(&u, b, axis) by {
        assert(u.lower(axis) == min_spec(a.lower(axis), b.lower(axis)));
        assert(u.upper(axis) == max_spec(a.upper(axis), b.upper(axis)));
    }
}

/// Enclosure is transitive.
pub proof fn lemma_encloses_transitive<B: Bound>(a: &B, b: &B, c: &B)
    requires
        encloses(a, b),
        encloses(b, c),
    ensures
        encloses(a, c),
{
    assert forall|axis: int| 0 <= axis < B::dimensions() implies encloses_on(a, c, axis) by {
        assert(encloses_on(a, b, axis));
        assert(encloses_on(b, c, axis));
    }
}

/// An axis-aligned box of the plane.
#[derive(Clone, Copy, Debug, PartialEq)]
pub struct Aabb2<S> {
    pub min: Vector2<S>,
    pub max: Vector2<S>,
}

/// An axis-aligned box of space.
#[derive(Clone, Copy, Debug, PartialEq)]
pub struct Aabb3<S> {
    pub min: Vector3<S>,
    pub max: Vector3<S>,
}

impl<S: Scalar> Aabb2<S> {
    /// The box spanned by two corner points, given in any order.
    pub open spec fn new_spec(p1: Vector2<S>, p2: Vector2<S>) -> Self {
        Aabb2 {
            min: Vector2 { x: min_spec(p1.x, p2.x), y: min_spec(p1.y, p2.y) },
            max: Vector2 { x: max_spec(p1.x, p2.x), y: max_spec(p1.y, p2.y) },
        }
    }

    pub fn new(p1: Vector2<S>, p2: Vector2<S>) -> (r: Self)
        ensures
            r == Self::new_spec(p1, p2),
    {
        Aabb2 {
            min: Vector2 { x: min_of(p1.x, p2.x), y: min_of(p1.y, p2.y) },
            max: Vector2 { x: max_of(p1.x, p2.x), y: max_of(p1.y, p2.y) },
        }
    }

    /// The smallest box that holds this box and the point `p`.
    pub open spec fn grow_spec(&self, p: Vector2<S>) -> Self {
        Aabb2 {
            min: Vector2 { x: min_spec(self.min.x, p.x), y: min_spec(self.min.y, p.y) },
            max: Vector2 { x: max_spec(self.max.x, p.x), y: max_spec(self.max.y, p.y) },
        }
    }

    pub fn grow(&self, p: Vector2<S>) -> (r: Self)
        ensures
            r == self.grow_spec(p),
    {
        Aabb2 {
            min: Vector2 { x: min_of(self.min.x, p.x), y: min_of(self.min.y, p.y) },
            max: Vector2 { x: max_of(self.max.x, p.x), y: max_of(self.max.y, p.y) },
        }
    }

    /// The box widened by `margin` on every side.
    pub open spec fn add_margin_spec(&self, margin: Vector2<S>) -> Self {
        Self::new_spec(
            Vector2 { x: self.min.x.minus_spec(margin.x), y: self.min.y.minus_spec(margin.y) },
            Vector2 { x: self.max.x.plus_spec(margin.x), y: self.max.y.plus_spec(margin.y) },
        )
    }

    pub fn add_margin(&self, margin: Vector2<S>) -> (r: Self)
        ensures
            r == self.add_margin_spec(margin),
    {
        Self::new(
            Vector2 { x: self.min.x.minus(margin.x), y: self.min.y.minus(margin.y) },
            Vector2 { x: self.max.x.plus(margin.x), y: self.max.y.plus(margin.y) },
        )
    }
}

impl<S: Scalar> Extent for Aabb2<S> {
    type Scalar = S;

    open spec fn dimensions() -> nat {
        2
    }

    open spec fn lower(&self, axis: int) -> S {
        self.min.component_spec(axis)
    }

    open spec fn upper(&self, axis: int) -> S {
        self.max.component_spec(axis)
    }
}

impl<S: Scalar> Bound for Aabb2<S> {
    type Point = Vector2<S>;

    open spec fn with_margin_spec(&self, margin: Vector2<S>) -> Self {
        self.add_margin_spec(margin)
    }

    open spec fn corners_spec() -> nat {
        4
    }

    open spec fn corner_spec(&self, k: int) -> Vector2<S> {
        Vector2 {
            x: if k % 2 == 0 { self.min.x } else { self.max.x },
            y: if k / 2 == 0 { self.min.y } else { self.max.y },
        }
    }

    open spec fn around_spec(p: Vector2<S>) -> Self {
        Aabb2 { min: p, max: p }
    }

    open spec fn including_spec(&self, p: Vector2<S>) -> Self {
        self.grow_spec(p)
    }

    fn with_margin(&self, margin: Vector2<S>) -> (r: Self) {
        self.add_margin(margin)
    }

    fn corners() -> (r: usize) {
        4
    }

    fn corner(&self, k: usize) -> (r: Vector2<S>) {
        Vector2 {
            x: if k % 2 == 0 { self.min.x } else { self.max.x },
            y: if k / 2 == 0 { self.min.y } else { self.max.y },
        }
    }

    fn around(p: Vector2<S>) -> (r: Self) {
        Aabb2 { min: p, max: p }
    }

    fn including(&self, p: Vector2<S>) -> (r: Self) {
        self.grow(p)
    }

    open spec fn zero_spec() -> Self {
        Aabb2 { min: Vector2::zero_spec(), max: Vector2::zero_spec() }
    }

    open spec fn union_spec(&self, other: &Self) -> Self {
        Aabb2 {
            min: Vector2 {
                x: min_spec(self.min.x, other.min.x),
                y: min_spec(self.min.y, other.min.y),
            },
            max: Vector2 {
                x: max_spec(self.max.x, other.max.x),
                y: max_spec(self.max.y, other.max.y),
            },
        }
    }

    proof fn law_union(a: &Self, b: &Self) {
    }

    fn axes() -> (r: usize) {
        2
    }

    fn min_extent(&self, axis: usize) -> (r: S) {
        self.min.component(axis)
    }

    fn max_extent(&self, axis: usize) -> (r: S) {
        self.max.component(axis)
    }

    fn intersects(&self, other: &Self) -> (r: bool) {
        let r = other.min.x.lt(self.max.x) && self.min.x.lt(other.max.x) && other.min.y.lt(
            self.max.y,
        ) && self.min.y.lt(other.max.y);
        proof {
            if r {
                assert forall|axis: int| 0 <= axis < 2 implies overlap_on(self, other, axis) by {
                    if axis == 0 {
                    } else {
                        assert(axis == 1);
                    }
                }
            } else {
                assert(!overlap_on(self, other, 0) || !overlap_on(self, other, 1));
            }
        }
        r
    }

    fn contains(&self, other: &Self) -> (r: bool) {
        let r = !other.min.x.lt(self.min.x) && !other.min.y.lt(self.min.y) && !self.max.x.lt(
            other.max.x,
        ) && !self.max.y.lt(other.max.y);
        proof {
            if r {
                assert forall|axis: int| 0 <= axis < 2 implies encloses_on(self, other, axis) by {
                    if axis == 0 {
                    } else {
                        assert(axis == 1);
                    }
                }
            } else {
                assert(!encloses_on(self, other, 0) || !encloses_on(self, other, 1));
            }
        }
        r
    }

    fn zero() -> (r: Self) {
        Aabb2 { min: Vector2::zero(), max: Vector2::zero() }
    }

    fn union(&self, other: &Self) -> (r: Self) {
        Aabb2 {
            min: Vector2 {
                x: min_of(self.min.x, other.min.x),
                y: min_of(self.min.y, other.min.y),
            },
            max: Vector2 {
                x: max_of(self.max.x, other.max.x),
                y: max_of(self.max.y, other.max.y),
            },
        }
    }
}

impl<S: Scalar> Aabb3<S> {
    /// The box spanned by two corner points, given in any order.
    pub open spec fn new_spec(p1: Vector3<S>, p2: Vector3<S>) -> Self {
        Aabb3 {
            min: Vector3 {
                x: min_spec(p1.x, p2.x),
                y: min_spec(p1.y, p2.y),
                z: min_spec(p1.z, p2.z),
            },
            max: Vector3 {
                x: max_spec(p1.x, p2.x),
                y: max_spec(p1.y, p2.y),
                z: max_spec(p1.z, p2.z),
            },
        }
    }

    pub fn new(p1: Vector3<S>, p2: Vector3<S>) -> (r: Self)
        ensures
            r == Self::new_spec(p1, p2),
    {
        Aabb3 {
            min: Vector3 { x: min_of(p1.x, p2.x), y: min_of(p1.y, p2.y), z: min_of(p1.z, p2.z) },
            max: Vector3 { x: max_of(p1.x, p2.x), y: max_of(p1.y, p2.y), z: max_of(p1.z, p2.z) },
        }
    }

    /// The smallest box that holds this box and the point `p`.
    pub open spec fn grow_spec(&self, p: Vector3<S>) -> Self {
        Aabb3 {
            min: Vector3 {
                x: min_spec(self.min.x, p.x),
                y: min_spec(self.min.y, p.y),
                z: min_spec(self.min.z, p.z),
            },
            max: Vector3 {
                x: max_spec(self.max.x, p.x),
                y: max_spec(self.max.y, p.y),
                z: max_spec(self.max.z, p.z),
            },
        }
    }

    pub fn grow(&self, p: Vector3<S>) -> (r: Self)
        ensures
            r == self.grow_spec(p),
    {
        Aabb3 {
            min: Vector3 {
                x: min_of(self.min.x, p.x),
                y: min_of(self.min.y, p.y),
                z: min_of(self.min.z, p.z),
            },
            max: Vector3 {
                x: max_of(self.max.x, p.x),
                y: max_of(self.max.y, p.y),
                z: max_of(self.max.z, p.z),
            },
        }
    }

    /// The box widened by `margin` on every side.
    pub open spec fn add_margin_spec(&self, margin: Vector3<S>) -> Self {
        Self::new_spec(
            Vector3 {
                x: self.min.x.minus_spec(margin.x),
                y: self.min.y.minus_spec(margin.y),
                z: self.min.z.minus_spec(margin.z),
            },
            Vector3 {
                x: self.max.x.plus_spec(margin.x),
                y: self.max.y.plus_spec(margin.y),
                z: self.max.z.plus_spec(margin.z),
            },
        )
    }

    pub fn add_margin(&self, margin: Vector3<S>) -> (r: Self)
        ensures
            r == self.add_margin_spec(margin),
    {
        Self::new(
            Vector3 {
                x: self.min.x.minus(margin.x),
                y: self.min.y.minus(margin.y),
                z: self.min.z.minus(margin.z),
            },
            Vector3 {
                x: self.max.x.plus(margin.x),
                y: self.max.y.plus(margin.y),
                z: self.max.z.plus(margin.z),
            },
        )
    }
}

impl<S: Scalar> Extent for Aabb3<S> {
    type Scalar = S;

    open spec fn dimensions() -> nat {
        3
    }

    open spec fn lower(&self, axis: int) -> S {
        self.min.component_spec(axis)
    }

    open spec fn upper(&self, axis: int) -> S {
        self.max.component_spec(axis)
    }
}

impl<S: Scalar> Bound for Aabb3<S> {
    type Point = Vector3<S>;

    open spec fn with_margin_spec(&self, margin: Vector3<S>) -> Self {
        self.add_margin_spec(margin)
    }

    open spec fn corners_spec() -> nat {
        8
    }

    open spec fn corner_spec(&self, k: int) -> Vector3<S> {
        Vector3 {
            x: if k % 2 == 0 { self.min.x } else { self.max.x },
            y: if (k / 2) % 2 == 0 { self.min.y } else { self.max.y },
            z: if k / 4 == 0 { self.min.z } else { self.max.z },
        }
    }

    open spec fn around_spec(p: Vector3<S>) -> Self {
        Aabb3 { min: p, max: p }
    }

    open spec fn including_spec(&self, p: Vector3<S>) -> Self {
        self.grow_spec(p)
    }

    fn with_margin(&self, margin: Vector3<S>) -> (r: Self) {
        self.add_margin(margin)
    }

    fn corners() -> (r: usize) {
        8
    }

    fn corner(&self, k: usize) -> (r: Vector3<S>) {
        Vector3 {
            x: if k % 2 == 0 { self.min.x } else { self.max.x },
            y: if (k / 2) % 2 == 0 { self.min.y } else { self.max.y },
            z: if k / 4 == 0 { self.min.z } else { self.max.z },
        }
    }

    fn around(p: Vector3<S>) -> (r: Self) {
        Aabb3 { min: p, max: p }
    }

    fn including(&self, p: Vector3<S>) -> (r: Self) {
        self.grow(p)
    }

    open spec fn zero_spec() -> Self {
        Aabb3 { min: Vector3::zero_spec(), max: Vector3::zero_spec() }
    }

    open spec fn union_spec(&self, other: &Self) -> Self {
        Aabb3 {
            min: Vector3 {
                x: min_spec(self.min.x, other.min.x),
                y: min_spec(self.min.y, other.min.y),
                z: min_spec(self.min.z, other.min.z),
            },
            max: Vector3 {
                x: max_spec(self.max.x, other.max.x),
                y: max_spec(self.max.y, other.max.y),
                z: max_spec(self.max.z, other.max.z),
            },
        }
    }

    proof fn law_union(a: &Self, b: &Self) {
    }

    fn axes() -> (r: usize) {
        3
    }

    fn min_extent(&self, axis: usize) -> (r: S) {
        self.min.component(axis)
    }

    fn max_extent(&self, axis: usize) -> (r: S) {
        self.max.component(axis)
    }

    fn intersects(&self, other: &Self) -> (r: bool) {
        let r = other.min.x.lt(self.max.x) && self.min.x.lt(other.max.x) && other.min.y.lt(
            self.max.y,
        ) && self.min.y.lt(other.max.y) && other.min.z.lt(self.max.z) && self.min.z.lt(
            other.max.z,
        );
        proof {
            if r {
                assert forall|axis: int| 0 <= axis < 3 implies overlap_on(self, other, axis) by {
                    if axis == 0 {
                    } else if axis == 1 {
                    } else {
                        assert(axis == 2);
                    }
                }
            } else {
                assert(!overlap_on(self, other, 0) || !overlap_on(self, other, 1) || !overlap_on(self, other, 2));
            }
        }
        r
    }

    fn contains(&self, other: &Self) -> (r: bool) {
        let r = !other.min.x.lt(self.min.x) && !other.min.y.lt(self.min.y) && !other.min.z.lt(
            self.min.z,
        ) && !self.max.x.lt(other.max.x) && !self.max.y.lt(other.max.y) && !self.max.z.lt(
            other.max.z,
        );
        proof {
            if r {
                assert forall|axis: int| 0 <= axis < 3 implies encloses_on(self, other, axis) by {
                    if axis == 0 {
                    } else if axis == 1 {
                    } else {
                        assert(axis == 2);
                    }
                }
            } else {
                assert(!encloses_on(self, other, 0) || !encloses_on(self, other, 1)
                    || !encloses_on(self, other, 2));
            }
        }
        r
    }

    fn zero() -> (r: Self) {
        Aabb3 { min: Vector3::zero(), max: Vector3::zero() }
    }

    fn union(&self, other: &Self) -> (r: Self) {
        Aabb3 {
            min: Vector3 {
                x: min_of(self.min.x, other.min.x),
                y: min_of(self.min.y, other.min.y),
                z: min_of(self.min.z, other.min.z),
            },
            max: Vector3 {
                x: max_of(self.max.x, other.max.x),
                y: max_of(self.max.y, other.max.y),
                z: max_of(self.max.z, other.max.z),
            },
        }
    }
}

} // verus!
