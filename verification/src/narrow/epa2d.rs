//! The expanding polytope algorithm in the plane.
//!
//! Given a polytope of support points that holds the origin of the
//! Minkowski difference, the algorithm looks for the edge closest to the
//! origin, asks for the support point beyond that edge, and puts it into
//! the polytope, until the support point lies no further out than the edge
//! itself or the cap on the number of points is reached. The closest edge
//! then gives the penetration normal and depth.
use vstd::prelude::*;
use crate::collide::primitive::SupportFunction;
use crate::collide::{CollisionStrategy, Contact};
use crate::narrow::support::{minkowski_spec, SupportPoint};
use crate::pose::Transform;
use crate::scalar::{Additive, Scalar};
use crate::vector::{triple_product, triple_product_spec, Vector2, VectorSpace};

verus! {

/// The number of support points that the algorithm adds at most.
pub const MAX_ITERATIONS: u32 = 100;

/// An edge of the polytope as seen from the origin.
#[derive(Clone, Copy, Debug, PartialEq)]
pub struct Edge<S> {
    /// The unit normal of the edge, pointing away from the origin.
    pub normal: Vector2<S>,
    /// The distance of the edge from the origin.
    pub distance: S,
    /// The place in the polytope of the point at which the edge ends.
    pub index: usize,
}

/// The polytope as a sequence of support points in the plane.
pub type Polytope<S> = Seq<SupportPoint<Vector2<S>>>;

/// The place of the point that follows the point at `i` around the polytope.
pub open spec fn next_index(len: int, i: int) -> int {
    if i + 1 == len { 0 } else { i + 1 }
}

/// The edge that starts at the point at `i`.
pub open spec fn edge_at<S: Scalar>(simplex: Polytope<S>, i: int) -> Edge<S> {
    let j = next_index(simplex.len() as int, i);
    let a = simplex[i].v;
    let b = simplex[j].v;
    let e = b.minus_spec(a);
    let n = triple_product_spec(e, a, e).normalized_spec();
    Edge { normal: n, distance: n.dot_spec(a), index: j as usize }
}

/// The edge at no distance that any edge exceeds: what the search starts from.
pub open spec fn no_edge<S: Scalar>() -> Edge<S> {
    Edge { normal: Vector2::zero_spec(), distance: S::infinity_spec(), index: 0 }
}

impl<S: Scalar> Edge<S> {
    /// The edge that the search for the closest edge starts from.
    pub fn new() -> (r: Self)
        ensures
            r == no_edge::<S>(),
    {
        Edge { normal: Vector2::zero(), distance: S::infinity(), index: 0 }
    }
}

/// The closest to the origin of the edges that start at the first `count`
/// points: the first of them that no other is closer than; `no_edge` where
/// none is closer than infinity.
pub open spec fn closest_among<S: Scalar>(simplex: Polytope<S>, count: int) -> Edge<S>
    decreases count,
{
    if count <= 0 {
        no_edge()
    } else {
        let best = closest_among(simplex, count - 1);
        let candidate = edge_at(simplex, count - 1);
        if candidate.distance.rank() < best.distance.rank() {
            candidate
        } else {
            best
        }
    }
}

/// The closest edge of a polytope; none where it has fewer than three points.
pub open spec fn closest_edge_spec<S: Scalar>(simplex: Polytope<S>) -> Option<Edge<S>> {
    if simplex.len() < 3 {
        None
    } else {
        Some(closest_among(simplex, simplex.len() as int))
    }
}

/// The closest edge ends at a point of the polytope, and no edge among
/// those looked at is closer to the origin.
pub proof fn lemma_closest_among<S: Scalar>(simplex: Polytope<S>, count: int)
    requires
        0 <= count <= simplex.len(),
        simplex.len() >= 1,
    ensures
        closest_among(simplex, count).index < simplex.len(),
        closest_among(simplex, count).distance.rank() <= S::infinity_spec().rank(),
        forall|i: int|
            0 <= i < count ==> closest_among(simplex, count).distance.rank() <= (#[trigger] edge_at(
                simplex,
                i,
            )).distance.rank(),
    decreases count,
{
    if count > 0 {
        lemma_closest_among(simplex, count - 1);
    }
}

/// The closest edge is an edge of the polytope, with its normal and its
/// distance, wherever an edge is closer to the origin than infinity. Only
/// where none is, the search ends with what it started from.
pub proof fn lemma_closest_is_an_edge<S: Scalar>(simplex: Polytope<S>, count: int)
    requires
        0 <= count <= simplex.len(),
        simplex.len() >= 1,
    ensures
        closest_among(simplex, count) == no_edge::<S>() || exists|i: int|
            0 <= i < count && closest_among(simplex, count) == #[trigger] edge_at(simplex, i),
        (exists|i: int|
            0 <= i < count && (#[trigger] edge_at(simplex, i)).distance.rank()
                < S::infinity_spec().rank()) ==> exists|i: int|
            0 <= i < count && closest_among(simplex, count) == #[trigger] edge_at(simplex, i),
    decreases count,
{
    if count > 0 {
        lemma_closest_is_an_edge(simplex, count - 1);
        lemma_closest_among(simplex, count);
        let best = closest_among(simplex, count - 1);
        let candidate = edge_at(simplex, count - 1);
        if candidate.distance.rank() < best.distance.rank() {
            assert(closest_among(simplex, count) == edge_at(simplex, count - 1));
        } else if best != no_edge::<S>() {
            let i = choose|i: int| 0 <= i < count - 1 && best == #[trigger] edge_at(simplex, i);
            assert(closest_among(simplex, count) == edge_at(simplex, i));
        }
    }
}

fn edge_from<S: Scalar>(simplex: &Vec<SupportPoint<Vector2<S>>>, i: usize) -> (r: Edge<S>)
    requires
        i < simplex@.len(),
    ensures
        r == edge_at(simplex@, i as int),
{
    let j: usize = if i == simplex.len() - 1 { 0 } else { i + 1 };
    let a = simplex[i].v;
    let b = simplex[j].v;
    let e = b.minus(a);
    let n = triple_product(e, a, e).normalized();
    Edge { normal: n, distance: n.dot(a), index: j }
}

/// The edge of the polytope that is closest to the origin.
pub fn closest_edge<S: Scalar>(simplex: &Vec<SupportPoint<Vector2<S>>>) -> (r: Option<Edge<S>>)
    ensures
        r == closest_edge_spec(simplex@),
        r is Some ==> r.unwrap().index < simplex@.len(),
{
    if simplex.len() < 3 {
        None
    } else {
        let mut edge = Edge::new();
        let mut i: usize = 0;
        while i < simplex.len()
            invariant
                i <= simplex@.len(),
                edge == closest_among(simplex@, i as int),
            decreases simplex@.len() - i,
        {
            let candidate = edge_from(simplex, i);
            if candidate.distance.lt(edge.distance) {
                edge = candidate;
            }
            i += 1;
        }
        proof {
            lemma_closest_among(simplex@, simplex@.len() as int);
        }
        Some(edge)
    }
}

/// The place in the polytope of the point at which the edge that ends at
/// `index` starts.
pub open spec fn previous_index(len: int, index: int) -> int {
    if index == 0 { len - 1 } else { index - 1 }
}

/// The contact point on the first shape for the closest edge `edge`.
///
/// With `a` and `b` the ends of the edge, the origin is projected onto the
/// line through them, at the fraction `t` of the way from `a` to `b`. The
/// support points on the first shape are interpolated by `t`; where `t`
/// falls outside the edge, the support point of the nearer end is taken.
pub open spec fn point_spec<S: Scalar>(simplex: Polytope<S>, edge: Edge<S>) -> Vector2<S> {
    let b = simplex[edge.index as int];
    let a = simplex[previous_index(simplex.len() as int, edge.index as int)];
    let oa = a.v.negated_spec();
    let ab = b.v.minus_spec(a.v);
    let t = oa.dot_spec(ab).over_spec(ab.magnitude2_spec());
    if t.rank() < S::zero_spec().rank() {
        a.sup_a
    } else if S::one_spec().rank() < t.rank() {
        b.sup_a
    } else {
        a.sup_a.plus_spec(b.sup_a.minus_spec(a.sup_a).scaled_spec(t))
    }
}

/// The contact point in world coordinates on the first shape.
pub fn point<S: Scalar>(simplex: &Vec<SupportPoint<Vector2<S>>>, edge: &Edge<S>) -> (r: Vector2<S>)
    requires
        edge.index < simplex@.len(),
    ensures
        r == point_spec(simplex@, *edge),
{
    let b = simplex[edge.index];
    let a = if edge.index == 0 {
        simplex[simplex.len() - 1]
    } else {
        simplex[edge.index - 1]
    };
    let oa = a.v.negated();
    let ab = b.v.minus(a.v);
    let t = oa.dot(ab).over(ab.magnitude2());
    if t.lt(S::zero()) {
        a.sup_a
    } else if S::one().lt(t) {
        b.sup_a
    } else {
        a.sup_a.plus(b.sup_a.minus(a.sup_a).scaled(t))
    }
}

/// The expanding polytope algorithm in the plane.
#[derive(Clone, Copy, Debug)]
pub struct EPA2<S> {
    tolerance: S,
    max_iterations: u32,
}

/// The tolerance that `EPA2::new` sets: a millionth.
pub open spec fn default_tolerance<S: Scalar>() -> S {
    S::one_spec().over_spec(S::from_count_spec(1_000_000))
}

/// Whether the support point beyond the closest edge of the polytope lies
/// less than `tolerance` further out than the edge itself.
pub open spec fn converged<S, SL, TL, SR, TR>(
    simplex: Polytope<S>,
    left: &SL,
    left_transform: &TL,
    right: &SR,
    right_transform: &TR,
    tolerance: S,
) -> bool where
    S: Scalar,
    TL: Transform<Vector2<S>>,
    TR: Transform<Vector2<S>>,
    SL: SupportFunction<Vector2<S>, TL>,
    SR: SupportFunction<Vector2<S>, TR>,
 {
    let e = closest_among(simplex, simplex.len() as int);
    let p = minkowski_spec(left, left_transform, right, right_transform, e.normal);
    p.v.dot_spec(e.normal).minus_spec(e.distance).rank() < tolerance.rank()
}

/// The polytope with the support point beyond its closest edge put in at
/// the end of that edge.
pub open spec fn expanded<S, SL, TL, SR, TR>(
    simplex: Polytope<S>,
    left: &SL,
    left_transform: &TL,
    right: &SR,
    right_transform: &TR,
) -> Polytope<S> where
    S: Scalar,
    TL: Transform<Vector2<S>>,
    TR: Transform<Vector2<S>>,
    SL: SupportFunction<Vector2<S>, TL>,
    SR: SupportFunction<Vector2<S>, TR>,
 {
    let e = closest_among(simplex, simplex.len() as int);
    simplex.insert(
        e.index as int,
        minkowski_spec(left, left_transform, right, right_transform, e.normal),
    )
}

/// The polytope that the algorithm ends with, when it may add `cap` points
/// more: the polytope itself where it has converged or `cap` is zero, and
/// else what the algorithm ends with from the expanded polytope and a cap
/// one lower.
pub open spec fn final_polytope<S, SL, TL, SR, TR>(
    simplex: Polytope<S>,
    left: &SL,
    left_transform: &TL,
    right: &SR,
    right_transform: &TR,
    tolerance: S,
    cap: nat,
) -> Polytope<S> where
    S: Scalar,
    TL: Transform<Vector2<S>>,
    TR: Transform<Vector2<S>>,
    SL: SupportFunction<Vector2<S>, TL>,
    SR: SupportFunction<Vector2<S>, TR>,

    decreases cap,
{
    if cap == 0 || converged(simplex, left, left_transform, right, right_transform, tolerance) {
        simplex
    } else {
        final_polytope(
            expanded(simplex, left, left_transform, right, right_transform),
            left,
            left_transform,
            right,
            right_transform,
            tolerance,
            (cap - 1) as nat,
        )
    }
}

/// The contact that the closest edge of a polytope gives: the normal of the
/// edge, its distance from the origin as the penetration depth, and the
/// contact point on the first shape.
pub open spec fn contact_of<S: Scalar>(simplex: Polytope<S>) -> Contact<Vector2<S>> {
    let e = closest_among(simplex, simplex.len() as int);
    Contact {
        strategy: CollisionStrategy::FullResolution,
        normal: e.normal,
        penetration_depth: e.distance,
        contact_point: point_spec(simplex, e),
    }
}

impl<S: Scalar> EPA2<S> {
    pub closed spec fn tolerance_spec(&self) -> S {
        self.tolerance
    }

    pub closed spec fn max_iterations_spec(&self) -> u32 {
        self.max_iterations
    }

    /// The algorithm with a tolerance of a millionth and a cap of
    /// `MAX_ITERATIONS` points.
    pub fn new() -> (r: Self)
        ensures
            r.tolerance_spec() == default_tolerance::<S>(),
            r.max_iterations_spec() == MAX_ITERATIONS,
    {
        Self::new_with_tolerance(S::one().over(S::from_count(1_000_000)), MAX_ITERATIONS)
    }

    pub fn new_with_tolerance(tolerance: S, max_iterations: u32) -> (r: Self)
        ensures
            r.tolerance_spec() == tolerance,
            r.max_iterations_spec() == max_iterations,
    {
        EPA2 { tolerance, max_iterations }
    }

    pub fn tolerance(&self) -> (r: S)
        ensures
            r == self.tolerance_spec(),
    {
        self.tolerance
    }

    pub fn max_iterations(&self) -> (r: u32)
        ensures
            r == self.max_iterations_spec(),
    {
        self.max_iterations
    }

    /// Expands the polytope and gives the contact of its closest edge.
    ///
    /// A polytope of fewer than three points has no edge: it is left as it
    /// is and gives no contact.
    pub fn process<SL, TL, SR, TR>(
        &self,
        simplex: &mut Vec<SupportPoint<Vector2<S>>>,
        left: &SL,
        left_transform: &TL,
        right: &SR,
        right_transform: &TR,
    ) -> (r: Option<Contact<Vector2<S>>>) where
        TL: Transform<Vector2<S>>,
        TR: Transform<Vector2<S>>,
        SL: SupportFunction<Vector2<S>, TL>,
        SR: SupportFunction<Vector2<S>, TR>,

        ensures
            old(simplex)@.len() < 3 ==> r is None && final(simplex)@ == old(simplex)@,
            old(simplex)@.len() >= 3 ==> final(simplex)@ == final_polytope(
                old(simplex)@,
                left,
                left_transform,
                right,
                right_transform,
                self.tolerance_spec(),
                self.max_iterations_spec() as nat,
            ) && r == Some(contact_of(final(simplex)@)),
            old(simplex)@.len() <= final(simplex)@.len() <= old(simplex)@.len()
                + self.max_iterations_spec(),
    {
        if simplex.len() < 3 {
            return None;
        }
        let mut remaining: u32 = self.max_iterations;
        let mut edge = closest_edge(simplex).unwrap();
        while remaining > 0
            invariant
                simplex@.len() >= 3,
                edge == closest_among(simplex@, simplex@.len() as int),
                edge.index < simplex@.len(),
                remaining <= self.max_iterations,
                old(simplex)@.len() <= simplex@.len(),
                simplex@.len() + remaining <= old(simplex)@.len() + self.max_iterations,
                final_polytope(
                    simplex@,
                    left,
                    left_transform,
                    right,
                    right_transform,
                    self.tolerance,
                    remaining as nat,
                ) == final_polytope(
                    old(simplex)@,
                    left,
                    left_transform,
                    right,
                    right_transform,
                    self.tolerance,
                    self.max_iterations as nat,
                ),
            ensures
                edge == closest_among(simplex@, simplex@.len() as int),
                edge.index < simplex@.len(),
                old(simplex)@.len() <= simplex@.len() <= old(simplex)@.len()
                    + self.max_iterations,
                simplex@ == final_polytope(
                    old(simplex)@,
                    left,
                    left_transform,
                    right,
                    right_transform,
                    self.tolerance,
                    self.max_iterations as nat,
                ),
            decreases remaining,
        {
            let p = SupportPoint::from_minkowski(
                left,
                left_transform,
                right,
                right_transform,
                &edge.normal,
            );
            let d = p.v.dot(edge.normal);
            if d.minus(edge.distance).lt(self.tolerance) {
                break ;
            }
            simplex.insert(edge.index, p);
            remaining -= 1;
            edge = closest_edge(simplex).unwrap();
        }
        Some(
            Contact::new_with_point(
                CollisionStrategy::FullResolution,
                edge.normal,
                edge.distance,
                point(simplex, &edge),
            ),
        )
    }
}

} // verus!
