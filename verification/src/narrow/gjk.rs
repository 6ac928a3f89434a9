//! The distance algorithm of Gilbert, Johnson and Keerthi in the plane.
//!
//! Two convex shapes overlap where their Minkowski difference holds the
//! origin. The algorithm builds a simplex of support points of the
//! difference, each in the direction from the simplex to the origin, until
//! the simplex holds the origin or a support point shows that the
//! difference does not reach it.
use vstd::prelude::*;
use crate::bound::Bound;
use crate::collide::primitive::{HasAABB, SupportFunction};
use crate::collide::shape::{takes_part, CollisionPrimitive, CollisionShape};
use crate::collide::{CollisionStrategy, Contact};
use crate::narrow::NarrowPhase;
use crate::pose::Interpolate;
use crate::narrow::epa2d::{contact_of, final_polytope, Polytope, EPA2, MAX_ITERATIONS};
use crate::narrow::simplex2d::{is_zero, is_zero_spec, reduce_to_closest_feature, reduced};
use crate::narrow::support::{minkowski_spec, SupportPoint};
use crate::pose::Transform;
use crate::scalar::{Additive, Scalar};
use crate::vector::{Vector2, VectorSpace};

verus! {

/// The distance algorithm in the plane, with the expanding polytope
/// algorithm for the contact manifold.
#[derive(Clone, Copy, Debug)]
pub struct GJK2<S> {
    epa: EPA2<S>,
    continuous_tolerance: S,
}

/// The direction of the first search: from where `left_transform` puts the
/// origin to where `right_transform` puts it; where the two coincide, the
/// direction whose components all are one.
pub open spec fn first_direction<S, TL, TR>(left_transform: &TL, right_transform: &TR) -> Vector2<
    S,
> where S: Scalar, TL: Transform<Vector2<S>>, TR: Transform<Vector2<S>> {
    let d = right_transform.transform_point_spec(Vector2::zero_spec()).minus_spec(
        left_transform.transform_point_spec(Vector2::zero_spec()),
    );
    if is_zero_spec(d) {
        Vector2::from_value_spec(S::one_spec())
    } else {
        d
    }
}

/// The simplex that the search ends with when it starts from `simplex` and
/// `direction` and may take `remaining` support points more; none where the
/// shapes do not overlap or the search runs out of points.
///
/// Each step takes the support point of the difference in the direction.
/// Where the point lies against the direction, the difference does not
/// reach the origin. Else the point joins the simplex, and the simplex is
/// cut down to its feature closest to the origin.
pub open spec fn search<S, SL, TL, SR, TR>(
    simplex: Polytope<S>,
    direction: Vector2<S>,
    left: &SL,
    left_transform: &TL,
    right: &SR,
    right_transform: &TR,
    remaining: nat,
) -> Option<Polytope<S>> where
    S: Scalar,
    TL: Transform<Vector2<S>>,
    TR: Transform<Vector2<S>>,
    SL: SupportFunction<Vector2<S>, TL>,
    SR: SupportFunction<Vector2<S>, TR>,

    decreases remaining,
{
    if remaining == 0 {
        None
    } else {
        let p = minkowski_spec(left, left_transform, right, right_transform, direction);
        if p.v.dot_spec(direction).rank() < S::zero_spec().rank() {
            None
        } else {
            let step = reduced(simplex.push(p), direction);
            if step.contains_origin {
                Some(step.simplex)
            } else {
                search(
                    step.simplex,
                    step.direction,
                    left,
                    left_transform,
                    right,
                    right_transform,
                    (remaining - 1) as nat,
                )
            }
        }
    }
}

/// The result of the overlap test of two primitives: the simplex that
/// holds the origin of their difference, or none.
pub open spec fn intersect_spec<S, SL, TL, SR, TR>(
    left: &SL,
    left_transform: &TL,
    right: &SR,
    right_transform: &TR,
    max_iterations: nat,
) -> Option<Polytope<S>> where
    S: Scalar,
    TL: Transform<Vector2<S>>,
    TR: Transform<Vector2<S>>,
    SL: SupportFunction<Vector2<S>, TL>,
    SR: SupportFunction<Vector2<S>, TR>,
 {
    search(
        Seq::empty(),
        first_direction(left_transform, right_transform),
        left,
        left_transform,
        right,
        right_transform,
        max_iterations,
    )
}

/// The contact of two primitives under a strategy: none where they do not
/// overlap; a contact without manifold for `CollisionOnly`; for
/// `FullResolution` the contact that the expanding polytope gives.
pub open spec fn intersection_spec<S, SL, TL, SR, TR>(
    strategy: CollisionStrategy,
    left: &SL,
    left_transform: &TL,
    right: &SR,
    right_transform: &TR,
    tolerance: S,
    max_iterations: nat,
) -> Option<Contact<Vector2<S>>> where
    S: Scalar,
    TL: Transform<Vector2<S>>,
    TR: Transform<Vector2<S>>,
    SL: SupportFunction<Vector2<S>, TL>,
    SR: SupportFunction<Vector2<S>, TR>,
 {
    match intersect_spec(left, left_transform, right, right_transform, max_iterations) {
        None => None,
        Some(simplex) => match strategy {
            CollisionStrategy::CollisionOnly => Some(
                Contact {
                    strategy: CollisionStrategy::CollisionOnly,
                    normal: Vector2::zero_spec(),
                    penetration_depth: S::zero_spec(),
                    contact_point: Vector2::zero_spec(),
                },
            ),
            CollisionStrategy::FullResolution => if simplex.len() < 3 {
                None
            } else {
                Some(
                    contact_of(
                        final_polytope(
                            simplex,
                            left,
                            left_transform,
                            right,
                            right_transform,
                            tolerance,
                            max_iterations,
                        ),
                    ),
                )
            },
        },
    }
}

impl<S: Scalar> GJK2<S> {
    pub closed spec fn tolerance_spec(&self) -> S {
        self.epa.tolerance_spec()
    }

    /// The width below which the search for the time of impact stops.
    pub closed spec fn continuous_tolerance_spec(&self) -> S {
        self.continuous_tolerance
    }

    /// The cap on the iterations, of the overlap test and of the search
    /// for the contact manifold alike.
    pub closed spec fn max_iterations_spec(&self) -> u32 {
        self.epa.max_iterations_spec()
    }

    /// The algorithm with a cap of `MAX_ITERATIONS` iterations and a
    /// tolerance of a millionth for the contact manifold.
    pub fn new() -> (r: Self)
        ensures
            r.max_iterations_spec() == MAX_ITERATIONS,
            r.tolerance_spec() == crate::narrow::epa2d::default_tolerance::<S>(),
            r.continuous_tolerance_spec() == crate::narrow::epa2d::default_tolerance::<S>(),
    {
        GJK2 {
            epa: EPA2::new(),
            continuous_tolerance: S::one().over(S::from_count(1_000_000)),
        }
    }

    pub fn new_with_settings(continuous_tolerance: S, epa_tolerance: S, max_iterations: u32) -> (r:
        Self)
        ensures
            r.max_iterations_spec() == max_iterations,
            r.tolerance_spec() == epa_tolerance,
            r.continuous_tolerance_spec() == continuous_tolerance,
    {
        GJK2 {
            epa: EPA2::new_with_tolerance(epa_tolerance, max_iterations),
            continuous_tolerance,
        }
    }

    /// Tests two primitives for overlap. Gives the simplex that holds the
    /// origin of their difference, or none where they do not overlap.
    pub fn intersect<SL, TL, SR, TR>(
        &self,
        left: &SL,
        left_transform: &TL,
        right: &SR,
        right_transform: &TR,
    ) -> (r: Option<Vec<SupportPoint<Vector2<S>>>>) where
        TL: Transform<Vector2<S>>,
        TR: Transform<Vector2<S>>,
        SL: SupportFunction<Vector2<S>, TL>,
        SR: SupportFunction<Vector2<S>, TR>,

        ensures
            match r {
                Some(simplex) => Some(simplex@),
                None => None,
            } == intersect_spec(
                left,
                left_transform,
                right,
                right_transform,
                self.max_iterations_spec() as nat,
            ),
    {
        let left_pos = left_transform.transform_point(Vector2::zero());
        let right_pos = right_transform.transform_point(Vector2::zero());
        let mut d = right_pos.minus(left_pos);
        if is_zero(d) {
            d = Vector2::from_value(S::one());
        }
        let mut simplex: Vec<SupportPoint<Vector2<S>>> = Vec::new();
        let mut remaining: u32 = self.epa.max_iterations();
        while remaining > 0
            invariant
                search(
                    simplex@,
                    d,
                    left,
                    left_transform,
                    right,
                    right_transform,
                    remaining as nat,
                ) == intersect_spec(
                    left,
                    left_transform,
                    right,
                    right_transform,
                    self.max_iterations_spec() as nat,
                ),
            decreases remaining,
        {
            let p = SupportPoint::from_minkowski(left, left_transform, right, right_transform, &d);
            if p.v.dot(d).lt(S::zero()) {
                return None;
            }
            simplex.push(p);
            if reduce_to_closest_feature(&mut simplex, &mut d) {
                return Some(simplex);
            }
            remaining -= 1;
        }
        None
    }

    /// The contact of two primitives under `strategy`.
    pub fn intersection<SL, TL, SR, TR>(
        &self,
        strategy: CollisionStrategy,
        left: &SL,
        left_transform: &TL,
        right: &SR,
        right_transform: &TR,
    ) -> (r: Option<Contact<Vector2<S>>>) where
        TL: Transform<Vector2<S>>,
        TR: Transform<Vector2<S>>,
        SL: SupportFunction<Vector2<S>, TL>,
        SR: SupportFunction<Vector2<S>, TR>,

        ensures
            r == intersection_spec(
                strategy,
                left,
                left_transform,
                right,
                right_transform,
                self.tolerance_spec(),
                self.max_iterations_spec() as nat,
            ),
    {
        match self.intersect(left, left_transform, right, right_transform) {
            None => None,
            Some(simplex) => {
                let mut simplex = simplex;
                match strategy {
                    CollisionStrategy::CollisionOnly => Some(
                        Contact::new(CollisionStrategy::CollisionOnly),
                    ),
                    CollisionStrategy::FullResolution => self.epa.process(
                        &mut simplex,
                        left,
                        left_transform,
                        right,
                        right_transform,
                    ),
                }
            },
        }
    }
}

/// The strategy for a pair of shapes: full resolution only where both
/// shapes ask for it.
pub open spec fn pair_strategy(left: CollisionStrategy, right: CollisionStrategy)
    -> CollisionStrategy {
    if left == CollisionStrategy::CollisionOnly || right == CollisionStrategy::CollisionOnly {
        CollisionStrategy::CollisionOnly
    } else {
        CollisionStrategy::FullResolution
    }
}

/// The deeper of two contacts; the first where neither is deeper.
pub open spec fn deeper<S: Scalar>(
    first: Option<Contact<Vector2<S>>>,
    second: Option<Contact<Vector2<S>>>,
) -> Option<Contact<Vector2<S>>> {
    match (first, second) {
        (None, _) => second,
        (_, None) => first,
        (Some(a), Some(b)) => if a.penetration_depth.rank() < b.penetration_depth.rank() {
            second
        } else {
            first
        },
    }
}

fn deeper_of<S: Scalar>(
    first: Option<Contact<Vector2<S>>>,
    second: Option<Contact<Vector2<S>>>,
) -> (r: Option<Contact<Vector2<S>>>)
    ensures
        r == deeper(first, second),
{
    match (first, second) {
        (None, _) => second,
        (_, None) => first,
        (Some(a), Some(b)) => if a.penetration_depth.lt(b.penetration_depth) {
            second
        } else {
            first
        },
    }
}

/// The deepest contact of one primitive of the left shape with the first
/// `count` primitives of the right shape.
pub open spec fn deepest_with<S, P, T>(
    strategy: CollisionStrategy,
    left: &CollisionPrimitive<P, T>,
    left_transform: &T,
    rights: Seq<CollisionPrimitive<P, T>>,
    right_transform: &T,
    tolerance: S,
    max_iterations: nat,
    count: int,
) -> Option<Contact<Vector2<S>>> where
    S: Scalar,
    P: HasAABB + SupportFunction<Vector2<S>, T>,
    P::Aabb: Bound<Point = Vector2<S>>,
    T: Transform<Vector2<S>>,

    decreases count,
{
    if count <= 0 {
        None
    } else {
        deeper(
            deepest_with(
                strategy,
                left,
                left_transform,
                rights,
                right_transform,
                tolerance,
                max_iterations,
                count - 1,
            ),
            intersection_spec(
                strategy,
                left,
                left_transform,
                &rights[count - 1],
                right_transform,
                tolerance,
                max_iterations,
            ),
        )
    }
}

/// The deepest contact of the first `count` primitives of the left shape
/// with the primitives of the right shape.
pub open spec fn deepest_among<S, P, T>(
    strategy: CollisionStrategy,
    lefts: Seq<CollisionPrimitive<P, T>>,
    left_transform: &T,
    rights: Seq<CollisionPrimitive<P, T>>,
    right_transform: &T,
    tolerance: S,
    max_iterations: nat,
    count: int,
) -> Option<Contact<Vector2<S>>> where
    S: Scalar,
    P: HasAABB + SupportFunction<Vector2<S>, T>,
    P::Aabb: Bound<Point = Vector2<S>>,
    T: Transform<Vector2<S>>,

    decreases count,
{
    if count <= 0 {
        None
    } else {
        deeper(
            deepest_among(
                strategy,
                lefts,
                left_transform,
                rights,
                right_transform,
                tolerance,
                max_iterations,
                count - 1,
            ),
            deepest_with(
                strategy,
                &lefts[count - 1],
                left_transform,
                rights,
                right_transform,
                tolerance,
                max_iterations,
                rights.len() as int,
            ),
        )
    }
}

/// The deepest of the contacts of the primitives of the one shape with the
/// primitives of the other, the first such where several are as deep; none
/// where a shape takes no part or no primitives overlap.
pub open spec fn shapes_contact<S, P, T>(
    left: &CollisionShape<P, T>,
    left_transform: &T,
    right: &CollisionShape<P, T>,
    right_transform: &T,
    tolerance: S,
    max_iterations: nat,
) -> Option<Contact<Vector2<S>>> where
    S: Scalar,
    P: HasAABB + SupportFunction<Vector2<S>, T>,
    P::Aabb: Bound<Point = Vector2<S>>,
    T: Transform<Vector2<S>>,
 {
    if !takes_part(left) || !takes_part(right) {
        None
    } else {
        deepest_among(
            pair_strategy(left.strategy_spec(), right.strategy_spec()),
            left.primitives_spec(),
            left_transform,
            right.primitives_spec(),
            right_transform,
            tolerance,
            max_iterations,
            left.primitives_spec().len() as int,
        )
    }
}

/// Whether the overlap test finds that the primitive `i` of the one list
/// and the primitive `j` of the other overlap.
pub open spec fn primitives_overlap<S, P, T>(
    lefts: Seq<CollisionPrimitive<P, T>>,
    left_transform: &T,
    rights: Seq<CollisionPrimitive<P, T>>,
    right_transform: &T,
    max_iterations: nat,
    i: int,
    j: int,
) -> bool where
    S: Scalar,
    P: HasAABB + SupportFunction<Vector2<S>, T>,
    P::Aabb: Bound<Point = Vector2<S>>,
    T: Transform<Vector2<S>>,
 {
    0 <= i < lefts.len() && 0 <= j < rights.len() && intersect_spec(
        &lefts[i],
        left_transform,
        &rights[j],
        right_transform,
        max_iterations,
    ) is Some
}

proof fn lemma_deepest_with_overlaps<S, P, T>(
    strategy: CollisionStrategy,
    lefts: Seq<CollisionPrimitive<P, T>>,
    i: int,
    left_transform: &T,
    rights: Seq<CollisionPrimitive<P, T>>,
    right_transform: &T,
    tolerance: S,
    max_iterations: nat,
    count: int,
) where
    S: Scalar,
    P: HasAABB + SupportFunction<Vector2<S>, T>,
    P::Aabb: Bound<Point = Vector2<S>>,
    T: Transform<Vector2<S>>,

    requires
        0 <= i < lefts.len(),
        0 <= count <= rights.len(),
        deepest_with(
            strategy,
            &lefts[i],
            left_transform,
            rights,
            right_transform,
            tolerance,
            max_iterations,
            count,
        ) is Some,
    ensures
        exists|j: int| #[trigger]
            primitives_overlap(
                lefts,
                left_transform,
                rights,
                right_transform,
                max_iterations,
                i,
                j,
            ),
    decreases count,
{
    if count > 0 {
        if intersection_spec(
            strategy,
            &lefts[i],
            left_transform,
            &rights[count - 1],
            right_transform,
            tolerance,
            max_iterations,
        ) is Some {
            assert(primitives_overlap(
                lefts,
                left_transform,
                rights,
                right_transform,
                max_iterations,
                i,
                count - 1,
            ));
        } else {
            lemma_deepest_with_overlaps(
                strategy,
                lefts,
                i,
                left_transform,
                rights,
                right_transform,
                tolerance,
                max_iterations,
                count - 1,
            );
        }
    }
}

proof fn lemma_deepest_among_overlaps<S, P, T>(
    strategy: CollisionStrategy,
    lefts: Seq<CollisionPrimitive<P, T>>,
    left_transform: &T,
    rights: Seq<CollisionPrimitive<P, T>>,
    right_transform: &T,
    tolerance: S,
    max_iterations: nat,
    count: int,
) where
    S: Scalar,
    P: HasAABB + SupportFunction<Vector2<S>, T>,
    P::Aabb: Bound<Point = Vector2<S>>,
    T: Transform<Vector2<S>>,

    requires
        0 <= count <= lefts.len(),
        deepest_among(
            strategy,
            lefts,
            left_transform,
            rights,
            right_transform,
            tolerance,
            max_iterations,
            count,
        ) is Some,
    ensures
        exists|i: int, j: int| #[trigger]
            primitives_overlap(
                lefts,
                left_transform,
                rights,
                right_transform,
                max_iterations,
                i,
                j,
            ),
    decreases count,
{
    if count > 0 {
        if deepest_with(
            strategy,
            &lefts[count - 1],
            left_transform,
            rights,
            right_transform,
            tolerance,
            max_iterations,
            rights.len() as int,
        ) is Some {
            lemma_deepest_with_overlaps(
                strategy,
                lefts,
                count - 1,
                left_transform,
                rights,
                right_transform,
                tolerance,
                max_iterations,
                rights.len() as int,
            );
        } else {
            lemma_deepest_among_overlaps(
                strategy,
                lefts,
                left_transform,
                rights,
                right_transform,
                tolerance,
                max_iterations,
                count - 1,
            );
        }
    }
}

/// Where two shapes have a contact, both take part in collision detection,
/// and the overlap test has found a simplex that holds the origin for a
/// primitive of the one and a primitive of the other.
pub proof fn lemma_contact_needs_overlap<S, P, T>(
    left: &CollisionShape<P, T>,
    left_transform: &T,
    right: &CollisionShape<P, T>,
    right_transform: &T,
    tolerance: S,
    max_iterations: nat,
) where
    S: Scalar,
    P: HasAABB + SupportFunction<Vector2<S>, T>,
    P::Aabb: Bound<Point = Vector2<S>>,
    T: Transform<Vector2<S>>,

    requires
        shapes_contact(left, left_transform, right, right_transform, tolerance, max_iterations)
            is Some,
    ensures
        takes_part(left),
        takes_part(right),
        exists|i: int, j: int| #[trigger]
            primitives_overlap(
                left.primitives_spec(),
                left_transform,
                right.primitives_spec(),
                right_transform,
                max_iterations,
                i,
                j,
            ),
{
    lemma_deepest_among_overlaps(
        pair_strategy(left.strategy_spec(), right.strategy_spec()),
        left.primitives_spec(),
        left_transform,
        right.primitives_spec(),
        right_transform,
        tolerance,
        max_iterations,
        left.primitives_spec().len() as int,
    );
}

/// The time within the frame, from zero to one, that the bisection of the
/// span from `lo` to `hi` ends with.
///
/// The bisection stops where the span is narrower than `tolerance` or no
/// step is left, and gives the upper end. Else it looks at the middle of
/// the span: where the shapes collide there, it goes on with the lower
/// half, and else with the upper.
pub open spec fn bisected<S, P, T>(
    left: &CollisionShape<P, T>,
    left_start: &T,
    left_end: &T,
    right: &CollisionShape<P, T>,
    right_start: &T,
    right_end: &T,
    lo: S,
    hi: S,
    tolerance: S,
    max_iterations: nat,
    span_tolerance: S,
    remaining: nat,
) -> S where
    S: Scalar,
    P: HasAABB + SupportFunction<Vector2<S>, T>,
    P::Aabb: Bound<Point = Vector2<S>>,
    T: Transform<Vector2<S>> + Interpolate<S>,

    decreases remaining,
{
    if remaining == 0 || hi.minus_spec(lo).rank() < span_tolerance.rank() {
        hi
    } else {
        let mid = lo.plus_spec(hi).over_spec(S::one_spec().plus_spec(S::one_spec()));
        if shapes_contact(
            left,
            &left_start.interpolate_spec(left_end, mid),
            right,
            &right_start.interpolate_spec(right_end, mid),
            tolerance,
            max_iterations,
        ) is Some {
            bisected(
                left,
                left_start,
                left_end,
                right,
                right_start,
                right_end,
                lo,
                mid,
                tolerance,
                max_iterations,
                span_tolerance,
                (remaining - 1) as nat,
            )
        } else {
            bisected(
                left,
                left_start,
                left_end,
                right,
                right_start,
                right_end,
                mid,
                hi,
                tolerance,
                max_iterations,
                span_tolerance,
                (remaining - 1) as nat,
            )
        }
    }
}

impl<S, P, T> NarrowPhase<P, T> for GJK2<S> where
    S: Scalar,
    P: HasAABB + SupportFunction<Vector2<S>, T>,
    P::Aabb: Bound<Point = Vector2<S>>,
    T: Transform<Vector2<S>> + Interpolate<S>,
 {
    open spec fn collide_spec(
        &self,
        left: &CollisionShape<P, T>,
        left_transform: &T,
        right: &CollisionShape<P, T>,
        right_transform: &T,
    ) -> Option<Contact<Vector2<S>>> {
        shapes_contact(
            left,
            left_transform,
            right,
            right_transform,
            self.tolerance_spec(),
            self.max_iterations_spec() as nat,
        )
    }

    /// The contact at the time of impact that the bisection of the frame
    /// gives.
    open spec fn collide_continuous_spec(
        &self,
        left: &CollisionShape<P, T>,
        left_start: &T,
        left_end: &T,
        right: &CollisionShape<P, T>,
        right_start: &T,
        right_end: &T,
    ) -> Option<Contact<Vector2<S>>> {
        let t = bisected(
            left,
            left_start,
            left_end,
            right,
            right_start,
            right_end,
            S::zero_spec(),
            S::one_spec(),
            self.tolerance_spec(),
            self.max_iterations_spec() as nat,
            self.continuous_tolerance_spec(),
            self.max_iterations_spec() as nat,
        );
        shapes_contact(
            left,
            &left_start.interpolate_spec(left_end, t),
            right,
            &right_start.interpolate_spec(right_end, t),
            self.tolerance_spec(),
            self.max_iterations_spec() as nat,
        )
    }

    fn collide(
        &self,
        left: &CollisionShape<P, T>,
        left_transform: &T,
        right: &CollisionShape<P, T>,
        right_transform: &T,
    ) -> (r: Option<Contact<Vector2<S>>>) {
        let lefts = left.primitives();
        let rights = right.primitives();
        if !left.takes_part() || !right.takes_part() {
            return None;
        }
        let strategy = match (left.strategy(), right.strategy()) {
            (CollisionStrategy::FullResolution, CollisionStrategy::FullResolution) => {
                CollisionStrategy::FullResolution
            },
            _ => CollisionStrategy::CollisionOnly,
        };
        let mut best: Option<Contact<Vector2<S>>> = None;
        let mut i: usize = 0;
        while i < lefts.len()
            invariant
                i <= lefts@.len(),
                strategy == pair_strategy(left.strategy_spec(), right.strategy_spec()),
                lefts@ == left.primitives_spec(),
                rights@ == right.primitives_spec(),
                best == deepest_among(
                    strategy,
                    lefts@,
                    left_transform,
                    rights@,
                    right_transform,
                    self.tolerance_spec(),
                    self.max_iterations_spec() as nat,
                    i as int,
                ),
            decreases lefts@.len() - i,
        {
            let mut row: Option<Contact<Vector2<S>>> = None;
            let mut j: usize = 0;
            while j < rights.len()
                invariant
                    i < lefts@.len(),
                    j <= rights@.len(),
                    row == deepest_with(
                        strategy,
                        &lefts@[i as int],
                        left_transform,
                        rights@,
                        right_transform,
                        self.tolerance_spec(),
                        self.max_iterations_spec() as nat,
                        j as int,
                    ),
                decreases rights@.len() - j,
            {
                let contact = self.intersection(
                    strategy,
                    &lefts[i],
                    left_transform,
                    &rights[j],
                    right_transform,
                );
                row = deeper_of(row, contact);
                j += 1;
            }
            best = deeper_of(best, row);
            i += 1;
        }
        best
    }

    fn collide_continuous(
        &self,
        left: &CollisionShape<P, T>,
        left_start: &T,
        left_end: Option<&T>,
        right: &CollisionShape<P, T>,
        right_start: &T,
        right_end: Option<&T>,
    ) -> (r: Option<Contact<Vector2<S>>>) {
        if left_end.is_none() && right_end.is_none() {
            return self.collide(left, left_start, right, right_start);
        }
        if !left.takes_part() || !right.takes_part() {
            return None;
        }
        let left_end: &T = match left_end {
            Some(end) => end,
            None => left_start,
        };
        let right_end: &T = match right_end {
            Some(end) => end,
            None => right_start,
        };
        let two = S::one().plus(S::one());
        let mut lo = S::zero();
        let mut hi = S::one();
        let mut remaining: u32 = self.epa.max_iterations();
        while remaining > 0 && !hi.minus(lo).lt(self.continuous_tolerance)
            invariant
                bisected(
                    left,
                    left_start,
                    left_end,
                    right,
                    right_start,
                    right_end,
                    lo,
                    hi,
                    self.tolerance_spec(),
                    self.max_iterations_spec() as nat,
                    self.continuous_tolerance_spec(),
                    remaining as nat,
                ) == bisected(
                    left,
                    left_start,
                    left_end,
                    right,
                    right_start,
                    right_end,
                    S::zero_spec(),
                    S::one_spec(),
                    self.tolerance_spec(),
                    self.max_iterations_spec() as nat,
                    self.continuous_tolerance_spec(),
                    self.max_iterations_spec() as nat,
                ),
                two == S::one_spec().plus_spec(S::one_spec()),
            decreases remaining,
        {
            let mid = lo.plus(hi).over(two);
            let left_mid = left_start.interpolate(left_end, mid);
            let right_mid = right_start.interpolate(right_end, mid);
            if self.collide(left, &left_mid, right, &right_mid).is_some() {
                hi = mid;
            } else {
                lo = mid;
            }
            remaining -= 1;
        }
        let left_hit = left_start.interpolate(left_end, hi);
        let right_hit = right_start.interpolate(right_end, hi);
        self.collide(left, &left_hit, right, &right_hit)
    }
}

} // verus!
