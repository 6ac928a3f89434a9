//! The variance of the centers of a batch of bounds, axis by axis.
//!
//! Sweep and prune sorts along the axis on which the centers of the bounds
//! vary most. With `c` the center of a bound along an axis and `n` the size
//! of the batch, the variance along that axis is taken as
//! `sum(c * c) - sum(c) * sum(c) / n`.
use vstd::prelude::*;
use crate::bound::{Aabb2, Aabb3, Bound, Extent};
use crate::scalar::{Additive, Scalar};
use crate::vector::{Vector2, Vector3};

verus! {

/// The scalar two: one plus one.
pub open spec fn two_spec<S: Scalar>() -> S {
    S::one_spec().plus_spec(S::one_spec())
}

/// The center of a bound along `axis`: half the sum of its two ends.
pub open spec fn center_spec<B: Extent>(bound: &B, axis: int) -> B::Scalar {
    bound.lower(axis).plus_spec(bound.upper(axis)).over_spec(two_spec())
}

/// The sum of the centers of `bounds` along `axis`, added up from the first
/// bound on, starting at zero.
pub open spec fn center_sum<B: Extent>(bounds: Seq<B>, axis: int) -> B::Scalar
    decreases bounds.len(),
{
    if bounds.len() == 0 {
        B::Scalar::zero_spec()
    } else {
        center_sum(bounds.drop_last(), axis).plus_spec(center_spec(&bounds.last(), axis))
    }
}

/// The sum of the squared centers of `bounds` along `axis`.
pub open spec fn center_square_sum<B: Extent>(bounds: Seq<B>, axis: int) -> B::Scalar
    decreases bounds.len(),
{
    if bounds.len() == 0 {
        B::Scalar::zero_spec()
    } else {
        center_square_sum(bounds.drop_last(), axis).plus_spec(
            center_spec(&bounds.last(), axis).times_spec(center_spec(&bounds.last(), axis)),
        )
    }
}

/// The variance from a sum, a sum of squares and a count:
/// `square_sum - sum * sum / n`.
pub open spec fn variance_of<S: Scalar>(sum: S, square_sum: S, n: S) -> S {
    square_sum.minus_spec(sum.times_spec(sum).over_spec(n))
}

/// The variance of the centers of `bounds` along `axis`, for a count `n`.
pub open spec fn variance_spec<B: Extent>(bounds: Seq<B>, n: B::Scalar, axis: int) -> B::Scalar {
    variance_of(center_sum(bounds, axis), center_square_sum(bounds, axis), n)
}

/// The first axis among the first `axes` whose variance no other of them
/// exceeds.
pub open spec fn widest_axis<B: Extent>(bounds: Seq<B>, n: B::Scalar, axes: int) -> int
    decreases axes,
{
    if axes <= 1 {
        0
    } else {
        let best = widest_axis(bounds, n, axes - 1);
        if variance_spec(bounds, n, axes - 1).rank() > variance_spec(bounds, n, best).rank() {
            axes - 1
        } else {
            best
        }
    }
}

/// The widest axis is an axis, and no axis has a greater variance.
pub proof fn lemma_widest_axis_is_greatest<B: Extent>(
    bounds: Seq<B>,
    n: B::Scalar,
    axes: int,
    axis: int,
)
    requires
        0 <= axis < axes,
    ensures
        0 <= widest_axis(bounds, n, axes) < axes,
        variance_spec(bounds, n, axis).rank() <= variance_spec(
            bounds,
            n,
            widest_axis(bounds, n, axes),
        ).rank(),
    decreases axes,
{
    if axes > 1 {
        if axis < axes - 1 {
            lemma_widest_axis_is_greatest(bounds, n, axes - 1, axis);
        } else {
            lemma_widest_axis_is_greatest(bounds, n, axes - 1, 0);
        }
    }
}

/// Where the centers vary more along `axis` than along any other axis,
/// `axis` is the widest axis.
pub proof fn lemma_widest_axis_of_dominant<B: Extent>(
    bounds: Seq<B>,
    n: B::Scalar,
    axes: int,
    axis: int,
)
    requires
        0 <= axis < axes,
        forall|other: int|
            0 <= other < axes && other != axis ==> variance_spec(bounds, n, other).rank()
                < variance_spec(bounds, n, axis).rank(),
    ensures
        widest_axis(bounds, n, axes) == axis,
{
    lemma_widest_axis_is_greatest(bounds, n, axes, axis);
}

/// An accumulator of the sums from which the variance is taken.
pub trait Variance: Sized {
    type Bound: Bound;

    /// Whether the accumulator holds the sums over exactly `bounds`.
    spec fn holds(&self, bounds: Seq<Self::Bound>) -> bool;

    fn new() -> (r: Self)
        ensures
            r.holds(Seq::empty()),
    ;

    /// Forgets what was added.
    fn clear(&mut self)
        ensures
            final(self).holds(Seq::empty()),
    ;

    /// Adds the center of one more bound to the sums.
    fn add_to_sum(&mut self, bound: &Self::Bound)
        ensures
            forall|bounds: Seq<Self::Bound>|
                old(self).holds(bounds) ==> final(self).holds(#[trigger] bounds.push(*bound)),
    ;

    /// The axis along which the centers of what was added vary most, with
    /// the variance along it, for a batch of `n` bounds.
    fn compute_axis(&self, n: <Self::Bound as Extent>::Scalar) -> (r: (
        usize,
        <Self::Bound as Extent>::Scalar,
    ))
        ensures
            r.0 < Self::Bound::dimensions(),
            forall|bounds: Seq<Self::Bound>| #[trigger]
                self.holds(bounds) ==> r.0 == widest_axis(
                    bounds,
                    n,
                    Self::Bound::dimensions() as int,
                ) && r.1 == variance_spec(bounds, n, r.0 as int),
    ;
}

/// The variance accumulator of the plane.
pub struct Variance2D<S> {
    csum: Vector2<S>,
    csumsq: Vector2<S>,
}

/// The variance accumulator of space.
pub struct Variance3D<S> {
    csum: Vector3<S>,
    csumsq: Vector3<S>,
}

fn two<S: Scalar>() -> (r: S)
    ensures
        r == two_spec::<S>(),
{
    S::one().plus(S::one())
}

impl<S: Scalar> Variance2D<S> {
    /// The sum of the centers along `axis`.
    pub closed spec fn sum(&self, axis: int) -> S {
        self.csum.component_spec(axis)
    }

    /// The sum of the squared centers along `axis`.
    pub closed spec fn square_sum(&self, axis: int) -> S {
        self.csumsq.component_spec(axis)
    }
}

impl<S: Scalar> Variance for Variance2D<S> {
    type Bound = Aabb2<S>;

    open spec fn holds(&self, bounds: Seq<Aabb2<S>>) -> bool {
        forall|axis: int|
            0 <= axis < 2 ==> #[trigger] self.sum(axis) == center_sum(bounds, axis)
                && self.square_sum(axis) == center_square_sum(bounds, axis)
    }

    fn new() -> (r: Self) {
        Variance2D { csum: Vector2::zero(), csumsq: Vector2::zero() }
    }

    fn clear(&mut self) {
        self.csum = Vector2::zero();
        self.csumsq = Vector2::zero();
    }

    fn add_to_sum(&mut self, bound: &Aabb2<S>) {
        let half = two::<S>();
        let cx = bound.min.x.plus(bound.max.x).over(half);
        let cy = bound.min.y.plus(bound.max.y).over(half);
        self.csum = Vector2 { x: self.csum.x.plus(cx), y: self.csum.y.plus(cy) };
        self.csumsq = Vector2 {
            x: self.csumsq.x.plus(cx.times(cx)),
            y: self.csumsq.y.plus(cy.times(cy)),
        };
        proof {
            assert forall|bounds: Seq<Aabb2<S>>| old(self).holds(bounds) implies self.holds(
                #[trigger] bounds.push(*bound),
            ) by {
                let longer = bounds.push(*bound);
                assert(longer.drop_last() =~= bounds);
                assert(longer.last() == *bound);
                assert(old(self).sum(0) == center_sum(bounds, 0));
                assert(old(self).sum(1) == center_sum(bounds, 1));
                assert(self.sum(0) == center_sum(longer, 0));
                assert(self.sum(1) == center_sum(longer, 1));
                assert(self.square_sum(0) == center_square_sum(longer, 0));
                assert(self.square_sum(1) == center_square_sum(longer, 1));
            }
        }
    }

    fn compute_axis(&self, n: S) -> (r: (usize, S)) {
        let vx = self.csumsq.x.minus(self.csum.x.times(self.csum.x).over(n));
        let vy = self.csumsq.y.minus(self.csum.y.times(self.csum.y).over(n));
        let mut sweep_axis: usize = 0;
        let mut sweep_variance = vx;
        if sweep_variance.lt(vy) {
            sweep_axis = 1;
            sweep_variance = vy;
        }
        proof {
            assert forall|bounds: Seq<Aabb2<S>>| #[trigger] self.holds(bounds) implies sweep_axis
                == widest_axis(bounds, n, 2) && sweep_variance == variance_spec(
                bounds,
                n,
                sweep_axis as int,
            ) by {
                assert(self.sum(0) == center_sum(bounds, 0));
                assert(self.sum(1) == center_sum(bounds, 1));
                assert(widest_axis(bounds, n, 1) == 0);
            }
        }
        (sweep_axis, sweep_variance)
    }
}

impl<S: Scalar> Variance3D<S> {
    /// The sum of the centers along `axis`.
    pub closed spec fn sum(&self, axis: int) -> S {
        self.csum.component_spec(axis)
    }

    /// The sum of the squared centers along `axis`.
    pub closed spec fn square_sum(&self, axis: int) -> S {
        self.csumsq.component_spec(axis)
    }
}

impl<S: Scalar> Variance for Variance3D<S> {
    type Bound = Aabb3<S>;

    open spec fn holds(&self, bounds: Seq<Aabb3<S>>) -> bool {
        forall|axis: int|
            0 <= axis < 3 ==> #[trigger] self.sum(axis) == center_sum(bounds, axis)
                && self.square_sum(axis) == center_square_sum(bounds, axis)
    }

    fn new() -> (r: Self) {
        Variance3D { csum: Vector3::zero(), csumsq: Vector3::zero() }
    }

    fn clear(&mut self) {
        self.csum = Vector3::zero();
        self.csumsq = Vector3::zero();
    }

    fn add_to_sum(&mut self, bound: &Aabb3<S>) {
        let half = two::<S>();
        let cx = bound.min.x.plus(bound.max.x).over(half);
        let cy = bound.min.y.plus(bound.max.y).over(half);
        let cz = bound.min.z.plus(bound.max.z).over(half);
        self.csum = Vector3 {
            x: self.csum.x.plus(cx),
            y: self.csum.y.plus(cy),
            z: self.csum.z.plus(cz),
        };
        self.csumsq = Vector3 {
            x: self.csumsq.x.plus(cx.times(cx)),
            y: self.csumsq.y.plus(cy.times(cy)),
            z: self.csumsq.z.plus(cz.times(cz)),
        };
        proof {
            assert forall|bounds: Seq<Aabb3<S>>| old(self).holds(bounds) implies self.holds(
                #[trigger] bounds.push(*bound),
            ) by {
                let longer = bounds.push(*bound);
                assert(longer.drop_last() =~= bounds);
                assert(longer.last() == *bound);
                assert(old(self).sum(0) == center_sum(bounds, 0));
                assert(old(self).sum(1) == center_sum(bounds, 1));
                assert(old(self).sum(2) == center_sum(bounds, 2));
                assert(self.sum(0) == center_sum(longer, 0));
                assert(self.sum(1) == center_sum(longer, 1));
                assert(self.sum(2) == center_sum(longer, 2));
                assert(self.square_sum(0) == center_square_sum(longer, 0));
                assert(self.square_sum(1) == center_square_sum(longer, 1));
                assert(self.square_sum(2) == center_square_sum(longer, 2));
            }
        }
    }

    fn compute_axis(&self, n: S) -> (r: (usize, S)) {
        let vx = self.csumsq.x.minus(self.csum.x.times(self.csum.x).over(n));
        let vy = self.csumsq.y.minus(self.csum.y.times(self.csum.y).over(n));
        let vz = self.csumsq.z.minus(self.csum.z.times(self.csum.z).over(n));
        let mut sweep_axis: usize = 0;
        let mut sweep_variance = vx;
        if sweep_variance.lt(vy) {
            sweep_axis = 1;
            sweep_variance = vy;
        }
        if sweep_variance.lt(vz) {
            sweep_axis = 2;
            sweep_variance = vz;
        }
        proof {
            assert forall|bounds: Seq<Aabb3<S>>| #[trigger] self.holds(bounds) implies sweep_axis
                == widest_axis(bounds, n, 3) && sweep_variance == variance_spec(
                bounds,
                n,
                sweep_axis as int,
            ) by {
                assert(self.sum(0) == center_sum(bounds, 0));
                assert(self.sum(1) == center_sum(bounds, 1));
                assert(self.sum(2) == center_sum(bounds, 2));
                assert(widest_axis(bounds, n, 1) == 0);
                assert(widest_axis(bounds, n, 2) == if variance_spec(bounds, n, 1).rank()
                    > variance_spec(bounds, n, 0).rank() {
                    1int
                } else {
                    0int
                });
            }
        }
        (sweep_axis, sweep_variance)
    }
}

} // verus!
