//! The library over single precision floating point numbers.

use rhusics::bound::{Aabb2, Aabb3, Bound};
use rhusics::broad::{
    BroadCollisionInfo, BroadPhase, BruteForce, SweepAndPrune, Variance, Variance2D, Variance3D,
};
use rhusics::collide::{
    CollisionPrimitive, CollisionShape, CollisionStrategy, Contact, ContactEvent, ContactSet,
    ContinuousTransformed, Cuboid, DiscreteTransformed, HasAABB, Rectangle, SupportFunction,
};
use rhusics::narrow::epa3d::EPA3;
use rhusics::narrow::simplex3d::reduce_to_closest_feature as reduce;
use rhusics::narrow::GJK3;
use rhusics::narrow::epa2d::{closest_edge, point, Edge, EPA2};
use rhusics::narrow::simplex2d::reduce_to_closest_feature;
use rhusics::narrow::{NarrowPhase, SupportPoint, GJK2};
use rhusics::physics::body::{ApplyAngular, Inertia};
use rhusics::physics::{
    next_frame_integration, next_frame_pose, resolve_contact, ForceAccumulator, Mass, Material,
    ResolveData, Velocity,
};
use rhusics::pose::{BodyPose, Interpolate, NextFrame, Rotation, Transform, TranslationInterpolate};
use rhusics::rotation::NoRotation;
use rhusics::scalar::{Additive, Scalar};
use rhusics::systems::BasicCollisionSystem;
use rhusics::vector::{lerp, triple_product, Cross, Vector2, Vector3, VectorSpace};

/// A single precision scalar. It ranks by the order of the numbers, the
/// two zeros alike; what is not a number ranks with infinity.
#[derive(Clone, Copy, Debug, PartialEq)]
struct Real(f32);

impl Additive for Real {
    fn zero_spec() -> Self {
        Real(0.)
    }

    fn plus_spec(self, rhs: Self) -> Self {
        Real(self.0 + rhs.0)
    }

    fn zero() -> Self {
        Real(0.)
    }

    fn plus(self, rhs: Self) -> Self {
        Real(self.0 + rhs.0)
    }
}

impl Scalar for Real {
    fn rank(self) -> i64 {
        if self.0.is_nan() {
            return Real(f32::INFINITY).rank();
        }
        let bits = self.0.to_bits() as i32;
        if bits >= 0 {
            bits as i64
        } else {
            -((bits & i32::MAX) as i64)
        }
    }

    fn one_spec() -> Self {
        Real(1.)
    }

    fn infinity_spec() -> Self {
        Real(f32::INFINITY)
    }

    fn from_count_spec(n: usize) -> Self {
        Real(n as f32)
    }

    fn minus_spec(self, rhs: Self) -> Self {
        Real(self.0 - rhs.0)
    }

    fn times_spec(self, rhs: Self) -> Self {
        Real(self.0 * rhs.0)
    }

    fn over_spec(self, rhs: Self) -> Self {
        Real(self.0 / rhs.0)
    }

    fn negated_spec(self) -> Self {
        Real(-self.0)
    }

    fn root_spec(self) -> Self {
        Real(self.0.sqrt())
    }

    fn one() -> Self {
        Real(1.)
    }

    fn infinity() -> Self {
        Real(f32::INFINITY)
    }

    fn from_count(n: usize) -> Self {
        Real(n as f32)
    }

    fn minus(self, rhs: Self) -> Self {
        Real(self.0 - rhs.0)
    }

    fn times(self, rhs: Self) -> Self {
        Real(self.0 * rhs.0)
    }

    fn over(self, rhs: Self) -> Self {
        Real(self.0 / rhs.0)
    }

    fn negated(self) -> Self {
        Real(-self.0)
    }

    fn root(self) -> Self {
        Real(self.0.sqrt())
    }

    fn lt(self, rhs: Self) -> bool {
        self.rank() < rhs.rank()
    }
}

/// A rotation of the plane by an angle in radians.
#[derive(Clone, Copy, Debug, PartialEq)]
struct Basis2(f32);

impl Rotation<Vector2<Real>> for Basis2 {
    fn one_spec() -> Self {
        Basis2(0.)
    }

    fn invert_spec(self) -> Self {
        Basis2(-self.0)
    }

    fn rotate_spec(self, v: Vector2<Real>) -> Vector2<Real> {
        let (s, c) = self.0.sin_cos();
        Vector2::new(Real(c * v.x.0 - s * v.y.0), Real(s * v.x.0 + c * v.y.0))
    }

    fn compose_spec(self, rhs: Self) -> Self {
        Basis2(self.0 + rhs.0)
    }

    fn interpolate_spec(self, other: Self, amount: Real) -> Self {
        Basis2(self.0 + (other.0 - self.0) * amount.0)
    }

    fn look_at_spec(direction: Vector2<Real>, _up: Vector2<Real>) -> Self {
        Basis2(direction.y.0.atan2(direction.x.0))
    }

    fn one() -> Self {
        Self::one_spec()
    }

    fn invert(self) -> Self {
        self.invert_spec()
    }

    fn rotate_vector(self, v: Vector2<Real>) -> Vector2<Real> {
        self.rotate_spec(v)
    }

    fn compose(self, rhs: Self) -> Self {
        self.compose_spec(rhs)
    }

    fn interpolate(self, other: Self, amount: Real) -> Self {
        self.interpolate_spec(other, amount)
    }

    fn look_at(direction: Vector2<Real>, up: Vector2<Real>) -> Self {
        Self::look_at_spec(direction, up)
    }
}

impl ApplyAngular<Real, Real> for Basis2 {
    fn apply_spec(&self, velocity: Real, dt: Real) -> Self {
        Basis2(self.0 + velocity.0 * dt.0)
    }

    fn apply(&self, velocity: &Real, dt: Real) -> Self {
        self.apply_spec(*velocity, dt)
    }
}

type BodyPose2 = BodyPose<Vector2<Real>, Basis2>;
type BodyPose3 = BodyPose<Vector3<Real>, NoRotation>;

fn rectangle(dim_x: f32, dim_y: f32) -> Rectangle<Real> {
    Rectangle::new(Real(dim_x), Real(dim_y))
}

fn v2(x: f32, y: f32) -> Vector2<Real> {
    Vector2::new(Real(x), Real(y))
}

fn v3(x: f32, y: f32, z: f32) -> Vector3<Real> {
    Vector3::new(Real(x), Real(y), Real(z))
}

fn coll(id: u32, min_x: f32, min_y: f32, max_x: f32, max_y: f32) -> BroadCollisionInfo<u32, Aabb2<Real>> {
    BroadCollisionInfo::new(id, bound(min_x, min_y, max_x, max_y))
}

fn bound(min_x: f32, min_y: f32, max_x: f32, max_y: f32) -> Aabb2<Real> {
    Aabb2::new(v2(min_x, min_y), v2(max_x, max_y))
}

fn sup(x: f32, y: f32) -> SupportPoint<Vector2<Real>> {
    let mut s = SupportPoint::new();
    s.v = v2(x, y);
    s
}

fn transform(x: f32, y: f32, angle: f32) -> BodyPose2 {
    BodyPose2::new(v2(x, y), Basis2(angle))
}

fn approx_eq(a: f32, b: f32) -> bool {
    (a - b).abs() < 1.0e-6
}

fn ulps_eq(a: f32, b: f32) -> bool {
    a == b || (a.to_bits() as i64 - b.to_bits() as i64).abs() <= 4
}

// Brute force.

#[test]
fn brute_force_no_intersection_for_miss() {
    let left = coll(1, 8., 8., 10., 11.);

    let right = coll(2, 12., 13., 18., 18.);

    let mut brute = BruteForce::default();
    let potentials = brute.compute(&mut vec![left, right]);
    assert_eq!(0, potentials.len());
}

#[test]
fn brute_force_no_intersection_for_miss_unsorted() {
    let left = coll(1, 8., 8., 10., 11.);

    let right = coll(2, 12., 13., 18., 18.);

    let mut brute = BruteForce::default();
    let potentials = brute.compute(&mut vec![right, left]);
    assert_eq!(0, potentials.len());
}

#[test]
fn brute_force_intersection_for_hit() {
    let left = coll(1, 8., 8., 10., 11.);

    let right = coll(2, 9., 10., 18., 18.);

    let mut brute = BruteForce::default();
    let potentials = brute.compute(&mut vec![left, right]);
    assert_eq!(1, potentials.len());
    assert_eq!((1, 2), potentials[0]);
}

#[test]
fn brute_force_intersection_for_hit_unsorted() {
    let left = coll(1, 8., 8., 10., 11.);

    let right = coll(222, 9., 10., 18., 18.);

    let mut brute = BruteForce::default();
    let potentials = brute.compute(&mut vec![right, left]);
    assert_eq!(1, potentials.len());
    assert_eq!((222, 1), potentials[0]);
}

#[test]
fn brute_force_lists_each_pair_once() {
    let mut shapes = vec![
        coll(1, 0., 0., 10., 10.),
        coll(2, 1., 1., 11., 11.),
        coll(3, 2., 2., 12., 12.),
    ];
    let mut brute = BruteForce::default();
    let potentials = brute.compute(&mut shapes);
    assert_eq!(vec![(1, 2), (1, 3), (2, 3)], potentials);
    assert_eq!(1, shapes[0].id);
    assert_eq!(3, shapes[2].id);
}

#[test]
fn brute_force_fewer_than_two_entries() {
    let mut brute = BruteForce::default();
    let mut none: Vec<BroadCollisionInfo<u32, Aabb2<Real>>> = vec![];
    assert_eq!(0, brute.compute(&mut none).len());
    assert_eq!(0, brute.compute(&mut vec![coll(1, 8., 8., 10., 11.)]).len());
}

#[test]
fn touching_bounds_do_not_intersect() {
    let left = bound(0., 0., 1., 1.);
    let right = bound(1., 0., 2., 1.);
    assert!(!left.intersects(&right));
    assert!(left.intersects(&bound(0.5, 0.5, 2., 2.)));
    assert!(left.contains(&bound(0., 0., 1., 1.)));
    assert!(!left.contains(&bound(0., 0., 1., 1.5)));
}

// Sweep and prune.

#[test]
fn sweep_prune_no_intersection_for_miss() {
    let left = coll(1, 8., 8., 10., 11.);

    let right = coll(2, 12., 13., 18., 18.);

    let mut sweep = SweepAndPrune::<Variance2D<Real>>::new();
    let potentials = sweep.compute(&mut vec![left, right]);
    assert_eq!(0, potentials.len());
}

#[test]
fn sweep_prune_no_intersection_for_miss_unsorted() {
    let left = coll(1, 8., 8., 10., 11.);

    let right = coll(2, 12., 13., 18., 18.);

    let mut sweep = SweepAndPrune::<Variance2D<Real>>::new();
    let potentials = sweep.compute(&mut vec![right, left]);
    assert_eq!(0, potentials.len());
}

#[test]
fn sweep_prune_intersection_for_hit() {
    let left = coll(1, 8., 8., 10., 11.);

    let right = coll(2, 9., 10., 18., 18.);

    let mut sweep = SweepAndPrune::<Variance2D<Real>>::new();
    let potentials = sweep.compute(&mut vec![left, right]);
    assert_eq!(1, potentials.len());
    assert_eq!((1, 2), potentials[0]);
}

#[test]
fn sweep_prune_intersection_for_hit_unsorted() {
    let left = coll(1, 8., 8., 10., 11.);

    let right = coll(222, 9., 10., 18., 18.);

    let mut sweep = SweepAndPrune::<Variance2D<Real>>::new();
    let potentials = sweep.compute(&mut vec![right, left]);
    assert_eq!(1, potentials.len());
    assert_eq!((1, 222), potentials[0]);
}

#[test]
fn sweep_prune_sorts_and_keeps_equal_entries_in_order() {
    let mut shapes = vec![
        coll(1, 5., 0., 6., 1.),
        coll(2, 1., 0., 2., 1.),
        coll(3, 5., 0., 6., 1.),
        coll(4, 1., 0., 1.5, 1.),
    ];
    let mut sweep = SweepAndPrune::<Variance2D<Real>>::new();
    let potentials = sweep.compute(&mut shapes);
    let order: Vec<u32> = shapes.iter().map(|s| s.id).collect();
    assert_eq!(vec![4, 2, 1, 3], order);
    assert_eq!(vec![(4, 2), (1, 3)], potentials);
}

#[test]
fn sweep_prune_turns_to_the_axis_of_greatest_variance() {
    // The centers lie on a vertical line: they vary along y only.
    let mut shapes = vec![
        coll(1, 0., 0., 1., 1.),
        coll(2, 0., 10., 1., 11.),
        coll(3, 0., 20., 1., 21.),
    ];
    let mut sweep = SweepAndPrune::<Variance2D<Real>>::new();
    assert_eq!(0, sweep.get_sweep_axis());
    sweep.compute(&mut shapes);
    assert_eq!(1, sweep.get_sweep_axis());
    // And now on a horizontal line.
    let mut shapes = vec![
        coll(1, 0., 0., 1., 1.),
        coll(2, 10., 0., 11., 1.),
        coll(3, 20., 0., 21., 1.),
    ];
    sweep.compute(&mut shapes);
    assert_eq!(0, sweep.get_sweep_axis());
}

#[test]
fn sweep_prune_keeps_its_axis_for_fewer_than_two_entries() {
    let mut sweep = SweepAndPrune::<Variance2D<Real>>::new_impl(1);
    assert_eq!(0, sweep.compute(&mut vec![coll(1, 0., 0., 1., 1.)]).len());
    assert_eq!(1, sweep.get_sweep_axis());
}

#[test]
fn sweep_prune_in_space() {
    let entry = |id: u32, z: f32| {
        BroadCollisionInfo::new(id, Aabb3::new(v3(0., 0., z), v3(1., 1., z + 2.)))
    };
    let mut shapes = vec![entry(3, 30.), entry(1, 0.), entry(2, 1.)];
    let mut sweep = SweepAndPrune::<Variance3D<Real>>::new();
    let potentials = sweep.compute(&mut shapes);
    assert_eq!(vec![(3, 1), (3, 2), (1, 2)].len() - 2, potentials.len());
    assert!(potentials[0] == (1, 2) || potentials[0] == (2, 1));
    assert_eq!(2, sweep.get_sweep_axis());
}

#[test]
fn variance_of_a_batch() {
    let mut variance = Variance2D::<Real>::new();
    variance.add_to_sum(&bound(0., 0., 2., 4.));
    variance.add_to_sum(&bound(2., 0., 4., 4.));
    // Centers (1, 2) and (3, 2): sums 4 and 4, sums of squares 10 and 8.
    let (axis, value) = variance.compute_axis(Real(2.));
    assert_eq!(0, axis);
    assert_eq!(Real(10. - 16. / 2.), value);
    variance.clear();
    variance.add_to_sum(&bound(0., 0., 2., 2.));
    variance.add_to_sum(&bound(0., 4., 2., 6.));
    let (axis, value) = variance.compute_axis(Real(2.));
    assert_eq!(1, axis);
    assert_eq!(Real(26. - 36. / 2.), value);
}

// The expanding polytope.

#[test]
fn test_closest_edge_0() {
    assert!(closest_edge::<Real>(&vec![]).is_none())
}

#[test]
fn test_closest_edge_1() {
    assert!(closest_edge(&vec![sup(10., 10.)]).is_none())
}

#[test]
fn test_closest_edge_2() {
    assert!(closest_edge(&vec![sup(10., 10.), sup(-10., 5.)]).is_none())
}

#[test]
fn test_closest_edge_3() {
    let edge = closest_edge(&vec![sup(10., 10.), sup(-10., 5.), sup(2., -5.)]);
    assert!(edge.is_some());
    let edge = edge.unwrap();
    assert_eq!(2, edge.index);
    assert!(approx_eq(2.5607374, edge.distance.0));
    assert!(approx_eq(-0.6401844, edge.normal.x.0));
    assert!(approx_eq(-0.7682213, edge.normal.y.0));
}

#[test]
fn test_epa_0() {
    let left = rectangle(10., 10.);
    let left_transform = transform(15., 0., 0.);
    let right = rectangle(10., 10.);
    let right_transform = transform(7., 2., 0.);
    assert!(EPA2::<Real>::new()
        .process(&mut vec![], &left, &left_transform, &right, &right_transform)
        .is_none());
}

#[test]
fn test_epa_1() {
    let left = rectangle(10., 10.);
    let left_transform = transform(15., 0., 0.);
    let right = rectangle(10., 10.);
    let right_transform = transform(7., 2., 0.);
    let mut simplex = vec![sup(-2., 8.)];
    assert!(EPA2::<Real>::new()
        .process(&mut simplex, &left, &left_transform, &right, &right_transform)
        .is_none());
}

#[test]
fn test_epa_2() {
    let left = rectangle(10., 10.);
    let left_transform = transform(15., 0., 0.);
    let right = rectangle(10., 10.);
    let right_transform = transform(7., 2., 0.);
    let mut simplex = vec![sup(-2., 8.), sup(18., -12.)];
    assert!(EPA2::<Real>::new()
        .process(&mut simplex, &left, &left_transform, &right, &right_transform)
        .is_none());
}

#[test]
fn test_epa_3() {
    let left = rectangle(10., 10.);
    let left_transform = transform(15., 0., 0.);
    let right = rectangle(10., 10.);
    let right_transform = transform(7., 2., 0.);
    let mut simplex = vec![sup(-2., 8.), sup(18., -12.), sup(-2., -12.)];
    let contact = EPA2::<Real>::new().process(
        &mut simplex,
        &left,
        &left_transform,
        &right,
        &right_transform,
    );
    assert!(contact.is_some());
    let contact = contact.unwrap();
    assert_eq!(v2(-1., 0.), contact.normal);
    assert_eq!(Real(2.), contact.penetration_depth);
}

#[test]
fn epa_stops_at_its_cap() {
    let left = rectangle(10., 10.);
    let left_transform = transform(15., 0., 0.);
    let right = rectangle(10., 10.);
    let right_transform = transform(7., 2., 0.);
    let mut simplex = vec![sup(-2., 8.), sup(18., -12.), sup(-2., -12.)];
    let contact = EPA2::new_with_tolerance(Real(1.0e-6), 0).process(
        &mut simplex,
        &left,
        &left_transform,
        &right,
        &right_transform,
    );
    assert_eq!(3, simplex.len());
    let edge = closest_edge(&simplex).unwrap();
    let contact = contact.unwrap();
    assert_eq!(CollisionStrategy::FullResolution, contact.strategy);
    assert_eq!(edge.normal, contact.normal);
    assert_eq!(edge.distance, contact.penetration_depth);
    assert_eq!(point(&simplex, &edge), contact.contact_point);
}

#[test]
fn contact_point_on_the_first_shape() {
    let mut a = sup(-1., -1.);
    a.sup_a = v2(0., 0.);
    let mut b = sup(1., -1.);
    b.sup_a = v2(4., 0.);
    let simplex = vec![a, b, sup(0., 5.)];
    // The origin projects onto the middle of the edge from a to b.
    let edge = Edge { normal: v2(0., -1.), distance: Real(1.), index: 1 };
    assert_eq!(v2(2., 0.), point(&simplex, &edge));
    // Beyond a: the support point of a.
    let mut a = sup(1., -1.);
    a.sup_a = v2(7., 7.);
    let mut b = sup(3., -1.);
    b.sup_a = v2(9., 9.);
    let simplex = vec![a, b, sup(0., 5.)];
    assert_eq!(v2(7., 7.), point(&simplex, &edge));
    // Beyond b: the support point of b.
    let mut a = sup(-3., -1.);
    a.sup_a = v2(7., 7.);
    let mut b = sup(-1., -1.);
    b.sup_a = v2(9., 9.);
    let simplex = vec![a, b, sup(0., 5.)];
    assert_eq!(v2(9., 9.), point(&simplex, &edge));
    // The edge that ends at the first point starts at the last.
    let edge = Edge { normal: v2(0., -1.), distance: Real(1.), index: 0 };
    let mut last = sup(-1., -1.);
    last.sup_a = v2(0., 0.);
    let mut first = sup(1., -1.);
    first.sup_a = v2(4., 0.);
    assert_eq!(v2(2., 0.), point(&vec![first, sup(0., 5.), last], &edge));
}

// The distance algorithm.

#[test]
fn simplex_of_three_points_around_the_origin() {
    let mut simplex = vec![sup(-1., -1.), sup(1., -1.), sup(0., 1.)];
    let mut d = v2(5., 5.);
    assert!(reduce_to_closest_feature(&mut simplex, &mut d));
    assert_eq!(3, simplex.len());
    assert_eq!(v2(5., 5.), d);
}

#[test]
fn simplex_of_three_points_beside_the_origin() {
    // The origin lies beyond the edge from the newest point to the second.
    let mut simplex = vec![sup(5., 1.), sup(1., 1.), sup(1., 3.)];
    let mut d = v2(0., 0.);
    assert!(!reduce_to_closest_feature(&mut simplex, &mut d));
    assert_eq!(vec![sup(1., 1.), sup(1., 3.)], simplex);
    assert!(d.x.0 < 0. && d.y.0 == 0.);
}

#[test]
fn simplex_of_two_points() {
    let mut simplex = vec![sup(1., 1.), sup(-1., 1.)];
    let mut d = v2(0., 0.);
    assert!(!reduce_to_closest_feature(&mut simplex, &mut d));
    assert_eq!(2, simplex.len());
    assert!(d.x.0 == 0. && d.y.0 < 0.);
    // The origin on the line: a perpendicular of the line.
    let mut simplex = vec![sup(1., 0.), sup(-1., 0.)];
    assert!(!reduce_to_closest_feature(&mut simplex, &mut d));
    assert_eq!(v2(0., 2.), v2(d.x.0 + 0., d.y.0));
}

#[test]
fn simplex_of_one_point() {
    let mut simplex = vec![sup(3., -4.)];
    let mut d = v2(0., 0.);
    assert!(!reduce_to_closest_feature(&mut simplex, &mut d));
    assert_eq!(v2(-3., 4.), d);
}

#[test]
fn gjk_miss() {
    let left = rectangle(10., 10.);
    let right = rectangle(10., 10.);
    let gjk = GJK2::<Real>::new();
    assert!(gjk
        .intersect(&left, &transform(15., 0., 0.), &right, &transform(-15., 0., 0.))
        .is_none());
    assert!(gjk
        .intersection(
            CollisionStrategy::FullResolution,
            &left,
            &transform(15., 0., 0.),
            &right,
            &transform(-15., 0., 0.)
        )
        .is_none());
}

#[test]
fn gjk_hit() {
    let left = rectangle(10., 10.);
    let right = rectangle(10., 10.);
    let gjk = GJK2::<Real>::new();
    let simplex = gjk.intersect(&left, &transform(15., 0., 0.), &right, &transform(7., 2., 0.));
    assert!(simplex.is_some());
    assert_eq!(3, simplex.unwrap().len());
}

#[test]
fn gjk_hit_when_the_centers_coincide() {
    let left = rectangle(10., 10.);
    let right = rectangle(2., 2.);
    let gjk = GJK2::<Real>::new();
    assert!(gjk
        .intersect(&left, &transform(1., 1., 0.), &right, &transform(1., 1., 0.))
        .is_some());
}

#[test]
fn gjk_without_iterations_finds_nothing() {
    let left = rectangle(10., 10.);
    let right = rectangle(10., 10.);
    let gjk = GJK2::new_with_settings(Real(1.0e-6), Real(1.0e-6), 0);
    assert!(gjk
        .intersect(&left, &transform(15., 0., 0.), &right, &transform(7., 2., 0.))
        .is_none());
}

#[test]
fn gjk_collision_only() {
    let left = rectangle(10., 10.);
    let right = rectangle(10., 10.);
    let gjk = GJK2::<Real>::new();
    let contact = gjk
        .intersection(
            CollisionStrategy::CollisionOnly,
            &left,
            &transform(15., 0., 0.),
            &right,
            &transform(7., 2., 0.),
        )
        .unwrap();
    assert_eq!(Contact::<Vector2<Real>>::new(CollisionStrategy::CollisionOnly), contact);
}

#[test]
fn gjk_full_resolution_of_overlapping_rectangles() {
    let left = rectangle(10., 10.);
    let right = rectangle(10., 10.);
    let gjk = GJK2::<Real>::new();
    let contact = gjk
        .intersection(
            CollisionStrategy::FullResolution,
            &left,
            &transform(15., 0., 0.),
            &right,
            &transform(7., 2., 0.),
        )
        .unwrap();
    assert_eq!(CollisionStrategy::FullResolution, contact.strategy);
    assert_eq!(v2(-1., 0.), contact.normal);
    assert_eq!(Real(2.), contact.penetration_depth);
    let length = contact.normal.dot(contact.normal).0.sqrt();
    assert!((length - 1.).abs() < 1.0e-5);
}

fn rectangle_shape(strategy: CollisionStrategy, w: f32, h: f32) -> CollisionShape<Rectangle<Real>, BodyPose2> {
    CollisionShape::new_simple(strategy, rectangle(w, h))
}

#[test]
fn collide_shapes() {
    let gjk = GJK2::<Real>::new();
    let left = rectangle_shape(CollisionStrategy::FullResolution, 10., 10.);
    let right = rectangle_shape(CollisionStrategy::FullResolution, 10., 10.);
    let contact = gjk
        .collide(&left, &transform(15., 0., 0.), &right, &transform(7., 2., 0.))
        .unwrap();
    assert_eq!(CollisionStrategy::FullResolution, contact.strategy);
    assert_eq!(v2(-1., 0.), contact.normal);
    assert_eq!(Real(2.), contact.penetration_depth);
    assert!(gjk
        .collide(&left, &transform(15., 0., 0.), &right, &transform(-7., 2., 0.))
        .is_none());
}

#[test]
fn collide_takes_the_weaker_strategy() {
    let gjk = GJK2::<Real>::new();
    let left = rectangle_shape(CollisionStrategy::FullResolution, 10., 10.);
    let right = rectangle_shape(CollisionStrategy::CollisionOnly, 10., 10.);
    let contact = gjk
        .collide(&left, &transform(15., 0., 0.), &right, &transform(7., 2., 0.))
        .unwrap();
    assert_eq!(CollisionStrategy::CollisionOnly, contact.strategy);
}

#[test]
fn collide_skips_disabled_and_empty_shapes() {
    let gjk = GJK2::<Real>::new();
    let left = rectangle_shape(CollisionStrategy::FullResolution, 10., 10.);
    let mut right = rectangle_shape(CollisionStrategy::FullResolution, 10., 10.);
    right.enabled = false;
    assert!(gjk
        .collide(&left, &transform(15., 0., 0.), &right, &transform(7., 2., 0.))
        .is_none());
    let empty: CollisionShape<Rectangle<Real>, BodyPose2> =
        CollisionShape::new_complex(CollisionStrategy::FullResolution, vec![]);
    assert_eq!(bound(0., 0., 0., 0.), *empty.bound());
    assert!(gjk
        .collide(&left, &transform(15., 0., 0.), &empty, &transform(15., 0., 0.))
        .is_none());
}

#[test]
fn collide_gives_the_deepest_contact() {
    let gjk = GJK2::<Real>::new();
    // Two rectangles side by side, the second further to the left.
    let left = CollisionShape::new_complex(
        CollisionStrategy::FullResolution,
        vec![
            CollisionPrimitive::new_impl(rectangle(10., 10.), transform(0., 0., 0.)),
            CollisionPrimitive::new_impl(rectangle(10., 10.), transform(-3., 0., 0.)),
        ],
    );
    let right = rectangle_shape(CollisionStrategy::FullResolution, 10., 10.);
    let contact = gjk
        .collide(&left, &transform(15., 0., 0.), &right, &transform(7., 2., 0.))
        .unwrap();
    assert_eq!(v2(-1., 0.), contact.normal);
    assert_eq!(Real(5.), contact.penetration_depth);
}

#[test]
fn collide_continuous_without_next_poses_is_collide() {
    let gjk = GJK2::<Real>::new();
    let left = rectangle_shape(CollisionStrategy::FullResolution, 10., 10.);
    let right = rectangle_shape(CollisionStrategy::FullResolution, 10., 10.);
    let now = gjk.collide(&left, &transform(15., 0., 0.), &right, &transform(7., 2., 0.));
    let moving = gjk.collide_continuous(
        &left,
        &transform(15., 0., 0.),
        None,
        &right,
        &transform(7., 2., 0.),
        None,
    );
    assert_eq!(now, moving);
}

#[test]
fn collide_continuous_finds_the_time_of_impact() {
    let gjk = GJK2::<Real>::new();
    let left = rectangle_shape(CollisionStrategy::FullResolution, 10., 10.);
    let right = rectangle_shape(CollisionStrategy::FullResolution, 10., 10.);
    // The right body moves from far away to a deep overlap; the contact is
    // that of the first touch, not of the end of the frame.
    let contact = gjk
        .collide_continuous(
            &left,
            &transform(0., 0., 0.),
            None,
            &right,
            &transform(30., 2., 0.),
            Some(&transform(5., 2., 0.)),
        )
        .unwrap();
    assert!(contact.penetration_depth.0 >= 0.);
    assert!(contact.penetration_depth.0 < 1.0e-3);
    assert_eq!(v2(1., 0.), contact.normal);
    // A body that never arrives does not collide.
    assert!(gjk
        .collide_continuous(
            &left,
            &transform(0., 0., 0.),
            None,
            &right,
            &transform(30., 2., 0.),
            Some(&transform(20., 2., 0.)),
        )
        .is_none());
}

// The narrow phase in space.

fn sup3(x: f32, y: f32, z: f32) -> SupportPoint<Vector3<Real>> {
    let mut s = SupportPoint::new();
    s.v = v3(x, y, z);
    s
}

fn place(x: f32, y: f32, z: f32) -> BodyPose3 {
    BodyPose3::new(v3(x, y, z), NoRotation)
}

fn cube(side: f32) -> Cuboid<Real> {
    Cuboid::new(Real(side), Real(side), Real(side))
}

#[test]
fn cuboid_bound_and_support() {
    let shape = Cuboid::new(Real(2.), Real(4.), Real(6.));
    assert_eq!(v3(1., 2., 3.), *shape.half_dim());
    assert_eq!(Aabb3::new(v3(-1., -2., -3.), v3(1., 2., 3.)), shape.get_bound());
    let pose = place(10., 0., 0.);
    assert_eq!(v3(11., 2., 3.), shape.support_point(&v3(1., 1., 1.), &pose));
    assert_eq!(v3(9., -2., 3.), shape.support_point(&v3(-1., -1., 1.), &pose));
    assert_eq!(v3(9., -2., -3.), shape.support_point(&v3(-1., -1., -1.), &pose));
    assert_eq!(v3(11., 2., -3.), shape.support_point(&v3(0., 0., -1.), &pose));
}

#[test]
fn simplex_in_space_of_one_and_two_points() {
    let mut d = v3(0., 0., 0.);
    let mut simplex = vec![sup3(1., 2., 3.)];
    assert!(!reduce(&mut simplex, &mut d));
    assert_eq!(v3(-1., -2., -3.), d);
    let mut simplex = vec![sup3(1., 1., 0.), sup3(-1., 1., 0.)];
    assert!(!reduce(&mut simplex, &mut d));
    assert_eq!(2, simplex.len());
    assert!(d.x.0 == 0. && d.y.0 < 0. && d.z.0 == 0.);
    // The origin on the line: some perpendicular of the line.
    let mut simplex = vec![sup3(1., 0., 0.), sup3(-1., 0., 0.)];
    assert!(!reduce(&mut simplex, &mut d));
    assert_eq!(Real(0.), d.dot(v3(2., 0., 0.)));
    assert!(d.dot(d).0 > 0.);
}

#[test]
fn simplex_in_space_of_three_points() {
    let mut d = v3(0., 0., 0.);
    // The origin lies under the middle of the triangle: the triangle turns.
    let mut simplex = vec![sup3(1., -1., 1.), sup3(-1., -1., 1.), sup3(0., 1., 1.)];
    assert!(!reduce(&mut simplex, &mut d));
    assert_eq!(vec![sup3(-1., -1., 1.), sup3(1., -1., 1.), sup3(0., 1., 1.)], simplex);
    assert!(d.x.0 == 0. && d.y.0 == 0. && d.z.0 < 0.);
    // The origin lies over the middle of the triangle: the triangle stays.
    assert!(!reduce(&mut simplex, &mut d));
    assert_eq!(vec![sup3(-1., -1., 1.), sup3(1., -1., 1.), sup3(0., 1., 1.)], simplex);
    assert!(d.x.0 == 0. && d.y.0 == 0. && d.z.0 < 0.);
    // The origin lies beyond the edge from the newest point to the second.
    let mut simplex = vec![sup3(5., 1., 0.), sup3(1., 1., 0.), sup3(1., 3., 0.)];
    assert!(!reduce(&mut simplex, &mut d));
    assert_eq!(vec![sup3(1., 1., 0.), sup3(1., 3., 0.)], simplex);
    assert!(d.x.0 < 0. && d.y.0 == 0.);
}

#[test]
fn simplex_in_space_of_four_points() {
    let mut d = v3(7., 7., 7.);
    let around = vec![sup3(3., -3., -1.), sup3(-3., -3., -1.), sup3(0., 3., -1.), sup3(0., 0., 5.)];
    let mut simplex = around.clone();
    assert!(reduce(&mut simplex, &mut d));
    assert_eq!(around, simplex);
    assert_eq!(v3(7., 7., 7.), d);
    // The same tetrahedron moved away from the origin.
    let mut simplex: Vec<_> = around.iter().map(|p| sup3(p.v.x.0 + 10., p.v.y.0, p.v.z.0)).collect();
    assert!(!reduce(&mut simplex, &mut d));
    assert!(simplex.len() < 4);
    assert!(d.x.0 < 0.);
}

#[test]
fn epa_in_space_needs_four_points() {
    let left = cube(10.);
    let right = cube(10.);
    let epa = EPA3::<Real>::new();
    let mut simplex = vec![sup3(3., -3., -1.), sup3(-3., -3., -1.), sup3(0., 3., -1.)];
    assert!(epa
        .process(&mut simplex, &left, &place(15., 0., 0.), &right, &place(7., 2., 0.))
        .is_none());
    assert_eq!(3, simplex.len());
}

#[test]
fn gjk_in_space() {
    let left = cube(10.);
    let right = cube(10.);
    let gjk = GJK3::<Real>::new();
    assert!(gjk.intersect(&left, &place(15., 0., 0.), &right, &place(-15., 0., 0.)).is_none());
    assert!(gjk.intersect(&left, &place(15., 0., 0.), &right, &place(7., 2., 1.)).is_some());
    assert!(gjk.intersect(&left, &place(0., 0., 0.), &right, &place(0., 0., 0.)).is_some());
    assert!(gjk.intersect(&left, &place(0., 0., 0.), &right, &place(0., 0., 10.5)).is_none());
    let only = gjk
        .intersection(
            CollisionStrategy::CollisionOnly,
            &left,
            &place(15., 0., 0.),
            &right,
            &place(7., 2., 1.),
        )
        .unwrap();
    assert_eq!(Contact::<Vector3<Real>>::new(CollisionStrategy::CollisionOnly), only);
}

#[test]
fn penetration_of_overlapping_cubes() {
    let left = cube(10.);
    let right = cube(10.);
    let gjk = GJK3::<Real>::new();
    let contact = gjk
        .intersection(
            CollisionStrategy::FullResolution,
            &left,
            &place(15., 0., 0.),
            &right,
            &place(7., 2., 1.),
        )
        .unwrap();
    assert_eq!(CollisionStrategy::FullResolution, contact.strategy);
    assert!((contact.normal.x.0 + 1.).abs() < 1.0e-5, "normal {:?}", contact.normal);
    assert!(contact.normal.y.0.abs() < 1.0e-5);
    assert!(contact.normal.z.0.abs() < 1.0e-5);
    assert!((contact.penetration_depth.0 - 2.).abs() < 1.0e-4);
    let length = contact.normal.dot(contact.normal).0.sqrt();
    assert!((length - 1.).abs() < 1.0e-5);
    // The contact point lies on the face of the first cube that is inside
    // the second.
    assert!((contact.contact_point.x.0 - 10.).abs() < 1.0e-3);
}

#[test]
fn collide_shapes_in_space() {
    let gjk = GJK3::<Real>::new();
    let shape = |side: f32| -> CollisionShape<Cuboid<Real>, BodyPose3> {
        CollisionShape::new_simple(CollisionStrategy::FullResolution, cube(side))
    };
    let contact = gjk
        .collide(&shape(10.), &place(0., 0., 15.), &shape(10.), &place(1., 2., 7.))
        .unwrap();
    assert!((contact.normal.z.0 + 1.).abs() < 1.0e-5, "normal {:?}", contact.normal);
    assert!((contact.penetration_depth.0 - 2.).abs() < 1.0e-4);
    assert!(gjk
        .collide(&shape(10.), &place(0., 0., 15.), &shape(10.), &place(1., 2., -7.))
        .is_none());
    let hit = gjk.collide_continuous(
        &shape(10.),
        &place(0., 0., 0.),
        None,
        &shape(2.),
        &place(1., 2., 30.),
        Some(&place(1., 2., 0.)),
    );
    assert!(hit.is_some());
    assert!(gjk
        .collide_continuous(
            &shape(10.),
            &place(0., 0., 0.),
            None,
            &shape(2.),
            &place(1., 2., 30.),
            Some(&place(1., 2., 20.)),
        )
        .is_none());
}

// Shapes.

#[test]
fn rectangle_bound_and_support() {
    let shape = rectangle(10., 4.);
    assert_eq!(v2(5., 2.), *shape.half_dim());
    assert_eq!(bound(-5., -2., 5., 2.), shape.get_bound());
    let pose = transform(1., 1., 0.);
    assert_eq!(v2(6., 3.), shape.support_point(&v2(1., 1.), &pose));
    assert_eq!(v2(-4., 3.), shape.support_point(&v2(-1., 1.), &pose));
    assert_eq!(v2(-4., -1.), shape.support_point(&v2(-1., -1.), &pose));
    assert_eq!(v2(6., -1.), shape.support_point(&v2(1., -1.), &pose));
    // Where two corners lie as far, the first of them counter-clockwise.
    assert_eq!(v2(6., 3.), shape.support_point(&v2(1., 0.), &pose));
    // A rectangle turned by a quarter: the long side stands upright.
    let turned = transform(0., 0., std::f32::consts::FRAC_PI_2);
    let top = shape.support_point(&v2(0., 1.), &turned);
    assert!((top.y.0 - 5.).abs() < 1.0e-5);
}

#[test]
fn shape_bounds_follow_the_pose() {
    let mut shape = rectangle_shape(CollisionStrategy::FullResolution, 10., 4.);
    assert_eq!(bound(-5., -2., 5., 2.), *shape.bound());
    shape.update(&transform(15., 1., 0.));
    assert_eq!(bound(10., -1., 20., 3.), *shape.bound());
    assert_eq!(bound(10., -1., 20., 3.), *shape.primitives()[0].bound());
    assert_eq!(bound(-5., -2., 5., 2.), *shape.primitives()[0].base_bound());
}

#[test]
fn shape_bound_holds_every_primitive() {
    let mut shape = CollisionShape::new_complex(
        CollisionStrategy::FullResolution,
        vec![
            CollisionPrimitive::new_impl(rectangle(2., 2.), transform(10., 0., 0.)),
            CollisionPrimitive::new_impl(rectangle(2., 2.), transform(-10., 5., 0.)),
        ],
    );
    assert_eq!(bound(-11., -1., 11., 6.), *shape.bound());
    shape.update(&transform(100., 100., std::f32::consts::FRAC_PI_4));
    for primitive in shape.primitives() {
        assert!(shape.bound().contains(primitive.bound()));
    }
}

#[test]
fn shape_bound_is_the_union_of_its_primitives() {
    // Both primitives lie away from the origin, and so does the bound.
    let shape: CollisionShape<Rectangle<Real>, BodyPose2> = CollisionShape::new_complex(
        CollisionStrategy::FullResolution,
        vec![
            CollisionPrimitive::new_impl(rectangle(2., 2.), transform(10., 0., 0.)),
            CollisionPrimitive::new_impl(rectangle(2., 2.), transform(14., 3., 0.)),
        ],
    );
    assert_eq!(bound(9., -1., 15., 4.), *shape.bound());
    let single: CollisionShape<Rectangle<Real>, BodyPose2> = CollisionShape::new_simple_offset(
        CollisionStrategy::FullResolution,
        rectangle(2., 2.),
        transform(10., 10., 0.),
    );
    assert_eq!(bound(9., 9., 11., 11.), *single.bound());
    let mut moved = single.clone();
    moved.update(&transform(-20., 0., 0.));
    assert_eq!(bound(-11., 9., -9., 11.), *moved.bound());
    let three = rhusics::collide::shape::get_bound(&vec![
        CollisionPrimitive::<Rectangle<Real>, BodyPose2>::new_impl(
            rectangle(2., 2.),
            transform(-5., -5., 0.),
        ),
        CollisionPrimitive::new_impl(rectangle(4., 2.), transform(-10., -3., 0.)),
        CollisionPrimitive::new_impl(rectangle(2., 6.), transform(-7., -9., 0.)),
    ]);
    assert_eq!(bound(-12., -12., -4., -2.), three);
}

#[test]
fn placed_boxes_against_boxes() {
    let small = bound(-1., -1., 1., 1.);
    let other = bound(4., 0., 8., 8.);
    assert!(!small.intersects_transformed(&other, &transform(2., 0., 0.)));
    assert!(small.intersects_transformed(&other, &transform(4., 0., 0.)));
    assert_eq!(None, small.intersection_transformed(&other, &transform(2., 0., 0.)));
    assert_eq!(
        Some(bound(4., 0., 5., 1.)),
        small.intersection_transformed(&other, &transform(4., 0., 0.))
    );
    let cube = Aabb3::new(v3(-1., -1., -1.), v3(1., 1., 1.));
    let wall = Aabb3::new(v3(0., -9., -9.), v3(2., 9., 9.));
    assert!(cube.intersects_transformed(&wall, &place(0.5, 0., 0.)));
    assert!(!cube.intersects_transformed(&wall, &place(-1., 0., 0.)));
    assert_eq!(
        Some(Aabb3::new(v3(0., -1., -1.), v3(1.5, 1., 1.))),
        cube.intersection_transformed(&wall, &place(0.5, 0., 0.))
    );
    assert_eq!(None, cube.intersection_transformed(&wall, &place(-1., 0., 0.)));
}

#[test]
fn what_is_not_a_number_ranks_with_infinity() {
    let nan = Real(0.).over(Real(0.));
    assert!(nan.0.is_nan());
    assert_eq!(Real(f32::INFINITY).rank(), nan.rank());
    assert!(!nan.lt(Real(1.0e30)));
    assert!(Real(1.0e30).lt(nan));
    assert!(!nan.lt(Real(f32::INFINITY)));
    assert!(!Real(f32::INFINITY).lt(nan));
    assert_eq!(Real(0.).rank(), Real(-0.).rank());
    assert!(!Real(-0.).lt(Real(0.)));
    // An edge without a direction is never the closest.
    let edge = closest_edge(&vec![sup(1., 1.), sup(1., 1.), sup(-1., -2.)]).unwrap();
    assert!(!edge.distance.0.is_nan());
}

#[test]
fn systems_are_ready_as_built() {
    let basic: BasicCollisionSystem<GJK2<Real>, SweepAndPrune<Variance2D<Real>>> =
        BasicCollisionSystem::new().with_broad_phase(SweepAndPrune::new_impl(1));
    assert!(basic.is_well_formed::<Rectangle<Real>, BodyPose2>());
    let sweep = SweepAndPrune::<Variance2D<Real>>::new();
    assert!(BroadPhase::<BroadCollisionInfo<u32, Aabb2<Real>>>::is_well_formed(&sweep));
    assert!(BroadPhase::<BroadCollisionInfo<u32, Aabb2<Real>>>::is_well_formed(&BruteForce::default()));
}

#[test]
fn far_point_of_a_primitive_with_offset() {
    let primitive: CollisionPrimitive<Rectangle<Real>, BodyPose2> =
        CollisionPrimitive::new_impl(rectangle(2., 2.), transform(10., 0., 0.));
    assert_eq!(v2(16., 6.), primitive.get_far_point(&v2(1., 1.), &transform(5., 5., 0.)));
    assert_eq!(v2(14., 4.), primitive.get_far_point(&v2(-1., -1.), &transform(5., 5., 0.)));
}

#[test]
fn contact_sets_and_events() {
    let set = ContactSet::<u32, Vector2<Real>>::new_single(CollisionStrategy::CollisionOnly, (1, 2));
    assert_eq!((1, 2), set.bodies);
    assert_eq!(vec![Contact::new(CollisionStrategy::CollisionOnly)], set.contacts);
    let contact = Contact::new_impl(CollisionStrategy::FullResolution, v2(1., 0.), Real(2.));
    assert_eq!(v2(0., 0.), contact.contact_point);
    let event = ContactEvent::new((3, 4), contact);
    assert_eq!((3, 4), event.bodies);
    assert_eq!(Real(2.), event.contact.penetration_depth);
}

// Poses.

#[test]
fn pose_tracks_changes() {
    let mut pose = transform(1., 2., 0.5);
    assert!(pose.dirty());
    pose.clear();
    assert!(!pose.dirty());
    pose.set_position(v2(3., 4.));
    assert!(pose.dirty());
    assert_eq!(v2(3., 4.), *pose.position());
    pose.clear();
    pose.set_rotation(Basis2(1.));
    assert!(pose.dirty());
    assert_eq!(Basis2(1.), *pose.rotation());
    assert_eq!(Basis2(-1.), *pose.inverse_rotation());
}

#[test]
fn pose_round_trip() {
    let pose = transform(3., -4., 0.7);
    let inverse = pose.inverse_transform().unwrap();
    let round = pose.concat(&inverse);
    assert!(round.position().x.0.abs() < 1.0e-5);
    assert!(round.position().y.0.abs() < 1.0e-5);
    assert!(round.rotation().0.abs() < 1.0e-6);
    let back = inverse.transform_point(pose.transform_point(v2(1., 2.)));
    assert!((back.x.0 - 1.).abs() < 1.0e-5);
    assert!((back.y.0 - 2.).abs() < 1.0e-5);
}

#[test]
fn pose_of_a_viewer() {
    let pose = BodyPose2::look_at(v2(2., 0.), v2(2., 5.), v2(0., 1.));
    assert_eq!(Basis2(std::f32::consts::FRAC_PI_2), *pose.rotation());
    // The position is where the rotation takes the way from the eye to
    // the origin: a quarter turn of (-2, 0).
    assert!(pose.position().x.0.abs() < 1.0e-6);
    assert_eq!(Real(-2.), pose.position().y);
}

#[test]
fn pose_interpolation_ends() {
    let p = transform(1., 2., 0.25);
    let q = transform(5., -6., 1.5);
    assert_eq!(p, p.interpolate(&q, Real(0.)));
    assert_eq!(q, p.interpolate(&q, Real(1.)));
    let half = p.interpolate(&q, Real(0.5));
    assert_eq!(v2(3., -2.), *half.position());
    assert_eq!(Basis2(0.875), *half.rotation());
    let slid = p.translation_interpolate(&q, Real(0.5));
    assert_eq!(v2(3., -2.), *slid.position());
    assert_eq!(Basis2(1.5), *slid.rotation());
}

#[test]
fn vector_products() {
    assert_eq!(Real(11.), v2(1., 2.).dot(v2(3., 4.)));
    assert_eq!(Real(-2.), v2(1., 2.).cross(v2(3., 4.)));
    assert_eq!(v3(-3., 6., -3.), v3(1., 2., 3.).cross(v3(4., 5., 6.)));
    assert_eq!(v2(3., 5.), lerp(v2(1., 1.), v2(5., 9.), Real(0.5)));
    // (a x b) x c = b (a . c) - a (b . c)
    assert_eq!(v2(-1., 0.), triple_product(v2(1., 0.), v2(0., 1.), v2(0., 1.)));
    assert_eq!(Real(25.), v2(3., 4.).magnitude2());
    assert_eq!(v2(0.6, 0.8), v2(3., 4.).normalized());
}

// Forces.

#[test]
fn test_add_force() {
    let mut forces = ForceAccumulator::<Vector2<Real>, Real>::new();
    forces.add_force(v2(0., 2.));
    forces.add_force(v2(1.4, 2.));
    assert_eq!(v2(1.4, 4.), forces.consume_force());
    assert_eq!(Vector2::zero(), forces.consume_force());
    assert_eq!(Real(0.), forces.consume_torque());

    let mut forces = ForceAccumulator::<Vector3<Real>, Real>::new();
    forces.add_force(v3(0., 2., -1.));
    forces.add_force(v3(1.4, 2., -1.));
    assert_eq!(v3(1.4, 4., -2.), forces.consume_force());
    assert_eq!(Vector3::zero(), forces.consume_force());
    assert_eq!(Real(0.), forces.consume_torque());
}

#[test]
fn test_add_torque() {
    let mut forces = ForceAccumulator::<Vector2<Real>, Real>::new();
    forces.add_torque(Real(0.2));
    forces.add_torque(Real(1.4));
    assert!(ulps_eq(1.6, forces.consume_torque().0));
    assert_eq!(Vector2::zero(), forces.consume_force());
    assert_eq!(Real(0.), forces.consume_torque());

    let mut forces = ForceAccumulator::<Vector3<Real>, Real>::new();
    forces.add_torque(Real(0.2));
    forces.add_torque(Real(1.4));
    assert!(ulps_eq(1.6, forces.consume_torque().0));
    assert_eq!(Vector3::zero(), forces.consume_force());
    assert_eq!(Real(0.), forces.consume_torque());
}

#[test]
fn test_add_force_at_point_2d() {
    let mut forces = ForceAccumulator::<Vector2<Real>, Real>::new();
    // add at origin -> no torque
    forces.add_force_at_point(v2(1., 1.), v2(0., 0.), &BodyPose2::one());
    assert_eq!(v2(1., 1.), forces.consume_force());
    assert_eq!(Real(0.), forces.consume_torque());
    // add pointed at origin -> no torque
    forces.add_force_at_point(v2(1., 1.), v2(-1., -1.), &BodyPose2::one());
    assert_eq!(v2(1., 1.), forces.consume_force());
    assert_eq!(Real(0.), forces.consume_torque());
    // add outside with offset -> torque
    forces.add_force_at_point(v2(1., 1.), v2(-1., 0.), &BodyPose2::one());
    assert_eq!(v2(1., 1.), forces.consume_force());
    assert_eq!(Real(-1.), forces.consume_torque());
}

#[test]
fn test_add_force_at_point_3d() {
    let mut forces = ForceAccumulator::<Vector3<Real>, Vector3<Real>>::new();
    // add at origin -> no torque
    forces.add_force_at_point(v3(1., 1., 1.), v3(0., 0., 0.), &BodyPose3::one());
    assert_eq!(v3(1., 1., 1.), forces.consume_force());
    assert_eq!(Vector3::zero(), forces.consume_torque());
    // add pointed at origin -> no torque
    forces.add_force_at_point(v3(1., 1., 1.), v3(-1., -1., -1.), &BodyPose3::one());
    assert_eq!(v3(1., 1., 1.), forces.consume_force());
    assert_eq!(Vector3::zero(), forces.consume_torque());
    // add outside with offset -> torque
    forces.add_force_at_point(v3(1., 1., 1.), v3(-1., 0., 0.), &BodyPose3::one());
    assert_eq!(v3(1., 1., 1.), forces.consume_force());
    assert_eq!(v3(0., 1., -1.), forces.consume_torque());
}

#[test]
fn force_at_point_of_a_body_away_from_the_origin() {
    let mut forces = ForceAccumulator::<Vector2<Real>, Real>::new();
    forces.add_force_at_point(v2(0., 3.), v2(7., 1.), &transform(5., 1., 0.));
    assert_eq!(v2(0., 3.), forces.consume_force());
    assert_eq!(Real(6.), forces.consume_torque());
}

// Integration.

#[test]
fn integration_of_forces() {
    let mut velocities = vec![NextFrame { value: Velocity::from_parts(v2(1., 0.), Real(0.5)) }];
    let poses = vec![NextFrame { value: transform(0., 0., 0.) }];
    let mut forces = vec![ForceAccumulator::<Vector2<Real>, Real>::new()];
    forces[0].add_force(v2(4., -8.));
    forces[0].add_torque(Real(3.));
    let masses = vec![Mass::new(Real(0.5), Real(2.))];
    next_frame_integration(&mut velocities, &poses, &mut forces, &masses, Real(0.25));
    // linear + force * inverse mass * dt, angular + inertia * torque * dt
    assert_eq!(v2(1.5, -1.), velocities[0].value.linear);
    assert_eq!(Real(2.), velocities[0].value.angular);
    assert_eq!(v2(0., 0.), forces[0].consume_force());
    assert_eq!(Real(0.), forces[0].consume_torque());
}

#[test]
fn integration_of_forces_in_space() {
    let mut velocities =
        vec![NextFrame { value: Velocity::from_parts(v3(1., 0., 0.), v3(0., 0., 1.)) }];
    let poses = vec![NextFrame { value: place(0., 0., 0.) }];
    let mut forces = vec![ForceAccumulator::<Vector3<Real>, Vector3<Real>>::new()];
    forces[0].add_force_at_point(v3(0., 4., 0.), v3(2., 0., 0.), &place(0., 0., 0.));
    let masses = vec![Mass::new(Real(0.5), Real(0.25))];
    next_frame_integration(&mut velocities, &poses, &mut forces, &masses, Real(0.5));
    assert_eq!(v3(1., 1., 0.), velocities[0].value.linear);
    // The torque is (2, 0, 0) x (0, 4, 0) = (0, 0, 8).
    assert_eq!(v3(0., 0., 2.), velocities[0].value.angular);
    let mut next_poses = vec![NextFrame { value: place(9., 9., 9.) }];
    next_frame_pose(&velocities, &vec![place(1., 1., 1.)], &mut next_poses, Real(2.));
    assert_eq!(v3(3., 3., 1.), *next_poses[0].value.position());
}

#[test]
fn static_body_keeps_velocity_and_pose() {
    let mut velocities = vec![NextFrame { value: Velocity::<Vector2<Real>, Real>::new() }];
    let mut next_poses = vec![NextFrame { value: transform(3., 4., 0.5) }];
    let poses = vec![transform(3., 4., 0.5)];
    let mut forces = vec![ForceAccumulator::<Vector2<Real>, Real>::new()];
    forces[0].add_force(v2(100., 100.));
    forces[0].add_torque(Real(100.));
    let masses = vec![Mass::new(Real(0.), Real(0.))];
    assert!(masses[0].is_static());
    next_frame_integration(&mut velocities, &next_poses, &mut forces, &masses, Real(0.1));
    assert_eq!(Velocity::new(), velocities[0].value);
    next_frame_pose(&velocities, &poses, &mut next_poses, Real(0.1));
    assert_eq!(poses[0], next_poses[0].value);
}

#[test]
fn pose_of_the_next_frame() {
    let velocities = vec![NextFrame { value: Velocity::from_parts(v2(2., -4.), Real(1.)) }];
    let poses = vec![transform(1., 1., 0.)];
    let mut next_poses = vec![NextFrame { value: transform(0., 0., 0.) }];
    next_frame_pose(&velocities, &poses, &mut next_poses, Real(0.5));
    assert_eq!(v2(2., -1.), *next_poses[0].value.position());
    assert_eq!(Basis2(0.5), *next_poses[0].value.rotation());
    assert_eq!(transform(1., 1., 0.), poses[0]);
}

#[test]
fn inertia_in_the_plane() {
    let inertia = Real(3.);
    assert_eq!(Real(3.), Inertia::<Basis2, Real>::tensor(inertia, &Basis2(1.)));
    assert_eq!(Real(6.), Inertia::<Basis2, Real>::applied(inertia, Real(2.)));
    assert_eq!(Basis2(1.5), Basis2(1.).apply(&Real(2.), Real(0.25)));
}

// Contact resolution.

fn body(x: f32, vx: f32, inverse_mass: f32, restitution: f32) -> ResolveData<Vector2<Real>, Real, Real, Basis2> {
    ResolveData {
        velocity: Velocity::from_parts(v2(vx, 0.), Real(0.)),
        pose: transform(x, 0., 0.),
        mass: Mass::new(Real(inverse_mass), Real(0.)),
        material: Material::new(Real(restitution)),
    }
}

fn head_on(depth: f32) -> Contact<Vector2<Real>> {
    Contact::new_with_point(CollisionStrategy::FullResolution, v2(1., 0.), Real(depth), v2(0., 0.))
}

#[test]
fn material_restitution_combines_by_minimum() {
    assert_eq!(Real(0.2), Material::new(Real(0.2)).combined_restitution(&Material::new(Real(0.9))));
    assert_eq!(Real(0.2), Material::new(Real(0.9)).combined_restitution(&Material::new(Real(0.2))));
}

#[test]
fn resolve_without_restitution_stops_the_approach() {
    let mut a = body(-1., 2., 1., 0.);
    let mut b = body(1., -2., 1., 0.5);
    resolve_contact(&head_on(0.5), &mut a, &mut b);
    // j = -(1 + 0) * (-4) / 2 = 2
    assert_eq!(v2(0., 0.), a.velocity.linear);
    assert_eq!(v2(0., 0.), b.velocity.linear);
    let normal_speed = b.velocity.linear.minus(a.velocity.linear).dot(v2(1., 0.));
    assert!(normal_speed.0 >= 0.);
    // Each body moves out by half the depth.
    assert_eq!(v2(-1.25, 0.), *a.pose.position());
    assert_eq!(v2(1.25, 0.), *b.pose.position());
}

#[test]
fn resolve_with_restitution_bounces() {
    let mut a = body(-1., 2., 1., 1.);
    let mut b = body(1., -2., 1., 1.);
    resolve_contact(&head_on(0.), &mut a, &mut b);
    assert_eq!(v2(-2., 0.), a.velocity.linear);
    assert_eq!(v2(2., 0.), b.velocity.linear);
}

#[test]
fn resolve_leaves_separating_bodies() {
    let mut a = body(-1., -2., 1., 0.);
    let mut b = body(1., 2., 1., 0.);
    resolve_contact(&head_on(0.5), &mut a, &mut b);
    assert_eq!(v2(-2., 0.), a.velocity.linear);
    assert_eq!(v2(2., 0.), b.velocity.linear);
    assert_eq!(v2(-1., 0.), *a.pose.position());
}

#[test]
fn resolve_leaves_static_bodies() {
    let mut a = body(-1., 0., 0., 0.);
    let mut b = body(1., -2., 1., 0.);
    resolve_contact(&head_on(0.5), &mut a, &mut b);
    assert_eq!(v2(0., 0.), a.velocity.linear);
    assert_eq!(v2(-1., 0.), *a.pose.position());
    assert_eq!(v2(0., 0.), b.velocity.linear);
    assert_eq!(v2(1.5, 0.), *b.pose.position());
    let mut c = body(1., -2., 0., 0.);
    resolve_contact(&head_on(0.5), &mut a, &mut c);
    assert_eq!(v2(-2., 0.), c.velocity.linear);
    assert_eq!(v2(1., 0.), *c.pose.position());
}

#[test]
fn resolve_ignores_contacts_without_manifold() {
    let mut a = body(-1., 2., 1., 0.);
    let mut b = body(1., -2., 1., 0.);
    resolve_contact(&Contact::new(CollisionStrategy::CollisionOnly), &mut a, &mut b);
    assert_eq!(v2(2., 0.), a.velocity.linear);
    assert_eq!(v2(-2., 0.), b.velocity.linear);
}

// The basic system.

#[test]
fn basic_system_reports_contacts() {
    let mut system = BasicCollisionSystem::new()
        .with_broad_phase(BruteForce::default())
        .with_narrow_phase(GJK2::<Real>::new());
    let ids = vec!['a', 'b', 'c'];
    let poses = vec![transform(15., 0., 0.), transform(7., 2., 0.), transform(100., 0., 0.)];
    let mut shapes = vec![
        rectangle_shape(CollisionStrategy::FullResolution, 10., 10.),
        rectangle_shape(CollisionStrategy::FullResolution, 10., 10.),
        rectangle_shape(CollisionStrategy::FullResolution, 10., 10.),
    ];
    let events = system.run(&ids, &poses, &mut shapes);
    assert_eq!(1, events.len());
    assert_eq!(('a', 'b'), events[0].bodies);
    assert_eq!(v2(-1., 0.), events[0].contact.normal);
    assert_eq!(Real(2.), events[0].contact.penetration_depth);
    assert_eq!(bound(95., -5., 105., 5.), *shapes[2].bound());
}

#[test]
fn basic_system_leaves_out_shapes_that_take_no_part() {
    let mut system: BasicCollisionSystem<GJK2<Real>, _> =
        BasicCollisionSystem::new().with_broad_phase(BruteForce::default());
    let ids = vec![1, 2, 3, 4];
    let poses = vec![
        transform(0., 0., 0.),
        transform(1., 1., 0.),
        transform(2., 2., 0.),
        transform(3., 3., 0.),
    ];
    let mut disabled = rectangle_shape(CollisionStrategy::FullResolution, 10., 10.);
    disabled.enabled = false;
    let mut shapes = vec![
        rectangle_shape(CollisionStrategy::FullResolution, 10., 10.),
        disabled,
        CollisionShape::new_complex(CollisionStrategy::FullResolution, vec![]),
        rectangle_shape(CollisionStrategy::FullResolution, 10., 10.),
    ];
    let events = system.run(&ids, &poses, &mut shapes);
    assert_eq!(1, events.len());
    assert_eq!((1, 4), events[0].bodies);
    // The shapes that take no part are brought up to their poses all the same.
    assert_eq!(bound(-4., -4., 6., 6.), *shapes[1].bound());
}

#[test]
fn basic_system_without_narrow_phase_reports_candidates() {
    let mut system: BasicCollisionSystem<GJK2<Real>, _> =
        BasicCollisionSystem::new().with_broad_phase(SweepAndPrune::<Variance2D<Real>>::new());
    let ids = vec![10, 20];
    let poses = vec![transform(15., 0., 0.), transform(7., 2., 0.)];
    let mut shapes = vec![
        rectangle_shape(CollisionStrategy::FullResolution, 10., 10.),
        rectangle_shape(CollisionStrategy::FullResolution, 10., 10.),
    ];
    let events = system.run(&ids, &poses, &mut shapes);
    assert_eq!(1, events.len());
    assert_eq!((20, 10), events[0].bodies);
    assert_eq!(CollisionStrategy::CollisionOnly, events[0].contact.strategy);
}

#[test]
fn basic_system_without_broad_phase_does_nothing() {
    let mut system: BasicCollisionSystem<GJK2<Real>, BruteForce> =
        BasicCollisionSystem::new().with_narrow_phase(GJK2::new());
    let ids = vec![10, 20];
    let poses = vec![transform(15., 0., 0.), transform(7., 2., 0.)];
    let mut shapes = vec![
        rectangle_shape(CollisionStrategy::FullResolution, 10., 10.),
        rectangle_shape(CollisionStrategy::FullResolution, 10., 10.),
    ];
    assert_eq!(0, system.run(&ids, &poses, &mut shapes).len());
    assert_eq!(bound(-5., -5., 5., 5.), *shapes[0].bound());
}
