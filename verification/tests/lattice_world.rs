//! The library over the integer lattice, where every result is exact.

use rhusics::bound::{Aabb2, Bound};
use rhusics::broad::{BroadCollisionInfo, BroadPhase, BruteForce, SweepAndPrune, Variance2D};
use rhusics::collide::{
    CollisionShape, CollisionStrategy, ContactEvent, ContainerShapeWrapper, HasAABB,
    SupportFunction,
};
use rhusics::lattice::Lattice;
use rhusics::narrow::{NarrowPhase, GJK2};
use rhusics::physics::{CurrentFrameUpdateSystem, ForceAccumulator, Velocity};
use rhusics::pose::{BodyPose, Interpolate, NextFrame, Rotation, Transform};
use rhusics::rotation::{NoRotation, QuarterTurn};
use rhusics::scalar::{Additive, Scalar};
use rhusics::systems::candidates::{add_candidate, candidates};
use rhusics::systems::spatial::dispatch;
use rhusics::systems::SpatialCollisionSystem;
use rhusics::vector::{Vector2, VectorSpace};

type GridPose = BodyPose<Vector2<Lattice>, QuarterTurn>;

fn at(x: i64, y: i64) -> Vector2<Lattice> {
    Vector2::new(Lattice::new(x), Lattice::new(y))
}

fn cell(min_x: i64, min_y: i64, max_x: i64, max_y: i64) -> Aabb2<Lattice> {
    Aabb2::new(at(min_x, min_y), at(max_x, max_y))
}

fn entry(id: usize, min_x: i64, min_y: i64, max_x: i64, max_y: i64) -> BroadCollisionInfo<usize, Aabb2<Lattice>> {
    BroadCollisionInfo::new(id, cell(min_x, min_y, max_x, max_y))
}

/// A square around the origin of its own frame.
#[derive(Clone, Copy, Debug, PartialEq)]
struct Square {
    half: i64,
}

impl HasAABB for Square {
    type Aabb = Aabb2<Lattice>;

    fn get_bound_spec(&self) -> Aabb2<Lattice> {
        cell(-self.half, -self.half, self.half, self.half)
    }

    fn get_bound(&self) -> Aabb2<Lattice> {
        self.get_bound_spec()
    }
}

impl<T: Transform<Vector2<Lattice>>> SupportFunction<Vector2<Lattice>, T> for Square {
    fn support_point_spec(&self, direction: Vector2<Lattice>, transform: &T) -> Vector2<Lattice> {
        let direction = transform.inverse_transform_vector(direction).unwrap();
        let h = self.half;
        let mut best = at(0, 0);
        let mut best_dot = i64::MIN;
        for corner in [at(h, h), at(-h, h), at(-h, -h), at(h, -h)] {
            let dot = corner.dot(direction).value;
            if dot > best_dot {
                best = corner;
                best_dot = dot;
            }
        }
        transform.transform_point(best)
    }

    fn support_point(&self, direction: &Vector2<Lattice>, transform: &T) -> Vector2<Lattice> {
        self.support_point_spec(*direction, transform)
    }
}

fn square_shape(half: i64) -> CollisionShape<Square, GridPose> {
    CollisionShape::new_simple(CollisionStrategy::CollisionOnly, Square { half })
}

fn grid_pose(x: i64, y: i64) -> GridPose {
    GridPose::new(at(x, y), QuarterTurn::Zero)
}

// The lattice scalar.

#[test]
fn lattice_arithmetic() {
    let n = Lattice::new;
    assert_eq!(n(7), n(3).plus(n(4)));
    assert_eq!(n(-1), n(3).minus(n(4)));
    assert_eq!(n(-12), n(3).times(n(-4)));
    assert_eq!(n(-3), n(3).negated());
    assert_eq!(n(0), Lattice::zero());
    assert_eq!(n(1), Lattice::one());
    assert_eq!(n(i64::MAX), Lattice::infinity());
    assert_eq!(n(5), Lattice::from_count(5));
    assert!(n(-1).lt(n(0)));
    assert!(!n(2).lt(n(2)));
}

#[test]
fn lattice_arithmetic_wraps() {
    let n = Lattice::new;
    assert_eq!(n(i64::MIN), n(i64::MAX).plus(n(1)));
    assert_eq!(n(i64::MAX), n(i64::MIN).minus(n(1)));
    assert_eq!(n(i64::MIN), n(i64::MIN).negated());
    assert_eq!(n(-2), n(i64::MAX).times(n(2)));
}

#[test]
fn lattice_division_rounds_toward_zero() {
    let n = Lattice::new;
    assert_eq!(n(3), n(7).over(n(2)));
    assert_eq!(n(-3), n(-7).over(n(2)));
    assert_eq!(n(-3), n(7).over(n(-2)));
    assert_eq!(n(3), n(-7).over(n(-2)));
    assert_eq!(n(0), n(7).over(n(0)));
    assert_eq!(n(i64::MIN), n(i64::MIN).over(n(-1)));
    assert_eq!(n(i64::MIN), n(i64::MIN).over(n(1)));
    assert_eq!(n(i64::MIN / 3), n(i64::MIN).over(n(3)));
}

#[test]
fn lattice_root_is_the_integer_root() {
    let n = Lattice::new;
    assert_eq!(n(0), n(0).root());
    assert_eq!(n(1), n(3).root());
    assert_eq!(n(2), n(4).root());
    assert_eq!(n(9), n(99).root());
    assert_eq!(n(10), n(100).root());
    assert_eq!(n(3037000499), n(i64::MAX).root());
    assert_eq!(n(0), n(-4).root());
}

// Rotations.

#[test]
fn quarter_turns() {
    let v = at(2, 1);
    assert_eq!(at(2, 1), QuarterTurn::Zero.rotate_vector(v));
    assert_eq!(at(-1, 2), QuarterTurn::One.rotate_vector(v));
    assert_eq!(at(-2, -1), QuarterTurn::Two.rotate_vector(v));
    assert_eq!(at(1, -2), QuarterTurn::Three.rotate_vector(v));
    assert_eq!(QuarterTurn::Three, Rotation::<Vector2<Lattice>>::invert(QuarterTurn::One));
    assert_eq!(QuarterTurn::Zero, Rotation::<Vector2<Lattice>>::invert(QuarterTurn::Zero));
    assert_eq!(
        QuarterTurn::One,
        Rotation::<Vector2<Lattice>>::compose(QuarterTurn::Two, QuarterTurn::Three)
    );
    assert_eq!(QuarterTurn::Two, QuarterTurn::from_count(6));
    assert_eq!(3, QuarterTurn::Three.count());
}

#[test]
fn quarter_turn_toward_a_direction() {
    let up = at(0, 1);
    let look = |x: i64, y: i64| <QuarterTurn as Rotation<Vector2<Lattice>>>::look_at(at(x, y), up);
    assert_eq!(QuarterTurn::Zero, look(5, 1));
    assert_eq!(QuarterTurn::Zero, look(5, 5));
    assert_eq!(QuarterTurn::Zero, look(0, 0));
    assert_eq!(QuarterTurn::One, look(1, 5));
    assert_eq!(QuarterTurn::One, look(-4, 5));
    assert_eq!(QuarterTurn::Two, look(-5, 1));
    assert_eq!(QuarterTurn::Two, look(-5, -5));
    assert_eq!(QuarterTurn::Three, look(1, -5));
    let pose = GridPose::look_at(at(2, 0), at(2, 5), up);
    assert_eq!(QuarterTurn::One, *pose.rotation());
    assert_eq!(at(0, -2), *pose.position());
}

#[test]
fn pose_followed_by_its_inverse_is_the_identity() {
    for turn in [QuarterTurn::Zero, QuarterTurn::One, QuarterTurn::Two, QuarterTurn::Three] {
        let pose = GridPose::new(at(3, -4), turn);
        let inverse = pose.inverse_transform().unwrap();
        assert_eq!(GridPose::one(), pose.concat(&inverse));
        assert_eq!(at(5, 6), inverse.transform_point(pose.transform_point(at(5, 6))));
        assert_eq!(Some(at(5, 6)), pose.inverse_transform_vector(pose.transform_vector(at(5, 6))));
    }
}

#[test]
fn interpolation_by_zero_and_by_one() {
    let p = GridPose::new(at(1, 2), QuarterTurn::One);
    let q = GridPose::new(at(-5, 9), QuarterTurn::Two);
    assert_eq!(p, p.interpolate(&q, Lattice::zero()));
    assert_eq!(q, p.interpolate(&q, Lattice::one()));
    // Also where the way from one to the other does not fit the scalar.
    let far = GridPose::new(at(i64::MAX, i64::MIN), QuarterTurn::Zero);
    let back = GridPose::new(at(i64::MIN, i64::MAX), QuarterTurn::Three);
    assert_eq!(back, far.interpolate(&back, Lattice::one()));
    assert_eq!(far, far.interpolate(&back, Lattice::zero()));
}

#[test]
fn a_body_at_rest_stays() {
    let pose = BodyPose::<Vector2<Lattice>, NoRotation>::new(at(3, 4), NoRotation);
    let rest = Velocity::<Vector2<Lattice>, Lattice>::new();
    assert_eq!(pose, rest.apply(&pose, Lattice::new(17)));
    let moving = Velocity::from_parts(at(2, -1), Lattice::new(0));
    assert_eq!(at(9, 1), *moving.apply(&pose, Lattice::new(3)).position());
}

// The broad phase.

#[test]
fn every_intersecting_pair_is_found() {
    // A grid of boxes, some of which overlap their neighbours.
    let mut shapes = vec![];
    for i in 0..6i64 {
        for j in 0..5i64 {
            let x = i * 10 + (j % 3) * 4;
            let y = j * 7 - (i % 2) * 5;
            shapes.push(entry(shapes.len(), x, y, x + 9 + (i % 3), y + 6 + (j % 2) * 4));
        }
    }
    let mut expected = vec![];
    for a in 0..shapes.len() {
        for b in (a + 1)..shapes.len() {
            if shapes[a].bound.intersects(&shapes[b].bound) {
                expected.push((a, b));
            }
        }
    }
    assert!(expected.len() > 10);

    let mut brute = BruteForce::default();
    assert_eq!(expected, brute.compute(&mut shapes.clone()));

    for axis in 0..2 {
        let mut sweep = SweepAndPrune::<Variance2D<Lattice>>::new_impl(axis);
        let mut sorted = shapes.clone();
        let mut found: Vec<(usize, usize)> = sweep
            .compute(&mut sorted)
            .into_iter()
            .map(|(a, b)| if a < b { (a, b) } else { (b, a) })
            .collect();
        found.sort();
        assert_eq!(expected, found);
        for k in 1..sorted.len() {
            let before = sorted[k - 1].bound.min_extent(axis);
            let after = sorted[k].bound.min_extent(axis);
            assert!(!after.lt(before));
        }
    }
}

#[test]
fn sweep_axis_follows_the_spread_of_the_centers() {
    let mut sweep = SweepAndPrune::<Variance2D<Lattice>>::new();
    let mut tall = vec![entry(0, 0, 0, 2, 2), entry(1, 0, 40, 2, 42), entry(2, 2, 80, 4, 82)];
    sweep.compute(&mut tall);
    assert_eq!(1, sweep.get_sweep_axis());
    let mut wide = vec![entry(0, 0, 0, 2, 2), entry(1, 40, 0, 42, 2), entry(2, 80, 2, 82, 4)];
    sweep.compute(&mut wide);
    assert_eq!(0, sweep.get_sweep_axis());
}

#[test]
fn bounds_unite_and_widen() {
    let a = cell(0, 0, 2, 2);
    let b = cell(5, -1, 6, 1);
    assert_eq!(cell(0, -1, 6, 2), a.union(&b));
    assert!(a.union(&b).contains(&a));
    assert!(a.union(&b).contains(&b));
    assert_eq!(cell(-1, -3, 3, 5), a.add_margin(at(1, 3)));
    assert_eq!(cell(0, 0, 0, 0), Aabb2::<Lattice>::zero());
    assert_eq!(cell(0, 0, 2, 2), Aabb2::new(at(2, 0), at(0, 2)));
    assert_eq!(cell(0, 0, 2, 7), a.grow(at(1, 7)));
}

#[test]
fn bound_turned_by_a_pose() {
    let bound = cell(1, 2, 5, 3);
    let pose = GridPose::new(at(10, 0), QuarterTurn::One);
    // A quarter turn takes (x, y) to (-y, x); then the pose moves by (10, 0).
    assert_eq!(cell(7, 1, 8, 5), rhusics::bound::transformed(&bound, &pose));
}

#[test]
fn container_wrapper_widens_the_bound() {
    let mut shape = square_shape(2);
    shape.update(&grid_pose(10, 10));
    let mut wrapper = ContainerShapeWrapper::new(7usize, shape);
    assert_eq!(0, wrapper.index());
    wrapper.set_index(3);
    assert_eq!(3, wrapper.index());
    assert_eq!(cell(7, 7, 13, 13), wrapper.fat_bound());
    let stored = wrapper.fat_bound();
    assert!(!wrapper.needs_reinsert(&stored));
    assert!(wrapper.needs_reinsert(&cell(9, 9, 13, 13)));
    let wide = ContainerShapeWrapper::new_impl(7usize, square_shape(2), at(3, 0));
    assert_eq!(cell(-5, -2, 5, 2), wide.fat_bound());
}

// Candidate pairs.

#[test]
fn candidates_are_kept_once_and_sorted() {
    let mut potentials = vec![];
    add_candidate(&mut potentials, 5, 2);
    add_candidate(&mut potentials, 2, 5);
    add_candidate(&mut potentials, 1, 9);
    add_candidate(&mut potentials, 3, 3);
    add_candidate(&mut potentials, 2, 4);
    add_candidate(&mut potentials, 9, 1);
    assert_eq!(vec![(1, 9), (2, 4), (2, 5)], potentials);
}

#[test]
fn candidates_of_a_round_of_queries() {
    let hits = vec![(3, vec![3, 1, 4]), (1, vec![3, 1]), (0, vec![]), (4, vec![0, 3])];
    assert_eq!(vec![(0, 4), (1, 3), (3, 4)], candidates(&hits));
    assert_eq!(0, candidates(&vec![]).len());
}

#[test]
fn events_go_to_the_channel_first() {
    let mut channel = Some(vec![1]);
    let mut contacts = Some(vec![2]);
    dispatch(vec![7, 8], &mut channel, &mut contacts);
    assert_eq!(Some(vec![1, 7, 8]), channel);
    assert_eq!(Some(vec![2]), contacts);
    let mut channel = None;
    dispatch(vec![7, 8], &mut channel, &mut contacts);
    assert_eq!(None, channel);
    assert_eq!(Some(vec![2, 7, 8]), contacts);
    let mut contacts = None;
    dispatch(vec![7, 8], &mut channel, &mut contacts);
    assert_eq!(None, channel);
    assert_eq!(None, contacts);
}

// The spatial system.

fn world() -> (Vec<char>, Vec<GridPose>, Vec<Option<GridPose>>, Vec<CollisionShape<Square, GridPose>>) {
    let ids = vec!['a', 'b', 'c'];
    let poses = vec![grid_pose(0, 0), grid_pose(3, 1), grid_pose(50, 50)];
    let next_poses = vec![None, None, None];
    let mut shapes = vec![square_shape(2), square_shape(2), square_shape(2)];
    for (shape, pose) in shapes.iter_mut().zip(poses.iter()) {
        shape.update(pose);
    }
    (ids, poses, next_poses, shapes)
}

fn bodies_of(events: &Vec<ContactEvent<char, Vector2<Lattice>>>) -> Vec<(char, char)> {
    events.iter().map(|e| e.bodies).collect()
}

#[test]
fn spatial_system_with_tree_queries() {
    let (ids, poses, next_poses, shapes) = world();
    let mut system: SpatialCollisionSystem<GJK2<Lattice>, BruteForce> =
        SpatialCollisionSystem::new().with_narrow_phase(GJK2::new());
    // The tree found b and c for a, and a for b; c only meets the bound of a.
    let hits = vec![(0, vec![0, 1, 2]), (1, vec![1, 0])];
    let mut values: Vec<BroadCollisionInfo<usize, Aabb2<Lattice>>> = vec![];
    let mut contacts = Some(vec![ContactEvent::new_single(CollisionStrategy::CollisionOnly, ('x', 'y'))]);
    let mut channel = None;
    system.run(&ids, &poses, &next_poses, &shapes, &mut values, &hits, &mut contacts, &mut channel);
    assert!(channel.is_none());
    assert_eq!(vec![('a', 'b')], bodies_of(&contacts.unwrap()));
}

#[test]
fn spatial_system_without_narrow_phase_reports_candidates() {
    let (ids, poses, next_poses, shapes) = world();
    let mut system: SpatialCollisionSystem<GJK2<Lattice>, BruteForce> = SpatialCollisionSystem::new();
    let hits = vec![(0, vec![0, 1, 2]), (1, vec![1, 0])];
    let mut values: Vec<BroadCollisionInfo<usize, Aabb2<Lattice>>> = vec![];
    let mut contacts = Some(vec![]);
    let mut channel = Some(vec![]);
    system.run(&ids, &poses, &next_poses, &shapes, &mut values, &hits, &mut contacts, &mut channel);
    assert_eq!(vec![('a', 'b'), ('a', 'c')], bodies_of(&channel.unwrap()));
    assert_eq!(0, contacts.unwrap().len());
}

#[test]
fn spatial_system_skips_pairs_that_name_no_body() {
    let (ids, poses, next_poses, shapes) = world();
    let mut system: SpatialCollisionSystem<GJK2<Lattice>, BruteForce> = SpatialCollisionSystem::new();
    let hits = vec![(0, vec![1, 7]), (9, vec![2])];
    let mut values: Vec<BroadCollisionInfo<usize, Aabb2<Lattice>>> = vec![];
    let mut contacts = None;
    let mut channel = Some(vec![]);
    system.run(&ids, &poses, &next_poses, &shapes, &mut values, &hits, &mut contacts, &mut channel);
    assert_eq!(vec![('a', 'b')], bodies_of(&channel.unwrap()));
}

#[test]
fn spatial_system_with_a_broad_phase() {
    let (ids, poses, next_poses, shapes) = world();
    let mut system = SpatialCollisionSystem::new()
        .with_narrow_phase(GJK2::<Lattice>::new())
        .with_broad_phase(BruteForce::default());
    let mut values: Vec<BroadCollisionInfo<usize, Aabb2<Lattice>>> =
        shapes.iter().enumerate().map(|(i, s)| BroadCollisionInfo::new(i, *s.bound())).collect();
    let hits = vec![];
    let mut contacts = None;
    let mut channel = Some(vec![]);
    system.run(&ids, &poses, &next_poses, &shapes, &mut values, &hits, &mut contacts, &mut channel);
    assert_eq!(vec![('a', 'b')], bodies_of(&channel.unwrap()));
}

#[test]
fn spatial_system_with_moving_bodies() {
    let (ids, poses, mut next_poses, shapes) = world();
    let gjk = GJK2::<Lattice>::new();
    // c is far away now and on a and b in the next frame.
    next_poses[2] = Some(grid_pose(1, 1));
    assert!(gjk.collide(&shapes[0], &poses[0], &shapes[2], &poses[2]).is_none());
    let mut system: SpatialCollisionSystem<GJK2<Lattice>, BruteForce> =
        SpatialCollisionSystem::new().with_narrow_phase(gjk);
    let hits = vec![(2, vec![0])];
    let mut values: Vec<BroadCollisionInfo<usize, Aabb2<Lattice>>> = vec![];
    let mut contacts = None;
    let mut channel = Some(vec![]);
    system.run(&ids, &poses, &next_poses, &shapes, &mut values, &hits, &mut contacts, &mut channel);
    assert_eq!(vec![('a', 'c')], bodies_of(&channel.unwrap()));
}

// Frames.

#[test]
fn commit_of_a_frame() {
    let mut system = CurrentFrameUpdateSystem::new();
    let mut poses = vec![grid_pose(0, 0), grid_pose(1, 1), grid_pose(2, 2)];
    let next_poses = vec![NextFrame { value: grid_pose(5, 5) }, NextFrame { value: grid_pose(6, 6) }];
    let mut velocities = vec![Velocity::<Vector2<Lattice>, Lattice>::new()];
    let next_velocities = vec![
        NextFrame { value: Velocity::from_parts(at(1, 2), Lattice::new(3)) },
        NextFrame { value: Velocity::from_parts(at(4, 5), Lattice::new(6)) },
    ];
    system.run(&mut velocities, &next_velocities, &mut poses, &next_poses);
    assert_eq!(vec![grid_pose(5, 5), grid_pose(6, 6), grid_pose(2, 2)], poses);
    assert_eq!(vec![Velocity::from_parts(at(1, 2), Lattice::new(3))], velocities);
}

#[test]
fn forces_add_up_and_are_consumed() {
    let mut forces = ForceAccumulator::<Vector2<Lattice>, Lattice>::new();
    forces.add_force(at(1, 2));
    forces.add_force(at(10, 20));
    forces.add_torque(Lattice::new(5));
    forces.add_force_at_point(at(0, 3), at(7, 1), &grid_pose(5, 1));
    assert_eq!(at(11, 25), forces.consume_force());
    assert_eq!(Lattice::new(11), forces.consume_torque());
    assert_eq!(at(0, 0), forces.consume_force());
    assert_eq!(Lattice::new(0), forces.consume_torque());
}
