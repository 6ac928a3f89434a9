//! Collision shapes: one or more primitives with their bounds.
use vstd::prelude::*;
use crate::bound::{
    encloses,
    lemma_encloses_transitive,
    lemma_union_encloses,
    transformed,
    transformed_spec,
    Bound,
    Extent,
};
use crate::broad::BroadCollisionData;
use crate::collide::primitive::{HasAABB, SupportFunction};
use crate::collide::CollisionStrategy;
use crate::pose::Transform;
use crate::scalar::Scalar;
use crate::vector::VectorSpace;

verus! {

/// A primitive with the transform from its own frame to that of the model.
///
/// Holds the bound of the primitive in model coordinates and, as of the
/// last update, in world coordinates.
#[derive(Clone)]
pub struct CollisionPrimitive<P: HasAABB, T> {
    local_transform: T,
    base_bound: P::Aabb,
    transformed_bound: P::Aabb,
    primitive: P,
}

impl<P, T> CollisionPrimitive<P, T> where
    P: HasAABB + SupportFunction<<P::Aabb as Bound>::Point, T>,
    T: Transform<<P::Aabb as Bound>::Point>,
 {
    pub closed spec fn local_transform_spec(&self) -> T {
        self.local_transform
    }

    /// The bound in model coordinates.
    pub closed spec fn base_bound_spec(&self) -> P::Aabb {
        self.base_bound
    }

    /// The bound in world coordinates, as of the last update.
    pub closed spec fn transformed_bound_spec(&self) -> P::Aabb {
        self.transformed_bound
    }

    pub closed spec fn primitive_spec(&self) -> P {
        self.primitive
    }

    /// A primitive whose frame is that of the model.
    pub fn new(primitive: P) -> (r: Self)
        ensures
            r.primitive_spec() == primitive,
            r.local_transform_spec() == T::one_spec(),
            r.base_bound_spec() == transformed_spec(&primitive.get_bound_spec(), &T::one_spec()),
            r.transformed_bound_spec() == r.base_bound_spec(),
    {
        Self::new_impl(primitive, T::one())
    }

    /// A primitive that `local_transform` places in the model.
    pub fn new_impl(primitive: P, local_transform: T) -> (r: Self)
        ensures
            r.primitive_spec() == primitive,
            r.local_transform_spec() == local_transform,
            r.base_bound_spec() == transformed_spec(&primitive.get_bound_spec(), &local_transform),
            r.transformed_bound_spec() == r.base_bound_spec(),
    {
        let bound = transformed(&primitive.get_bound(), &local_transform);
        CollisionPrimitive {
            local_transform,
            base_bound: bound,
            transformed_bound: bound,
            primitive,
        }
    }

    /// Derives the world bound anew, for the model placed in the world by
    /// `transform`.
    pub fn update(&mut self, transform: &T)
        ensures
            final(self).transformed_bound_spec() == transformed_spec(
                &old(self).base_bound_spec(),
                transform,
            ),
            final(self).base_bound_spec() == old(self).base_bound_spec(),
            final(self).local_transform_spec() == old(self).local_transform_spec(),
            final(self).primitive_spec() == old(self).primitive_spec(),
    {
        self.transformed_bound = transformed(&self.base_bound, transform);
    }

    /// The point of the primitive that lies furthest in `direction`, the
    /// model being placed in the world by `transform`.
    pub fn get_far_point(&self, direction: &<P::Aabb as Bound>::Point, transform: &T) -> (r: <
        P::Aabb as Bound
    >::Point)
        ensures
            r == self.primitive_spec().support_point_spec(
                *direction,
                &transform.concat_spec(&self.local_transform_spec()),
            ),
    {
        let t = transform.concat(&self.local_transform);
        self.primitive.support_point(direction, &t)
    }

    pub fn base_bound(&self) -> (r: &P::Aabb)
        ensures
            *r == self.base_bound_spec(),
    {
        &self.base_bound
    }

    pub fn bound(&self) -> (r: &P::Aabb)
        ensures
            *r == self.transformed_bound_spec(),
    {
        &self.transformed_bound
    }

    pub fn local_transform(&self) -> (r: &T)
        ensures
            *r == self.local_transform_spec(),
    {
        &self.local_transform
    }

    pub fn primitive(&self) -> (r: &P)
        ensures
            *r == self.primitive_spec(),
    {
        &self.primitive
    }
}

impl<P, T> SupportFunction<<P::Aabb as Bound>::Point, T> for CollisionPrimitive<P, T> where
    P: HasAABB + SupportFunction<<P::Aabb as Bound>::Point, T>,
    T: Transform<<P::Aabb as Bound>::Point>,
 {
    /// The support point of the primitive, which `transform` places in the
    /// world after the local transform has placed it in the model.
    open spec fn support_point_spec(
        &self,
        direction: <P::Aabb as Bound>::Point,
        transform: &T,
    ) -> <P::Aabb as Bound>::Point {
        self.primitive_spec().support_point_spec(
            direction,
            &transform.concat_spec(&self.local_transform_spec()),
        )
    }

    fn support_point(&self, direction: &<P::Aabb as Bound>::Point, transform: &T) -> (r: <
        P::Aabb as Bound
    >::Point) {
        self.get_far_point(direction, transform)
    }
}

/// The union of the first `count` of `bounds`: the smallest volume that
/// holds them all. Where there is none to hold, it is the volume that
/// holds only the origin.
pub open spec fn union_of<B: Bound>(bounds: Seq<B>, count: int) -> B
    decreases count,
{
    if count <= 0 {
        B::zero_spec()
    } else if count == 1 {
        bounds[0]
    } else {
        union_of(bounds, count - 1).union_spec(&bounds[count - 1])
    }
}

/// `start` widened to hold the first `count` of `bounds`.
pub open spec fn widened<B: Bound>(start: B, bounds: Seq<B>, count: int) -> B
    decreases count,
{
    if count <= 0 {
        start
    } else {
        widened(start, bounds, count - 1).union_spec(&bounds[count - 1])
    }
}

/// A widened volume holds the volume it started from and each of the
/// volumes it was widened by.
pub proof fn lemma_widened_encloses<B: Bound>(start: B, bounds: Seq<B>, count: int)
    requires
        0 <= count <= bounds.len(),
    ensures
        encloses(&widened(start, bounds, count), &start),
        forall|i: int| 0 <= i < count ==> encloses(&widened(start, bounds, count), &bounds[i]),
    decreases count,
{
    if count <= 0 {
        lemma_union_encloses(&start, &start);
        B::law_union(&start, &start);
        assert forall|axis: int| 0 <= axis < B::dimensions() implies crate::bound::encloses_on(
            &start,
            &start,
            axis,
        ) by {}
    } else {
        let smaller = widened(start, bounds, count - 1);
        lemma_widened_encloses(start, bounds, count - 1);
        lemma_union_encloses(&smaller, &bounds[count - 1]);
        lemma_encloses_transitive(&widened(start, bounds, count), &smaller, &start);
        assert forall|i: int| 0 <= i < count implies encloses(
            &widened(start, bounds, count),
            &bounds[i],
        ) by {
            if i < count - 1 {
                lemma_encloses_transitive(&widened(start, bounds, count), &smaller, &bounds[i]);
            }
        }
    }
}

/// A volume that holds all the volumes it is widened by stays as it is:
/// along every axis it begins and ends where it did.
pub proof fn lemma_widened_of_enclosed<B: Bound>(start: B, bounds: Seq<B>, count: int, axis: int)
    requires
        0 <= count <= bounds.len(),
        0 <= axis < B::dimensions(),
        forall|i: int| 0 <= i < count ==> encloses(&start, &#[trigger] bounds[i]),
    ensures
        widened(start, bounds, count).lower(axis) == start.lower(axis),
        widened(start, bounds, count).upper(axis) == start.upper(axis),
    decreases count,
{
    if count > 0 {
        let smaller = widened(start, bounds, count - 1);
        lemma_widened_of_enclosed(start, bounds, count - 1, axis);
        B::law_union(&smaller, &bounds[count - 1]);
        assert(encloses(&start, &bounds[count - 1]));
        assert(crate::bound::encloses_on(&start, &bounds[count - 1], axis));
        assert(widened(start, bounds, count).lower(axis) == crate::bound::min_spec(
            smaller.lower(axis),
            bounds[count - 1].lower(axis),
        ));
        assert(widened(start, bounds, count).upper(axis) == crate::bound::max_spec(
            smaller.upper(axis),
            bounds[count - 1].upper(axis),
        ));
    }
}

/// The model bounds of the primitives, in their order.
pub open spec fn base_bounds<P, T>(primitives: Seq<CollisionPrimitive<P, T>>) -> Seq<P::Aabb> where
    P: HasAABB + SupportFunction<<P::Aabb as Bound>::Point, T>,
    T: Transform<<P::Aabb as Bound>::Point>,
 {
    Seq::new(primitives.len(), |i: int| primitives[i].base_bound_spec())
}

/// The world bounds of the primitives, in their order.
pub open spec fn world_bounds<P, T>(primitives: Seq<CollisionPrimitive<P, T>>) -> Seq<
    P::Aabb,
> where
    P: HasAABB + SupportFunction<<P::Aabb as Bound>::Point, T>,
    T: Transform<<P::Aabb as Bound>::Point>,
 {
    Seq::new(primitives.len(), |i: int| primitives[i].transformed_bound_spec())
}

/// The union of the model bounds of the primitives: the smallest volume
/// that holds them all. Without a primitive it is the volume that holds
/// only the origin.
pub fn get_bound<P, T>(primitives: &Vec<CollisionPrimitive<P, T>>) -> (r: P::Aabb) where
    P: HasAABB + SupportFunction<<P::Aabb as Bound>::Point, T>,
    T: Transform<<P::Aabb as Bound>::Point>,

    ensures
        r == union_of(base_bounds(primitives@), primitives@.len() as int),
{
    if primitives.len() == 0 {
        return P::Aabb::zero();
    }
    let mut bound = *primitives[0].base_bound();
    let mut i: usize = 1;
    while i < primitives.len()
        invariant
            1 <= i <= primitives@.len(),
            bound == union_of(base_bounds(primitives@), i as int),
        decreases primitives@.len() - i,
    {
        bound = bound.union(primitives[i].base_bound());
        i += 1;
    }
    bound
}

/// `start` widened to hold the world bound of every primitive.
fn hold_all<P, T>(start: P::Aabb, primitives: &Vec<CollisionPrimitive<P, T>>) -> (r: P::Aabb) where
    P: HasAABB + SupportFunction<<P::Aabb as Bound>::Point, T>,
    T: Transform<<P::Aabb as Bound>::Point>,

    ensures
        r == widened(start, world_bounds(primitives@), primitives@.len() as int),
{
    let mut bound = start;
    let mut i: usize = 0;
    while i < primitives.len()
        invariant
            i <= primitives@.len(),
            bound == widened(start, world_bounds(primitives@), i as int),
        decreases primitives@.len() - i,
    {
        bound = bound.union(primitives[i].bound());
        i += 1;
    }
    bound
}

/// A complete collision object: one convex primitive, or several that make
/// up a concave shape.
///
/// Holds the bound of all its primitives in model coordinates and, as of the
/// last update, in world coordinates.
#[derive(Clone)]
pub struct CollisionShape<P: HasAABB, T> {
    /// Whether the shape takes part in collision detection.
    pub enabled: bool,
    base_bound: P::Aabb,
    transformed_bound: P::Aabb,
    primitives: Vec<CollisionPrimitive<P, T>>,
    strategy: CollisionStrategy,
}

impl<P, T> CollisionShape<P, T> where
    P: HasAABB + SupportFunction<<P::Aabb as Bound>::Point, T>,
    T: Transform<<P::Aabb as Bound>::Point>,
 {
    /// The bound in model coordinates.
    pub closed spec fn base_bound_spec(&self) -> P::Aabb {
        self.base_bound
    }

    /// The bound in world coordinates, as of the last update.
    pub closed spec fn bound_spec(&self) -> P::Aabb {
        self.transformed_bound
    }

    pub closed spec fn primitives_spec(&self) -> Seq<CollisionPrimitive<P, T>> {
        self.primitives@
    }

    pub closed spec fn strategy_spec(&self) -> CollisionStrategy {
        self.strategy
    }

    /// Whether the shape takes part in collision detection.
    pub closed spec fn enabled_spec(&self) -> bool {
        self.enabled
    }

    /// The model bound is the union of the model bounds of the primitives, and
    /// the world bound holds the world bound of every primitive.
    pub open spec fn well_formed(&self) -> bool {
        &&& self.base_bound_spec() == union_of(
            base_bounds(self.primitives_spec()),
            self.primitives_spec().len() as int,
        )
        &&& self.holds_primitives()
    }

    /// Whether the world bound holds the world bound of every primitive.
    pub open spec fn holds_primitives(&self) -> bool {
        forall|i: int|
            0 <= i < self.primitives_spec().len() ==> encloses(
                &self.bound_spec(),
                &#[trigger] self.primitives_spec()[i].transformed_bound_spec(),
            )
    }

    /// Whether this shape is `before` after an update with `transform`:
    /// the same shape, with the world bound of each primitive derived from
    /// its model bound, and the world bound of the shape derived from its
    /// own model bound and widened to hold the world bound of every
    /// primitive.
    pub open spec fn updated_from(&self, before: &Self, transform: &T) -> bool {
        &&& self.enabled_spec() == before.enabled_spec()
        &&& self.strategy_spec() == before.strategy_spec()
        &&& self.base_bound_spec() == before.base_bound_spec()
        &&& self.primitives_spec().len() == before.primitives_spec().len()
        &&& forall|i: int|
            0 <= i < self.primitives_spec().len() ==> {
                let was = before.primitives_spec()[i];
                let is = #[trigger] self.primitives_spec()[i];
                &&& is.transformed_bound_spec() == transformed_spec(
                    &was.base_bound_spec(),
                    transform,
                )
                &&& is.base_bound_spec() == was.base_bound_spec()
                &&& is.local_transform_spec() == was.local_transform_spec()
                &&& is.primitive_spec() == was.primitive_spec()
            }
        &&& self.bound_spec() == widened(
            transformed_spec(&before.base_bound_spec(), transform),
            world_bounds(self.primitives_spec()),
            self.primitives_spec().len() as int,
        )
    }

    /// A shape made of several primitives. Its world bound is its model
    /// bound, widened where needed to hold the world bound of every primitive.
    pub fn new_complex(strategy: CollisionStrategy, primitives: Vec<CollisionPrimitive<P, T>>) -> (r:
        Self)
        ensures
            r.well_formed(),
            r.enabled_spec(),
            r.strategy_spec() == strategy,
            r.primitives_spec() == primitives@,
            r.bound_spec() == widened(
                r.base_bound_spec(),
                world_bounds(primitives@),
                primitives@.len() as int,
            ),
    {
        let bound = get_bound(&primitives);
        let world = hold_all(bound, &primitives);
        proof {
            let worlds = world_bounds(primitives@);
            lemma_widened_encloses(bound, worlds, primitives@.len() as int);
            assert forall|i: int| 0 <= i < primitives@.len() implies encloses(
                &world,
                &#[trigger] primitives@[i].transformed_bound_spec(),
            ) by {
                assert(worlds[i] == primitives@[i].transformed_bound_spec());
            }
        }
        CollisionShape {
            base_bound: bound,
            primitives,
            enabled: true,
            transformed_bound: world,
            strategy,
        }
    }

    /// A shape of one primitive whose frame is that of the model.
    pub fn new_simple(strategy: CollisionStrategy, primitive: P) -> (r: Self)
        ensures
            r.well_formed(),
            r.enabled_spec(),
            r.strategy_spec() == strategy,
            r.primitives_spec().len() == 1,
            r.primitives_spec()[0].primitive_spec() == primitive,
            r.primitives_spec()[0].local_transform_spec() == T::one_spec(),
    {
        let mut primitives: Vec<CollisionPrimitive<P, T>> = Vec::new();
        primitives.push(CollisionPrimitive::new(primitive));
        Self::new_complex(strategy, primitives)
    }

    /// A shape of one primitive that `transform` places in the model.
    pub fn new_simple_offset(strategy: CollisionStrategy, primitive: P, transform: T) -> (r: Self)
        ensures
            r.well_formed(),
            r.enabled_spec(),
            r.strategy_spec() == strategy,
            r.primitives_spec().len() == 1,
            r.primitives_spec()[0].primitive_spec() == primitive,
            r.primitives_spec()[0].local_transform_spec() == transform,
    {
        let mut primitives: Vec<CollisionPrimitive<P, T>> = Vec::new();
        primitives.push(CollisionPrimitive::new_impl(primitive, transform));
        Self::new_complex(strategy, primitives)
    }

    /// Derives the world bounds anew, for the model placed in the world by
    /// `transform`: that of each primitive from its model bound, and that of
    /// the shape from its own model bound, widened where needed to hold the
    /// world bound of every primitive.
    pub fn update(&mut self, transform: &T)
        ensures
            final(self).updated_from(old(self), transform),
            final(self).holds_primitives(),
            old(self).well_formed() ==> final(self).well_formed(),
    {
        let n = self.primitives.len();
        let mut i: usize = 0;
        while i < n
            invariant
                n == self.primitives@.len(),
                n == old(self).primitives@.len(),
                i <= n,
                self.enabled == old(self).enabled,
                self.strategy == old(self).strategy,
                self.base_bound == old(self).base_bound,
                forall|k: int|
                    0 <= k < i ==> {
                        let before = old(self).primitives@[k];
                        let after = #[trigger] self.primitives@[k];
                        &&& after.transformed_bound_spec() == transformed_spec(
                            &before.base_bound_spec(),
                            transform,
                        )
                        &&& after.base_bound_spec() == before.base_bound_spec()
                        &&& after.local_transform_spec() == before.local_transform_spec()
                        &&& after.primitive_spec() == before.primitive_spec()
                    },
                forall|k: int| i <= k < n ==> self.primitives@[k] == old(self).primitives@[k],
            decreases n - i,
        {
            self.primitives[i].update(transform);
            i += 1;
        }
        let start = transformed(&self.base_bound, transform);
        self.transformed_bound = hold_all(start, &self.primitives);
        proof {
            let worlds = world_bounds(self.primitives@);
            lemma_widened_encloses(start, worlds, n as int);
            assert(base_bounds(self.primitives@) =~= base_bounds(old(self).primitives@)) by {
                assert forall|k: int| 0 <= k < n implies base_bounds(self.primitives@)[k]
                    == base_bounds(old(self).primitives@)[k] by {
                    assert(self.primitives@[k].base_bound_spec() == old(self).primitives@[k].base_bound_spec());
                }
            }
            assert forall|k: int| 0 <= k < self.primitives_spec().len() implies encloses(
                &self.bound_spec(),
                &#[trigger] self.primitives_spec()[k].transformed_bound_spec(),
            ) by {
                assert(worlds[k] == self.primitives@[k].transformed_bound_spec());
            }
        }
    }

    /// The bound in world coordinates, as of the last update.
    pub fn bound(&self) -> (r: &P::Aabb)
        ensures
            *r == self.bound_spec(),
    {
        &self.transformed_bound
    }

    pub fn strategy(&self) -> (r: CollisionStrategy)
        ensures
            r == self.strategy_spec(),
    {
        self.strategy
    }

    /// Whether the shape takes part in collision detection: it is enabled
    /// and has a primitive.
    pub fn takes_part(&self) -> (r: bool)
        ensures
            r == takes_part(self),
    {
        self.enabled && self.primitives.len() > 0
    }

    /// Whether the shape is enabled.
    pub fn is_enabled(&self) -> (r: bool)
        ensures
            r == self.enabled_spec(),
    {
        self.enabled
    }

    pub fn primitives(&self) -> (r: &Vec<CollisionPrimitive<P, T>>)
        ensures
            r@ == self.primitives_spec(),
    {
        &self.primitives
    }
}

/// Whether a shape takes part in collision detection: it is enabled and has
/// a primitive.
pub open spec fn takes_part<P, T>(shape: &CollisionShape<P, T>) -> bool where
    P: HasAABB + SupportFunction<<P::Aabb as Bound>::Point, T>,
    T: Transform<<P::Aabb as Bound>::Point>,
 {
    shape.enabled_spec() && shape.primitives_spec().len() > 0
}

/// A union holds each of the volumes it was taken of.
pub proof fn lemma_union_of_encloses<B: Bound>(bounds: Seq<B>, count: int)
    requires
        0 <= count <= bounds.len(),
    ensures
        forall|i: int| 0 <= i < count ==> encloses(&union_of(bounds, count), &bounds[i]),
    decreases count,
{
    if count == 1 {
        assert forall|axis: int| 0 <= axis < B::dimensions() implies crate::bound::encloses_on(
            &bounds[0],
            &bounds[0],
            axis,
        ) by {}
    } else if count > 1 {
        let smaller = union_of(bounds, count - 1);
        lemma_union_of_encloses(bounds, count - 1);
        lemma_union_encloses(&smaller, &bounds[count - 1]);
        assert forall|i: int| 0 <= i < count implies encloses(
            &union_of(bounds, count),
            &bounds[i],
        ) by {
            if i < count - 1 {
                lemma_encloses_transitive(&union_of(bounds, count), &smaller, &bounds[i]);
            }
        }
    }
}

/// A union is no larger than it has to be: along every axis it begins
/// where one of the volumes begins, and ends where one of them ends.
pub proof fn lemma_union_of_tight<B: Bound>(bounds: Seq<B>, count: int, axis: int)
    requires
        1 <= count <= bounds.len(),
        0 <= axis < B::dimensions(),
    ensures
        exists|k: int|
            0 <= k < count && union_of(bounds, count).lower(axis) == (#[trigger] bounds[k]).lower(
                axis,
            ),
        exists|k: int|
            0 <= k < count && union_of(bounds, count).upper(axis) == (#[trigger] bounds[k]).upper(
                axis,
            ),
    decreases count,
{
    if count == 1 {
        assert(union_of(bounds, count).lower(axis) == bounds[0].lower(axis));
        assert(union_of(bounds, count).upper(axis) == bounds[0].upper(axis));
    } else {
        let smaller = union_of(bounds, count - 1);
        lemma_union_of_tight(bounds, count - 1, axis);
        B::law_union(&smaller, &bounds[count - 1]);
        let whole = union_of(bounds, count);
        assert(whole.lower(axis) == crate::bound::min_spec(
            smaller.lower(axis),
            bounds[count - 1].lower(axis),
        ));
        assert(whole.upper(axis) == crate::bound::max_spec(
            smaller.upper(axis),
            bounds[count - 1].upper(axis),
        ));
        let low = choose|k: int|
            0 <= k < count - 1 && smaller.lower(axis) == (#[trigger] bounds[k]).lower(axis);
        let high = choose|k: int|
            0 <= k < count - 1 && smaller.upper(axis) == (#[trigger] bounds[k]).upper(axis);
        if whole.lower(axis) == smaller.lower(axis) {
            assert(whole.lower(axis) == bounds[low].lower(axis));
        } else {
            assert(whole.lower(axis) == bounds[count - 1].lower(axis));
        }
        if whole.upper(axis) == smaller.upper(axis) {
            assert(whole.upper(axis) == bounds[high].upper(axis));
        } else {
            assert(whole.upper(axis) == bounds[count - 1].upper(axis));
        }
    }
}

/// The model bound of a shape holds the model bound of each of its
/// primitives, as its world bound holds their world bounds.
pub proof fn lemma_bounds_hold_primitives<P, T>(shape: &CollisionShape<P, T>, i: int) where
    P: HasAABB + SupportFunction<<P::Aabb as Bound>::Point, T>,
    T: Transform<<P::Aabb as Bound>::Point>,

    requires
        shape.well_formed(),
        0 <= i < shape.primitives_spec().len(),
    ensures
        encloses(&shape.base_bound_spec(), &shape.primitives_spec()[i].base_bound_spec()),
        encloses(&shape.bound_spec(), &shape.primitives_spec()[i].transformed_bound_spec()),
{
    let bases = base_bounds(shape.primitives_spec());
    lemma_union_of_encloses(bases, bases.len() as int);
    assert(bases[i] == shape.primitives_spec()[i].base_bound_spec());
}

/// A shape as the containers of the broad phase hold it: with the id of its
/// body, a margin by which its bound is widened, and its place in the
/// container.
#[derive(Clone)]
pub struct ContainerShapeWrapper<ID, P: HasAABB, T> {
    id: ID,
    shape: CollisionShape<P, T>,
    fat_factor: <P::Aabb as Bound>::Point,
    index: usize,
}

impl<ID: Copy, P, T> ContainerShapeWrapper<ID, P, T> where
    P: HasAABB + SupportFunction<<P::Aabb as Bound>::Point, T>,
    T: Transform<<P::Aabb as Bound>::Point>,
 {
    pub closed spec fn id_of(&self) -> ID {
        self.id
    }

    pub closed spec fn shape_spec(&self) -> CollisionShape<P, T> {
        self.shape
    }

    pub closed spec fn fat_factor_spec(&self) -> <P::Aabb as Bound>::Point {
        self.fat_factor
    }

    pub closed spec fn index_spec(&self) -> usize {
        self.index
    }

    /// The shape of the body `id`, with the margin `fat_factor`.
    pub fn new_impl(id: ID, shape: CollisionShape<P, T>, fat_factor: <P::Aabb as Bound>::Point) -> (r:
        Self)
        ensures
            r.id_of() == id,
            r.shape_spec() == shape,
            r.fat_factor_spec() == fat_factor,
            r.index_spec() == 0,
    {
        ContainerShapeWrapper { id, shape, fat_factor, index: 0 }
    }

    /// The shape of the body `id`, with a margin of one along every axis.
    pub fn new(id: ID, shape: CollisionShape<P, T>) -> (r: Self)
        ensures
            r.id_of() == id,
            r.shape_spec() == shape,
            r.fat_factor_spec() == <<P::Aabb as Bound>::Point as VectorSpace>::from_value_spec(
                <P::Aabb as Extent>::Scalar::one_spec(),
            ),
            r.index_spec() == 0,
    {
        Self::new_impl(
            id,
            shape,
            <<P::Aabb as Bound>::Point as VectorSpace>::from_value(
                <P::Aabb as Extent>::Scalar::one(),
            ),
        )
    }

    /// The world bound of the shape, widened by the margin.
    pub fn fat_bound(&self) -> (r: P::Aabb)
        ensures
            r == self.shape_spec().bound_spec().with_margin_spec(self.fat_factor_spec()),
    {
        self.shape.bound().with_margin(self.fat_factor)
    }

    /// Whether a container that holds the shape under the widened bound
    /// `stored` has to take it out and put it in anew: that is where the
    /// world bound of the shape has left `stored`. While the shape stays
    /// within the margin, the container stays as it is.
    pub fn needs_reinsert(&self, stored: &P::Aabb) -> (r: bool)
        ensures
            r == !encloses(stored, &self.shape_spec().bound_spec()),
    {
        !stored.contains(self.shape.bound())
    }

    pub fn set_index(&mut self, index: usize)
        ensures
            final(self).index_spec() == index,
            final(self).id_of() == old(self).id_of(),
            final(self).shape_spec() == old(self).shape_spec(),
            final(self).fat_factor_spec() == old(self).fat_factor_spec(),
    {
        self.index = index;
    }

    pub fn index(&self) -> (r: usize)
        ensures
            r == self.index_spec(),
    {
        self.index
    }

    pub fn shape(&self) -> (r: &CollisionShape<P, T>)
        ensures
            *r == self.shape_spec(),
    {
        &self.shape
    }
}

impl<ID: Copy, P, T> BroadCollisionData for ContainerShapeWrapper<ID, P, T> where
    P: HasAABB + SupportFunction<<P::Aabb as Bound>::Point, T>,
    T: Transform<<P::Aabb as Bound>::Point>,
 {
    type Id = ID;

    type Bound = P::Aabb;

    open spec fn id_spec(&self) -> ID {
        self.id_of()
    }

    open spec fn bound_spec(&self) -> P::Aabb {
        self.shape_spec().bound_spec()
    }

    fn id(&self) -> (r: &ID) {
        &self.id
    }

    fn bound(&self) -> (r: &P::Aabb) {
        self.shape.bound()
    }
}

} // verus!
