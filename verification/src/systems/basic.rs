//! The basic collision detection system: every shape is brought up to its
//! pose, the broad phase finds the pairs of bodies that may collide, and
//! the narrow phase finds the contacts.
use vstd::prelude::*;
use crate::bound::{overlap, Bound};
use crate::broad::{
    complete,
    entries_overlap,
    id_pair,
    lemma_names_entry,
    names,
    names_entries,
    BroadCollisionData,
    BroadCollisionInfo,
    BroadPhase,
};
use crate::collide::primitive::{HasAABB, SupportFunction};
use crate::collide::shape::{takes_part, CollisionShape};
use crate::collide::{CollisionStrategy, Contact, ContactEvent};
use crate::narrow::NarrowPhase;
use crate::pose::Transform;
use crate::scalar::Additive;
use crate::vector::VectorSpace;

verus! {

/// A collision detection system with a broad and a narrow phase, each of
/// which may be left out.
///
/// Without a broad phase the system finds nothing. Without a narrow phase
/// it reports every pair that the broad phase finds, as a contact without
/// manifold.
pub struct BasicCollisionSystem<N, B> {
    narrow: Option<N>,
    broad: Option<B>,
}

/// The entry of the body `i` for the broad phase: its number and the world
/// bound of its shape.
pub open spec fn entry_of<P, T>(shapes: Seq<CollisionShape<P, T>>, i: int) -> BroadCollisionInfo<
    usize,
    P::Aabb,
> where
    P: HasAABB + SupportFunction<<P::Aabb as Bound>::Point, T>,
    T: Transform<<P::Aabb as Bound>::Point>,
 {
    BroadCollisionInfo { id: i as usize, bound: shapes[i].bound_spec() }
}

/// Whether `pairs` holds, in one order or the other, every two of the
/// first `count` bodies that take part and whose world bounds intersect.
pub open spec fn covers<P, T>(
    shapes: Seq<CollisionShape<P, T>>,
    count: int,
    pairs: Seq<(usize, usize)>,
) -> bool where
    P: HasAABB + SupportFunction<<P::Aabb as Bound>::Point, T>,
    T: Transform<<P::Aabb as Bound>::Point>,
 {
    forall|i: int, j: int|
        0 <= i < count && 0 <= j < count && i != j && takes_part(&shapes[i]) && takes_part(
            &shapes[j],
        ) && overlap(&#[trigger] shapes[i].bound_spec(), &#[trigger] shapes[j].bound_spec())
            ==> pairs.contains((i as usize, j as usize)) || pairs.contains(
            (j as usize, i as usize),
        )
}

/// Whether every pair is made of two different numbers below `count`.
pub open spec fn within(pairs: Seq<(usize, usize)>, count: int) -> bool {
    forall|k: int|
        0 <= k < pairs.len() ==> (#[trigger] pairs[k]).0 < count && pairs[k].1 < count
            && pairs[k].0 != pairs[k].1
}

/// Whether both bodies of every pair take part in collision detection.
pub open spec fn among_partakers<P, T>(
    shapes: Seq<CollisionShape<P, T>>,
    pairs: Seq<(usize, usize)>,
) -> bool where
    P: HasAABB + SupportFunction<<P::Aabb as Bound>::Point, T>,
    T: Transform<<P::Aabb as Bound>::Point>,
 {
    forall|k: int|
        0 <= k < pairs.len() ==> takes_part(&shapes[(#[trigger] pairs[k]).0 as int])
            && takes_part(&shapes[pairs[k].1 as int])
}

/// Whether `info` holds the entries of the bodies below `count` that take
/// part, each once, and nothing else.
pub open spec fn lists_partakers<P, T>(
    shapes: Seq<CollisionShape<P, T>>,
    count: int,
    info: Seq<BroadCollisionInfo<usize, P::Aabb>>,
) -> bool where
    P: HasAABB + SupportFunction<<P::Aabb as Bound>::Point, T>,
    T: Transform<<P::Aabb as Bound>::Point>,
 {
    &&& forall|k: int|
        0 <= k < info.len() ==> (#[trigger] info[k]).id < count && info[k] == entry_of(
            shapes,
            info[k].id as int,
        ) && takes_part(&shapes[info[k].id as int])
    &&& forall|k1: int, k2: int|
        0 <= k1 < k2 < info.len() ==> (#[trigger] info[k1]).id < (#[trigger] info[k2]).id
    &&& forall|i: int|
        0 <= i < count && takes_part(&shapes[i]) ==> info.contains(
            #[trigger] entry_of(shapes, i),
        )
}

/// Brings the shape of each of the first `count` bodies up to the pose of
/// the body, and lists the entries for the broad phase: one for each of
/// these bodies whose shape takes part in collision detection.
pub fn update_bodies<P, T>(
    count: usize,
    poses: &Vec<T>,
    shapes: &mut Vec<CollisionShape<P, T>>,
) -> (info: Vec<BroadCollisionInfo<usize, P::Aabb>>) where
    P: HasAABB + SupportFunction<<P::Aabb as Bound>::Point, T>,
    T: Transform<<P::Aabb as Bound>::Point>,

    requires
        count <= poses@.len(),
        count <= old(shapes)@.len(),
    ensures
        final(shapes)@.len() == old(shapes)@.len(),
        forall|i: int|
            0 <= i < final(shapes)@.len() && old(shapes)@[i].well_formed() ==> (
            #[trigger] final(shapes)@[i]).well_formed(),
        forall|i: int| 0 <= i < count ==> (#[trigger] final(shapes)@[i]).holds_primitives(),
        forall|i: int|
            0 <= i < count ==> (#[trigger] final(shapes)@[i]).updated_from(
                &old(shapes)@[i],
                &poses@[i],
            ),
        forall|i: int|
            count <= i < final(shapes)@.len() ==> #[trigger] final(shapes)@[i] == old(shapes)@[i],
        lists_partakers(final(shapes)@, count as int, info@),
{
    let mut info: Vec<BroadCollisionInfo<usize, P::Aabb>> = Vec::new();
    let mut i: usize = 0;
    while i < count
        invariant
            i <= count,
            count <= poses@.len(),
            count <= shapes@.len(),
            shapes@.len() == old(shapes)@.len(),
            forall|k: int|
                0 <= k < shapes@.len() && old(shapes)@[k].well_formed() ==> (
                #[trigger] shapes@[k]).well_formed(),
            forall|k: int| 0 <= k < i ==> (#[trigger] shapes@[k]).holds_primitives(),
            forall|k: int|
                0 <= k < i ==> (#[trigger] shapes@[k]).updated_from(&old(shapes)@[k], &poses@[k]),
            forall|k: int| i <= k < shapes@.len() ==> #[trigger] shapes@[k] == old(shapes)@[k],
            lists_partakers(shapes@, i as int, info@),
        decreases count - i,
    {
        let ghost shapes_before = shapes@;
        let ghost info_before = info@;
        shapes[i].update(&poses[i]);
        proof {
            assert forall|k: int| 0 <= k < info_before.len() implies (#[trigger] info_before[k])
                == entry_of(shapes@, info_before[k].id as int) && takes_part(
                &shapes@[info_before[k].id as int],
            ) by {
                assert(shapes@[info_before[k].id as int] == shapes_before[info_before[k].id as int]);
            }
        }
        if shapes[i].takes_part() {
            let bound = *shapes[i].bound();
            info.push(BroadCollisionInfo::new(i, bound));
            proof {
                assert(info@[info_before.len() as int] == entry_of(shapes@, i as int));
                assert forall|b: int| 0 <= b < i + 1 && takes_part(&shapes@[b]) implies info@.contains(
                    #[trigger] entry_of(shapes@, b),
                ) by {
                    if b < i {
                        assert(shapes@[b] == shapes_before[b]);
                        assert(info_before.contains(entry_of(shapes_before, b)));
                        let k = choose|k: int|
                            0 <= k < info_before.len() && info_before[k] == entry_of(
                                shapes_before,
                                b,
                            );
                        assert(info@[k] == entry_of(shapes@, b));
                    } else {
                        assert(info@[info_before.len() as int] == entry_of(shapes@, b));
                    }
                }
            }
        } else {
            proof {
                assert forall|b: int| 0 <= b < i + 1 && takes_part(&shapes@[b]) implies info@.contains(
                    #[trigger] entry_of(shapes@, b),
                ) by {
                    assert(b < i);
                    assert(shapes@[b] == shapes_before[b]);
                    assert(info_before.contains(entry_of(shapes_before, b)));
                }
            }
        }
        i += 1;
    }
    info
}

/// The number of bodies: the length of the shortest of three lists.
pub open spec fn body_count(ids: int, poses: int, shapes: int) -> int {
    let least = if ids < poses { ids } else { poses };
    if least < shapes { least } else { shapes }
}

/// The event that the pair `pair` of bodies gives: with a narrow phase,
/// the contact that it finds between the two shapes at their poses, if it
/// finds one; without, a contact without manifold. A pair that names no
/// body gives none.
pub open spec fn event_of<N, P, T, ID>(
    narrow: Option<N>,
    pair: (usize, usize),
    ids: Seq<ID>,
    poses: Seq<T>,
    shapes: Seq<CollisionShape<P, T>>,
) -> Option<ContactEvent<ID, <P::Aabb as Bound>::Point>> where
    P: HasAABB + SupportFunction<<P::Aabb as Bound>::Point, T>,
    T: Transform<<P::Aabb as Bound>::Point>,
    N: NarrowPhase<P, T>,
 {
    let count = body_count(ids.len() as int, poses.len() as int, shapes.len() as int);
    let bodies = (ids[pair.0 as int], ids[pair.1 as int]);
    if pair.0 >= count || pair.1 >= count {
        None
    } else {
        match narrow {
            Some(narrow) => match narrow.collide_spec(
                &shapes[pair.0 as int],
                &poses[pair.0 as int],
                &shapes[pair.1 as int],
                &poses[pair.1 as int],
            ) {
                Some(contact) => Some(ContactEvent { bodies, contact }),
                None => None,
            },
            None => Some(
                ContactEvent {
                    bodies,
                    contact: Contact {
                        strategy: CollisionStrategy::CollisionOnly,
                        normal: <P::Aabb as Bound>::Point::zero_spec(),
                        penetration_depth: <<P::Aabb as Bound>::Point as VectorSpace>::Scalar::zero_spec(),
                        contact_point: <P::Aabb as Bound>::Point::zero_spec(),
                    },
                },
            ),
        }
    }
}

/// The events that the first `count` pairs give, in the order of the pairs.
pub open spec fn events_of<N, P, T, ID>(
    narrow: Option<N>,
    pairs: Seq<(usize, usize)>,
    ids: Seq<ID>,
    poses: Seq<T>,
    shapes: Seq<CollisionShape<P, T>>,
    count: int,
) -> Seq<ContactEvent<ID, <P::Aabb as Bound>::Point>> where
    P: HasAABB + SupportFunction<<P::Aabb as Bound>::Point, T>,
    T: Transform<<P::Aabb as Bound>::Point>,
    N: NarrowPhase<P, T>,

    decreases count,
{
    if count <= 0 {
        Seq::empty()
    } else {
        let before = events_of(narrow, pairs, ids, poses, shapes, count - 1);
        match event_of(narrow, pairs[count - 1], ids, poses, shapes) {
            Some(event) => before.push(event),
            None => before,
        }
    }
}

/// Runs the narrow phase on the candidate pairs and lists the events.
pub fn contact_events<N, P, T, ID>(
    narrow: &Option<N>,
    pairs: &Vec<(usize, usize)>,
    ids: &Vec<ID>,
    poses: &Vec<T>,
    shapes: &Vec<CollisionShape<P, T>>,
) -> (events: Vec<ContactEvent<ID, <P::Aabb as Bound>::Point>>) where
    P: HasAABB + SupportFunction<<P::Aabb as Bound>::Point, T>,
    T: Transform<<P::Aabb as Bound>::Point>,
    N: NarrowPhase<P, T>,
    ID: Copy,

    ensures
        events@ == events_of(*narrow, pairs@, ids@, poses@, shapes@, pairs@.len() as int),
{
    let mut events: Vec<ContactEvent<ID, <P::Aabb as Bound>::Point>> = Vec::new();
    let mut count = ids.len();
    if poses.len() < count {
        count = poses.len();
    }
    if shapes.len() < count {
        count = shapes.len();
    }
    let mut k: usize = 0;
    while k < pairs.len()
        invariant
            k <= pairs@.len(),
            count == body_count(ids@.len() as int, poses@.len() as int, shapes@.len() as int),
            events@ == events_of(*narrow, pairs@, ids@, poses@, shapes@, k as int),
        decreases pairs@.len() - k,
    {
        let left = pairs[k].0;
        let right = pairs[k].1;
        if left >= count || right >= count {
            k += 1;
            continue ;
        }
        let bodies = (ids[left], ids[right]);
        match narrow {
            Some(narrow_phase) => {
                match narrow_phase.collide(
                    &shapes[left],
                    &poses[left],
                    &shapes[right],
                    &poses[right],
                ) {
                    Some(contact) => {
                        events.push(ContactEvent::new(bodies, contact));
                    },
                    None => {},
                }
            },
            None => {
                events.push(ContactEvent::new_single(CollisionStrategy::CollisionOnly, bodies));
            },
        }
        k += 1;
    }
    events
}

/// What the broad phase finds for the entries of the bodies, in whatever
/// order it leaves them, holds for the bodies themselves: every two bodies
/// that take part and whose world bounds intersect are a pair, and every
/// pair is made of two bodies that take part.
pub proof fn lemma_pairs_cover_bodies<P, T>(
    shapes: Seq<CollisionShape<P, T>>,
    count: int,
    before: Seq<BroadCollisionInfo<usize, P::Aabb>>,
    after: Seq<BroadCollisionInfo<usize, P::Aabb>>,
    pairs: Seq<(usize, usize)>,
) where
    P: HasAABB + SupportFunction<<P::Aabb as Bound>::Point, T>,
    T: Transform<<P::Aabb as Bound>::Point>,

    requires
        0 <= count <= shapes.len(),
        count <= usize::MAX,
        lists_partakers(shapes, count, before),
        after.to_multiset() == before.to_multiset(),
        complete(after, pairs),
        names_entries(after, pairs),
    ensures
        covers(shapes, count, pairs),
        within(pairs, count),
        among_partakers(shapes, pairs),
{
    assert forall|x: BroadCollisionInfo<usize, P::Aabb>| after.contains(x) <==> before.contains(
        x,
    ) by {
        vstd::seq_lib::to_multiset_contains(after, x);
        vstd::seq_lib::to_multiset_contains(before, x);
    }
    assert forall|i: int, j: int|
        0 <= i < count && 0 <= j < count && i != j && takes_part(&shapes[i]) && takes_part(
            &shapes[j],
        ) && overlap(
            &#[trigger] shapes[i].bound_spec(),
            &#[trigger] shapes[j].bound_spec(),
        ) implies pairs.contains((i as usize, j as usize)) || pairs.contains(
        (j as usize, i as usize),
    ) by {
        assert(before.contains(entry_of(shapes, i)));
        assert(before.contains(entry_of(shapes, j)));
        let p = choose|p: int| 0 <= p < after.len() && after[p] == entry_of(shapes, i);
        let q = choose|q: int| 0 <= q < after.len() && after[q] == entry_of(shapes, j);
        let a = choose|a: int| 0 <= a < before.len() && before[a] == entry_of(shapes, i);
        let b = choose|b: int| 0 <= b < before.len() && before[b] == entry_of(shapes, j);
        assert(before[a].id < count);
        assert(before[b].id < count);
        assert(before[a] == entry_of(shapes, before[a].id as int));
        assert(before[b] == entry_of(shapes, before[b].id as int));
        assert(after[p].id != after[q].id);
        assert(entries_overlap(after, p, q));
        assert(id_pair(after, p, q) == (i as usize, j as usize));
        assert(id_pair(after, q, p) == (j as usize, i as usize));
    }
    assert(before.no_duplicates()) by {
        assert forall|k1: int, k2: int| 0 <= k1 < k2 < before.len() implies before[k1]
            != before[k2] by {
            assert(before[k1].id < before[k2].id);
        }
    }
    before.lemma_multiset_has_no_duplicates();
    after.lemma_multiset_has_no_duplicates_conv();
    assert forall|k: int| 0 <= k < pairs.len() implies (#[trigger] pairs[k]).0 < count
        && pairs[k].1 < count && pairs[k].0 != pairs[k].1 && takes_part(
        &shapes[pairs[k].0 as int],
    ) && takes_part(&shapes[pairs[k].1 as int]) by {
        lemma_names_entry(after, pairs, k);
        let (p, q) = choose|p: int, q: int| #[trigger] names(after, pairs[k], p, q);
        assert(after.contains(after[p]));
        assert(after.contains(after[q]));
        let a = choose|a: int| 0 <= a < before.len() && before[a] == after[p];
        let b = choose|b: int| 0 <= b < before.len() && before[b] == after[q];
        assert(before[a].id < count && takes_part(&shapes[before[a].id as int]));
        assert(before[b].id < count && takes_part(&shapes[before[b].id as int]));
        assert(after[p] != after[q]);
        if a < b {
            assert(before[a].id < before[b].id);
        } else if b < a {
            assert(before[b].id < before[a].id);
        }
    }
}

impl<N, B> BasicCollisionSystem<N, B> {
    pub closed spec fn narrow_spec(&self) -> Option<N> {
        self.narrow
    }

    pub closed spec fn broad_spec(&self) -> Option<B> {
        self.broad
    }

    /// A system without a broad and without a narrow phase.
    pub fn new() -> (r: Self)
        ensures
            r.narrow_spec() is None,
            r.broad_spec() is None,
    {
        BasicCollisionSystem { narrow: None, broad: None }
    }

    /// The system with `narrow` as its narrow phase.
    pub fn with_narrow_phase(self, narrow: N) -> (r: Self)
        ensures
            r.narrow_spec() == Some(narrow),
            r.broad_spec() == self.broad_spec(),
    {
        BasicCollisionSystem { narrow: Some(narrow), broad: self.broad }
    }

    /// The system with `broad` as its broad phase.
    pub fn with_broad_phase(self, broad: B) -> (r: Self)
        ensures
            r.broad_spec() == Some(broad),
            r.narrow_spec() == self.narrow_spec(),
    {
        BasicCollisionSystem { narrow: self.narrow, broad: Some(broad) }
    }
}

impl<N, B> BasicCollisionSystem<N, B> {
    /// Whether the broad phase, if there is one, is ready for a call.
    pub open spec fn well_formed<P, T>(&self) -> bool where
        P: HasAABB + SupportFunction<<P::Aabb as Bound>::Point, T>,
        T: Transform<<P::Aabb as Bound>::Point>,
        B: BroadPhase<BroadCollisionInfo<usize, P::Aabb>>,
     {
        match self.broad_spec() {
            Some(broad) => broad.well_formed(),
            None => true,
        }
    }

    /// Whether `run` may be called.
    pub fn is_well_formed<P, T>(&self) -> (r: bool) where
        P: HasAABB + SupportFunction<<P::Aabb as Bound>::Point, T>,
        T: Transform<<P::Aabb as Bound>::Point>,
        B: BroadPhase<BroadCollisionInfo<usize, P::Aabb>>,

        ensures
            r == self.well_formed::<P, T>(),
    {
        match &self.broad {
            Some(broad) => broad.is_well_formed(),
            None => true,
        }
    }

    /// One tick of collision detection. The body `i` is made of the
    /// entries at `i` of the three lists.
    ///
    /// Without a broad phase nothing happens. With one, the shape of every
    /// body is brought up to its pose, and the broad phase gives the
    /// candidate pairs: they hold every two bodies whose world bounds
    /// intersect, among the bodies whose shapes take part in collision
    /// detection, and no other body. Each candidate pair gives its event.
    pub fn run<P, T, ID>(
        &mut self,
        ids: &Vec<ID>,
        poses: &Vec<T>,
        shapes: &mut Vec<CollisionShape<P, T>>,
    ) -> (events: Vec<ContactEvent<ID, <P::Aabb as Bound>::Point>>) where
        P: HasAABB + SupportFunction<<P::Aabb as Bound>::Point, T>,
        T: Transform<<P::Aabb as Bound>::Point>,
        N: NarrowPhase<P, T>,
        B: BroadPhase<BroadCollisionInfo<usize, P::Aabb>>,
        ID: Copy,

        requires
            old(self).well_formed::<P, T>(),
        ensures
            final(self).well_formed::<P, T>(),
            final(self).narrow_spec() == old(self).narrow_spec(),
            final(self).broad_spec() is Some == old(self).broad_spec() is Some,
            final(shapes)@.len() == old(shapes)@.len(),
            forall|i: int|
                0 <= i < final(shapes)@.len() && old(shapes)@[i].well_formed() ==> (
                #[trigger] final(shapes)@[i]).well_formed(),
            old(self).broad_spec() is None ==> events@.len() == 0 && final(shapes)@ == old(shapes)@,
            old(self).broad_spec() is Some ==> {
                let count = body_count(
                    ids@.len() as int,
                    poses@.len() as int,
                    old(shapes)@.len() as int,
                );
                &&& forall|i: int|
                    0 <= i < count ==> (#[trigger] final(shapes)@[i]).updated_from(
                        &old(shapes)@[i],
                        &poses@[i],
                    )
                &&& forall|i: int|
                    count <= i < final(shapes)@.len() ==> #[trigger] final(shapes)@[i] == old(shapes)@[i]
                &&& exists|pairs: Seq<(usize, usize)>|
                    #![trigger covers(final(shapes)@, count, pairs)]
                    {
                        &&& covers(final(shapes)@, count, pairs)
                        &&& within(pairs, count)
                        &&& among_partakers(final(shapes)@, pairs)
                        &&& events@ == events_of(
                            old(self).narrow_spec(),
                            pairs,
                            ids@,
                            poses@,
                            final(shapes)@,
                            pairs.len() as int,
                        )
                    }
            },
    {
        if self.broad.is_none() {
            return Vec::new();
        }
        let mut count = ids.len();
        if poses.len() < count {
            count = poses.len();
        }
        if shapes.len() < count {
            count = shapes.len();
        }
        let mut info = update_bodies(count, poses, shapes);
        let ghost entries = info@;
        let pairs = match &mut self.broad {
            Some(broad) => broad.compute(&mut info),
            None => Vec::new(),
        };
        proof {
            lemma_pairs_cover_bodies(shapes@, count as int, entries, info@, pairs@);
        }
        let events = contact_events(&self.narrow, &pairs, ids, poses, shapes);
        proof {
            assert(count as int == body_count(
                ids@.len() as int,
                poses@.len() as int,
                old(shapes)@.len() as int,
            ));
            assert(self.narrow_spec() == old(self).narrow_spec());
            assert(covers(shapes@, count as int, pairs@));
            assert(within(pairs@, count as int));
            assert(among_partakers(shapes@, pairs@));
            assert(events@ == events_of(
                old(self).narrow_spec(),
                pairs@,
                ids@,
                poses@,
                shapes@,
                pairs@.len() as int,
            ));
        }
        events
    }
}

} // verus!
