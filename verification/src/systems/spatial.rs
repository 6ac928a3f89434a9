//! The spatial collision detection system: collision detection over a
//! world that is kept in a bounding volume tree.
//!
//! The tree itself belongs to the embedder. What the system takes from it
//! is, for each body whose pose changed, the bodies that a query of the
//! tree with the bound of that body gave; or, where a broad phase is set,
//! the values that the tree holds.
use vstd::prelude::*;
use crate::bound::Bound;
use crate::broad::{
    complete,
    names_entries,
    BroadCollisionData,
    BroadPhase,
};
use crate::collide::primitive::{HasAABB, SupportFunction};
use crate::collide::shape::CollisionShape;
use crate::collide::{CollisionStrategy, Contact, ContactEvent};
use crate::narrow::NarrowPhase;
use crate::pose::Transform;
use crate::scalar::Additive;
use crate::systems::candidates::{candidates, found, strictly_sorted};
use crate::vector::VectorSpace;

verus! {

/// A collision detection system for a world kept in a bounding volume
/// tree, with a broad and a narrow phase, each of which may be left out.
///
/// Without a broad phase the candidate pairs are those that the queries of
/// the tree gave. Without a narrow phase every candidate pair is reported,
/// as a contact without manifold.
pub struct SpatialCollisionSystem<N, B> {
    narrow: Option<N>,
    broad: Option<B>,
}

/// Whether the events went where they belong: to the end of the event
/// channel where there is one; else to the end of the list of contacts
/// where there is one; else nowhere.
pub open spec fn delivered<E>(
    events: Seq<E>,
    channel_before: Option<Vec<E>>,
    contacts_before: Option<Seq<E>>,
    channel_after: Option<Vec<E>>,
    contacts_after: Option<Vec<E>>,
) -> bool {
    match channel_before {
        Some(channel) => {
            &&& channel_after is Some
            &&& channel_after.unwrap()@ == channel@ + events
            &&& contacts_after is Some == contacts_before is Some
            &&& contacts_after is Some ==> contacts_after.unwrap()@ == contacts_before.unwrap()
        },
        None => {
            &&& channel_after is None
            &&& contacts_after is Some == contacts_before is Some
            &&& contacts_after is Some ==> contacts_after.unwrap()@ == contacts_before.unwrap()
                + events
        },
    }
}

/// Where contact events go: to the event channel where there is one; else
/// to the list of contacts where there is one; else nowhere.
pub fn dispatch<E>(events: Vec<E>, channel: &mut Option<Vec<E>>, contacts: &mut Option<Vec<E>>)
    ensures
        (*old(channel)) is Some ==> (*final(channel)) is Some && (*final(channel)).unwrap()@ == (*old(channel)).unwrap()@ + events@ && *final(contacts) == *old(contacts),
        (*old(channel)) is None ==> (*final(channel)) is None,
        (*old(channel)) is None && (*old(contacts)) is Some ==> (*final(contacts)) is Some && (*final(contacts)).unwrap()@ == (*old(contacts)).unwrap()@ + events@,
        (*old(channel)) is None && (*old(contacts)) is None ==> (*final(contacts)) is None,
{
    let mut events = events;
    match channel {
        Some(written) => {
            written.append(&mut events);
        },
        None => {
            match contacts {
                Some(list) => {
                    list.append(&mut events);
                },
                None => {},
            }
        },
    }
}

/// The contact between two bodies that may move within the frame: that at
/// their poses where neither has a pose for the next frame, and else that
/// on the way to the next frame, a body without a pose for the next frame
/// staying where it is.
pub open spec fn moving_contact<N, P, T>(
    narrow: N,
    left: &CollisionShape<P, T>,
    left_start: &T,
    left_end: Option<T>,
    right: &CollisionShape<P, T>,
    right_start: &T,
    right_end: Option<T>,
) -> Option<Contact<<P::Aabb as Bound>::Point>> where
    P: HasAABB + SupportFunction<<P::Aabb as Bound>::Point, T>,
    T: Transform<<P::Aabb as Bound>::Point>,
    N: NarrowPhase<P, T>,
 {
    if left_end is None && right_end is None {
        narrow.collide_spec(left, left_start, right, right_start)
    } else {
        narrow.collide_continuous_spec(
            left,
            left_start,
            &match left_end {
                Some(end) => end,
                None => *left_start,
            },
            right,
            right_start,
            &match right_end {
                Some(end) => end,
                None => *right_start,
            },
        )
    }
}

/// The number of bodies: the length of the shortest of four lists.
pub open spec fn known_bodies(ids: int, poses: int, next_poses: int, shapes: int) -> int {
    let least = if ids < poses { ids } else { poses };
    let other = if next_poses < shapes { next_poses } else { shapes };
    if least < other { least } else { other }
}

/// The event that the pair `pair` of bodies gives: with a narrow phase,
/// the contact that it finds between the two moving bodies, if it finds
/// one; without, a contact without manifold. A pair that names no body
/// gives none.
pub open spec fn moving_event_of<N, P, T, ID>(
    narrow: Option<N>,
    pair: (usize, usize),
    ids: Seq<ID>,
    poses: Seq<T>,
    next_poses: Seq<Option<T>>,
    shapes: Seq<CollisionShape<P, T>>,
) -> Option<ContactEvent<ID, <P::Aabb as Bound>::Point>> where
    P: HasAABB + SupportFunction<<P::Aabb as Bound>::Point, T>,
    T: Transform<<P::Aabb as Bound>::Point>,
    N: NarrowPhase<P, T>,
 {
    let count = known_bodies(
        ids.len() as int,
        poses.len() as int,
        next_poses.len() as int,
        shapes.len() as int,
    );
    let bodies = (ids[pair.0 as int], ids[pair.1 as int]);
    if pair.0 >= count || pair.1 >= count {
        None
    } else {
        known_moving_event_of(narrow, pair, ids, poses, next_poses, shapes)
    }
}

/// The event of a pair that names two bodies.
pub open spec fn known_moving_event_of<N, P, T, ID>(
    narrow: Option<N>,
    pair: (usize, usize),
    ids: Seq<ID>,
    poses: Seq<T>,
    next_poses: Seq<Option<T>>,
    shapes: Seq<CollisionShape<P, T>>,
) -> Option<ContactEvent<ID, <P::Aabb as Bound>::Point>> where
    P: HasAABB + SupportFunction<<P::Aabb as Bound>::Point, T>,
    T: Transform<<P::Aabb as Bound>::Point>,
    N: NarrowPhase<P, T>,
 {
    let bodies = (ids[pair.0 as int], ids[pair.1 as int]);
    match narrow {
        Some(narrow) => match moving_contact(
            narrow,
            &shapes[pair.0 as int],
            &poses[pair.0 as int],
            next_poses[pair.0 as int],
            &shapes[pair.1 as int],
            &poses[pair.1 as int],
            next_poses[pair.1 as int],
        ) {
            Some(contact) => Some(ContactEvent { bodies, contact }),
            None => None,
        },
        None => Some(
            ContactEvent {
                bodies,
                contact: Contact {
                    strategy: CollisionStrategy::CollisionOnly,
                    normal: <P::Aabb as Bound>::Point::zero_spec(),
                    penetration_depth: <<P::Aabb as Bound>::Point as VectorSpace>::Scalar::zero_spec(),
                    contact_point: <P::Aabb as Bound>::Point::zero_spec(),
                },
            },
        ),
    }
}

/// The events that the first `count` pairs give, in the order of the pairs.
pub open spec fn moving_events_of<N, P, T, ID>(
    narrow: Option<N>,
    pairs: Seq<(usize, usize)>,
    ids: Seq<ID>,
    poses: Seq<T>,
    next_poses: Seq<Option<T>>,
    shapes: Seq<CollisionShape<P, T>>,
    count: int,
) -> Seq<ContactEvent<ID, <P::Aabb as Bound>::Point>> where
    P: HasAABB + SupportFunction<<P::Aabb as Bound>::Point, T>,
    T: Transform<<P::Aabb as Bound>::Point>,
    N: NarrowPhase<P, T>,

    decreases count,
{
    if count <= 0 {
        Seq::empty()
    } else {
        let before = moving_events_of(narrow, pairs, ids, poses, next_poses, shapes, count - 1);
        match moving_event_of(narrow, pairs[count - 1], ids, poses, next_poses, shapes) {
            Some(event) => before.push(event),
            None => before,
        }
    }
}

/// Runs the narrow phase on the candidate pairs of moving bodies and lists
/// the events.
pub fn moving_contact_events<N, P, T, ID>(
    narrow: &Option<N>,
    pairs: &Vec<(usize, usize)>,
    ids: &Vec<ID>,
    poses: &Vec<T>,
    next_poses: &Vec<Option<T>>,
    shapes: &Vec<CollisionShape<P, T>>,
) -> (events: Vec<ContactEvent<ID, <P::Aabb as Bound>::Point>>) where
    P: HasAABB + SupportFunction<<P::Aabb as Bound>::Point, T>,
    T: Transform<<P::Aabb as Bound>::Point>,
    N: NarrowPhase<P, T>,
    ID: Copy,

    ensures
        events@ == moving_events_of(
            *narrow,
            pairs@,
            ids@,
            poses@,
            next_poses@,
            shapes@,
            pairs@.len() as int,
        ),
{
    let mut events: Vec<ContactEvent<ID, <P::Aabb as Bound>::Point>> = Vec::new();
    let mut count = ids.len();
    if poses.len() < count {
        count = poses.len();
    }
    if next_poses.len() < count {
        count = next_poses.len();
    }
    if shapes.len() < count {
        count = shapes.len();
    }
    let mut k: usize = 0;
    while k < pairs.len()
        invariant
            k <= pairs@.len(),
            count == known_bodies(
                ids@.len() as int,
                poses@.len() as int,
                next_poses@.len() as int,
                shapes@.len() as int,
            ),
            events@ == moving_events_of(
                *narrow,
                pairs@,
                ids@,
                poses@,
                next_poses@,
                shapes@,
                k as int,
            ),
        decreases pairs@.len() - k,
    {
        let left = pairs[k].0;
        let right = pairs[k].1;
        if left >= count || right >= count {
            k += 1;
            continue ;
        }
        let bodies = (ids[left], ids[right]);
        match narrow {
            Some(narrow_phase) => {
                match narrow_phase.collide_continuous(
                    &shapes[left],
                    &poses[left],
                    next_poses[left].as_ref(),
                    &shapes[right],
                    &poses[right],
                    next_poses[right].as_ref(),
                ) {
                    Some(contact) => {
                        events.push(ContactEvent::new(bodies, contact));
                    },
                    None => {},
                }
            },
            None => {
                events.push(ContactEvent::new_single(CollisionStrategy::CollisionOnly, bodies));
            },
        }
        k += 1;
    }
    events
}

impl<N, B> SpatialCollisionSystem<N, B> {
    pub closed spec fn narrow_spec(&self) -> Option<N> {
        self.narrow
    }

    pub closed spec fn broad_spec(&self) -> Option<B> {
        self.broad
    }

    /// A system without a broad and without a narrow phase.
    pub fn new() -> (r: Self)
        ensures
            r.narrow_spec() is None,
            r.broad_spec() is None,
    {
        SpatialCollisionSystem { narrow: None, broad: None }
    }

    /// The system with `narrow` as its narrow phase.
    pub fn with_narrow_phase(self, narrow: N) -> (r: Self)
        ensures
            r.narrow_spec() == Some(narrow),
            r.broad_spec() == self.broad_spec(),
    {
        SpatialCollisionSystem { narrow: Some(narrow), broad: self.broad }
    }

    /// The system with `broad` as its broad phase.
    pub fn with_broad_phase(self, broad: B) -> (r: Self)
        ensures
            r.broad_spec() == Some(broad),
            r.narrow_spec() == self.narrow_spec(),
    {
        SpatialCollisionSystem { narrow: self.narrow, broad: Some(broad) }
    }

    /// Whether the broad phase, if there is one, is ready for a call.
    pub open spec fn well_formed<D: BroadCollisionData<Id = usize>>(&self) -> bool where
        B: BroadPhase<D>,
     {
        match self.broad_spec() {
            Some(broad) => broad.well_formed(),
            None => true,
        }
    }

    /// Whether `potentials` and `run` may be called.
    pub fn is_well_formed<D: BroadCollisionData<Id = usize>>(&self) -> (r: bool) where
        B: BroadPhase<D>,

        ensures
            r == self.well_formed::<D>(),
    {
        match &self.broad {
            Some(broad) => broad.is_well_formed(),
            None => true,
        }
    }

    /// The candidate pairs of the tick.
    ///
    /// With a broad phase, they are what it finds among `values`, the
    /// values that the tree holds, each with the number of its body as
    /// id. Without, they are the pairs that the queries of the tree gave,
    /// each kept once: `hits` holds, for each body whose pose changed, the
    /// numbers of the bodies that the query with its bound gave.
    pub fn potentials<D>(&mut self, values: &mut Vec<D>, hits: &Vec<(usize, Vec<usize>)>) -> (pairs:
        Vec<(usize, usize)>) where D: BroadCollisionData<Id = usize>, B: BroadPhase<D>
        requires
            old(self).well_formed::<D>(),
        ensures
            final(self).well_formed::<D>(),
            final(self).narrow_spec() == old(self).narrow_spec(),
            final(self).broad_spec() is Some == old(self).broad_spec() is Some,
            final(values)@.to_multiset() == old(values)@.to_multiset(),
            old(self).broad_spec() is Some ==> complete(old(values)@, pairs@) && complete(
                final(values)@,
                pairs@,
            ) && names_entries(final(values)@, pairs@),
            old(self).broad_spec() is None ==> final(values)@ == old(values)@ && strictly_sorted(
                pairs@,
            ) && forall|pair: (usize, usize)| pairs@.contains(pair) <==> found(hits@, pair),
    {
        match &mut self.broad {
            Some(broad) => broad.compute(values),
            None => candidates(hits),
        }
    }
}

/// Whether `pairs` are the candidate pairs of a tick: with a broad phase,
/// pairs of the values that leave out no two values whose bounds
/// intersect; without, the pairs that the queries gave, each once, sorted.
pub open spec fn are_candidates<D: BroadCollisionData<Id = usize>>(
    with_broad_phase: bool,
    values_before: Seq<D>,
    values_after: Seq<D>,
    hits: Seq<(usize, Vec<usize>)>,
    pairs: Seq<(usize, usize)>,
) -> bool {
    if with_broad_phase {
        complete(values_before, pairs) && complete(values_after, pairs) && names_entries(
            values_after,
            pairs,
        )
    } else {
        strictly_sorted(pairs) && forall|pair: (usize, usize)|
            pairs.contains(pair) <==> found(hits, pair)
    }
}

impl<N, B> SpatialCollisionSystem<N, B> {
    /// One tick of collision detection. The body `i` is made of the
    /// entries at `i` of the four lists of bodies.
    ///
    /// The list of contacts, where there is one, is emptied. The candidate
    /// pairs are found as `potentials` tells. Each candidate pair that
    /// names two bodies gives its event, and the events go where
    /// `dispatch` tells.
    pub fn run<P, T, ID, D>(
        &mut self,
        ids: &Vec<ID>,
        poses: &Vec<T>,
        next_poses: &Vec<Option<T>>,
        shapes: &Vec<CollisionShape<P, T>>,
        values: &mut Vec<D>,
        hits: &Vec<(usize, Vec<usize>)>,
        contacts: &mut Option<Vec<ContactEvent<ID, <P::Aabb as Bound>::Point>>>,
        channel: &mut Option<Vec<ContactEvent<ID, <P::Aabb as Bound>::Point>>>,
    ) where
        P: HasAABB + SupportFunction<<P::Aabb as Bound>::Point, T>,
        T: Transform<<P::Aabb as Bound>::Point>,
        N: NarrowPhase<P, T>,
        D: BroadCollisionData<Id = usize>,
        B: BroadPhase<D>,
        ID: Copy,

        requires
            old(self).well_formed::<D>(),
        ensures
            final(self).well_formed::<D>(),
            final(self).narrow_spec() == old(self).narrow_spec(),
            final(self).broad_spec() is Some == old(self).broad_spec() is Some,
            final(values)@.to_multiset() == old(values)@.to_multiset(),
            exists|pairs: Seq<(usize, usize)>|
                {
                    &&& #[trigger] are_candidates(
                        old(self).broad_spec() is Some,
                        old(values)@,
                        final(values)@,
                        hits@,
                        pairs,
                    )
                    &&& delivered(
                        moving_events_of(
                            old(self).narrow_spec(),
                            pairs,
                            ids@,
                            poses@,
                            next_poses@,
                            shapes@,
                            pairs.len() as int,
                        ),
                        *old(channel),
                        match *old(contacts) {
                            Some(list) => Some(Seq::empty()),
                            None => None,
                        },
                        *final(channel),
                        *final(contacts),
                    )
                },
    {
        match contacts {
            Some(list) => {
                list.clear();
            },
            None => {},
        }
        let pairs = self.potentials(values, hits);
        let events = moving_contact_events(&self.narrow, &pairs, ids, poses, next_poses, shapes);
        let ghost listed = events@;
        dispatch(events, channel, contacts);
        proof {
            assert(are_candidates(
                old(self).broad_spec() is Some,
                old(values)@,
                values@,
                hits@,
                pairs@,
            ));
            assert(delivered(
                listed,
                *old(channel),
                match *old(contacts) {
                    Some(list) => Some(Seq::empty()),
                    None => None,
                },
                *channel,
                *contacts,
            ));
        }
    }
}

} // verus!
