//! The sweep and prune broad phase.
//!
//! The entries are sorted along the sweep axis by the lower end of their
//! bounds. Walking the sorted list, an entry can only intersect the entries
//! before it whose upper end along the axis reaches its lower end; the
//! entries that fall short of it are skipped for this and for every later
//! entry. While walking, the centers of the bounds are summed up, and the
//! axis along which they vary most becomes the sweep axis of the next call.
use vstd::prelude::*;
use crate::bound::{lemma_overlap_symmetric, overlap_on, Bound, Extent};
use crate::broad::variance::{widest_axis, Variance};
use crate::broad::{
    complete,
    entries_overlap,
    id_pair,
    lemma_sound_names_entries,
    is_overlapping_pair,
    lemma_complete_before,
    names,
    rearranged,
    sound,
    BroadCollisionData,
    BroadPhase,
};
use crate::scalar::Scalar;

verus! {

/// Sweep and prune broad phase collision detection.
pub struct SweepAndPrune<V> {
    sweep_axis: usize,
    variance: V,
}

/// Whether `a` comes strictly before `b` in the order of the sweep along
/// `axis`: by the lower end of the bound, then by the upper end.
pub open spec fn starts_before<D: BroadCollisionData>(a: &D, b: &D, axis: int) -> bool {
    let a_lower = a.bound_spec().lower(axis).rank();
    let b_lower = b.bound_spec().lower(axis).rank();
    a_lower < b_lower || (a_lower == b_lower && a.bound_spec().upper(axis).rank()
        < b.bound_spec().upper(axis).rank())
}

/// Whether no entry comes strictly before an earlier one.
pub open spec fn sorted_along<D: BroadCollisionData>(shapes: Seq<D>, axis: int) -> bool {
    forall|i: int, j: int|
        0 <= i < j < shapes.len() ==> !starts_before(&shapes[j], &shapes[i], axis)
}

/// Whether `after` holds the entries of `before`, the entry at `k` being the
/// one that stood at `origin[k]`, and entries that rank alike along `axis`
/// stand in the order in which they stood before.
pub open spec fn stably_rearranged<D: BroadCollisionData>(
    before: Seq<D>,
    after: Seq<D>,
    origin: Seq<int>,
    axis: int,
) -> bool {
    &&& rearranged(before, after, origin)
    &&& forall|k1: int, k2: int|
        0 <= k1 < k2 < after.len() && !starts_before(&after[k1], &after[k2], axis)
            ==> #[trigger] origin[k1] < #[trigger] origin[k2]
}

/// The sequence with the item at `from` moved down to `to`.
pub open spec fn moved<T>(s: Seq<T>, from: int, to: int) -> Seq<T> {
    s.remove(from).insert(to, s[from])
}

proof fn lemma_moved<T>(s: Seq<T>, from: int, to: int)
    requires
        0 <= to <= from < s.len(),
    ensures
        moved(s, from, to).len() == s.len(),
        forall|k: int| 0 <= k < to ==> #[trigger] moved(s, from, to)[k] == s[k],
        moved(s, from, to)[to] == s[from],
        forall|k: int| to < k <= from ==> #[trigger] moved(s, from, to)[k] == s[k - 1],
        forall|k: int| from < k < s.len() ==> #[trigger] moved(s, from, to)[k] == s[k],
        moved(s, from, to).to_multiset() == s.to_multiset(),
{
    let removed = s.remove(from);
    s.remove_ensures(from);
    removed.insert_ensures(to, s[from]);
    let m = moved(s, from, to);
    assert forall|k: int| to < k <= from implies #[trigger] m[k] == s[k - 1] by {
        assert(m[(k - 1) + 1] == removed[k - 1]);
    }
    assert forall|k: int| from < k < s.len() implies #[trigger] m[k] == s[k] by {
        assert(m[(k - 1) + 1] == removed[k - 1]);
    }
    vstd::seq_lib::to_multiset_remove(s, from);
    vstd::seq_lib::to_multiset_insert(removed, to, s[from]);
    s.to_multiset_ensures();
    assert(s.to_multiset().count(s[from]) > 0);
    assert(s.to_multiset().remove(s[from]).insert(s[from]) =~= s.to_multiset());
}

fn entry_before<D: BroadCollisionData>(a: &D, b: &D, axis: usize) -> (r: bool)
    requires
        axis < D::Bound::dimensions(),
    ensures
        r == starts_before(a, b, axis as int),
{
    let a_min = a.bound().min_extent(axis);
    let b_min = b.bound().min_extent(axis);
    if a_min.lt(b_min) {
        true
    } else if b_min.lt(a_min) {
        false
    } else {
        a.bound().max_extent(axis).lt(b.bound().max_extent(axis))
    }
}

/// Sorts the entries along `axis` by insertion: cheap where the entries are
/// nearly in order already, as they are from one frame to the next. Entries
/// that rank alike keep their order.
pub fn sort_along<D: BroadCollisionData>(shapes: &mut Vec<D>, axis: usize)
    requires
        axis < D::Bound::dimensions(),
    ensures
        sorted_along(final(shapes)@, axis as int),
        final(shapes)@.to_multiset() == old(shapes)@.to_multiset(),
        exists|origin: Seq<int>|
            stably_rearranged(old(shapes)@, final(shapes)@, origin, axis as int),
{
    let n = shapes.len();
    let ghost mut origin: Seq<int> = Seq::new(n as nat, |k: int| k);
    let mut i: usize = 0;
    while i < n
        invariant
            axis < D::Bound::dimensions(),
            shapes@.len() == n,
            i <= n,
            shapes@.to_multiset() == old(shapes)@.to_multiset(),
            origin.len() == n,
            forall|k: int|
                0 <= k < n ==> 0 <= #[trigger] origin[k] < n && shapes@[k] == old(shapes)@[origin[k]],
            forall|k1: int, k2: int|
                0 <= k1 < k2 < n ==> #[trigger] origin[k1] != #[trigger] origin[k2],
            forall|k: int| i <= k < n ==> #[trigger] origin[k] == k,
            forall|k: int| 0 <= k < i ==> #[trigger] origin[k] < i,
            forall|k1: int, k2: int|
                0 <= k1 < k2 < i ==> !starts_before(&shapes@[k2], &shapes@[k1], axis as int),
            forall|k1: int, k2: int|
                0 <= k1 < k2 < i && !starts_before(&shapes@[k1], &shapes@[k2], axis as int)
                    ==> #[trigger] origin[k1] < #[trigger] origin[k2],
        decreases n - i,
    {
        let mut p: usize = i;
        while p > 0 && entry_before(&shapes[i], &shapes[p - 1], axis)
            invariant
                axis < D::Bound::dimensions(),
                shapes@.len() == n,
                i < n,
                p <= i,
                forall|k: int|
                    p <= k < i ==> starts_before(&shapes@[i as int], &shapes@[k], axis as int),
            decreases p,
        {
            p -= 1;
        }
        let ghost before = shapes@;
        let ghost origin_before = origin;
        let entry = shapes.remove(i);
        shapes.insert(p, entry);
        proof {
            origin = moved(origin_before, i as int, p as int);
            lemma_moved(before, i as int, p as int);
            lemma_moved(origin_before, i as int, p as int);
            assert(shapes@ == moved(before, i as int, p as int));
            assert forall|k1: int, k2: int| 0 <= k1 < k2 < i + 1 implies !starts_before(
                &shapes@[k2],
                &shapes@[k1],
                axis as int,
            ) by {
                if k2 < p {
                } else if k2 == p {
                    if p > 0 {
                        assert(!starts_before(&before[i as int], &before[p - 1], axis as int));
                        if k1 < p - 1 {
                            assert(!starts_before(&before[p - 1], &before[k1], axis as int));
                        }
                    }
                } else {
                    assert(shapes@[k2] == before[k2 - 1]);
                    if k1 < p {
                    } else if k1 == p {
                        assert(starts_before(&before[i as int], &before[k2 - 1], axis as int));
                    } else {
                        assert(shapes@[k1] == before[k1 - 1]);
                    }
                }
            }
            assert forall|k1: int, k2: int|
                0 <= k1 < k2 < i + 1 && !starts_before(
                    &shapes@[k1],
                    &shapes@[k2],
                    axis as int,
                ) implies #[trigger] origin[k1] < #[trigger] origin[k2] by {
                if k2 < p {
                } else if k2 == p {
                    assert(origin[k2] == i);
                    assert(origin[k1] == origin_before[k1]);
                } else {
                    assert(shapes@[k2] == before[k2 - 1]);
                    assert(origin[k2] == origin_before[k2 - 1]);
                    if k1 < p {
                    } else if k1 == p {
                        assert(starts_before(&before[i as int], &before[k2 - 1], axis as int));
                    } else {
                        assert(shapes@[k1] == before[k1 - 1]);
                        assert(origin[k1] == origin_before[k1 - 1]);
                    }
                }
            }
            assert forall|k1: int, k2: int| 0 <= k1 < k2 < n implies #[trigger] origin[k1]
                != #[trigger] origin[k2] by {
                let j1 = if k1 < p {
                    k1
                } else if k1 == p {
                    i as int
                } else if k1 <= i {
                    k1 - 1
                } else {
                    k1
                };
                let j2 = if k2 < p {
                    k2
                } else if k2 == p {
                    i as int
                } else if k2 <= i {
                    k2 - 1
                } else {
                    k2
                };
                assert(origin[k1] == origin_before[j1]);
                assert(origin[k2] == origin_before[j2]);
                assert(j1 != j2);
                if j1 < j2 {
                    assert(origin_before[j1] != origin_before[j2]);
                } else {
                    assert(origin_before[j2] != origin_before[j1]);
                }
            }
            assert forall|k: int| 0 <= k < n implies 0 <= #[trigger] origin[k] < n && shapes@[k]
                == old(shapes)@[origin[k]] by {
                if k < p {
                } else if k == p {
                } else if k <= i {
                    assert(origin[k] == origin_before[k - 1]);
                    assert(shapes@[k] == before[k - 1]);
                } else {
                }
            }
            assert forall|k: int| 0 <= k < i + 1 implies #[trigger] origin[k] < i + 1 by {
                if k < p {
                } else if k == p {
                } else {
                    assert(origin[k] == origin_before[k - 1]);
                }
            }
        }
        i += 1;
    }
    proof {
        assert(stably_rearranged(old(shapes)@, shapes@, origin, axis as int));
    }
}

/// The pairs that the entry at `i` forms with the entries from `start` up to
/// `end` that stand before it, in the order of the entries.
pub open spec fn pairs_with<D: BroadCollisionData>(shapes: Seq<D>, i: int, start: int, end: int)
    -> Seq<(D::Id, D::Id)>
    decreases end - start,
{
    if end <= start {
        Seq::empty()
    } else if entries_overlap(shapes, end - 1, i) {
        pairs_with(shapes, i, start, end - 1).push(id_pair(shapes, end - 1, i))
    } else {
        pairs_with(shapes, i, start, end - 1)
    }
}

/// The pairs (j, i), j < i, of entries with intersecting bounds where i is
/// before `end`: ordered by i, then by j.
pub open spec fn swept_pairs<D: BroadCollisionData>(shapes: Seq<D>, end: int) -> Seq<
    (D::Id, D::Id),
>
    decreases end,
{
    if end <= 0 {
        Seq::empty()
    } else {
        swept_pairs(shapes, end - 1) + pairs_with(shapes, end - 1, 0, end - 1)
    }
}

/// Entries that intersect none of the entry at `i` add no pair.
proof fn lemma_skip_disjoint<D: BroadCollisionData>(shapes: Seq<D>, i: int, start: int, end: int)
    requires
        0 <= start <= end <= shapes.len(),
        0 <= i < shapes.len(),
        forall|j: int| 0 <= j < start ==> !entries_overlap(shapes, j, i),
    ensures
        pairs_with(shapes, i, 0, end) == pairs_with(shapes, i, start, end),
    decreases end,
{
    if end > start {
        lemma_skip_disjoint(shapes, i, start, end - 1);
    } else if end > 0 {
        lemma_skip_disjoint(shapes, i, end - 1, end - 1);
        assert(!entries_overlap(shapes, end - 1, i));
        assert(pairs_with(shapes, i, 0, end) == pairs_with(shapes, i, 0, end - 1));
        lemma_skip_all(shapes, i, end - 1);
        assert(pairs_with(shapes, i, end - 1, end - 1) =~= Seq::empty());
    }
}

proof fn lemma_skip_all<D: BroadCollisionData>(shapes: Seq<D>, i: int, end: int)
    requires
        0 <= end <= shapes.len(),
        0 <= i < shapes.len(),
        forall|j: int| 0 <= j < end ==> !entries_overlap(shapes, j, i),
    ensures
        pairs_with(shapes, i, 0, end) == Seq::<(D::Id, D::Id)>::empty(),
    decreases end,
{
    if end > 0 {
        lemma_skip_all(shapes, i, end - 1);
        assert(!entries_overlap(shapes, end - 1, i));
    }
}

/// Every intersecting pair that ends at `i` is among `pairs_with`.
proof fn lemma_pairs_with_complete<D: BroadCollisionData>(shapes: Seq<D>, i: int, end: int, j: int)
    requires
        0 <= j < end <= shapes.len(),
        0 <= i < shapes.len(),
        entries_overlap(shapes, j, i),
    ensures
        pairs_with(shapes, i, 0, end).contains(id_pair(shapes, j, i)),
    decreases end,
{
    let rest = pairs_with(shapes, i, 0, end - 1);
    if j == end - 1 {
        assert(rest.push(id_pair(shapes, j, i))[rest.len() as int] == id_pair(shapes, j, i));
    } else {
        lemma_pairs_with_complete(shapes, i, end - 1, j);
        let k = choose|k: int| 0 <= k < rest.len() && rest[k] == id_pair(shapes, j, i);
        if entries_overlap(shapes, end - 1, i) {
            assert(rest.push(id_pair(shapes, end - 1, i))[k] == id_pair(shapes, j, i));
        }
    }
}

proof fn lemma_swept_pairs_hold<D: BroadCollisionData>(shapes: Seq<D>, end: int, j: int, i: int)
    requires
        0 <= j < i < end <= shapes.len(),
        entries_overlap(shapes, j, i),
    ensures
        swept_pairs(shapes, end).contains(id_pair(shapes, j, i)),
    decreases end,
{
    let head = swept_pairs(shapes, end - 1);
    let tail = pairs_with(shapes, end - 1, 0, end - 1);
    if i == end - 1 {
        lemma_pairs_with_complete(shapes, i, i, j);
        let k = choose|k: int| 0 <= k < tail.len() && tail[k] == id_pair(shapes, j, i);
        assert((head + tail)[head.len() + k] == id_pair(shapes, j, i));
    } else {
        lemma_swept_pairs_hold(shapes, end - 1, j, i);
        let k = choose|k: int| 0 <= k < head.len() && head[k] == id_pair(shapes, j, i);
        assert((head + tail)[k] == id_pair(shapes, j, i));
    }
}

/// Every pair among `pairs_with` names two entries whose bounds intersect.
proof fn lemma_pairs_with_sound<D: BroadCollisionData>(
    shapes: Seq<D>,
    i: int,
    start: int,
    end: int,
    k: int,
)
    requires
        0 <= start,
        end <= i < shapes.len(),
        0 <= k < pairs_with(shapes, i, start, end).len(),
    ensures
        exists|a: int, b: int| #[trigger]
            names(shapes, pairs_with(shapes, i, start, end)[k], a, b) && entries_overlap(
                shapes,
                a,
                b,
            ),
    decreases end - start,
{
    if end > start {
        let rest = pairs_with(shapes, i, start, end - 1);
        if k < rest.len() {
            lemma_pairs_with_sound(shapes, i, start, end - 1, k);
            let (a, b) = choose|a: int, b: int| #[trigger]
                names(shapes, rest[k], a, b) && entries_overlap(shapes, a, b);
            assert(names(shapes, pairs_with(shapes, i, start, end)[k], a, b));
        } else {
            assert(names(shapes, pairs_with(shapes, i, start, end)[k], end - 1, i));
        }
    }
}

/// Every swept pair names two entries whose bounds intersect.
pub proof fn lemma_swept_pairs_sound<D: BroadCollisionData>(shapes: Seq<D>, end: int)
    requires
        0 <= end <= shapes.len(),
    ensures
        sound(shapes, swept_pairs(shapes, end)),
    decreases end,
{
    if end > 0 {
        lemma_swept_pairs_sound(shapes, end - 1);
        let head = swept_pairs(shapes, end - 1);
        let tail = pairs_with(shapes, end - 1, 0, end - 1);
        assert forall|k: int| 0 <= k < (head + tail).len() implies is_overlapping_pair(
            shapes,
            #[trigger] (head + tail)[k],
        ) by {
            if k < head.len() {
                assert(is_overlapping_pair(shapes, head[k]));
                let (a, b) = choose|a: int, b: int| #[trigger]
                    names(shapes, head[k], a, b) && entries_overlap(shapes, a, b);
                assert(names(shapes, (head + tail)[k], a, b));
            } else {
                lemma_pairs_with_sound(shapes, end - 1, 0, end - 1, k - head.len());
                let (a, b) = choose|a: int, b: int| #[trigger]
                    names(shapes, tail[k - head.len()], a, b) && entries_overlap(shapes, a, b);
                assert(names(shapes, (head + tail)[k], a, b));
            }
        }
    }
}

/// The swept pairs leave no intersecting pair out.
pub proof fn lemma_swept_pairs_complete<D: BroadCollisionData>(shapes: Seq<D>)
    ensures
        complete(shapes, swept_pairs(shapes, shapes.len() as int)),
{
    let pairs = swept_pairs(shapes, shapes.len() as int);
    assert forall|i: int, j: int|
        0 <= i < shapes.len() && 0 <= j < shapes.len() && i != j && #[trigger] entries_overlap(
            shapes,
            i,
            j,
        ) implies pairs.contains(id_pair(shapes, i, j)) || pairs.contains(
        id_pair(shapes, j, i),
    ) by {
        if i < j {
            lemma_swept_pairs_hold(shapes, shapes.len() as int, i, j);
        } else {
            lemma_overlap_symmetric(&shapes[i].bound_spec(), &shapes[j].bound_spec());
            lemma_swept_pairs_hold(shapes, shapes.len() as int, j, i);
        }
    }
}

/// The bounds of the entries, in the order of the entries.
pub open spec fn bounds_of<D: BroadCollisionData>(shapes: Seq<D>) -> Seq<D::Bound> {
    Seq::new(shapes.len(), |k: int| shapes[k].bound_spec())
}

impl<V: Variance> SweepAndPrune<V> {
    /// The axis along which the next call sorts and sweeps.
    pub closed spec fn sweep_axis(&self) -> int {
        self.sweep_axis as int
    }

    /// A sweep and prune that first sweeps along the first axis.
    pub fn new() -> (r: Self)
        ensures
            r.sweep_axis() == 0,
            r.sweep_axis() < V::Bound::dimensions(),
    {
        let _ = V::Bound::axes();
        SweepAndPrune { sweep_axis: 0, variance: V::new() }
    }

    /// A sweep and prune that first sweeps along `sweep_axis`.
    pub fn new_impl(sweep_axis: usize) -> (r: Self)
        requires
            sweep_axis < V::Bound::dimensions(),
        ensures
            r.sweep_axis() == sweep_axis,
    {
        SweepAndPrune { sweep_axis, variance: V::new() }
    }

    pub fn get_sweep_axis(&self) -> (r: usize)
        ensures
            r == self.sweep_axis(),
    {
        self.sweep_axis
    }
}

impl<D: BroadCollisionData, V: Variance<Bound = D::Bound>> BroadPhase<D> for SweepAndPrune<V> {
    open spec fn well_formed(&self) -> bool {
        0 <= self.sweep_axis() < V::Bound::dimensions()
    }

    fn is_well_formed(&self) -> (r: bool) {
        self.sweep_axis < V::Bound::axes()
    }

    /// Sorts the entries along the sweep axis and lists the pairs (j, i),
    /// j < i in the sorted order, of entries whose bounds intersect, ordered
    /// by i, then by j. With two entries or more, the axis along which the
    /// centers of their bounds vary most becomes the sweep axis. With fewer,
    /// nothing changes and no pair is listed.
    fn compute(&mut self, shapes: &mut Vec<D>) -> (pairs: Vec<(D::Id, D::Id)>)
        ensures
            pairs@ == swept_pairs(final(shapes)@, final(shapes)@.len() as int),
            sound(final(shapes)@, pairs@),
            old(shapes)@.len() <= 1 ==> final(shapes)@ == old(shapes)@ && pairs@.len() == 0
                && final(self).sweep_axis() == old(self).sweep_axis(),
            old(shapes)@.len() >= 2 ==> sorted_along(final(shapes)@, old(self).sweep_axis()) && (
            exists|origin: Seq<int>|
                stably_rearranged(
                    old(shapes)@,
                    final(shapes)@,
                    origin,
                    old(self).sweep_axis(),
                )) && final(self).sweep_axis() == widest_axis(
                bounds_of(final(shapes)@),
                <D::Bound as Extent>::Scalar::from_count_spec(final(shapes)@.len() as usize),
                D::Bound::dimensions() as int,
            ),
    {
        let mut pairs: Vec<(D::Id, D::Id)> = Vec::new();
        let n = shapes.len();
        if n <= 1 {
            proof {
                lemma_swept_pairs_complete(shapes@);
                lemma_swept_pairs_sound(shapes@, shapes@.len() as int);
                lemma_sound_names_entries(shapes@, swept_pairs(shapes@, shapes@.len() as int));
                assert(swept_pairs(shapes@, 0) =~= Seq::empty());
                if n == 1 {
                    assert(pairs_with(shapes@, 0, 0, 0) =~= Seq::empty());
                    assert(swept_pairs(shapes@, 1) =~= Seq::empty());
                }
            }
            return pairs;
        }
        let axis = self.sweep_axis;
        sort_along(shapes, axis);

        let mut active: usize = 0;
        self.variance.clear();
        self.variance.add_to_sum(shapes[0].bound());
        proof {
            assert(bounds_of(shapes@.take(1)) =~= Seq::<D::Bound>::empty().push(
                shapes@[0].bound_spec(),
            ));
            assert(swept_pairs(shapes@, 0) =~= Seq::empty());
            assert(pairs_with(shapes@, 0, 0, 0) =~= Seq::empty());
            assert(swept_pairs(shapes@, 1) =~= Seq::empty());
        }

        let mut index: usize = 1;
        while index < n
            invariant
                n == shapes@.len(),
                n >= 2,
                axis < D::Bound::dimensions(),
                sorted_along(shapes@, axis as int),
                1 <= index <= n,
                active < index,
                forall|j: int|
                    0 <= j < active ==> shapes@[j].bound_spec().upper(axis as int).rank()
                        < shapes@[index - 1].bound_spec().lower(axis as int).rank(),
                pairs@ == swept_pairs(shapes@, index as int),
                self.variance.holds(bounds_of(shapes@.take(index as int))),
                self.sweep_axis == axis,
            decreases n - index,
        {
            proof {
                assert(!starts_before(&shapes@[index as int], &shapes@[index - 1], axis as int));
            }
            while active < index && shapes[active].bound().max_extent(axis).lt(
                shapes[index].bound().min_extent(axis),
            )
                invariant
                    n == shapes@.len(),
                    axis < D::Bound::dimensions(),
                    index < n,
                    active <= index,
                    forall|j: int|
                        0 <= j < active ==> shapes@[j].bound_spec().upper(axis as int).rank()
                            < shapes@[index as int].bound_spec().lower(axis as int).rank(),
                decreases index - active,
            {
                active += 1;
            }
            let ghost before = pairs@;
            let mut left: usize = active;
            while left < index
                invariant
                    n == shapes@.len(),
                    index < n,
                    active <= left <= index,
                    pairs@ == before + pairs_with(
                        shapes@,
                        index as int,
                        active as int,
                        left as int,
                    ),
                decreases index - left,
            {
                if shapes[left].bound().intersects(shapes[index].bound()) {
                    pairs.push((*shapes[left].id(), *shapes[index].id()));
                }
                left += 1;
                assert(pairs@ =~= before + pairs_with(
                    shapes@,
                    index as int,
                    active as int,
                    left as int,
                ));
            }
            self.variance.add_to_sum(shapes[index].bound());
            proof {
                assert forall|j: int| 0 <= j < active implies !entries_overlap(
                    shapes@,
                    j,
                    index as int,
                ) by {
                    assert(!overlap_on(
                        &shapes@[j].bound_spec(),
                        &shapes@[index as int].bound_spec(),
                        axis as int,
                    ));
                }
                lemma_skip_disjoint(shapes@, index as int, active as int, index as int);
                assert(bounds_of(shapes@.take(index + 1)) =~= bounds_of(
                    shapes@.take(index as int),
                ).push(shapes@[index as int].bound_spec()));
            }
            index += 1;
        }
        proof {
            assert(shapes@.take(n as int) =~= shapes@);
            lemma_swept_pairs_complete(shapes@);
            let origin = choose|origin: Seq<int>|
                stably_rearranged(old(shapes)@, shapes@, origin, axis as int);
            lemma_complete_before(old(shapes)@, shapes@, origin, pairs@);
            lemma_swept_pairs_sound(shapes@, shapes@.len() as int);
            lemma_sound_names_entries(shapes@, pairs@);
        }
        let (next_axis, _) = self.variance.compute_axis(
            <D::Bound as Extent>::Scalar::from_count(n),
        );
        self.sweep_axis = next_axis;
        pairs
    }
}

} // verus!
