//! Broad phase collision detection: from a list of bounded entries to the
//! pairs of entries whose bounds intersect.
//!
//! - [`BruteForce`] tests every pair of entries.
//! - [`SweepAndPrune`] sorts the entries along one axis and tests only the
//!   entries whose extents along that axis can overlap.
use vstd::prelude::*;
use crate::bound::{overlap, Bound};

pub mod brute_force;
pub mod sweep_prune;
pub mod variance;

pub use self::brute_force::BruteForce;
pub use self::sweep_prune::SweepAndPrune;
pub use self::variance::{Variance, Variance2D, Variance3D};

verus! {

/// An entry of the collision world as the broad phase sees it.
pub trait BroadCollisionData {
    /// The name by which the embedder knows the entry.
    type Id: Copy;

    /// The bounding volume of the entry.
    type Bound: Bound;

    spec fn id_spec(&self) -> Self::Id;

    spec fn bound_spec(&self) -> Self::Bound;

    fn id(&self) -> (r: &Self::Id)
        ensures
            *r == self.id_spec(),
    ;

    fn bound(&self) -> (r: &Self::Bound)
        ensures
            *r == self.bound_spec(),
    ;
}

/// Whether the bounds of the entries at `i` and `j` intersect.
pub open spec fn entries_overlap<D: BroadCollisionData>(shapes: Seq<D>, i: int, j: int) -> bool {
    overlap(&shapes[i].bound_spec(), &shapes[j].bound_spec())
}

/// The pair of ids of the entries at `i` and `j`, in that order.
pub open spec fn id_pair<D: BroadCollisionData>(shapes: Seq<D>, i: int, j: int) -> (D::Id, D::Id) {
    (shapes[i].id_spec(), shapes[j].id_spec())
}

/// Whether `pairs` names the entries at `i` and `j` as a pair, in either order.
pub open spec fn emitted<D: BroadCollisionData>(
    shapes: Seq<D>,
    pairs: Seq<(D::Id, D::Id)>,
    i: int,
    j: int,
) -> bool {
    pairs.contains(id_pair(shapes, i, j)) || pairs.contains(id_pair(shapes, j, i))
}

/// No false negatives: every two entries whose bounds intersect are named
/// as a pair.
pub open spec fn complete<D: BroadCollisionData>(shapes: Seq<D>, pairs: Seq<(D::Id, D::Id)>)
    -> bool {
    forall|i: int, j: int|
        0 <= i < shapes.len() && 0 <= j < shapes.len() && i != j && #[trigger] entries_overlap(
            shapes,
            i,
            j,
        ) ==> emitted(shapes, pairs, i, j)
}

/// Whether the pair names the entries at `i` and `j`.
pub open spec fn names<D: BroadCollisionData>(
    shapes: Seq<D>,
    pair: (D::Id, D::Id),
    i: int,
    j: int,
) -> bool {
    0 <= i < shapes.len() && 0 <= j < shapes.len() && i != j && pair == id_pair(shapes, i, j)
}

/// Whether the pair names two of the entries.
pub open spec fn is_entry_pair<D: BroadCollisionData>(shapes: Seq<D>, pair: (D::Id, D::Id))
    -> bool {
    exists|i: int, j: int| #[trigger] names(shapes, pair, i, j)
}

/// Whether the pair names two of the entries whose bounds intersect.
pub open spec fn is_overlapping_pair<D: BroadCollisionData>(shapes: Seq<D>, pair: (D::Id, D::Id))
    -> bool {
    exists|i: int, j: int| #[trigger] names(shapes, pair, i, j) && entries_overlap(shapes, i, j)
}

/// Whether every pair names two of the entries.
pub open spec fn names_entries<D: BroadCollisionData>(shapes: Seq<D>, pairs: Seq<(D::Id, D::Id)>)
    -> bool {
    forall|k: int| 0 <= k < pairs.len() ==> is_entry_pair(shapes, #[trigger] pairs[k])
}

/// No false positives: every pair names two entries whose bounds intersect.
pub open spec fn sound<D: BroadCollisionData>(shapes: Seq<D>, pairs: Seq<(D::Id, D::Id)>) -> bool {
    forall|k: int| 0 <= k < pairs.len() ==> is_overlapping_pair(shapes, #[trigger] pairs[k])
}

/// Each pair of a list that names entries only names two entries.
pub proof fn lemma_names_entry<D: BroadCollisionData>(
    shapes: Seq<D>,
    pairs: Seq<(D::Id, D::Id)>,
    k: int,
)
    requires
        names_entries(shapes, pairs),
        0 <= k < pairs.len(),
    ensures
        is_entry_pair(shapes, pairs[k]),
{
}

/// A list without false positives names entries only.
pub proof fn lemma_sound_names_entries<D: BroadCollisionData>(
    shapes: Seq<D>,
    pairs: Seq<(D::Id, D::Id)>,
)
    requires
        sound(shapes, pairs),
    ensures
        names_entries(shapes, pairs),
{
    assert forall|k: int| 0 <= k < pairs.len() implies is_entry_pair(
        shapes,
        #[trigger] pairs[k],
    ) by {
        assert(is_overlapping_pair(shapes, pairs[k]));
        let (i, j) = choose|i: int, j: int| #[trigger]
            names(shapes, pairs[k], i, j) && entries_overlap(shapes, i, j);
        assert(names(shapes, pairs[k], i, j));
    }
}

/// Whether `after` holds the entries of `before` in another order, the
/// entry at `k` being the one that stood at `origin[k]`.
pub open spec fn rearranged<D: BroadCollisionData>(
    before: Seq<D>,
    after: Seq<D>,
    origin: Seq<int>,
) -> bool {
    &&& after.len() == before.len()
    &&& origin.len() == before.len()
    &&& forall|k: int|
        0 <= k < after.len() ==> 0 <= #[trigger] origin[k] < before.len() && after[k]
            == before[origin[k]]
    &&& forall|k1: int, k2: int|
        0 <= k1 < k2 < after.len() ==> #[trigger] origin[k1] != #[trigger] origin[k2]
}

/// Every entry has its place after the entries were rearranged.
pub proof fn lemma_rearranged_holds_all<D: BroadCollisionData>(
    before: Seq<D>,
    after: Seq<D>,
    origin: Seq<int>,
    i: int,
)
    requires
        rearranged(before, after, origin),
        0 <= i < before.len(),
    ensures
        exists|k: int| 0 <= k < after.len() && #[trigger] origin[k] == i,
{
    let n = before.len() as int;
    assert(origin.no_duplicates());
    origin.unique_seq_to_set();
    vstd::set_lib::lemma_int_range(0, n);
    let range = vstd::set_lib::set_int_range(0, n);
    assert(origin.to_set().subset_of(range)) by {
        assert forall|x: int| origin.to_set().contains(x) implies range.contains(x) by {
            let k = choose|k: int| 0 <= k < origin.len() && origin[k] == x;
            assert(0 <= origin[k] < n);
        }
    }
    vstd::set_lib::lemma_len_subset(origin.to_set(), range);
    vstd::set_lib::lemma_subset_equality(origin.to_set(), range);
    assert(range.contains(i));
    assert(origin.to_set().contains(i));
    assert(origin.contains(i));
}

/// A list of pairs that leaves out no intersecting pair of the rearranged
/// entries leaves out none of the entries as they stood before.
pub proof fn lemma_complete_before<D: BroadCollisionData>(
    before: Seq<D>,
    after: Seq<D>,
    origin: Seq<int>,
    pairs: Seq<(D::Id, D::Id)>,
)
    requires
        rearranged(before, after, origin),
        complete(after, pairs),
    ensures
        complete(before, pairs),
{
    assert forall|i: int, j: int|
        0 <= i < before.len() && 0 <= j < before.len() && i != j && #[trigger] entries_overlap(
            before,
            i,
            j,
        ) implies emitted(before, pairs, i, j) by {
        lemma_rearranged_holds_all(before, after, origin, i);
        lemma_rearranged_holds_all(before, after, origin, j);
        let p = choose|k: int| 0 <= k < after.len() && #[trigger] origin[k] == i;
        let q = choose|k: int| 0 <= k < after.len() && #[trigger] origin[k] == j;
        assert(after[p] == before[i]);
        assert(after[q] == before[j]);
        assert(entries_overlap(after, p, q));
        assert(emitted(after, pairs, p, q));
    }
}

/// A broad phase algorithm.
pub trait BroadPhase<D: BroadCollisionData> {
    /// What the algorithm needs of its own state between two calls.
    spec fn well_formed(&self) -> bool;

    /// Whether the state of the algorithm is as a call needs it.
    fn is_well_formed(&self) -> (r: bool)
        ensures
            r == self.well_formed(),
    ;

    /// Computes the pairs of entries that may collide: every two entries
    /// whose bounds intersect are among them. The entries may come back in
    /// another order; none is added, dropped or changed.
    fn compute(&mut self, shapes: &mut Vec<D>) -> (pairs: Vec<(D::Id, D::Id)>)
        requires
            old(self).well_formed(),
        ensures
            final(self).well_formed(),
            final(shapes)@.to_multiset() == old(shapes)@.to_multiset(),
            complete(old(shapes)@, pairs@),
            complete(final(shapes)@, pairs@),
            names_entries(final(shapes)@, pairs@),
    ;
}

/// An entry that holds nothing but its id and its bound.
#[derive(Clone, Copy, Debug, PartialEq)]
pub struct BroadCollisionInfo<ID, B> {
    pub id: ID,
    pub bound: B,
}

impl<ID: Copy, B: Bound> BroadCollisionInfo<ID, B> {
    pub fn new(id: ID, bound: B) -> (r: Self)
        ensures
            r.id == id,
            r.bound == bound,
    {
        BroadCollisionInfo { id, bound }
    }
}

impl<ID: Copy, B: Bound> BroadCollisionData for BroadCollisionInfo<ID, B> {
    type Id = ID;

    type Bound = B;

    open spec fn id_spec(&self) -> ID {
        self.id
    }

    open spec fn bound_spec(&self) -> B {
        self.bound
    }

    fn id(&self) -> (r: &ID) {
        &self.id
    }

    fn bound(&self) -> (r: &B) {
        &self.bound
    }
}

} // verus!
