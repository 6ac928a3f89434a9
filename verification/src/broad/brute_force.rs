//! The brute force broad phase: an intersection test for every pair.
use vstd::prelude::*;
use crate::bound::Bound;
use crate::broad::{
    complete,
    entries_overlap,
    id_pair,
    lemma_sound_names_entries,
    is_overlapping_pair,
    names,
    sound,
    BroadCollisionData,
    BroadPhase,
};

verus! {

/// Broad phase collision detection by brute force.
///
/// Tests the bound of every entry against the bound of every later entry.
#[derive(Debug, Default)]
pub struct BruteForce;

/// The pairs that the entry at `i` forms with the entries after it and
/// before `end`, in the order of the entries.
pub open spec fn pairs_of<D: BroadCollisionData>(shapes: Seq<D>, i: int, end: int) -> Seq<
    (D::Id, D::Id),
>
    decreases end - i,
{
    if end <= i + 1 {
        Seq::empty()
    } else if entries_overlap(shapes, i, end - 1) {
        pairs_of(shapes, i, end - 1).push(id_pair(shapes, i, end - 1))
    } else {
        pairs_of(shapes, i, end - 1)
    }
}

/// The pairs (i, j), i < j, of entries with intersecting bounds where i is
/// before `end`: ordered by i, then by j.
pub open spec fn pairs_until<D: BroadCollisionData>(shapes: Seq<D>, end: int) -> Seq<
    (D::Id, D::Id),
>
    decreases end,
{
    if end <= 0 {
        Seq::empty()
    } else {
        pairs_until(shapes, end - 1) + pairs_of(shapes, end - 1, shapes.len() as int)
    }
}

/// Every pair of intersecting entries that starts at `i` is among `pairs_of`.
pub proof fn lemma_pairs_of_complete<D: BroadCollisionData>(
    shapes: Seq<D>,
    i: int,
    end: int,
    j: int,
)
    requires
        0 <= i < j < end <= shapes.len(),
        entries_overlap(shapes, i, j),
    ensures
        pairs_of(shapes, i, end).contains(id_pair(shapes, i, j)),
    decreases end - i,
{
    if j == end - 1 {
        let rest = pairs_of(shapes, i, end - 1);
        assert(rest.push(id_pair(shapes, i, j))[rest.len() as int] == id_pair(shapes, i, j));
    } else {
        lemma_pairs_of_complete(shapes, i, end - 1, j);
        let rest = pairs_of(shapes, i, end - 1);
        let k = choose|k: int| 0 <= k < rest.len() && rest[k] == id_pair(shapes, i, j);
        if entries_overlap(shapes, i, end - 1) {
            assert(rest.push(id_pair(shapes, i, end - 1))[k] == id_pair(shapes, i, j));
        }
    }
}

/// Every pair of intersecting entries that starts before `end` is among
/// `pairs_until`.
pub proof fn lemma_pairs_until_complete<D: BroadCollisionData>(
    shapes: Seq<D>,
    end: int,
    i: int,
    j: int,
)
    requires
        0 <= i < j < shapes.len(),
        i < end,
        entries_overlap(shapes, i, j),
    ensures
        pairs_until(shapes, end).contains(id_pair(shapes, i, j)),
    decreases end,
{
    let head = pairs_until(shapes, end - 1);
    let tail = pairs_of(shapes, end - 1, shapes.len() as int);
    if i == end - 1 {
        lemma_pairs_of_complete(shapes, i, shapes.len() as int, j);
        let k = choose|k: int| 0 <= k < tail.len() && tail[k] == id_pair(shapes, i, j);
        assert((head + tail)[head.len() + k] == id_pair(shapes, i, j));
    } else {
        lemma_pairs_until_complete(shapes, end - 1, i, j);
        let k = choose|k: int| 0 <= k < head.len() && head[k] == id_pair(shapes, i, j);
        assert((head + tail)[k] == id_pair(shapes, i, j));
    }
}

/// Every pair among `pairs_of` names two entries whose bounds intersect.
pub proof fn lemma_pairs_of_sound<D: BroadCollisionData>(shapes: Seq<D>, i: int, end: int, k: int)
    requires
        0 <= i < shapes.len(),
        end <= shapes.len(),
        0 <= k < pairs_of(shapes, i, end).len(),
    ensures
        exists|a: int, b: int| #[trigger]
            names(shapes, pairs_of(shapes, i, end)[k], a, b) && entries_overlap(shapes, a, b),
    decreases end - i,
{
    if end > i + 1 {
        let rest = pairs_of(shapes, i, end - 1);
        if k < rest.len() {
            lemma_pairs_of_sound(shapes, i, end - 1, k);
            let (a, b) = choose|a: int, b: int| #[trigger]
                names(shapes, rest[k], a, b) && entries_overlap(shapes, a, b);
            assert(names(shapes, pairs_of(shapes, i, end)[k], a, b));
        } else {
            assert(names(shapes, pairs_of(shapes, i, end)[k], i, end - 1));
        }
    }
}

/// Every pair among `pairs_until` names two entries whose bounds intersect.
pub proof fn lemma_pairs_until_sound<D: BroadCollisionData>(shapes: Seq<D>, end: int)
    requires
        0 <= end <= shapes.len(),
    ensures
        sound(shapes, pairs_until(shapes, end)),
    decreases end,
{
    if end > 0 {
        lemma_pairs_until_sound(shapes, end - 1);
        let head = pairs_until(shapes, end - 1);
        let tail = pairs_of(shapes, end - 1, shapes.len() as int);
        assert forall|k: int| 0 <= k < (head + tail).len() implies is_overlapping_pair(
            shapes,
            #[trigger] (head + tail)[k],
        ) by {
            if k < head.len() {
                assert(is_overlapping_pair(shapes, head[k]));
                let (a, b) = choose|a: int, b: int| #[trigger]
                    names(shapes, head[k], a, b) && entries_overlap(shapes, a, b);
                assert(names(shapes, (head + tail)[k], a, b));
            } else {
                lemma_pairs_of_sound(shapes, end - 1, shapes.len() as int, k - head.len());
                let (a, b) = choose|a: int, b: int| #[trigger]
                    names(shapes, tail[k - head.len()], a, b) && entries_overlap(shapes, a, b);
                assert(names(shapes, (head + tail)[k], a, b));
            }
        }
    }
}

/// The list of all intersecting pairs leaves no intersecting pair out.
pub proof fn lemma_all_pairs_complete<D: BroadCollisionData>(shapes: Seq<D>)
    ensures
        complete(shapes, pairs_until(shapes, shapes.len() as int)),
{
    let pairs = pairs_until(shapes, shapes.len() as int);
    assert forall|i: int, j: int|
        0 <= i < shapes.len() && 0 <= j < shapes.len() && i != j && #[trigger] entries_overlap(
            shapes,
            i,
            j,
        ) implies pairs.contains(id_pair(shapes, i, j)) || pairs.contains(
        id_pair(shapes, j, i),
    ) by {
        if i < j {
            lemma_pairs_until_complete(shapes, shapes.len() as int, i, j);
        } else {
            crate::bound::lemma_overlap_symmetric(
                &shapes[i].bound_spec(),
                &shapes[j].bound_spec(),
            );
            lemma_pairs_until_complete(shapes, shapes.len() as int, j, i);
        }
    }
}

impl BruteForce {
    pub fn new() -> (r: Self) {
        BruteForce
    }

    /// Lists the pairs (i, j), i < j, of entries whose bounds intersect,
    /// ordered by i, then by j. Fewer than two entries give no pair.
    pub fn find_pairs<D: BroadCollisionData>(&self, shapes: &Vec<D>) -> (pairs: Vec<
        (D::Id, D::Id),
    >)
        ensures
            pairs@ == pairs_until(shapes@, shapes@.len() as int),
            complete(shapes@, pairs@),
            sound(shapes@, pairs@),
            shapes@.len() <= 1 ==> pairs@.len() == 0,
    {
        let mut pairs: Vec<(D::Id, D::Id)> = Vec::new();
        let n = shapes.len();
        let mut left: usize = 0;
        while left < n
            invariant
                n == shapes@.len(),
                left <= n,
                pairs@ == pairs_until(shapes@, left as int),
            decreases n - left,
        {
            let ghost before = pairs@;
            let mut right: usize = left + 1;
            while right < n
                invariant
                    n == shapes@.len(),
                    left < n,
                    left < right <= n,
                    pairs@ == before + pairs_of(shapes@, left as int, right as int),
                decreases n - right,
            {
                if shapes[left].bound().intersects(shapes[right].bound()) {
                    pairs.push((*shapes[left].id(), *shapes[right].id()));
                }
                right += 1;
                assert(pairs@ =~= before + pairs_of(shapes@, left as int, right as int));
            }
            proof {
                if left + 1 >= n {
                    assert(pairs_of(shapes@, left as int, n as int) =~= pairs_of(
                        shapes@,
                        left as int,
                        left as int + 1,
                    ));
                }
            }
            left += 1;
        }
        proof {
            lemma_all_pairs_complete(shapes@);
            lemma_pairs_until_sound(shapes@, shapes@.len() as int);
            if shapes@.len() == 1 {
                assert(pairs_until(shapes@, 0) =~= Seq::empty());
                assert(pairs_of(shapes@, 0, 1) =~= Seq::empty());
            }
        }
        pairs
    }
}

impl<D: BroadCollisionData> BroadPhase<D> for BruteForce {
    open spec fn well_formed(&self) -> bool {
        true
    }

    fn is_well_formed(&self) -> (r: bool) {
        true
    }

    /// Leaves the entries as they are and lists the pairs (i, j), i < j, of
    /// entries whose bounds intersect, ordered by i, then by j.
    fn compute(&mut self, shapes: &mut Vec<D>) -> (pairs: Vec<(D::Id, D::Id)>)
        ensures
            final(shapes)@ == old(shapes)@,
            pairs@ == pairs_until(old(shapes)@, old(shapes)@.len() as int),
            sound(final(shapes)@, pairs@),
    {
        let pairs = self.find_pairs(shapes);
        proof {
            lemma_sound_names_entries(shapes@, pairs@);
        }
        pairs
    }
}

} // verus!
