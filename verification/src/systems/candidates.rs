//! The candidate pairs of a spatial query, each kept once.
//!
//! A query of the bounding volume tree with the bound of a body gives the
//! bodies whose bounds it meets. Two bodies that both moved find each
//! other twice. The pairs are therefore kept in a sorted list, each with
//! its smaller member first, and a pair that the list holds is not added
//! again.
use vstd::prelude::*;

verus! {

/// Whether the pair `a` comes before the pair `b`: by the first member,
/// then by the second.
pub open spec fn pair_before(a: (usize, usize), b: (usize, usize)) -> bool {
    a.0 < b.0 || (a.0 == b.0 && a.1 < b.1)
}

/// Whether each pair comes before every later one. Such a list holds no
/// pair twice.
pub open spec fn strictly_sorted(pairs: Seq<(usize, usize)>) -> bool {
    forall|i: int, j: int| 0 <= i < j < pairs.len() ==> pair_before(pairs[i], pairs[j])
}

/// The pair of `a` and `b` with the smaller first.
pub open spec fn ordered_pair(a: usize, b: usize) -> (usize, usize) {
    if a < b {
        (a, b)
    } else {
        (b, a)
    }
}

fn before(a: (usize, usize), b: (usize, usize)) -> (r: bool)
    ensures
        r == pair_before(a, b),
{
    a.0 < b.0 || (a.0 == b.0 && a.1 < b.1)
}

/// The place of the first pair that does not come before `pair`; the
/// length of the list where every pair does.
fn lower_bound(pairs: &Vec<(usize, usize)>, pair: (usize, usize)) -> (r: usize)
    requires
        strictly_sorted(pairs@),
    ensures
        r <= pairs@.len(),
        forall|i: int| 0 <= i < r ==> pair_before(pairs@[i], pair),
        forall|i: int| r <= i < pairs@.len() ==> !pair_before(pairs@[i], pair),
{
    let mut lo: usize = 0;
    let mut hi: usize = pairs.len();
    while lo < hi
        invariant
            strictly_sorted(pairs@),
            lo <= hi <= pairs@.len(),
            forall|i: int| 0 <= i < lo ==> pair_before(pairs@[i], pair),
            forall|i: int| hi <= i < pairs@.len() ==> !pair_before(pairs@[i], pair),
        decreases hi - lo,
    {
        let mid = lo + (hi - lo) / 2;
        if before(pairs[mid], pair) {
            assert forall|i: int| 0 <= i < mid + 1 implies pair_before(pairs@[i], pair) by {
                if i < mid {
                    assert(pair_before(pairs@[i], pairs@[mid as int]));
                }
            }
            lo = mid + 1;
        } else {
            assert forall|i: int| mid <= i < pairs@.len() implies !pair_before(pairs@[i], pair) by {
                if i > mid {
                    assert(pair_before(pairs@[mid as int], pairs@[i]));
                }
            }
            hi = mid;
        }
    }
    lo
}

/// Adds the pair of the body `entity` and the body `hit` that a query for
/// `entity` gave, unless the two are the same body or the list holds the
/// pair already.
pub fn add_candidate(potentials: &mut Vec<(usize, usize)>, entity: usize, hit: usize)
    requires
        strictly_sorted(old(potentials)@),
    ensures
        strictly_sorted(final(potentials)@),
        entity == hit ==> final(potentials)@ == old(potentials)@,
        entity != hit ==> forall|pair: (usize, usize)|
            final(potentials)@.contains(pair) <==> old(potentials)@.contains(pair) || pair
                == ordered_pair(entity, hit),
        old(potentials)@.contains(ordered_pair(entity, hit)) ==> final(potentials)@ == old(potentials)@,
{
    if entity == hit {
        return ;
    }
    let pair: (usize, usize) = if entity < hit {
        (entity, hit)
    } else {
        (hit, entity)
    };
    let place = lower_bound(potentials, pair);
    let ghost before_list = potentials@;
    if place < potentials.len() && potentials[place].0 == pair.0 && potentials[place].1 == pair.1 {
        proof {
            assert(before_list[place as int] == pair);
            assert(before_list.contains(pair));
        }
        return ;
    }
    proof {
        if before_list.contains(pair) {
            let k = choose|k: int| 0 <= k < before_list.len() && before_list[k] == pair;
            assert(false);
        }
    }
    potentials.insert(place, pair);
    proof {
        before_list.insert_ensures(place as int, pair);
        let after = potentials@;
        assert forall|i: int, j: int| 0 <= i < j < after.len() implies pair_before(
            after[i],
            after[j],
        ) by {
            if j < place {
            } else if j == place {
            } else {
                assert(after[(j - 1) + 1] == before_list[j - 1]);
                if i < place {
                } else if i == place {
                    assert(!pair_before(before_list[j - 1], pair));
                } else {
                    assert(after[(i - 1) + 1] == before_list[i - 1]);
                }
            }
        }
        assert forall|other: (usize, usize)|
            after.contains(other) <==> before_list.contains(other) || other == pair by {
            if after.contains(other) {
                let k = choose|k: int| 0 <= k < after.len() && after[k] == other;
                if k < place {
                    assert(before_list[k] == other);
                } else if k > place {
                    assert(after[(k - 1) + 1] == before_list[k - 1]);
                }
            }
            if before_list.contains(other) {
                let k = choose|k: int| 0 <= k < before_list.len() && before_list[k] == other;
                if k < place {
                    assert(after[k] == other);
                } else {
                    assert(after[k + 1] == other);
                }
            }
            if other == pair {
                assert(after[place as int] == other);
            }
        }
    }
}

/// Whether the query for the body at `d` gave the pair as its hit number `h`.
pub open spec fn found_at(
    hits: Seq<(usize, Vec<usize>)>,
    pair: (usize, usize),
    d: int,
    h: int,
) -> bool {
    0 <= d < hits.len() && 0 <= h < hits[d].1@.len() && hits[d].0 != hits[d].1@[h] && pair
        == ordered_pair(hits[d].0, hits[d].1@[h])
}

/// Whether one of the queries gave the pair.
pub open spec fn found(hits: Seq<(usize, Vec<usize>)>, pair: (usize, usize)) -> bool {
    exists|d: int, h: int| #[trigger] found_at(hits, pair, d, h)
}

/// The candidate pairs of a round of queries. Each entry of `hits` holds a
/// body whose pose changed and the bodies that the query with its bound
/// gave. The list holds each pair of a body with another body it found,
/// once, the smaller member first, sorted.
pub fn candidates(hits: &Vec<(usize, Vec<usize>)>) -> (potentials: Vec<(usize, usize)>)
    ensures
        strictly_sorted(potentials@),
        forall|pair: (usize, usize)| potentials@.contains(pair) <==> found(hits@, pair),
{
    let mut potentials: Vec<(usize, usize)> = Vec::new();
    let mut d: usize = 0;
    while d < hits.len()
        invariant
            d <= hits@.len(),
            strictly_sorted(potentials@),
            forall|pair: (usize, usize)|
                potentials@.contains(pair) <==> exists|e: int, h: int|
                    e < d && #[trigger] found_at(hits@, pair, e, h),
        decreases hits@.len() - d,
    {
        let entity = hits[d].0;
        let mut h: usize = 0;
        while h < hits[d as usize].1.len()
            invariant
                d < hits@.len(),
                entity == hits@[d as int].0,
                h <= hits@[d as int].1@.len(),
                strictly_sorted(potentials@),
                forall|pair: (usize, usize)|
                    potentials@.contains(pair) <==> exists|e: int, g: int|
                        (e < d || (e == d && g < h)) && #[trigger] found_at(hits@, pair, e, g),
            decreases hits@[d as int].1@.len() - h,
        {
            let hit = hits[d].1[h];
            let ghost before_list = potentials@;
            add_candidate(&mut potentials, entity, hit);
            proof {
                assert forall|pair: (usize, usize)|
                    potentials@.contains(pair) <==> exists|e: int, g: int|
                        (e < d || (e == d && g < h + 1)) && #[trigger] found_at(
                            hits@,
                            pair,
                            e,
                            g,
                        ) by {
                    if potentials@.contains(pair) {
                        if before_list.contains(pair) {
                            let (e, g) = choose|e: int, g: int|
                                (e < d || (e == d && g < h)) && #[trigger] found_at(
                                    hits@,
                                    pair,
                                    e,
                                    g,
                                );
                            assert((e < d || (e == d && g < h + 1)) && found_at(
                                hits@,
                                pair,
                                e,
                                g,
                            ));
                        } else {
                            assert(entity != hit);
                            assert(found_at(hits@, pair, d as int, h as int));
                        }
                    }
                    if exists|e: int, g: int|
                        (e < d || (e == d && g < h + 1)) && #[trigger] found_at(
                            hits@,
                            pair,
                            e,
                            g,
                        ) {
                        let (e, g) = choose|e: int, g: int|
                            (e < d || (e == d && g < h + 1)) && #[trigger] found_at(
                                hits@,
                                pair,
                                e,
                                g,
                            );
                        if e == d && g == h {
                        } else {
                            assert((e < d || (e == d && g < h)) && found_at(hits@, pair, e, g));
                            assert(before_list.contains(pair));
                        }
                    }
                }
            }
            h += 1;
        }
        proof {
            assert forall|pair: (usize, usize)|
                potentials@.contains(pair) <==> exists|e: int, g: int|
                    e < d + 1 && #[trigger] found_at(hits@, pair, e, g) by {
                if potentials@.contains(pair) {
                    let (e, g) = choose|e: int, g: int|
                        (e < d || (e == d && g < h)) && #[trigger] found_at(hits@, pair, e, g);
                    assert(e < d + 1 && found_at(hits@, pair, e, g));
                }
                if exists|e: int, g: int| e < d + 1 && #[trigger] found_at(hits@, pair, e, g) {
                    let (e, g) = choose|e: int, g: int|
                        e < d + 1 && #[trigger] found_at(hits@, pair, e, g);
                    assert((e < d || (e == d && g < h)) && found_at(hits@, pair, e, g));
                }
            }
        }
        d += 1;
    }
    proof {
        assert forall|pair: (usize, usize)| potentials@.contains(pair) <==> found(
            hits@,
            pair,
        ) by {
            if potentials@.contains(pair) {
                let (e, g) = choose|e: int, g: int| e < d && #[trigger] found_at(hits@, pair, e, g);
                assert(found_at(hits@, pair, e, g));
            }
            if found(hits@, pair) {
                let (e, g) = choose|e: int, g: int| #[trigger] found_at(hits@, pair, e, g);
                assert(e < d && found_at(hits@, pair, e, g));
            }
        }
    }
    potentials
}

} // verus!
