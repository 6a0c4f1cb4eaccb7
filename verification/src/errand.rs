//! What the acts of the repertoire (trade, theft, robbery, murder,
//! scavenging) share: a camp's vote on an act, the choice of the camp
//! that acts and of the camp it acts on, the step a mission takes on a
//! pass, and the lesson its voters draw from the outcome.

use vstd::prelude::*;

use crate::geo::{Tile, spec_dist_sq};

verus! {

/// A camp's vote on an act: how many voters favour it, out of how many
/// may vote.
#[derive(Clone, Copy, PartialEq, Eq, Debug)]
pub struct Tally {
    pub votes: u64,
    pub franchise: u64,
}

/// How many of `scores` reach `floor`. A score is the bit pattern of a
/// non-negative trait value, whose order is the values' order.
pub open spec fn count_at_least(scores: Seq<u64>, floor: u64) -> nat
    decreases scores.len(),
{
    if scores.len() == 0 {
        0
    } else {
        count_at_least(scores.drop_last(), floor) + (if scores.last() >= floor { 1nat } else { 0nat })
    }
}

proof fn lemma_count_at_most_len(scores: Seq<u64>, floor: u64)
    ensures
        count_at_least(scores, floor) <= scores.len(),
    decreases scores.len(),
{
    if scores.len() > 0 {
        lemma_count_at_most_len(scores.drop_last(), floor);
    }
}

/// Count the vote: every voter may vote; those whose score reaches the
/// floor vote for the act.
pub fn tally(scores: &Vec<u64>, floor: u64) -> (t: Tally)
    ensures
        t.franchise == scores@.len(),
        t.votes == count_at_least(scores@, floor),
        t.votes <= t.franchise,
{
    let mut votes: u64 = 0;
    let mut i: usize = 0;
    while i < scores.len()
        invariant
            i <= scores.len(),
            votes == count_at_least(scores@.take(i as int), floor),
            votes <= i,
        decreases scores.len() - i,
    {
        proof {
            assert(scores@.take(i + 1).drop_last() =~= scores@.take(i as int));
        }
        if scores[i] >= floor {
            votes = votes + 1;
        }
        i = i + 1;
    }
    assert(scores@.take(scores.len() as int) =~= scores@);
    Tally { votes, franchise: scores.len() as u64 }
}

/// A strict majority of a non-empty franchise.
pub open spec fn spec_majority(t: Tally) -> bool {
    t.franchise > 0 && 2 * t.votes > t.franchise
}

/// Whether the vote carries.
pub fn majority(t: Tally) -> (b: bool)
    ensures
        b == spec_majority(t),
{
    t.franchise > 0 && (t.votes as u128) * 2 > t.franchise as u128
}

/// `i` is the first eligible entry with the greatest score.
pub open spec fn is_first_best(eligible: Seq<bool>, scores: Seq<u64>, i: int) -> bool {
    &&& 0 <= i < eligible.len()
    &&& eligible[i]
    &&& forall|j: int| 0 <= j < eligible.len() && #[trigger] eligible[j] ==> scores[j] <= scores[i]
    &&& forall|j: int| 0 <= j < i && #[trigger] eligible[j] ==> scores[j] < scores[i]
}

/// The eligible entry with the greatest score, the first such on ties;
/// none when nothing is eligible.
pub fn first_best(eligible: &Vec<bool>, scores: &Vec<u64>) -> (r: Option<usize>)
    requires
        eligible@.len() == scores@.len(),
    ensures
        r matches Some(i) ==> is_first_best(eligible@, scores@, i as int),
        r is None <==> forall|j: int| 0 <= j < eligible@.len() ==> !#[trigger] eligible@[j],
{
    let mut best: Option<usize> = None;
    let mut i: usize = 0;
    while i < eligible.len()
        invariant
            eligible@.len() == scores@.len(),
            i <= eligible.len(),
            best is None <==> forall|j: int| 0 <= j < i ==> !#[trigger] eligible@[j],
            best matches Some(b) ==> {
                &&& b < i
                &&& eligible@[b as int]
                &&& forall|j: int| 0 <= j < i && #[trigger] eligible@[j] ==> scores@[j] <= scores@[b as int]
                &&& forall|j: int| 0 <= j < b && #[trigger] eligible@[j] ==> scores@[j] < scores@[b as int]
            },
        decreases eligible.len() - i,
    {
        if eligible[i] {
            match best {
                None => {
                    best = Some(i);
                },
                Some(b) => {
                    if scores[i] > scores[b] {
                        best = Some(i);
                    }
                },
            }
        }
        i = i + 1;
    }
    best
}

/// Every eligible tile's squared distance from `from` fits 64 bits.
pub open spec fn eligible_fit(tiles: Seq<Tile>, eligible: Seq<bool>, from: Tile) -> bool {
    forall|j: int| 0 <= j < tiles.len() && #[trigger] eligible[j] ==> spec_dist_sq(tiles[j], from) <= i64::MAX
}

/// `i` is the first eligible tile nearest to `from`.
pub open spec fn is_first_nearest_eligible(tiles: Seq<Tile>, eligible: Seq<bool>, from: Tile, i: int) -> bool {
    &&& 0 <= i < tiles.len()
    &&& eligible[i]
    &&& forall|j: int| 0 <= j < tiles.len() && #[trigger] eligible[j] ==> spec_dist_sq(tiles[i], from)
        <= spec_dist_sq(tiles[j], from)
    &&& forall|j: int| 0 <= j < i && #[trigger] eligible[j] ==> spec_dist_sq(tiles[i], from) < spec_dist_sq(
        tiles[j],
        from,
    )
}

/// The eligible tile nearest to `from`, the first such on ties.
pub fn nearest_eligible(tiles: &Vec<Tile>, eligible: &Vec<bool>, from: Tile) -> (r: Option<usize>)
    requires
        tiles@.len() == eligible@.len(),
        eligible_fit(tiles@, eligible@, from),
    ensures
        r matches Some(i) ==> is_first_nearest_eligible(tiles@, eligible@, from, i as int),
        r is None <==> forall|j: int| 0 <= j < eligible@.len() ==> !#[trigger] eligible@[j],
{
    let mut best: Option<usize> = None;
    let mut best_d: i64 = 0;
    let mut i: usize = 0;
    while i < tiles.len()
        invariant
            tiles@.len() == eligible@.len(),
            eligible_fit(tiles@, eligible@, from),
            i <= tiles.len(),
            best is None <==> forall|j: int| 0 <= j < i ==> !#[trigger] eligible@[j],
            best matches Some(b) ==> {
                &&& b < i
                &&& eligible@[b as int]
                &&& best_d == spec_dist_sq(tiles@[b as int], from)
                &&& forall|j: int| 0 <= j < i && #[trigger] eligible@[j] ==> best_d <= spec_dist_sq(tiles@[j], from)
                &&& forall|j: int| 0 <= j < b && #[trigger] eligible@[j] ==> best_d < spec_dist_sq(tiles@[j], from)
            },
        decreases tiles.len() - i,
    {
        if eligible[i] {
            assert(eligible@[i as int]);
            let d = crate::geo::dist_sq(tiles[i], from);
            match best {
                None => {
                    best = Some(i);
                    best_d = d;
                },
                Some(b) => {
                    if d < best_d {
                        best = Some(i);
                        best_d = d;
                    }
                },
            }
        }
        i = i + 1;
    }
    best
}

/// `(s, t)` is the act's pair: among the camps that may act and have a
/// candidate, the one with the greatest score (the first on ties), and
/// its nearest candidate (the first on ties). `ok[s][t]` says camp `t`
/// is a candidate for camp `s`.
pub open spec fn is_act_pair(
    can_act: Seq<bool>,
    scores: Seq<u64>,
    tiles: Seq<Tile>,
    ok: Seq<Seq<bool>>,
    s: int,
    t: int,
) -> bool {
    &&& is_first_best(Seq::new(can_act.len(), |i: int| can_act[i] && ok[i].contains(true)), scores, s)
    &&& is_first_nearest_eligible(tiles, ok[s], tiles[s], t)
}

/// Every candidate lies within 64-bit squared distance of its camp.
pub open spec fn pairs_fit(tiles: Seq<Tile>, ok: Seq<Seq<bool>>) -> bool {
    forall|s: int| 0 <= s < tiles.len() ==> eligible_fit(tiles, #[trigger] ok[s], tiles[s])
}

fn any_true(v: &Vec<bool>) -> (r: bool)
    ensures
        r == v@.contains(true),
{
    let mut i: usize = 0;
    while i < v.len()
        invariant
            i <= v.len(),
            forall|j: int| 0 <= j < i ==> !v@[j],
        decreases v.len() - i,
    {
        if v[i] {
            assert(v@[i as int] == true);
            return true;
        }
        i = i + 1;
    }
    false
}

/// Choose the camp that acts and the camp it acts on, or none.
pub fn pick_pair(can_act: &Vec<bool>, scores: &Vec<u64>, tiles: &Vec<Tile>, ok: &Vec<Vec<bool>>) -> (r:
    Option<(usize, usize)>)
    requires
        scores@.len() == can_act@.len(),
        tiles@.len() == can_act@.len(),
        ok@.len() == can_act@.len(),
        forall|s: int| 0 <= s < ok@.len() ==> (#[trigger] ok@[s])@.len() == can_act@.len(),
        pairs_fit(tiles@, ok@.map_values(|v: Vec<bool>| v@)),
    ensures
        r matches Some((s, t)) ==> is_act_pair(can_act@, scores@, tiles@, ok@.map_values(|v: Vec<bool>| v@), s as int, t as int),
        r is None <==> forall|i: int| 0 <= i < can_act@.len() ==> !(#[trigger] can_act@[i] && ok@[i]@.contains(true)),
{
    let ghost okv = ok@.map_values(|v: Vec<bool>| v@);
    let mut acting: Vec<bool> = Vec::new();
    let mut i: usize = 0;
    while i < can_act.len()
        invariant
            i <= can_act.len(),
            ok@.len() == can_act@.len(),
            okv == ok@.map_values(|v: Vec<bool>| v@),
            acting@.len() == i,
            forall|j: int| 0 <= j < i ==> #[trigger] acting@[j] == (can_act@[j] && okv[j].contains(true)),
        decreases can_act.len() - i,
    {
        let yes = can_act[i] && any_true(&ok[i]);
        acting.push(yes);
        i = i + 1;
    }
    assert(acting@ =~= Seq::new(can_act@.len(), |k: int| can_act@[k] && okv[k].contains(true)));
    match first_best(&acting, scores) {
        None => {
            assert forall|k: int| 0 <= k < can_act@.len() implies !(#[trigger] can_act@[k] && ok@[k]@.contains(
                true,
            )) by {
                assert(!acting@[k]);
                assert(okv[k] == ok@[k]@);
            }
            None
        },
        Some(s) => {
            assert(okv[s as int] == ok@[s as int]@);
            match nearest_eligible(tiles, &ok[s], tiles[s]) {
                Some(t) => Some((s, t)),
                None => {
                    assert(!ok@[s as int]@.contains(true));
                    None
                },
            }
        },
    }
}

/// `a` comes before `b`: a greater score, or an equal score and an
/// earlier place.
pub open spec fn precedes(scores: Seq<u64>, a: int, b: int) -> bool {
    scores[a] > scores[b] || (scores[a] == scores[b] && a < b)
}

/// `r` lists the `k` entries that a stable sort by descending score puts
/// first, in that order.
pub open spec fn is_top_k(scores: Seq<u64>, k: nat, r: Seq<usize>) -> bool {
    &&& r.len() == k
    &&& forall|j: int| 0 <= j < k ==> #[trigger] r[j] < scores.len()
    &&& forall|j: int, l: int| 0 <= j < l < k ==> precedes(scores, #[trigger] r[j] as int, #[trigger] r[l] as int)
    &&& forall|i: int, j: int|
        0 <= i < scores.len() && !r.contains(i as usize) && 0 <= j < k ==> #[trigger] precedes(scores, r[j] as int, i)
}

/// The `k` entries with the greatest scores, greatest first, earlier
/// entries first among equal scores.
pub fn top_k(scores: &Vec<u64>, k: usize) -> (r: Vec<usize>)
    requires
        k <= scores@.len(),
    ensures
        is_top_k(scores@, k as nat, r@),
{
    let mut taken: Vec<bool> = Vec::new();
    let mut i: usize = 0;
    while i < scores.len()
        invariant
            i <= scores.len(),
            taken@.len() == i,
            forall|j: int| 0 <= j < i ==> !#[trigger] taken@[j],
        decreases scores.len() - i,
    {
        taken.push(false);
        i = i + 1;
    }
    let mut r: Vec<usize> = Vec::new();
    while r.len() < k
        invariant
            k <= scores@.len(),
            taken@.len() == scores@.len(),
            r@.len() <= k,
            r@.no_duplicates(),
            forall|j: int| 0 <= j < r@.len() ==> #[trigger] r@[j] < scores@.len(),
            forall|i: int| 0 <= i < scores@.len() ==> (#[trigger] taken@[i] <==> r@.contains(i as usize)),
            forall|j: int, l: int| 0 <= j < l < r@.len() ==> precedes(scores@, #[trigger] r@[j] as int, #[trigger] r@[l] as int),
            forall|i: int, j: int|
                0 <= i < scores@.len() && !r@.contains(i as usize) && 0 <= j < r@.len() ==> #[trigger] precedes(
                    scores@,
                    r@[j] as int,
                    i,
                ),
        decreases k - r@.len(),
    {
        let mut free: Vec<bool> = Vec::new();
        let mut q: usize = 0;
        while q < taken.len()
            invariant
                q <= taken.len(),
                free@.len() == q,
                forall|j: int| 0 <= j < q ==> #[trigger] free@[j] == !taken@[j],
            decreases taken.len() - q,
        {
            free.push(!taken[q]);
            q = q + 1;
        }
        let p = match first_best(&free, scores) {
            Some(p) => p,
            None => {
                proof {
                    assert forall|u: usize| u < scores@.len() implies #[trigger] r@.contains(u) by {
                        assert(!free@[u as int]);
                        assert(taken@[u as int]);
                    }
                    lemma_distinct_cover(r@, scores@.len());
                }
                return r;
            },
        };
        let ghost old_r = r@;
        assert(!taken@[p as int]);
        assert(!old_r.contains(p));
        r.push(p);
        taken.set(p, true);
        proof {
            assert(r@.no_duplicates()) by {
                assert forall|a: int, b: int| 0 <= a < r@.len() && 0 <= b < r@.len() && a != b implies r@[a] != r@[b] by {
                    if a == old_r.len() as int {
                        assert(old_r[b] == r@[b]);
                    } else if b == old_r.len() as int {
                        assert(old_r[a] == r@[a]);
                    } else {
                        assert(old_r[a] == r@[a] && old_r[b] == r@[b]);
                    }
                }
            }
            assert forall|i: int| 0 <= i < scores@.len() implies (#[trigger] taken@[i] <==> r@.contains(i as usize)) by {
                if i == p as int {
                    assert(r@[old_r.len() as int] == p);
                } else {
                    if r@.contains(i as usize) {
                        let w = choose|w: int| 0 <= w < r@.len() && r@[w] == i as usize;
                        if w < old_r.len() {
                            assert(old_r[w] == i as usize);
                        }
                    }
                    if old_r.contains(i as usize) {
                        let w = choose|w: int| 0 <= w < old_r.len() && old_r[w] == i as usize;
                        assert(r@[w] == i as usize);
                    }
                }
            }
            assert forall|j: int, l: int| 0 <= j < l < r@.len() implies precedes(scores@, #[trigger] r@[j] as int, #[trigger] r@[l] as int) by {
                if l == old_r.len() {
                    assert(r@[j] == old_r[j]);
                    assert(r@[l] == p);
                    assert(!old_r.contains(p));
                } else {
                    assert(r@[j] == old_r[j] && r@[l] == old_r[l]);
                }
            }
            assert forall|i: int, j: int|
                0 <= i < scores@.len() && !r@.contains(i as usize) && 0 <= j < r@.len() implies #[trigger] precedes(
                    scores@,
                    r@[j] as int,
                    i,
                ) by {
                assert(r@[old_r.len() as int] == p);
                assert(i != p as int);
                if old_r.contains(i as usize) {
                    let w = choose|w: int| 0 <= w < old_r.len() && old_r[w] == i as usize;
                    assert(r@[w] == i as usize);
                }
                if j < old_r.len() {
                    assert(r@[j] == old_r[j]);
                } else {
                    assert(free@[i]);
                }
            }
        }
    }
    r
}

/// A list without repeats that holds every index below `n` has at least
/// `n` entries.
proof fn lemma_distinct_cover(r: Seq<usize>, n: nat)
    requires
        r.no_duplicates(),
        n <= usize::MAX + 1,
        forall|u: usize| u < n ==> #[trigger] r.contains(u),
    ensures
        n <= r.len(),
    decreases n,
{
    if n > 0 {
        let e = (n - 1) as usize;
        assert(r.contains(e));
        let w = choose|w: int| 0 <= w < r.len() && r[w] == e;
        let rest = r.remove(w);
        assert forall|u: usize| u < n - 1 implies #[trigger] rest.contains(u) by {
            assert(r.contains(u));
            let v = choose|v: int| 0 <= v < r.len() && r[v] == u;
            assert(v != w);
            if v < w {
                assert(rest[v] == u);
            } else {
                assert(rest[v - 1] == u);
            }
        }
        assert(rest.no_duplicates()) by {
            assert forall|a: int, b: int| 0 <= a < rest.len() && 0 <= b < rest.len() && a != b implies rest[a] != rest[b] by {
                let a2 = if a < w { a } else { a + 1 };
                let b2 = if b < w { b } else { b + 1 };
                assert(rest[a] == r[a2] && rest[b] == r[b2]);
            }
        }
        lemma_distinct_cover(rest, (n - 1) as nat);
    }
}

/// Whether `ids` holds `id`.
pub fn holds_id(ids: &Vec<i64>, id: i64) -> (r: bool)
    ensures
        r == ids@.contains(id),
{
    let mut i: usize = 0;
    while i < ids.len()
        invariant
            i <= ids.len(),
            forall|j: int| 0 <= j < i ==> ids@[j] != id,
        decreases ids.len() - i,
    {
        if ids[i] == id {
            assert(ids@[i as int] == id);
            return true;
        }
        i = i + 1;
    }
    false
}

/// What a mission does after a pass.
#[derive(Clone, Copy, PartialEq, Eq, Debug, Structural)]
pub enum Step {
    /// Keep going as it is.
    Continue,
    /// Turn for home.
    Transition,
    /// The mission is over.
    Complete,
}

/// A lesson a camp's voters draw: one trait moves up or down, by a
/// weight in tenths.
#[derive(Clone, Copy, PartialEq, Eq, Debug)]
pub struct Lesson {
    pub trait_index: usize,
    pub up: bool,
    pub tenths: u32,
}

/// The act's cap on missions in flight is not reached.
pub open spec fn room_for(active: nat, cap: nat) -> bool {
    active < cap
}

/// A vote carries only with a strict majority of a franchise that is
/// not empty; a franchise of one needs its one vote.
pub proof fn law_majority_is_strict(t: Tally)
    ensures
        spec_majority(t) ==> t.votes >= 1 && t.franchise >= 1,
        spec_majority(t) ==> t.franchise - t.votes < t.votes,
        t.franchise == 1 ==> (spec_majority(t) <==> t.votes >= 1),
        t.votes * 2 == t.franchise ==> !spec_majority(t),
{
}

/// A score no lower than the floor counts as a vote for, and one below
/// does not: raising one voter's score never loses a vote.
pub proof fn law_higher_scores_never_lose_votes(scores: Seq<u64>, floor: u64, i: int, s: u64)
    requires
        0 <= i < scores.len(),
        s >= scores[i],
    ensures
        count_at_least(scores.update(i, s), floor) >= count_at_least(scores, floor),
    decreases scores.len(),
{
    let last = scores.len() - 1;
    if i == last {
        assert(scores.update(i, s).drop_last() =~= scores.drop_last());
    } else {
        assert(scores.update(i, s).drop_last() =~= scores.drop_last().update(i, s));
        law_higher_scores_never_lose_votes(scores.drop_last(), floor, i, s);
    }
}

} // verus!
