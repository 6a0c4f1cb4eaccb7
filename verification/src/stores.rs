//! Counting a camp's stores and reclaiming orphaned mission squads: the
//! "can they pay" read that the work offers make, and the start-up sweep
//! that hands members of a previous run's squads back to their camps.

use vstd::prelude::*;

verus! {

/// The number of `true` entries.
pub open spec fn count_true(s: Seq<bool>) -> nat
    decreases s.len(),
{
    if s.len() == 0 {
        0
    } else {
        count_true(s.drop_last()) + (if s.last() { 1nat } else { 0nat })
    }
}

/// The stored stacks that match, counted building by building and
/// stopping early at `cap` (a cap of one or less is a cheap "has any"
/// test and counts at most one).
pub open spec fn spec_count_capped(total: nat, cap: i64) -> int {
    let limit: int = if cap >= 1 { cap as int } else { 1 };
    if total >= limit { limit } else { total as int }
}

/// All matches in all buildings, in order.
pub open spec fn all_matches(buildings: Seq<Vec<bool>>) -> Seq<bool>
    decreases buildings.len(),
{
    if buildings.len() == 0 {
        Seq::empty()
    } else {
        all_matches(buildings.drop_last()) + buildings.last()@
    }
}

proof fn lemma_count_add(a: Seq<bool>, b: Seq<bool>)
    ensures
        count_true(a + b) == count_true(a) + count_true(b),
    decreases b.len(),
{
    if b.len() == 0 {
        assert(a + b =~= a);
    } else {
        lemma_count_add(a, b.drop_last());
        assert((a + b).drop_last() =~= a + b.drop_last());
    }
}

/// Count the matching stacks across a camp's buildings, up to `cap`.
/// `matches[b][i]` says stack `i` of building `b` matches the filter.
pub fn count_capped(matches: &Vec<Vec<bool>>, cap: i64) -> (n: i64)
    ensures
        n == spec_count_capped(count_true(all_matches(matches@)), cap),
{
    let limit: i64 = if cap >= 1 { cap } else { 1 };
    let mut found: i64 = 0;
    let mut b: usize = 0;
    while b < matches.len()
        invariant
            b <= matches.len(),
            limit >= 1,
            limit == (if cap >= 1 { cap } else { 1 }),
            0 <= found < limit,
            found == count_true(all_matches(matches@.take(b as int))),
        decreases matches.len() - b,
    {
        let row = &matches[b];
        let ghost before = all_matches(matches@.take(b as int));
        let mut i: usize = 0;
        while i < row.len()
            invariant
                i <= row.len(),
                b < matches@.len(),
                limit >= 1,
                limit == (if cap >= 1 { cap } else { 1 }),
                0 <= found < limit,
                before == all_matches(matches@.take(b as int)),
                found == count_true(before + row@.take(i as int)),
                *row == matches@[b as int],
            decreases row.len() - i,
        {
            proof {
                assert((before + row@.take(i + 1)).drop_last() =~= before + row@.take(i as int));
            }
            if row[i] {
                found = found + 1;
                if found >= limit {
                    proof {
                        lemma_count_add(before, row@.take(i + 1));
                        lemma_prefix_count_le(matches@, b as int, i + 1);
                    }
                    return found;
                }
            }
            i = i + 1;
        }
        proof {
            assert(row@.take(row.len() as int) =~= row@);
            assert(matches@.take(b + 1).drop_last() =~= matches@.take(b as int));
            assert(all_matches(matches@.take(b + 1)) == before + row@);
        }
        b = b + 1;
    }
    assert(matches@.take(matches.len() as int) =~= matches@);
    found
}

/// The count of a prefix (the first `b` buildings and the first `i`
/// stacks of the next) is at most the count of all.
proof fn lemma_prefix_count_le(m: Seq<Vec<bool>>, b: int, i: int)
    requires
        0 <= b < m.len(),
        0 <= i <= m[b]@.len(),
    ensures
        count_true(all_matches(m.take(b)) + m[b]@.take(i)) <= count_true(all_matches(m)),
    decreases m.len(),
{
    lemma_count_add(all_matches(m.take(b)), m[b]@.take(i));
    lemma_count_add(m[b]@.take(i), m[b]@.skip(i));
    assert(m[b]@.take(i) + m[b]@.skip(i) =~= m[b]@);
    assert(m.take(b + 1).drop_last() =~= m.take(b));
    assert(all_matches(m.take(b + 1)) == all_matches(m.take(b)) + m[b]@);
    lemma_count_add(all_matches(m.take(b)), m[b]@);
    lemma_all_matches_prefix(m, b + 1);
}

proof fn lemma_all_matches_prefix(m: Seq<Vec<bool>>, k: int)
    requires
        0 <= k <= m.len(),
    ensures
        count_true(all_matches(m.take(k))) <= count_true(all_matches(m)),
    decreases m.len() - k,
{
    if k < m.len() {
        lemma_all_matches_prefix(m, k + 1);
        assert(m.take(k + 1).drop_last() =~= m.take(k));
        lemma_count_add(all_matches(m.take(k)), m[k]@);
    } else {
        assert(m.take(k) =~= m);
    }
}

/// The squads a start-up sweep disbands: those of a settlement that run
/// the trade behaviour, which only this mod's missions give them.
pub fn orphan_squads(is_trade: &Vec<bool>) -> (r: Vec<usize>)
    ensures
        forall|j: int| 0 <= j < r@.len() ==> (#[trigger] r@[j]) < is_trade@.len() && is_trade@[r@[j] as int],
        forall|i: int| 0 <= i < is_trade@.len() && #[trigger] is_trade@[i] ==> r@.contains(i as usize),
        forall|j: int, l: int| 0 <= j < l < r@.len() ==> #[trigger] r@[j] < #[trigger] r@[l],
{
    let mut r: Vec<usize> = Vec::new();
    let mut i: usize = 0;
    while i < is_trade.len()
        invariant
            i <= is_trade.len(),
            forall|j: int| 0 <= j < r@.len() ==> (#[trigger] r@[j]) < i && is_trade@[r@[j] as int],
            forall|k: int| 0 <= k < i && #[trigger] is_trade@[k] ==> r@.contains(k as usize),
            forall|j: int, l: int| 0 <= j < l < r@.len() ==> #[trigger] r@[j] < #[trigger] r@[l],
        decreases is_trade.len() - i,
    {
        if is_trade[i] {
            let ghost old_r = r@;
            r.push(i);
            proof {
                assert forall|k: int| 0 <= k <= i && #[trigger] is_trade@[k] implies r@.contains(k as usize) by {
                    if k < i {
                        let w = choose|w: int| 0 <= w < old_r.len() && old_r[w] == k as usize;
                        assert(r@[w] == k as usize);
                    } else {
                        assert(r@[old_r.len() as int] == i);
                    }
                }
            }
        }
        i = i + 1;
    }
    r
}

} // verus!
