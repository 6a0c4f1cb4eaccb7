//! The quality system: tiers are distinct item types (Uncommon, Rare,
//! Epic, Legendary above the vanilla Normal), each with several
//! statistical siblings. The edge rolls quality on arriving bands' gear
//! (military remnants roll best, raiders lower, a roving trader's stock
//! once when first seen), and crafting rolls it by how far the crafter's
//! skill clears the recipe. Higher quality, lower chance.
//!
//! This module holds the tier catalog, the odds, the variant naming
//! convention, and the book of traders already rolled.

use vstd::prelude::*;

use crate::text::decimal;
use crate::text::decimal_string;

verus! {

/// Statistical siblings per tier.
pub const SIBLINGS: u64 = 3;

/// A generated prototype whose presence shows the variant data is loaded.
pub const CANARY: &'static str = "AssaultRifle_Uncommon1";

/// The tier names, best first.
pub open spec fn spec_tier_name(i: int) -> &'static str {
    if i == 0 {
        "Legendary"
    } else if i == 1 {
        "Epic"
    } else if i == 2 {
        "Rare"
    } else {
        "Uncommon"
    }
}

/// Name a tier (index 0 is the best).
pub fn tier_name(i: usize) -> (n: &'static str)
    requires
        i < 4,
    ensures
        n == spec_tier_name(i as int),
{
    if i == 0 {
        "Legendary"
    } else if i == 1 {
        "Epic"
    } else if i == 2 {
        "Rare"
    } else {
        "Uncommon"
    }
}

/// Tier odds in per mille, best tier first, for a military remnant.
pub fn military_odds() -> (o: [u64; 4])
    ensures
        o@ == seq![10u64, 40, 100, 200],
{
    [10, 40, 100, 200]
}

/// Tier odds in per mille for raiders.
pub fn raider_odds() -> (o: [u64; 4])
    ensures
        o@ == seq![3u64, 15, 50, 120],
{
    [3, 15, 50, 120]
}

/// Tier odds in per mille for a roving trader's stock.
pub fn trader_odds() -> (o: [u64; 4])
    ensures
        o@ == seq![4u64, 20, 60, 150],
{
    [4, 20, 60, 150]
}

/// The odds an edge band rolls by: the best for a military remnant.
pub fn edge_odds(military: bool) -> (o: [u64; 4])
    ensures
        military ==> o@ == seq![10u64, 40, 100, 200],
        !military ==> o@ == seq![3u64, 15, 50, 120],
{
    if military { military_odds() } else { raider_odds() }
}

/// The crafter's clamped surplus: how far skill clears the recipe,
/// between 0 and 8.
pub open spec fn clamped_surplus(surplus: i64) -> u64 {
    if surplus < 0 {
        0
    } else if surplus > 8 {
        8
    } else {
        surplus as u64
    }
}

/// Skill-scaled tier odds (per mille, best first). A novice never rolls
/// Legendary; a master's hands are worth fighting over.
pub open spec fn spec_craft_odds(surplus: i64) -> Seq<u64> {
    let s = clamped_surplus(surplus);
    seq![s, (3 * (1 + s)) as u64, (12 * (1 + s)) as u64, (40 * (1 + s)) as u64]
}

/// The tier odds of a craft roll.
pub fn craft_odds(surplus: i64) -> (o: [u64; 4])
    ensures
        o@ == spec_craft_odds(surplus),
{
    let s: u64 = if surplus < 0 {
        0
    } else if surplus > 8 {
        8
    } else {
        surplus as u64
    };
    [s, 3 * (1 + s), 12 * (1 + s), 40 * (1 + s)]
}

/// How far a crafter's skill clears the recipe's level, never negative.
pub fn surplus(level: i64, recipe_level: i64) -> (s: i64)
    requires
        i64::MIN <= level - recipe_level <= i64::MAX,
    ensures
        s == if level - recipe_level > 0 { level - recipe_level } else { 0 },
{
    let d = level - recipe_level;
    if d > 0 { d } else { 0 }
}

/// The variant type name by convention: `<Base>_<Tier><Sibling>`.
pub open spec fn spec_variant_name(base: &str, tier_ix: int, sibling: nat) -> Seq<char> {
    base@ + "_"@ + spec_tier_name(tier_ix)@ + decimal(sibling)
}

/// Compose the variant type name of a base item.
pub fn variant_name(base: &str, tier_ix: usize, sibling: u64) -> (s: String)
    requires
        tier_ix < 4,
    ensures
        s@ == spec_variant_name(base, tier_ix as int, sibling as nat),
{
    let mut s = String::from_str(base);
    s.append("_");
    s.append(tier_name(tier_ix));
    let d = decimal_string(sibling);
    s.append(d.as_str());
    s
}

/// Already tiered (or any modded underscore name): never re-rolled.
pub fn is_tiered(name: &str) -> (b: bool)
    ensures
        b == name@.contains('_'),
{
    let n = name.unicode_len();
    let mut i: usize = 0;
    while i < n
        invariant
            n == name@.len(),
            i <= n,
            forall|j: int| 0 <= j < i ==> name@[j] != '_',
        decreases n - i,
    {
        if name.get_char(i) == '_' {
            assert(name@[i as int] == '_');
            return true;
        }
        i = i + 1;
    }
    false
}

/// The salt of a craft roll, from the crafter's handle.
pub open spec fn spec_craft_salt(crafter_h: i32) -> u64 {
    (((crafter_h as u64) as nat * 53) % 0x1_0000_0000_0000_0000nat) as u64 ^ 0xC0FFEEu64
}

/// Salt a craft roll by the crafter.
pub fn craft_salt(crafter_h: i32) -> (s: u64)
    ensures
        s == spec_craft_salt(crafter_h),
{
    (crafter_h as u64).wrapping_mul(53) ^ 0xC0FFEE
}

/// Salt an edge roll by the member's and the item's place.
pub fn band_salt(member_ix: u64, item_ix: u64) -> (s: u64)
    requires
        member_ix * 131 + item_ix + 7 <= u64::MAX,
    ensures
        s == member_ix * 131 + item_ix + 7,
{
    member_ix * 131 + item_ix + 7
}

/// Roving traders whose stock already rolled this generation.
#[derive(Clone, Debug)]
pub struct RolledTraders {
    pub ids: Vec<i64>,
}

/// An empty book.
pub fn new_rolled() -> (r: RolledTraders)
    ensures
        r.ids@.len() == 0,
{
    RolledTraders { ids: Vec::new() }
}

/// This trader's stock already rolled.
pub fn was_rolled(r: &RolledTraders, id: i64) -> (b: bool)
    ensures
        b == r.ids@.contains(id),
{
    let mut i: usize = 0;
    while i < r.ids.len()
        invariant
            i <= r.ids@.len(),
            forall|j: int| 0 <= j < i ==> r.ids@[j] != id,
        decreases r.ids@.len() - i,
    {
        if r.ids[i] == id {
            assert(r.ids@[i as int] == id);
            return true;
        }
        i = i + 1;
    }
    false
}

/// Remember a rolled trader.
pub fn mark_rolled(r: &mut RolledTraders, id: i64)
    ensures
        final(r).ids@ == old(r).ids@.push(id),
{
    r.ids.push(id);
}

/// Traders despawn: forget every rolled trader not seen this scan.
pub fn forget_unseen(r: &mut RolledTraders, seen: &Vec<i64>)
    ensures
        final(r).ids@ == old(r).ids@.filter(|id: i64| seen@.contains(id)),
{
    let ghost old_ids = r.ids@;
    let mut kept: Vec<i64> = Vec::new();
    let mut i: usize = 0;
    while i < r.ids.len()
        invariant
            r.ids@ == old_ids,
            i <= old_ids.len(),
            kept@ == old_ids.take(i as int).filter(|id: i64| seen@.contains(id)),
        decreases old_ids.len() - i,
    {
        proof {
            reveal_with_fuel(Seq::<i64>::filter, 1);
            assert(old_ids.take(i + 1).drop_last() =~= old_ids.take(i as int));
        }
        let id = r.ids[i];
        let mut found = false;
        let mut k: usize = 0;
        while k < seen.len()
            invariant
                k <= seen@.len(),
                found <==> exists|j: int| 0 <= j < k && seen@[j] == id,
            decreases seen@.len() - k,
        {
            if seen[k] == id {
                found = true;
            }
            k = k + 1;
        }
        if found {
            kept.push(id);
        }
        i = i + 1;
    }
    assert(old_ids.take(old_ids.len() as int) =~= old_ids);
    r.ids = kept;
}

/// Better hands make finer things: more surplus never lowers any tier's
/// odds.
pub proof fn law_craft_odds_monotone(a: i64, b: i64)
    requires
        a <= b,
    ensures
        forall|k: int| 0 <= k < 4 ==> #[trigger] spec_craft_odds(a)[k] <= spec_craft_odds(b)[k],
{
    assert(clamped_surplus(a) <= clamped_surplus(b));
}

/// A novice never rolls Legendary: with no surplus the best tier's odds
/// are zero.
pub proof fn law_novice_never_legendary(s: i64)
    requires
        s <= 0,
    ensures
        spec_craft_odds(s)[0] == 0,
{
}

} // verus!
