//! Survival-driven faction behavior: each AI settlement is assessed on a
//! desperation ladder from its survival state (food, population trend,
//! threat pressure), and a desperate, starving camp raids the nearest
//! well-fed neighbor for food. One raid per scan keeps the map's
//! escalation organic.

use vstd::prelude::*;

use crate::courier::Handle;
use crate::geo::{dist_fits, dist_sq, spec_dist_sq, Tile};

verus! {

/// The desperation ladder.
#[derive(Clone, Copy, PartialEq, Eq, Debug)]
pub enum Rung {
    Comfortable,
    Strained,
    Desperate,
    Terminal,
}

/// The rung's name in the status readout.
pub open spec fn rung_name(r: Rung) -> &'static str {
    match r {
        Rung::Comfortable => "comfortable",
        Rung::Strained => "strained",
        Rung::Desperate => "desperate",
        Rung::Terminal => "terminal",
    }
}

/// Name a rung.
pub fn name(r: Rung) -> (n: &'static str)
    ensures
        n == rung_name(r),
{
    match r {
        Rung::Comfortable => "comfortable",
        Rung::Strained => "strained",
        Rung::Desperate => "desperate",
        Rung::Terminal => "terminal",
    }
}

/// Where a rung ranks in the status readout: the desperate first.
pub open spec fn spec_rank(r: Rung) -> u8 {
    match r {
        Rung::Terminal => 0,
        Rung::Desperate => 1,
        Rung::Strained => 2,
        Rung::Comfortable => 3,
    }
}

/// Rank a rung for the readout.
pub fn rank(r: Rung) -> (k: u8)
    ensures
        k == spec_rank(r),
{
    match r {
        Rung::Terminal => 0,
        Rung::Desperate => 1,
        Rung::Strained => 2,
        Rung::Comfortable => 3,
    }
}

/// A settlement's survival state as the game reports it.
#[derive(Clone, Copy, Debug)]
pub struct SurvivalFacts {
    /// Living non-zombie members.
    pub members: i64,
    /// Members at world generation.
    pub initial: i64,
    /// Live threats at its door.
    pub threats: i64,
    /// Nutrition at or below the vanilla starve line (0.5).
    pub starving: bool,
    /// Nutrition below the well-fed line (1.0).
    pub underfed: bool,
}

/// Fewer than half the camp's worldgen size remain.
pub open spec fn shrunk(f: SurvivalFacts) -> bool {
    f.initial > 0 && 2 * f.members < f.initial
}

/// Only one or two living remain.
pub open spec fn tiny(f: SurvivalFacts) -> bool {
    f.members > 0 && f.members <= 2
}

/// The rung from the worst survival axis.
pub open spec fn spec_rung(f: SurvivalFacts) -> Rung {
    if f.members == 0 {
        Rung::Terminal
    } else if (f.starving && (shrunk(f) || tiny(f))) || (tiny(f) && f.threats > 0) {
        Rung::Terminal
    } else if f.starving || shrunk(f) || f.threats >= 2 {
        Rung::Desperate
    } else if f.underfed || f.threats >= 1 || (f.initial > 0 && f.members < f.initial) {
        Rung::Strained
    } else {
        Rung::Comfortable
    }
}

/// Assess a settlement's rung.
pub fn assess(f: SurvivalFacts) -> (r: Rung)
    ensures
        r == spec_rung(f),
{
    let shrunk = f.initial > 0 && (f.members as i128) * 2 < f.initial as i128;
    let tiny = f.members > 0 && f.members <= 2;
    if f.members == 0 {
        Rung::Terminal
    } else if (f.starving && (shrunk || tiny)) || (tiny && f.threats > 0) {
        Rung::Terminal
    } else if f.starving || shrunk || f.threats >= 2 {
        Rung::Desperate
    } else if f.underfed || f.threats >= 1 || (f.initial > 0 && f.members < f.initial) {
        Rung::Strained
    } else {
        Rung::Comfortable
    }
}

/// A camp as the desperation scan sees it.
#[derive(Clone, Copy, Debug)]
pub struct SurvivalCamp {
    pub handle: Handle,
    pub members: i64,
    pub rung: Rung,
    /// Nutrition at or below the starve line.
    pub starving: bool,
    /// Nutrition at or above the well-fed line (a raid target must have
    /// meaningfully more food than the raider).
    pub well_fed: bool,
    /// The camp already has an invasion target.
    pub at_war: bool,
    pub centre: Option<Tile>,
}

/// A camp that raids: desperate, starving, not already at war, with two
/// or more living and a base to march from.
pub open spec fn is_raider(c: SurvivalCamp) -> bool {
    c.rung == Rung::Desperate && c.starving && !c.at_war && c.members >= 2 && c.centre is Some
}

/// The raider: the first camp that raids, in scan order.
pub fn pick_raider(cs: &Vec<SurvivalCamp>) -> (r: Option<usize>)
    ensures
        r matches Some(i) ==> i < cs@.len() && is_raider(cs@[i as int]) && forall|j: int|
            0 <= j < i ==> !is_raider(#[trigger] cs@[j]),
        r is None ==> forall|j: int| 0 <= j < cs@.len() ==> !is_raider(#[trigger] cs@[j]),
{
    let mut i: usize = 0;
    while i < cs.len()
        invariant
            i <= cs@.len(),
            forall|j: int| 0 <= j < i ==> !is_raider(#[trigger] cs@[j]),
        decreases cs@.len() - i,
    {
        let c = cs[i];
        if matches!(c.rung, Rung::Desperate) && c.starving && !c.at_war && c.members >= 2 && c.centre.is_some() {
            return Some(i);
        }
        i = i + 1;
    }
    None
}

/// A camp the raider may fall on: not itself, well fed, placed.
pub open spec fn is_target(cs: Seq<SurvivalCamp>, raider: int, j: int) -> bool {
    cs[j].handle != cs[raider].handle && cs[j].well_fed && cs[j].centre is Some
}

/// `t` is the first of the nearest targets.
pub open spec fn is_best_target(cs: Seq<SurvivalCamp>, raider: int, from: Tile, t: int) -> bool {
    &&& 0 <= t < cs.len()
    &&& is_target(cs, raider, t)
    &&& forall|j: int| 0 <= j < cs.len() && is_target(cs, raider, j) ==> spec_dist_sq(cs[t].centre.unwrap(), from) <= spec_dist_sq(#[trigger] cs[j].centre.unwrap(), from)
    &&& forall|j: int| 0 <= j < t && is_target(cs, raider, j) ==> spec_dist_sq(cs[t].centre.unwrap(), from) < spec_dist_sq(#[trigger] cs[j].centre.unwrap(), from)
}

/// The target: the nearest well-fed camp to the raider's base, the first
/// such on ties.
pub fn pick_target(cs: &Vec<SurvivalCamp>, raider: usize) -> (r: Option<usize>)
    requires
        raider < cs@.len(),
        cs@[raider as int].centre is Some,
        forall|j: int|
            0 <= j < cs@.len() && (#[trigger] cs@[j]).centre is Some ==> dist_fits(
                cs@[j].centre.unwrap(),
                cs@[raider as int].centre.unwrap(),
            ),
    ensures
        r matches Some(t) ==> is_best_target(cs@, raider as int, cs@[raider as int].centre.unwrap(), t as int),
        r is None ==> forall|j: int| 0 <= j < cs@.len() ==> !is_target(cs@, raider as int, j),
{
    let from = match cs[raider].centre {
        Some(c) => c,
        None => Tile { x: 0, y: 0 },
    };
    let rh = cs[raider].handle;
    let mut best: Option<(usize, i64)> = None;
    let mut i: usize = 0;
    while i < cs.len()
        invariant
            i <= cs@.len(),
            raider < cs@.len(),
            from == cs@[raider as int].centre.unwrap(),
            rh == cs@[raider as int].handle,
            forall|j: int|
                0 <= j < cs@.len() && (#[trigger] cs@[j]).centre is Some ==> dist_fits(cs@[j].centre.unwrap(), from),
            best is None ==> forall|j: int| 0 <= j < i ==> !is_target(cs@, raider as int, j),
            best matches Some((t, d)) ==> {
                &&& t < i
                &&& is_target(cs@, raider as int, t as int)
                &&& d == spec_dist_sq(cs@[t as int].centre.unwrap(), from)
                &&& forall|j: int| 0 <= j < i && is_target(cs@, raider as int, j) ==> d <= spec_dist_sq(#[trigger] cs@[j].centre.unwrap(), from)
                &&& forall|j: int| 0 <= j < t && is_target(cs@, raider as int, j) ==> d < spec_dist_sq(#[trigger] cs@[j].centre.unwrap(), from)
            },
        decreases cs@.len() - i,
    {
        let c = cs[i];
        if c.handle != rh && c.well_fed {
            if let Some(ct) = c.centre {
                let d = dist_sq(ct, from);
                match best {
                    None => {
                        best = Some((i, d));
                    },
                    Some((_, bd)) => {
                        if d < bd {
                            best = Some((i, d));
                        }
                    },
                }
            }
        }
        i = i + 1;
    }
    match best {
        Some((t, _)) => Some(t),
        None => None,
    }
}

/// A settlement with nobody left is terminal, whatever else holds.
pub proof fn law_empty_is_terminal(f: SurvivalFacts)
    requires
        f.members == 0,
    ensures
        spec_rung(f) == Rung::Terminal,
{
}

/// Starving is never comfortable or merely strained.
pub proof fn law_starving_is_desperate(f: SurvivalFacts)
    requires
        f.starving,
    ensures
        spec_rung(f) == Rung::Desperate || spec_rung(f) == Rung::Terminal,
{
}

/// Two or more threats at the door make a camp desperate at least, and a
/// last handful under any threat is terminal.
pub proof fn law_threats_make_desperate(f: SurvivalFacts)
    ensures
        f.threats >= 2 ==> spec_rung(f) == Rung::Desperate || spec_rung(f) == Rung::Terminal,
        0 < f.members <= 2 && f.threats > 0 ==> spec_rung(f) == Rung::Terminal,
        f.threats >= 1 ==> spec_rung(f) != Rung::Comfortable,
{
}

/// Each rung against the camp's state, from the worst axis down: terminal
/// when nobody lives, when starving with half the camp gone or only a
/// handful left, or a handful under threat; desperate (at least) when
/// starving, with fewer than half its first members, or with two or
/// more threats; comfortable exactly when alive, fed, unthreatened and
/// at its full first size.
pub proof fn law_rungs_by_state(f: SurvivalFacts)
    ensures
        spec_rung(f) == Rung::Terminal <==> f.members == 0 || (f.starving && ((f.initial > 0 && 2
            * f.members < f.initial) || (0 < f.members <= 2))) || (0 < f.members <= 2 && f.threats > 0),
        (spec_rung(f) == Rung::Terminal || spec_rung(f) == Rung::Desperate) <==> f.members == 0
            || f.starving || (f.initial > 0 && 2 * f.members < f.initial) || f.threats >= 2 || (0
            < f.members <= 2 && f.threats > 0),
        spec_rung(f) == Rung::Comfortable <==> f.members != 0 && !f.starving && !f.underfed
            && f.threats <= 0 && !(f.initial > 0 && f.members < f.initial),
{
}

/// More threats never leave a camp better off, nor does starving.
pub proof fn law_worse_never_ranks_better(f: SurvivalFacts)
    requires
        f.threats < i64::MAX,
    ensures
        spec_rank(spec_rung(SurvivalFacts { threats: (f.threats + 1) as i64, ..f })) <= spec_rank(spec_rung(f)),
        spec_rank(spec_rung(SurvivalFacts { starving: true, ..f })) <= spec_rank(spec_rung(f)),
{
}

/// The indices of the camps on the rung ranked `k`, in scan order.
pub open spec fn ranked(rungs: Seq<Rung>, k: u8) -> Seq<int> {
    Seq::new(rungs.len(), |i: int| i).filter(|i: int| spec_rank(rungs[i]) == k)
}

/// The order of the status readout: terminal camps first, then the
/// desperate, the strained and the comfortable, each rung in scan order.
pub open spec fn spec_readout_order(rungs: Seq<Rung>) -> Seq<int> {
    ranked(rungs, 0) + ranked(rungs, 1) + ranked(rungs, 2) + ranked(rungs, 3)
}

/// The indices as integers.
pub open spec fn as_ints(v: Seq<usize>) -> Seq<int> {
    v.map_values(|x: usize| x as int)
}

fn push_ranked(rungs: &Vec<Rung>, k: u8, out: &mut Vec<usize>)
    ensures
        as_ints(final(out)@) == as_ints(old(out)@) + ranked(rungs@, k),
{
    let ghost all = Seq::new(rungs@.len(), |i: int| i);
    let ghost start = as_ints(out@);
    let mut i: usize = 0;
    while i < rungs.len()
        invariant
            i <= rungs@.len(),
            all == Seq::new(rungs@.len(), |i: int| i),
            as_ints(out@) == start + all.take(i as int).filter(|j: int| spec_rank(rungs@[j]) == k),
        decreases rungs@.len() - i,
    {
        proof {
            reveal_with_fuel(Seq::<int>::filter, 1);
            assert(all.take(i + 1).drop_last() =~= all.take(i as int));
        }
        if rank(rungs[i]) == k {
            let ghost before = out@;
            out.push(i);
            assert(as_ints(out@) =~= as_ints(before).push(i as int));
        }
        i = i + 1;
    }
    assert(all.take(rungs@.len() as int) =~= all);
}

/// The order the status readout lists the camps in (a stable sort by
/// rung, the desperate first).
pub fn readout_order(rungs: &Vec<Rung>) -> (r: Vec<usize>)
    ensures
        as_ints(r@) == spec_readout_order(rungs@),
{
    let mut r: Vec<usize> = Vec::new();
    assert(as_ints(r@) =~= Seq::<int>::empty());
    push_ranked(rungs, 0, &mut r);
    push_ranked(rungs, 1, &mut r);
    push_ranked(rungs, 2, &mut r);
    push_ranked(rungs, 3, &mut r);
    assert(as_ints(r@) =~= spec_readout_order(rungs@));
    r
}

} // verus!
