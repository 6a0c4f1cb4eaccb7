//! Theft: a camp at peace whose franchise votes guile sends its most
//! guileful free member to the nearest meaningfully richer neighbour it
//! is neither at war with nor allied to. The thief takes what one pair
//! of hands can carry from the stores; the game decides whether anyone
//! saw; the thief walks home either way, and the voters learn guile from
//! the outcome.
//!
//! This module holds the vote count, the choice of thief camp, mark and
//! thief, each pass of a theft, and the lessons; carrying, being seen
//! and walking are the game's.

use vstd::prelude::*;

use crate::camp::{CommunityKind, is_settlement_kind};
use crate::courier::{Handle, Leg};
use crate::errand::{Lesson, Tally, count_at_least, spec_majority};
use crate::genome::GUILE;
use crate::geo::Tile;

verus! {

/// A voter favours theft when their guile reaches one half (the bit
/// pattern of the 64-bit float 0.5).
pub const STEAL_GUILE_FLOOR_BITS: u64 = 0x3FE0_0000_0000_0000;

/// Stacks one thief carries off.
pub const STEAL_MAX_STACKS: i64 = 2;

/// At most this many thefts in flight map-wide.
pub const MAX_ACTIVE_THEFTS: usize = 4;

/// A camp as the theft scan sees it.
#[derive(Clone, Debug)]
pub struct StealCamp {
    pub handle: Handle,
    pub id: i64,
    pub kind: CommunityKind,
    pub living: i64,
    pub at_war: bool,
    pub threats: usize,
    pub centre: Tile,
    /// The guile of each voter (alive, human, and under looter rule not
    /// a conscript), as bit patterns of non-negative values; empty when
    /// the camp cannot spare a thief.
    pub guile_bits: Vec<u64>,
    /// The voters' mean guile, as the bit pattern of a non-negative
    /// value.
    pub mean_guile_bits: u64,
}

/// A camp can spare a thief: three or more members, at peace, and
/// unthreatened.
pub open spec fn can_thieve(c: StealCamp) -> bool {
    is_settlement_kind(c.kind) && c.living >= 3 && !c.at_war && c.threats == 0
}

/// The camp's vote on theft.
pub open spec fn steal_tally(c: StealCamp) -> Tally {
    Tally { votes: count_at_least(c.guile_bits@, STEAL_GUILE_FLOOR_BITS) as u64, franchise: c.guile_bits@.len() as u64 }
}

/// The camp may send a thief now: it can spare one, a majority of its
/// franchise voted for it, and it has no thief out.
pub open spec fn spec_may_steal(c: StealCamp, active: Seq<i64>) -> bool {
    can_thieve(c) && spec_majority(steal_tally(c)) && !active.contains(c.id)
}

/// Whether the camp may send a thief now.
pub fn may_steal(c: &StealCamp, active: &Vec<i64>) -> (b: bool)
    ensures
        b == spec_may_steal(*c, active@),
{
    let settlement = matches!(c.kind, CommunityKind::Normal | CommunityKind::Looter);
    if !(settlement && c.living >= 3 && !c.at_war && c.threats == 0) {
        return false;
    }
    let t = crate::errand::tally(&c.guile_bits, STEAL_GUILE_FLOOR_BITS);
    assert(t == steal_tally(*c));
    crate::errand::majority(t) && !crate::errand::holds_id(active, c.id)
}

/// The camps' centres.
pub open spec fn steal_tiles(camps: Seq<StealCamp>) -> Seq<Tile> {
    Seq::new(camps.len(), |i: int| camps[i].centre)
}

/// Choose this scan's theft: the thief camp and its mark, or none.
/// `target_ok[s][t]` says camp `t` is a mark for camp `s`: another camp,
/// meaningfully richer, neither at war with `s` nor allied to it. The
/// thief camp is the one with the most guileful franchise among those
/// that may steal and have a mark (the first on ties); the mark is its
/// nearest (the first on ties).
pub fn plan_theft(camps: &Vec<StealCamp>, active: &Vec<i64>, target_ok: &Vec<Vec<bool>>) -> (r: Option<
    (usize, usize),
>)
    requires
        target_ok@.len() == camps@.len(),
        forall|s: int| 0 <= s < target_ok@.len() ==> (#[trigger] target_ok@[s])@.len() == camps@.len(),
        crate::errand::pairs_fit(steal_tiles(camps@), target_ok@.map_values(|v: Vec<bool>| v@)),
    ensures
        r matches Some((s, t)) ==> crate::errand::is_act_pair(
            Seq::new(camps@.len(), |i: int| spec_may_steal(camps@[i], active@)),
            Seq::new(camps@.len(), |i: int| camps@[i].mean_guile_bits),
            steal_tiles(camps@),
            target_ok@.map_values(|v: Vec<bool>| v@),
            s as int,
            t as int,
        ),
        r is None <==> forall|i: int|
            0 <= i < camps@.len() ==> !(spec_may_steal(#[trigger] camps@[i], active@) && target_ok@[i]@.contains(true)),
{
    let mut can: Vec<bool> = Vec::new();
    let mut scores: Vec<u64> = Vec::new();
    let mut tiles: Vec<Tile> = Vec::new();
    let mut i: usize = 0;
    while i < camps.len()
        invariant
            i <= camps.len(),
            can@.len() == i && scores@.len() == i && tiles@.len() == i,
            forall|j: int| 0 <= j < i ==> #[trigger] can@[j] == spec_may_steal(camps@[j], active@),
            forall|j: int| 0 <= j < i ==> #[trigger] scores@[j] == camps@[j].mean_guile_bits,
            forall|j: int| 0 <= j < i ==> #[trigger] tiles@[j] == camps@[j].centre,
        decreases camps.len() - i,
    {
        can.push(may_steal(&camps[i], active));
        scores.push(camps[i].mean_guile_bits);
        tiles.push(camps[i].centre);
        i = i + 1;
    }
    assert(can@ =~= Seq::new(camps@.len(), |k: int| spec_may_steal(camps@[k], active@)));
    assert(scores@ =~= Seq::new(camps@.len(), |k: int| camps@[k].mean_guile_bits));
    assert(tiles@ =~= steal_tiles(camps@));
    let r = crate::errand::pick_pair(&can, &scores, &tiles, target_ok);
    proof {
        if r is None {
            assert forall|k: int| 0 <= k < camps@.len() implies !(spec_may_steal(#[trigger] camps@[k], active@)
                && target_ok@[k]@.contains(true)) by {
                assert(can@[k] == spec_may_steal(camps@[k], active@));
            }
        }
    }
    r
}

/// A theft in flight.
#[derive(Clone, Debug)]
pub struct StealMission {
    pub faction_h: Handle,
    pub faction_id: i64,
    pub faction_name: String,
    pub target_h: Handle,
    pub target_name: String,
    pub thief_h: Handle,
    pub thief_name: String,
    pub squad_id: i64,
    pub home: Tile,
    pub leg: Leg,
    pub caught: bool,
    pub stolen: i64,
    pub voter_ids: Vec<i64>,
    pub deadline_bits: u32,
}

/// What the game reported about a thief on this pass.
#[derive(Clone, Copy, Debug)]
pub struct StealReport {
    pub thief_alive: bool,
    /// The clock has reached the theft's deadline.
    pub timed_out: bool,
    /// The mark still has living members (read on the way out).
    pub target_alive: bool,
    /// The thief stands within arrival range of the leg's goal.
    pub arrived: bool,
}

/// What one pass decides for a theft.
#[derive(Clone, Copy, PartialEq, Eq, Debug)]
pub enum StealOutcome {
    /// The thief died on the job: the theft is over.
    ThiefDied,
    /// The deadline passed: the thief is recalled.
    Fizzled,
    /// The mark died out before the thief arrived: recalled.
    MarkGone,
    /// Still walking.
    OnTheRoad,
    /// In the mark's stores: take the goods and turn for home.
    Raid,
    /// Home again: the theft is over.
    Home,
}

/// One pass of a theft, judged in order: the thief's life, the
/// deadline, then the leg.
pub open spec fn spec_steal_step(leg: Leg, r: StealReport) -> StealOutcome {
    if !r.thief_alive {
        StealOutcome::ThiefDied
    } else if r.timed_out {
        StealOutcome::Fizzled
    } else {
        match leg {
            Leg::Going => if !r.target_alive {
                StealOutcome::MarkGone
            } else if !r.arrived {
                StealOutcome::OnTheRoad
            } else {
                StealOutcome::Raid
            },
            Leg::Returning => if !r.arrived {
                StealOutcome::OnTheRoad
            } else {
                StealOutcome::Home
            },
        }
    }
}

/// Decide one pass of a theft.
pub fn steal_step(leg: Leg, r: StealReport) -> (o: StealOutcome)
    ensures
        o == spec_steal_step(leg, r),
{
    if !r.thief_alive {
        StealOutcome::ThiefDied
    } else if r.timed_out {
        StealOutcome::Fizzled
    } else {
        match leg {
            Leg::Going => {
                if !r.target_alive {
                    StealOutcome::MarkGone
                } else if !r.arrived {
                    StealOutcome::OnTheRoad
                } else {
                    StealOutcome::Raid
                }
            },
            Leg::Returning => {
                if !r.arrived {
                    StealOutcome::OnTheRoad
                } else {
                    StealOutcome::Home
                }
            },
        }
    }
}

/// The lesson of a pass, if it teaches one: a dead thief teaches guile
/// down hardest, a thief caught in the stores less, a clean haul carried
/// home teaches guile up.
pub open spec fn spec_steal_lesson(o: StealOutcome, caught: bool, stolen: i64) -> Option<Lesson> {
    match o {
        StealOutcome::ThiefDied => Some(Lesson { trait_index: GUILE, up: false, tenths: 20 }),
        StealOutcome::Raid => if caught {
            Some(Lesson { trait_index: GUILE, up: false, tenths: 15 })
        } else {
            None
        },
        StealOutcome::Home => if !caught && stolen > 0 {
            Some(Lesson { trait_index: GUILE, up: true, tenths: 10 })
        } else {
            None
        },
        _ => None,
    }
}

/// The lesson of a pass; for a raid, `caught` and `stolen` are the
/// raid's own result.
pub fn steal_lesson(o: StealOutcome, caught: bool, stolen: i64) -> (l: Option<Lesson>)
    ensures
        l == spec_steal_lesson(o, caught, stolen),
{
    match o {
        StealOutcome::ThiefDied => Some(Lesson { trait_index: GUILE, up: false, tenths: 20 }),
        StealOutcome::Raid => {
            if caught {
                Some(Lesson { trait_index: GUILE, up: false, tenths: 15 })
            } else {
                None
            }
        },
        StealOutcome::Home => {
            if !caught && stolen > 0 {
                Some(Lesson { trait_index: GUILE, up: true, tenths: 10 })
            } else {
                None
            }
        },
        _ => None,
    }
}

/// After the raid the thief turns for home, caught or clean, with what
/// it took.
pub fn raided(m: StealMission, stolen: i64, caught: bool) -> (r: StealMission)
    ensures
        r == (StealMission { leg: Leg::Returning, stolen, caught, ..m }),
{
    StealMission { leg: Leg::Returning, stolen, caught, ..m }
}

/// The chronicle's line when a thief is caught.
pub open spec fn spec_caught_line(faction: Seq<char>, target: Seq<char>) -> Seq<char> {
    "a thief from "@ + faction + " was caught in "@ + target + "'s stores"@
}

/// Write the chronicle's line for a caught thief.
pub fn caught_line(faction: &str, target: &str) -> (s: String)
    ensures
        s@ == spec_caught_line(faction@, target@),
{
    let mut s = String::from_str("a thief from ");
    s.append(faction);
    s.append(" was caught in ");
    s.append(target);
    s.append("'s stores");
    s
}

/// The thefts in flight.
pub struct StealBook {
    pub missions: Vec<StealMission>,
}

/// An empty book.
pub fn new_steal_book() -> (b: StealBook)
    ensures
        b.missions@.len() == 0,
{
    StealBook { missions: Vec::new() }
}

/// A scan may launch a theft: fewer than the cap are in flight.
pub fn room_for_theft(b: &StealBook) -> (r: bool)
    ensures
        r == (b.missions@.len() < MAX_ACTIVE_THEFTS),
{
    b.missions.len() < MAX_ACTIVE_THEFTS
}

/// The factions with a thief out.
pub fn active_thieves(b: &StealBook) -> (r: Vec<i64>)
    ensures
        r@ == b.missions@.map_values(|m: StealMission| m.faction_id),
{
    let mut r: Vec<i64> = Vec::new();
    let mut i: usize = 0;
    while i < b.missions.len()
        invariant
            i <= b.missions.len(),
            r@ == b.missions@.take(i as int).map_values(|m: StealMission| m.faction_id),
        decreases b.missions.len() - i,
    {
        r.push(b.missions[i].faction_id);
        assert(b.missions@.take(i + 1).map_values(|m: StealMission| m.faction_id) =~= b.missions@.take(
            i as int,
        ).map_values(|m: StealMission| m.faction_id).push(b.missions@[i as int].faction_id));
        i = i + 1;
    }
    assert(b.missions@.take(b.missions.len() as int) =~= b.missions@);
    r
}

/// The theft a faction is running, if any.
pub fn active_theft(b: &StealBook, faction_id: i64) -> (r: Option<usize>)
    ensures
        r matches Some(i) ==> i < b.missions@.len() && b.missions@[i as int].faction_id == faction_id
            && forall|j: int| 0 <= j < i ==> (#[trigger] b.missions@[j]).faction_id != faction_id,
        r is None ==> forall|j: int| 0 <= j < b.missions@.len() ==> (#[trigger] b.missions@[j]).faction_id != faction_id,
{
    let mut i: usize = 0;
    while i < b.missions.len()
        invariant
            i <= b.missions.len(),
            forall|j: int| 0 <= j < i ==> (#[trigger] b.missions@[j]).faction_id != faction_id,
        decreases b.missions.len() - i,
    {
        if b.missions[i].faction_id == faction_id {
            return Some(i);
        }
        i = i + 1;
    }
    None
}

/// Put a launched theft in flight.
pub fn start_theft(b: &mut StealBook, m: StealMission)
    requires
        old(b).missions@.len() < MAX_ACTIVE_THEFTS,
    ensures
        final(b).missions@ == old(b).missions@.push(m),
{
    b.missions.push(m);
}

/// Take a finished theft out of the book.
pub fn end_theft(b: &mut StealBook, i: usize) -> (m: StealMission)
    requires
        i < old(b).missions@.len(),
    ensures
        m == old(b).missions@[i as int],
        final(b).missions@ == old(b).missions@.remove(i as int),
{
    b.missions.remove(i)
}

/// A theft ends on every pass but the walking ones and the raid; a
/// clean haul is the only outcome that teaches guile up, and only when
/// something was stolen and nobody saw.
pub proof fn law_only_clean_hauls_pay(leg: Leg, r: StealReport, caught: bool, stolen: i64)
    ensures
        spec_steal_lesson(spec_steal_step(leg, r), caught, stolen) matches Some(l) ==> (l.up <==> (
        spec_steal_step(leg, r) == StealOutcome::Home && !caught && stolen > 0)),
        !r.thief_alive ==> spec_steal_lesson(spec_steal_step(leg, r), caught, stolen) == Some(
            Lesson { trait_index: GUILE, up: false, tenths: 20 },
        ),
        spec_steal_step(leg, r) == StealOutcome::Raid ==> leg == Leg::Going,
        spec_steal_step(leg, r) == StealOutcome::Home ==> leg == Leg::Returning,
{
}

} // verus!
