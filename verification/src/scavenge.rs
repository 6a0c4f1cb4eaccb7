//! Scavenging: an expansionist camp whose franchise votes for it sends a
//! party to loot the nearest abandoned building that still holds goods,
//! and the goods ride home in the carriers' own hands. The party's size
//! is never fixed: the most eager free yes-voters go, capped by what the
//! camp can spare and by how much loot is out there.
//!
//! This module holds the choice of camp, target and party, the haul each
//! carrier takes, each pass of the trip, and the lessons; walking,
//! taking and stowing are the game's.

use vstd::prelude::*;

use crate::camp::{CommunityKind, is_settlement_kind};
use crate::courier::{Handle, Leg};
use crate::errand::{Lesson, Step, is_first_best, is_first_nearest_eligible, is_top_k};
use crate::genome::EXPANSIONISM;
use crate::geo::{Tile, spec_dist_sq};

verus! {

/// The camp must be able to spare a party.
pub const SCAV_MIN_MEMBERS: i64 = 4;

/// One carrier hauls this many stacks.
pub const STACKS_PER_CARRIER: i64 = 3;

/// The whole party takes at most this much in one trip.
pub const MAX_HAUL_STACKS: i64 = 9;

/// The party is capped at the camp's members divided by this.
pub const DEFENSE_DIVISOR: i64 = 3;

/// Squared tile distance from the target's centre at which the party
/// has arrived.
pub const PROP_ARRIVE_SQ: i64 = 100;

/// A free yes-voter: a carrier the camp may send.
#[derive(Clone, Copy, PartialEq, Eq, Debug)]
pub struct Candidate {
    pub id: i64,
    /// Their expansionism, as the bit pattern of a non-negative value.
    pub score_bits: u64,
}

/// A camp as the scavenging scan sees it.
#[derive(Clone, Debug)]
pub struct ScavCamp {
    pub handle: Handle,
    pub id: i64,
    pub kind: CommunityKind,
    pub ai_settlement: bool,
    pub living: i64,
    pub at_war: bool,
    pub threats: usize,
    /// The franchise voted for scavenging.
    pub voted: bool,
    /// The franchise's mean expansionism, as the bit pattern of a
    /// non-negative value.
    pub mean_bits: u64,
    /// The yes-voters who are free, awake and not the leader, in camp
    /// order.
    pub candidates: Vec<Candidate>,
}

/// The camp may scavenge now.
pub open spec fn spec_may_scavenge(c: ScavCamp, active: Seq<i64>) -> bool {
    &&& is_settlement_kind(c.kind)
    &&& c.ai_settlement
    &&& c.living >= SCAV_MIN_MEMBERS
    &&& !c.at_war
    &&& c.threats == 0
    &&& !active.contains(c.id)
    &&& c.voted
    &&& c.candidates@.len() > 0
}

/// The scavenging camp: the most expansionist franchise among those that
/// may scavenge, the first on ties.
pub fn pick_scavenger(camps: &Vec<ScavCamp>, active: &Vec<i64>) -> (r: Option<usize>)
    ensures
        r matches Some(i) ==> is_first_best(
            Seq::new(camps@.len(), |k: int| spec_may_scavenge(camps@[k], active@)),
            Seq::new(camps@.len(), |k: int| camps@[k].mean_bits),
            i as int,
        ),
        r is None <==> forall|k: int| 0 <= k < camps@.len() ==> !spec_may_scavenge(#[trigger] camps@[k], active@),
{
    let mut can: Vec<bool> = Vec::new();
    let mut scores: Vec<u64> = Vec::new();
    let mut i: usize = 0;
    while i < camps.len()
        invariant
            i <= camps.len(),
            can@.len() == i && scores@.len() == i,
            forall|j: int| 0 <= j < i ==> #[trigger] can@[j] == spec_may_scavenge(camps@[j], active@),
            forall|j: int| 0 <= j < i ==> #[trigger] scores@[j] == camps@[j].mean_bits,
        decreases camps.len() - i,
    {
        let c = &camps[i];
        let settlement = matches!(c.kind, CommunityKind::Normal | CommunityKind::Looter);
        let yes = settlement && c.ai_settlement && c.living >= SCAV_MIN_MEMBERS && !c.at_war && c.threats
            == 0 && !crate::errand::holds_id(active, c.id) && c.voted && c.candidates.len() > 0;
        can.push(yes);
        scores.push(c.mean_bits);
        i = i + 1;
    }
    assert(can@ =~= Seq::new(camps@.len(), |k: int| spec_may_scavenge(camps@[k], active@)));
    assert(scores@ =~= Seq::new(camps@.len(), |k: int| camps@[k].mean_bits));
    let r = crate::errand::first_best(&can, &scores);
    proof {
        if r is None {
            assert forall|k: int| 0 <= k < camps@.len() implies !spec_may_scavenge(#[trigger] camps@[k], active@) by {
                assert(!can@[k]);
            }
        }
    }
    r
}

/// A building as the target search sees it.
#[derive(Clone, Copy, Debug)]
pub struct PropView {
    pub handle: Handle,
    /// Owned by a community with active members: taking from it would
    /// be theft.
    pub living_owner: bool,
    /// Stacks in its inventory (zero when it has none).
    pub items: i64,
    /// Its centre tile, where it could be read.
    pub tile: Option<Tile>,
}

/// A building worth scavenging.
pub open spec fn lootable(p: PropView) -> bool {
    !p.living_owner && p.items > 0 && p.tile is Some
}

/// Every lootable building's distance from home fits 64 bits.
pub open spec fn props_fit(props: Seq<PropView>, home: Tile) -> bool {
    forall|j: int| 0 <= j < props.len() && lootable(#[trigger] props[j]) ==> spec_dist_sq(props[j].tile->0, home) <= i64::MAX
}

/// The nearest lootable building to home, the first on ties.
pub fn pick_prop(props: &Vec<PropView>, home: Tile) -> (r: Option<usize>)
    requires
        props_fit(props@, home),
    ensures
        r matches Some(i) ==> is_first_nearest_eligible(
            Seq::new(props@.len(), |k: int| props@[k].tile.unwrap_or(home)),
            Seq::new(props@.len(), |k: int| lootable(props@[k])),
            home,
            i as int,
        ),
        r is None <==> forall|k: int| 0 <= k < props@.len() ==> !lootable(#[trigger] props@[k]),
{
    let mut ok: Vec<bool> = Vec::new();
    let mut tiles: Vec<Tile> = Vec::new();
    let mut i: usize = 0;
    while i < props.len()
        invariant
            i <= props.len(),
            ok@.len() == i && tiles@.len() == i,
            forall|j: int| 0 <= j < i ==> #[trigger] ok@[j] == lootable(props@[j]),
            forall|j: int| 0 <= j < i ==> #[trigger] tiles@[j] == props@[j].tile.unwrap_or(home),
        decreases props.len() - i,
    {
        let p = props[i];
        ok.push(!p.living_owner && p.items > 0 && p.tile.is_some());
        tiles.push(
            match p.tile {
                Some(t) => t,
                None => home,
            },
        );
        i = i + 1;
    }
    assert(ok@ =~= Seq::new(props@.len(), |k: int| lootable(props@[k])));
    assert(tiles@ =~= Seq::new(props@.len(), |k: int| props@[k].tile.unwrap_or(home)));
    let r = crate::errand::nearest_eligible(&tiles, &ok, home);
    proof {
        if r is None {
            assert forall|k: int| 0 <= k < props@.len() implies !lootable(#[trigger] props@[k]) by {
                assert(!ok@[k]);
            }
        }
    }
    r
}

/// The party's size: as many eager carriers as there are, but no more
/// than a third of the camp (at least one) and no more than the loot
/// needs (a carrier per three stacks of at most nine, at least one);
/// never fewer than one.
pub open spec fn spec_party_size(members: int, candidates: int, items: int) -> int {
    let capacity = if members / (DEFENSE_DIVISOR as int) >= 1 { members / (DEFENSE_DIVISOR as int) } else { 1 };
    let budget = if items <= MAX_HAUL_STACKS { items } else { MAX_HAUL_STACKS as int };
    let need = (budget + STACKS_PER_CARRIER - 1) / (STACKS_PER_CARRIER as int);
    let loot = if need >= 1 { need } else { 1 };
    let k1 = if candidates <= capacity { candidates } else { capacity };
    let k2 = if k1 <= loot { k1 } else { loot };
    if k2 >= 1 { k2 } else { 1 }
}

/// The party's size for a camp of `members` with `candidates` eager
/// carriers and a target holding `items` stacks.
pub fn party_size(members: i64, candidates: usize, items: i64) -> (k: usize)
    requires
        members >= 0,
        items >= 0,
    ensures
        k == spec_party_size(members as int, candidates as int, items as int),
{
    let capacity: i64 = if members / DEFENSE_DIVISOR >= 1 { members / DEFENSE_DIVISOR } else { 1 };
    let budget: i64 = if items <= MAX_HAUL_STACKS { items } else { MAX_HAUL_STACKS };
    let need: i64 = (budget + STACKS_PER_CARRIER - 1) / STACKS_PER_CARRIER;
    let loot: i64 = if need >= 1 { need } else { 1 };
    let k1: usize = if (candidates as u128) <= capacity as u128 { candidates } else { capacity as usize };
    let k2: usize = if (k1 as u128) <= loot as u128 { k1 } else { loot as usize };
    if k2 >= 1 { k2 } else { 1 }
}

/// The candidates' scores, in order.
pub open spec fn candidate_scores(cs: Seq<Candidate>) -> Seq<u64> {
    cs.map_values(|c: Candidate| c.score_bits)
}

/// The party: the `k` most eager candidates (the earlier on ties), most
/// eager first, by id.
pub fn party(candidates: &Vec<Candidate>, k: usize) -> (ids: Vec<i64>)
    requires
        k <= candidates@.len(),
    ensures
        exists|order: Seq<usize>|
            #[trigger] is_top_k(candidate_scores(candidates@), k as nat, order) && ids@ == order.map_values(
                |j: usize| candidates@[j as int].id,
            ),
{
    let mut scores: Vec<u64> = Vec::new();
    let mut i: usize = 0;
    while i < candidates.len()
        invariant
            i <= candidates.len(),
            scores@ == candidates@.take(i as int).map_values(|c: Candidate| c.score_bits),
        decreases candidates.len() - i,
    {
        scores.push(candidates[i].score_bits);
        assert(candidates@.take(i + 1).map_values(|c: Candidate| c.score_bits) =~= candidates@.take(
            i as int,
        ).map_values(|c: Candidate| c.score_bits).push(candidates@[i as int].score_bits));
        i = i + 1;
    }
    assert(candidates@.take(candidates.len() as int) =~= candidates@);
    let order = crate::errand::top_k(&scores, k);
    let mut ids: Vec<i64> = Vec::new();
    let mut j: usize = 0;
    while j < order.len()
        invariant
            j <= order.len(),
            order@.len() == k,
            scores@.len() == candidates@.len(),
            forall|q: int| 0 <= q < k ==> #[trigger] order@[q] < scores@.len(),
            ids@ == order@.take(j as int).map_values(|x: usize| candidates@[x as int].id),
        decreases order.len() - j,
    {
        ids.push(candidates[order[j]].id);
        assert(order@.take(j + 1).map_values(|x: usize| candidates@[x as int].id) =~= order@.take(
            j as int,
        ).map_values(|x: usize| candidates@[x as int].id).push(candidates@[order@[j as int] as int].id));
        j = j + 1;
    }
    assert(order@.take(order.len() as int) =~= order@);
    assert(scores@ == candidate_scores(candidates@));
    assert(is_top_k(candidate_scores(candidates@), k as nat, order@));
    ids
}

/// What each carrier takes from the building, in party order: up to
/// three stacks each, nine at most in all, and no more than the building
/// holds; a carrier without an inventory takes nothing.
pub open spec fn spec_haul(has_inventory: Seq<bool>, available: int, hauled: int) -> Seq<i64>
    decreases has_inventory.len(),
{
    if has_inventory.len() == 0 {
        Seq::empty()
    } else {
        let room = MAX_HAUL_STACKS - hauled;
        let left = available - hauled;
        let a = if STACKS_PER_CARRIER <= room { STACKS_PER_CARRIER as int } else { room };
        let b = if a <= left { a } else { left };
        let take = if has_inventory[0] && b > 0 { b } else { 0 };
        seq![take as i64] + spec_haul(has_inventory.drop_first(), available, hauled + take)
    }
}

/// Plan the haul.
pub fn haul_plan(has_inventory: &Vec<bool>, available: i64) -> (r: Vec<i64>)
    requires
        available >= 0,
    ensures
        r@ == spec_haul(has_inventory@, available as int, 0),
{
    let mut r: Vec<i64> = Vec::new();
    let mut hauled: i64 = 0;
    let mut i: usize = 0;
    assert(has_inventory@.skip(0) =~= has_inventory@);
    assert(r@ + spec_haul(has_inventory@, available as int, 0) =~= spec_haul(has_inventory@, available as int, 0));
    while i < has_inventory.len()
        invariant
            i <= has_inventory.len(),
            available >= 0,
            0 <= hauled <= MAX_HAUL_STACKS,
            r@ + spec_haul(has_inventory@.skip(i as int), available as int, hauled as int) == spec_haul(
                has_inventory@,
                available as int,
                0,
            ),
        decreases has_inventory.len() - i,
    {
        let room = MAX_HAUL_STACKS - hauled;
        let a: i64 = if STACKS_PER_CARRIER <= room { STACKS_PER_CARRIER } else { room };
        let b: i64 = if (a as i128) <= (available as i128) - (hauled as i128) { a } else { available - hauled };
        let take: i64 = if has_inventory[i] && b > 0 { b } else { 0 };
        proof {
            let rest = has_inventory@.skip(i as int);
            assert(rest.drop_first() =~= has_inventory@.skip(i + 1));
            assert(rest[0] == has_inventory@[i as int]);
            assert(spec_haul(rest, available as int, hauled as int) == seq![take] + spec_haul(
                has_inventory@.skip(i + 1),
                available as int,
                hauled + take,
            ));
            assert(r@.push(take) + spec_haul(has_inventory@.skip(i + 1), available as int, hauled + take) =~= r@
                + (seq![take] + spec_haul(has_inventory@.skip(i + 1), available as int, hauled + take)));
        }
        r.push(take);
        hauled = hauled + take;
        i = i + 1;
    }
    proof {
        assert(has_inventory@.skip(has_inventory.len() as int) =~= Seq::<bool>::empty());
        assert(r@ + Seq::<i64>::empty() =~= r@);
    }
    r
}

/// A scavenging party on the road.
#[derive(Clone, Debug)]
pub struct ScavMission {
    pub scav_h: Handle,
    pub scav_id: i64,
    pub scav_name: String,
    pub carriers: Vec<Handle>,
    pub prop_h: Handle,
    pub prop_tile: Tile,
    pub prop_name: String,
    pub home: Tile,
    pub squad_id: i64,
    pub leg: Leg,
    pub hauled: i64,
    pub voter_ids: Vec<i64>,
    pub deadline_bits: u32,
}

/// What one pass decides for a scavenging party.
#[derive(Clone, Copy, PartialEq, Eq, Debug)]
pub enum ScavOutcome {
    /// Every carrier is dead: the trip is over.
    PartyLost,
    /// Still walking.
    OnTheRoad,
    /// At the building: take the loot and turn for home.
    Loot,
    /// Home: the trip is over.
    Home,
}

/// One pass of a scavenging trip: the party's life first, then the leg.
/// Going, the party has arrived when its first living carrier stands
/// within arrival range of the building's centre; coming home, when the
/// game says it stands by the camp's buildings.
pub open spec fn spec_scav_step(leg: Leg, any_alive: bool, lead_tile: Tile, prop_tile: Tile, home_reached: bool) -> ScavOutcome {
    if !any_alive {
        ScavOutcome::PartyLost
    } else {
        match leg {
            Leg::Going => if spec_dist_sq(lead_tile, prop_tile) > PROP_ARRIVE_SQ {
                ScavOutcome::OnTheRoad
            } else {
                ScavOutcome::Loot
            },
            Leg::Returning => if !home_reached {
                ScavOutcome::OnTheRoad
            } else {
                ScavOutcome::Home
            },
        }
    }
}

/// Decide one pass of a scavenging trip.
pub fn scav_step(leg: Leg, any_alive: bool, lead_tile: Tile, prop_tile: Tile, home_reached: bool) -> (o: ScavOutcome)
    ensures
        o == spec_scav_step(leg, any_alive, lead_tile, prop_tile, home_reached),
{
    if !any_alive {
        return ScavOutcome::PartyLost;
    }
    match leg {
        Leg::Going => {
            if !crate::geo::within(lead_tile, prop_tile, PROP_ARRIVE_SQ) {
                ScavOutcome::OnTheRoad
            } else {
                ScavOutcome::Loot
            }
        },
        Leg::Returning => {
            if !home_reached {
                ScavOutcome::OnTheRoad
            } else {
                ScavOutcome::Home
            }
        },
    }
}

/// The step and the lesson of a pass: a lost party teaches expansionism
/// down hard, a haul home teaches it up, an empty trip down a little.
pub open spec fn spec_scav_result(o: ScavOutcome, hauled: i64) -> (Step, Option<Lesson>) {
    match o {
        ScavOutcome::PartyLost => (Step::Complete, Some(Lesson { trait_index: EXPANSIONISM, up: false, tenths: 20 })),
        ScavOutcome::OnTheRoad => (Step::Continue, None),
        ScavOutcome::Loot => (Step::Transition, None),
        ScavOutcome::Home => if hauled > 0 {
            (Step::Complete, Some(Lesson { trait_index: EXPANSIONISM, up: true, tenths: 10 }))
        } else {
            (Step::Complete, Some(Lesson { trait_index: EXPANSIONISM, up: false, tenths: 5 }))
        },
    }
}

/// The step and the lesson of a pass.
pub fn scav_result(o: ScavOutcome, hauled: i64) -> (r: (Step, Option<Lesson>))
    ensures
        r == spec_scav_result(o, hauled),
{
    match o {
        ScavOutcome::PartyLost => (Step::Complete, Some(Lesson { trait_index: EXPANSIONISM, up: false, tenths: 20 })),
        ScavOutcome::OnTheRoad => (Step::Continue, None),
        ScavOutcome::Loot => (Step::Transition, None),
        ScavOutcome::Home => {
            if hauled > 0 {
                (Step::Complete, Some(Lesson { trait_index: EXPANSIONISM, up: true, tenths: 10 }))
            } else {
                (Step::Complete, Some(Lesson { trait_index: EXPANSIONISM, up: false, tenths: 5 }))
            }
        },
    }
}

/// The chronicle's line for a haul brought home.
pub open spec fn spec_haul_line(camp: Seq<char>, prop: Seq<char>) -> Seq<char> {
    camp + "'s scavengers came home from "@ + prop + " with a haul"@
}

/// Write the chronicle's line for a haul brought home.
pub fn haul_line(camp: &str, prop: &str) -> (s: String)
    ensures
        s@ == spec_haul_line(camp@, prop@),
{
    let mut s = String::from_str(camp);
    s.append("'s scavengers came home from ");
    s.append(prop);
    s.append(" with a haul");
    s
}

/// The parties on the road.
pub struct ScavBook {
    pub missions: Vec<ScavMission>,
}

/// An empty book.
pub fn new_scav_book() -> (b: ScavBook)
    ensures
        b.missions@.len() == 0,
{
    ScavBook { missions: Vec::new() }
}

/// The camps with a party out.
pub fn active_scavengers(b: &ScavBook) -> (r: Vec<i64>)
    ensures
        r@ == b.missions@.map_values(|m: ScavMission| m.scav_id),
{
    let mut r: Vec<i64> = Vec::new();
    let mut i: usize = 0;
    while i < b.missions.len()
        invariant
            i <= b.missions.len(),
            r@ == b.missions@.take(i as int).map_values(|m: ScavMission| m.scav_id),
        decreases b.missions.len() - i,
    {
        r.push(b.missions[i].scav_id);
        assert(b.missions@.take(i + 1).map_values(|m: ScavMission| m.scav_id) =~= b.missions@.take(
            i as int,
        ).map_values(|m: ScavMission| m.scav_id).push(b.missions@[i as int].scav_id));
        i = i + 1;
    }
    assert(b.missions@.take(b.missions.len() as int) =~= b.missions@);
    r
}

/// Record a launched party.
pub fn start_scavenge(b: &mut ScavBook, m: ScavMission)
    ensures
        final(b).missions@ == old(b).missions@.push(m),
{
    b.missions.push(m);
}

/// Take a finished party out of the book.
pub fn end_scavenge(b: &mut ScavBook, i: usize) -> (m: ScavMission)
    requires
        i < old(b).missions@.len(),
    ensures
        m == old(b).missions@[i as int],
        final(b).missions@ == old(b).missions@.remove(i as int),
{
    b.missions.remove(i)
}

/// The party always has at least one carrier and never more than a
/// third of the camp (when the camp has three or more), the eager
/// carriers, or three for each nine-capped stacks of loot.
pub proof fn law_party_is_bounded(members: int, candidates: int, items: int)
    requires
        members >= 3,
        candidates >= 1,
        items >= 1,
    ensures
        spec_party_size(members, candidates, items) >= 1,
        spec_party_size(members, candidates, items) <= members / (DEFENSE_DIVISOR as int),
        spec_party_size(members, candidates, items) <= candidates,
        spec_party_size(members, candidates, items) * STACKS_PER_CARRIER < (if items <= MAX_HAUL_STACKS {
            items
        } else {
            MAX_HAUL_STACKS as int
        }) + STACKS_PER_CARRIER,
{
}

/// The party never carries off more than nine stacks, nor more than the
/// building held, and no carrier more than three.
pub proof fn law_haul_is_bounded(has_inventory: Seq<bool>, available: int, hauled: int)
    requires
        0 <= hauled <= MAX_HAUL_STACKS,
        hauled <= available,
    ensures
        spec_haul(has_inventory, available, hauled).len() == has_inventory.len(),
        forall|i: int| 0 <= i < has_inventory.len() ==> 0 <= #[trigger] spec_haul(has_inventory, available, hauled)[i] <= STACKS_PER_CARRIER,
        hauled + crate::trade::total(spec_haul(has_inventory, available, hauled)) <= MAX_HAUL_STACKS,
        hauled + crate::trade::total(spec_haul(has_inventory, available, hauled)) <= available,
    decreases has_inventory.len(),
{
    if has_inventory.len() > 0 {
        let room = MAX_HAUL_STACKS - hauled;
        let left = available - hauled;
        let a = if STACKS_PER_CARRIER <= room { STACKS_PER_CARRIER as int } else { room };
        let b = if a <= left { a } else { left };
        let take = if has_inventory[0] && b > 0 { b } else { 0 };
        law_haul_is_bounded(has_inventory.drop_first(), available, hauled + take);
        let h = spec_haul(has_inventory, available, hauled);
        let rest = spec_haul(has_inventory.drop_first(), available, hauled + take);
        assert(h == seq![take as i64] + rest);
        assert forall|i: int| 0 <= i < has_inventory.len() implies 0 <= #[trigger] h[i] <= STACKS_PER_CARRIER by {
            if i > 0 {
                assert(h[i] == rest[i - 1]);
            }
        }
        assert(h.drop_first() =~= rest);
        crate::trade::lemma_total_first(h);
    }
}

} // verus!
