//! Armed robbery: a peaceful but menacing camp whose franchise votes for
//! it picks a traveller crossing the map with a stack worth taking and
//! runs the game's own ambush against them; after a while the outcome is
//! judged and the voters learn aggression and guile from it.
//!
//! This module holds the vote count, the choice of robber camp, victim,
//! stack and lead, and the verdict; the ambush itself is the game's.

use vstd::prelude::*;

use crate::camp::{CommunityKind, is_settlement_kind};
use crate::courier::Handle;
use crate::errand::{Tally, count_at_least, is_first_best, spec_majority};

verus! {

/// A voter favours robbery when the mean of their aggression and guile
/// reaches 0.55 (the bit pattern of that 64-bit float).
pub const ROB_FLOOR_BITS: u64 = 0x3FE1_9999_9999_999A;

/// The camp must be able to spare an ambush party.
pub const ROB_MIN_MEMBERS: i64 = 5;

/// A stack must be at least this big to be worth the trip.
pub const ROB_MIN_AMOUNT: i64 = 2;

/// The size of the party the game's ambush staffs.
pub const AMBUSH_PARTY: i64 = 4;

/// A camp as the robbery scan sees it.
#[derive(Clone, Debug)]
pub struct RobCamp {
    pub handle: Handle,
    pub id: i64,
    pub kind: CommunityKind,
    pub ai_settlement: bool,
    pub living: i64,
    pub at_war: bool,
    pub threats: usize,
    /// One of its squads is already out on an ambush.
    pub ambushing: bool,
    /// Each voter's menace (the mean of aggression and guile), as bit
    /// patterns of non-negative values.
    pub menace_bits: Vec<u64>,
    /// The voters' mean menace, as the bit pattern of a non-negative
    /// value.
    pub mean_menace_bits: u64,
}

/// The camp's vote on robbery.
pub open spec fn rob_tally(c: RobCamp) -> Tally {
    Tally { votes: count_at_least(c.menace_bits@, ROB_FLOOR_BITS) as u64, franchise: c.menace_bits@.len() as u64 }
}

/// The camp may rob now: an AI settlement at peace, unthreatened, with
/// a party to spare and none already out, no robbery in flight, and a
/// majority of its franchise for it.
pub open spec fn spec_may_rob(c: RobCamp, active: Seq<i64>) -> bool {
    &&& is_settlement_kind(c.kind)
    &&& c.ai_settlement
    &&& c.living >= ROB_MIN_MEMBERS
    &&& !c.at_war
    &&& c.threats == 0
    &&& !active.contains(c.id)
    &&& !c.ambushing
    &&& spec_majority(rob_tally(c))
}

/// Whether the camp may rob now.
pub fn may_rob(c: &RobCamp, active: &Vec<i64>) -> (b: bool)
    ensures
        b == spec_may_rob(*c, active@),
{
    let settlement = matches!(c.kind, CommunityKind::Normal | CommunityKind::Looter);
    if !(settlement && c.ai_settlement && c.living >= ROB_MIN_MEMBERS && !c.at_war && c.threats == 0) {
        return false;
    }
    if crate::errand::holds_id(active, c.id) || c.ambushing {
        return false;
    }
    let t = crate::errand::tally(&c.menace_bits, ROB_FLOOR_BITS);
    assert(t == rob_tally(*c));
    crate::errand::majority(t)
}

/// The robber camp: the one with the most menacing franchise among
/// those that may rob, the first on ties.
pub fn pick_robber(camps: &Vec<RobCamp>, active: &Vec<i64>) -> (r: Option<usize>)
    ensures
        r matches Some(i) ==> is_first_best(
            Seq::new(camps@.len(), |k: int| spec_may_rob(camps@[k], active@)),
            Seq::new(camps@.len(), |k: int| camps@[k].mean_menace_bits),
            i as int,
        ),
        r is None <==> forall|k: int| 0 <= k < camps@.len() ==> !spec_may_rob(#[trigger] camps@[k], active@),
{
    let mut can: Vec<bool> = Vec::new();
    let mut scores: Vec<u64> = Vec::new();
    let mut i: usize = 0;
    while i < camps.len()
        invariant
            i <= camps.len(),
            can@.len() == i && scores@.len() == i,
            forall|j: int| 0 <= j < i ==> #[trigger] can@[j] == spec_may_rob(camps@[j], active@),
            forall|j: int| 0 <= j < i ==> #[trigger] scores@[j] == camps@[j].mean_menace_bits,
        decreases camps.len() - i,
    {
        can.push(may_rob(&camps[i], active));
        scores.push(camps[i].mean_menace_bits);
        i = i + 1;
    }
    assert(can@ =~= Seq::new(camps@.len(), |k: int| spec_may_rob(camps@[k], active@)));
    assert(scores@ =~= Seq::new(camps@.len(), |k: int| camps@[k].mean_menace_bits));
    let r = crate::errand::first_best(&can, &scores);
    proof {
        if r is None {
            assert forall|k: int| 0 <= k < camps@.len() implies !spec_may_rob(#[trigger] camps@[k], active@) by {
                assert(!can@[k]);
            }
        }
    }
    r
}

/// A stack in a traveller's inventory.
#[derive(Clone, Copy, PartialEq, Eq, Debug)]
pub struct Stack {
    pub amount: i64,
    /// The stack's prototype could be read (the ambush demands it).
    pub has_proto: bool,
}

/// A traveller in a roving party.
#[derive(Clone, Debug)]
pub struct Traveller {
    pub handle: Handle,
    pub alive: bool,
    pub stacks: Vec<Stack>,
}

/// A party on the map, as the robbery scan sees it.
#[derive(Clone, Debug)]
pub struct Party {
    /// A roving trader or refugee party.
    pub roving: bool,
    /// Allied to the robber camp.
    pub allied: bool,
    pub members: Vec<Traveller>,
}

/// A stack worth the trip.
pub open spec fn worthy(s: Stack) -> bool {
    s.amount >= ROB_MIN_AMOUNT && s.has_proto
}

/// `k` is the traveller's best stack: the largest worthy one, the first
/// on ties.
pub open spec fn is_best_stack(stacks: Seq<Stack>, k: int) -> bool {
    &&& 0 <= k < stacks.len()
    &&& worthy(stacks[k])
    &&& forall|j: int| 0 <= j < stacks.len() && worthy(#[trigger] stacks[j]) ==> stacks[j].amount <= stacks[k].amount
    &&& forall|j: int| 0 <= j < k && worthy(#[trigger] stacks[j]) ==> stacks[j].amount < stacks[k].amount
}

/// A living traveller carrying a worthy stack.
pub open spec fn rich(t: Traveller) -> bool {
    t.alive && exists|k: int| 0 <= k < t.stacks@.len() && worthy(#[trigger] t.stacks@[k])
}

/// A roving party, not allied to the robbers, with a rich traveller.
pub open spec fn rich_party(p: Party) -> bool {
    p.roving && !p.allied && exists|m: int| 0 <= m < p.members@.len() && rich(#[trigger] p.members@[m])
}

/// The traveller's best stack, if any.
pub fn best_stack(stacks: &Vec<Stack>) -> (r: Option<usize>)
    ensures
        r matches Some(k) ==> is_best_stack(stacks@, k as int),
        r is None <==> forall|j: int| 0 <= j < stacks@.len() ==> !worthy(#[trigger] stacks@[j]),
{
    let mut best: Option<usize> = None;
    let mut i: usize = 0;
    while i < stacks.len()
        invariant
            i <= stacks.len(),
            best is None <==> forall|j: int| 0 <= j < i ==> !worthy(#[trigger] stacks@[j]),
            best matches Some(b) ==> {
                &&& b < i
                &&& worthy(stacks@[b as int])
                &&& forall|j: int| 0 <= j < i && worthy(#[trigger] stacks@[j]) ==> stacks@[j].amount <= stacks@[b as int].amount
                &&& forall|j: int| 0 <= j < b && worthy(#[trigger] stacks@[j]) ==> stacks@[j].amount < stacks@[b as int].amount
            },
        decreases stacks.len() - i,
    {
        let s = stacks[i];
        if s.amount >= ROB_MIN_AMOUNT && s.has_proto {
            match best {
                None => {
                    best = Some(i);
                },
                Some(b) => {
                    if s.amount > stacks[b].amount {
                        best = Some(i);
                    }
                },
            }
        }
        i = i + 1;
    }
    best
}

/// The victim: the first rich party in map order, its first rich
/// traveller, and that traveller's best stack.
pub fn pick_victim(parties: &Vec<Party>) -> (r: Option<(usize, usize, usize)>)
    ensures
        r matches Some((p, m, k)) ==> {
            &&& p < parties@.len()
            &&& rich_party(parties@[p as int])
            &&& forall|q: int| 0 <= q < p ==> !rich_party(#[trigger] parties@[q])
            &&& m < parties@[p as int].members@.len()
            &&& rich(parties@[p as int].members@[m as int])
            &&& forall|n: int| 0 <= n < m ==> !rich(#[trigger] parties@[p as int].members@[n])
            &&& is_best_stack(parties@[p as int].members@[m as int].stacks@, k as int)
        },
        r is None <==> forall|q: int| 0 <= q < parties@.len() ==> !rich_party(#[trigger] parties@[q]),
{
    let mut p: usize = 0;
    while p < parties.len()
        invariant
            p <= parties.len(),
            forall|q: int| 0 <= q < p ==> !rich_party(#[trigger] parties@[q]),
        decreases parties.len() - p,
    {
        let party = &parties[p];
        if party.roving && !party.allied {
            let mut m: usize = 0;
            while m < party.members.len()
                invariant
                    m <= party.members.len(),
                    p < parties@.len(),
                    *party == parties@[p as int],
                    forall|q: int| 0 <= q < p ==> !rich_party(#[trigger] parties@[q]),
                    party.roving && !party.allied,
                    forall|n: int| 0 <= n < m ==> !rich(#[trigger] party.members@[n]),
                decreases party.members.len() - m,
            {
                let t = &party.members[m];
                if t.alive {
                    match best_stack(&t.stacks) {
                        Some(k) => {
                            assert(worthy(t.stacks@[k as int]));
                            assert(rich(party.members@[m as int]));
                            assert(rich_party(parties@[p as int]));
                            return Some((p, m, k));
                        },
                        None => {},
                    }
                }
                m = m + 1;
            }
            assert(!rich_party(parties@[p as int]));
        }
        p = p + 1;
    }
    None
}

/// A robbery awaiting its verdict.
#[derive(Clone, Debug)]
pub struct RobMission {
    pub robber_h: Handle,
    pub robber_id: i64,
    pub robber_name: String,
    pub victim_name: String,
    pub lead_h: Handle,
    pub lead_name: String,
    pub proto_h: Handle,
    /// The game clock (its bit pattern) at which the outcome is judged.
    pub eval_at_bits: u32,
    pub voter_ids: Vec<i64>,
}

/// How a robbery ended.
#[derive(Clone, Copy, PartialEq, Eq, Debug)]
pub enum RobOutcome {
    /// The lead died for it.
    LeadDied,
    /// The robbed stack's kind is in the camp's hands.
    LootHome,
    /// The party came home empty.
    CameHomeEmpty,
}

/// How a robbery is judged: the lead's death outweighs everything, then
/// the loot.
pub open spec fn spec_judge_robbery(lead_alive: bool, got_it: bool) -> RobOutcome {
    if !lead_alive {
        RobOutcome::LeadDied
    } else if got_it {
        RobOutcome::LootHome
    } else {
        RobOutcome::CameHomeEmpty
    }
}

/// Judge a robbery.
pub fn judge_robbery(lead_alive: bool, got_it: bool) -> (v: RobOutcome)
    ensures
        v == spec_judge_robbery(lead_alive, got_it),
{
    if !lead_alive {
        RobOutcome::LeadDied
    } else if got_it {
        RobOutcome::LootHome
    } else {
        RobOutcome::CameHomeEmpty
    }
}

/// What the voters learn, on aggression and guile alike: up for loot
/// in hand, down hard for a dead lead, down a little for nothing.
pub open spec fn spec_rob_lesson(v: RobOutcome) -> (bool, u32) {
    match v {
        RobOutcome::LeadDied => (false, 20),
        RobOutcome::LootHome => (true, 10),
        RobOutcome::CameHomeEmpty => (false, 5),
    }
}

/// The direction and weight (in tenths) of the verdict's lesson.
pub fn rob_lesson(v: RobOutcome) -> (r: (bool, u32))
    ensures
        r == spec_rob_lesson(v),
{
    match v {
        RobOutcome::LeadDied => (false, 20),
        RobOutcome::LootHome => (true, 10),
        RobOutcome::CameHomeEmpty => (false, 5),
    }
}

/// The outcome as the log words it.
pub open spec fn spec_robbery_words(v: RobOutcome) -> &'static str {
    match v {
        RobOutcome::LeadDied => "the lead DIED for it; the camp sobers",
        RobOutcome::LootHome => "the loot is in camp hands; menace paid",
        RobOutcome::CameHomeEmpty => "came home empty; a waste of menace",
    }
}

/// The outcome's words.
pub fn robbery_words(v: RobOutcome) -> (s: &'static str)
    ensures
        s@ == spec_robbery_words(v)@,
{
    match v {
        RobOutcome::LeadDied => "the lead DIED for it; the camp sobers",
        RobOutcome::LootHome => "the loot is in camp hands; menace paid",
        RobOutcome::CameHomeEmpty => "came home empty; a waste of menace",
    }
}

/// The robberies awaiting a verdict.
pub struct RobBook {
    pub missions: Vec<RobMission>,
}

/// An empty book.
pub fn new_rob_book() -> (b: RobBook)
    ensures
        b.missions@.len() == 0,
{
    RobBook { missions: Vec::new() }
}

/// The camps with a robbery in flight.
pub fn active_robbers(b: &RobBook) -> (r: Vec<i64>)
    ensures
        r@ == b.missions@.map_values(|m: RobMission| m.robber_id),
{
    let mut r: Vec<i64> = Vec::new();
    let mut i: usize = 0;
    while i < b.missions.len()
        invariant
            i <= b.missions.len(),
            r@ == b.missions@.take(i as int).map_values(|m: RobMission| m.robber_id),
        decreases b.missions.len() - i,
    {
        r.push(b.missions[i].robber_id);
        assert(b.missions@.take(i + 1).map_values(|m: RobMission| m.robber_id) =~= b.missions@.take(
            i as int,
        ).map_values(|m: RobMission| m.robber_id).push(b.missions@[i as int].robber_id));
        i = i + 1;
    }
    assert(b.missions@.take(b.missions.len() as int) =~= b.missions@);
    r
}

/// Record a launched robbery.
pub fn start_robbery(b: &mut RobBook, m: RobMission)
    ensures
        final(b).missions@ == old(b).missions@.push(m),
{
    b.missions.push(m);
}

/// Take a judged robbery out of the book.
pub fn end_robbery(b: &mut RobBook, i: usize) -> (m: RobMission)
    requires
        i < old(b).missions@.len(),
    ensures
        m == old(b).missions@[i as int],
        final(b).missions@ == old(b).missions@.remove(i as int),
{
    b.missions.remove(i)
}

/// Only loot in the camp's hands teaches menace up; a dead lead always
/// teaches it down hardest.
pub proof fn law_only_loot_pays(lead_alive: bool, got_it: bool)
    ensures
        spec_rob_lesson(spec_judge_robbery(lead_alive, got_it)).0 <==> (lead_alive && got_it),
        !lead_alive ==> spec_rob_lesson(spec_judge_robbery(lead_alive, got_it)) == (false, 20u32),
{
}

} // verus!
