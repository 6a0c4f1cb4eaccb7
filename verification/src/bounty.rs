//! Bounty: a camp at war posts a public bounty on its enemy's leader. If
//! the player's people make the kill while the offer stands, the hirer
//! loads real payment onto a courier who walks it to the player's gate.
//! War over, mark dead by other hands, hirer dead, or the window closing
//! all void the offer.
//!
//! The contract is a state machine: each pass the game reports what it
//! sees, and a step here decides the next state, which handles to
//! release, and which journal entry to close. One bounty stands
//! map-wide at a time.

use vstd::prelude::*;

use crate::courier::{
    classify_launch, courier_handles, launch_acquired, paying_outcome, spec_launch,
    spec_paying_outcome, turn_home, Courier, Handle, Launch, LaunchReport, Leg, PayingOutcome,
    PayingReport,
};
use crate::handles::{
    complete_quest, fail_quest, opt_set, quest_closed, release_none, released, spec_complete_quest,
    spec_fail_quest, QuestClose, Release,
};

verus! {

/// Non-food stacks the payment courier carries.
pub const BOUNTY_PAY_STACKS: i64 = 3;

/// The one bounty in flight. Each state owns the handles it names.
#[derive(Clone, Debug)]
pub enum Bounty {
    /// The offer stands on the enemy leader.
    Offered {
        hirer_h: Handle,
        hirer_name: String,
        mark_h: Handle,
        mark_id: i64,
        mark_name: String,
        enemy_name: String,
        /// Stacks the hirer could pay at offer time (what is advertised).
        pays: i64,
        /// The journal entry, when the quest data is loaded.
        quest_h: Option<Handle>,
        /// The clock bits at which the offer lapses.
        expires_bits: u32,
    },
    /// The kill is confirmed; the next pass launches the courier.
    Owed { hirer_h: Handle, hirer_name: String, mark_name: String, waiting_logged: bool },
    /// The courier is on the road with real goods.
    Paying(Courier),
}

/// The handles a bounty state owns.
pub open spec fn bounty_handles(b: Bounty) -> Set<Handle> {
    match b {
        Bounty::Offered { hirer_h, mark_h, quest_h, .. } => set![hirer_h, mark_h].union(
            opt_set(quest_h),
        ),
        Bounty::Owed { hirer_h, .. } => set![hirer_h],
        Bounty::Paying(c) => courier_handles(c),
    }
}

/// The handles an optional bounty owns.
pub open spec fn slot_handles(b: Option<Bounty>) -> Set<Handle> {
    match b {
        Some(x) => bounty_handles(x),
        None => Set::empty(),
    }
}

/// What the game reported about a standing offer.
#[derive(Clone, Copy, Debug)]
pub struct OfferReport {
    /// The clock has reached the offer's expiry.
    pub expired: bool,
    /// The hirer still has living members.
    pub hirer_standing: bool,
    /// The hirer still has an invasion target.
    pub at_war: bool,
    /// The mark is alive and not a zombie.
    pub mark_alive: bool,
}

/// What the game reported for the bounty's current state.
#[derive(Clone, Debug)]
pub enum BountyReport {
    Offer(OfferReport),
    Launch(LaunchReport),
    Pay(PayingReport),
}

/// The report fits the state it is about.
pub open spec fn report_fits(b: Bounty, r: BountyReport) -> bool {
    match (b, r) {
        (Bounty::Offered { .. }, BountyReport::Offer(_)) => true,
        (Bounty::Owed { hirer_h, .. }, BountyReport::Launch(l)) => match l {
            LaunchReport::Launched { courier } => courier.hirer_h == hirer_h && courier.leg
                == Leg::Going,
            _ => true,
        },
        (Bounty::Paying(_), BountyReport::Pay(_)) => true,
        _ => false,
    }
}

/// What happened on a step, for the chronicle and the log.
#[derive(Clone, Copy, PartialEq, Eq, Debug)]
pub enum BountyNote {
    /// The offer still stands.
    Standing,
    /// The window closed unclaimed.
    Lapsed,
    /// The hirer fell or its war ended; the offer is void.
    WarOver,
    /// The mark died by other hands; the offer lapses.
    MarkFellElsewhere,
    /// The player's people killed the mark; the hirer owes.
    Claimed,
    /// A death that was not the mark's.
    NotTheMark,
    /// No member is free to carry the payment; `first` marks the first wait.
    Waiting { first: bool },
    /// No player camp to pay.
    NoPlayerCamp,
    /// The hirer died owing.
    HirerDiedOwing,
    /// The hirer's stores were bare.
    CannotPay,
    /// The courier's squad would not form.
    LaunchFailed,
    /// The courier set out with the payment.
    CourierSent,
    /// The courier step's outcome.
    Courier(PayingOutcome),
}

/// One step of the bounty: the next state, what it lets go of, how the
/// journal entry resolves, and what happened. When the step ends a
/// courier's run, `disband_squad` names the squad to remove.
#[derive(Clone, Debug)]
pub struct BountyStep {
    pub next: Option<Bounty>,
    pub release: Release,
    pub quest: QuestClose,
    pub disband_squad: Option<i64>,
    pub note: BountyNote,
}

/// The handles a report brings in that the bounty did not hold before.
pub open spec fn report_acquired(r: BountyReport) -> Set<Handle> {
    match r {
        BountyReport::Launch(l) => launch_acquired(l),
        _ => Set::empty(),
    }
}

/// Every handle held before the step (or brought in by its report) is
/// either still held after it or released by it, and nothing else is.
pub open spec fn conserves(
    before: Set<Handle>,
    acquired: Set<Handle>,
    s: BountyStep,
) -> bool {
    before.union(acquired) == slot_handles(s.next).union(released(s.release)).union(
        quest_closed(s.quest),
    )
}

/// The verdict on a standing offer: the window first, then the hirer's
/// war, then the mark.
pub open spec fn offer_note(r: OfferReport) -> BountyNote {
    if r.expired {
        BountyNote::Lapsed
    } else if !r.hirer_standing || !r.at_war {
        BountyNote::WarOver
    } else if !r.mark_alive {
        BountyNote::MarkFellElsewhere
    } else {
        BountyNote::Standing
    }
}

/// The note a launch report earns.
pub open spec fn launch_note(l: LaunchReport, waiting_logged: bool) -> BountyNote {
    match l {
        LaunchReport::NoPlayerCamp => BountyNote::NoPlayerCamp,
        LaunchReport::HirerFell { .. } => BountyNote::HirerDiedOwing,
        LaunchReport::NoFreeMember { .. } => BountyNote::Waiting { first: !waiting_logged },
        LaunchReport::BareStores { .. } => BountyNote::CannotPay,
        LaunchReport::SquadFailed { .. } => BountyNote::LaunchFailed,
        LaunchReport::Launched { .. } => BountyNote::CourierSent,
    }
}

/// The state after a step, as a function of the state and the report.
pub open spec fn spec_next(b: Bounty, r: BountyReport) -> Option<Bounty> {
    match (b, r) {
        (Bounty::Offered { .. }, BountyReport::Offer(o)) => if offer_note(o)
            == BountyNote::Standing {
            Some(b)
        } else {
            None
        },
        (
            Bounty::Owed { hirer_h, hirer_name, mark_name, .. },
            BountyReport::Launch(l),
        ) => match spec_launch(l) {
            Launch::Launched(c) => Some(Bounty::Paying(c)),
            Launch::Waiting => Some(
                Bounty::Owed { hirer_h, hirer_name, mark_name, waiting_logged: true },
            ),
            Launch::Void => None,
        },
        (Bounty::Paying(c), BountyReport::Pay(p)) => {
            let o = spec_paying_outcome(c.leg, p);
            if o == PayingOutcome::OnTheRoad || o == PayingOutcome::Deliver {
                Some(b)
            } else {
                None
            }
        },
        _ => Some(b),
    }
}

/// The note of an advance step.
pub open spec fn spec_note(b: Bounty, r: BountyReport) -> BountyNote {
    match (b, r) {
        (Bounty::Offered { .. }, BountyReport::Offer(o)) => offer_note(o),
        (Bounty::Owed { waiting_logged, .. }, BountyReport::Launch(l)) => launch_note(
            l,
            waiting_logged,
        ),
        (Bounty::Paying(c), BountyReport::Pay(p)) => BountyNote::Courier(
            spec_paying_outcome(c.leg, p),
        ),
        _ => BountyNote::Standing,
    }
}

/// How an advance step resolves the journal entry: an offer that ends
/// on this pass fails it; nothing else touches it.
pub open spec fn spec_quest(b: Bounty, r: BountyReport) -> QuestClose {
    match (b, r) {
        (Bounty::Offered { quest_h, .. }, BountyReport::Offer(o)) => if offer_note(o)
            == BountyNote::Standing {
            QuestClose::Keep
        } else {
            spec_fail_quest(quest_h)
        },
        _ => QuestClose::Keep,
    }
}

/// The squad an advance step disbands: the courier's, when its run ends.
pub open spec fn spec_disband(b: Bounty, r: BountyReport) -> Option<i64> {
    match (b, r) {
        (Bounty::Paying(c), BountyReport::Pay(p)) => {
            let o = spec_paying_outcome(c.leg, p);
            if o == PayingOutcome::OnTheRoad || o == PayingOutcome::Deliver {
                None
            } else {
                Some(c.squad_id)
            }
        },
        _ => None,
    }
}

/// Advance the bounty by one pass of the game's report.
pub fn advance(b: Bounty, r: BountyReport) -> (s: BountyStep)
    requires
        report_fits(b, r),
    ensures
        s.next == spec_next(b, r),
        conserves(bounty_handles(b), report_acquired(r), s),
        // The advance pass never creates a debt: only the mark's death by
        // the player's hand does (see `on_death`).
        b is Offered ==> !(s.next matches Some(Bounty::Owed { .. })),
        s.note == spec_note(b, r),
        s.quest == spec_quest(b, r),
        s.disband_squad == spec_disband(b, r),
{
    match b {
        Bounty::Offered {
            hirer_h,
            hirer_name,
            mark_h,
            mark_id,
            mark_name,
            enemy_name,
            pays,
            quest_h,
            expires_bits,
        } => {
            let o = match r {
                BountyReport::Offer(o) => o,
                _ => { proof { assert(false); } OfferReport { expired: true, hirer_standing: false, at_war: false, mark_alive: false } },
            };
            let note = if o.expired {
                BountyNote::Lapsed
            } else if !o.hirer_standing || !o.at_war {
                BountyNote::WarOver
            } else if !o.mark_alive {
                BountyNote::MarkFellElsewhere
            } else {
                BountyNote::Standing
            };
            if matches!(note, BountyNote::Standing) {
                let next = Bounty::Offered {
                    hirer_h,
                    hirer_name,
                    mark_h,
                    mark_id,
                    mark_name,
                    enemy_name,
                    pays,
                    quest_h,
                    expires_bits,
                };
                let rel = release_none();
                let s = BountyStep { next: Some(next), release: rel, quest: QuestClose::Keep, disband_squad: None, note };
                assert(conserves(bounty_handles(b), report_acquired(r), s)) by {
                    assert(bounty_handles(b).union(report_acquired(r)) =~= slot_handles(s.next).union(released(s.release)).union(quest_closed(s.quest)));
                }
                s
            } else {
                let rel = Release { hirer: Some(hirer_h), mark: Some(mark_h), courier: None, player: None };
                let q = fail_quest(quest_h);
                let s = BountyStep { next: None, release: rel, quest: q, disband_squad: None, note };
                assert(conserves(bounty_handles(b), report_acquired(r), s)) by {
                    assert(bounty_handles(b).union(report_acquired(r)) =~= slot_handles(s.next).union(released(s.release)).union(quest_closed(s.quest)));
                }
                s
            }
        },
        Bounty::Owed { hirer_h, hirer_name, mark_name, waiting_logged } => {
            let l = match r {
                BountyReport::Launch(l) => l,
                _ => { proof { assert(false); } LaunchReport::NoPlayerCamp },
            };
            let s = match l {
                LaunchReport::NoPlayerCamp => BountyStep {
                    next: None,
                    release: Release { hirer: Some(hirer_h), mark: None, courier: None, player: None },
                    quest: QuestClose::Keep,
                    disband_squad: None,
                    note: BountyNote::NoPlayerCamp,
                },
                LaunchReport::HirerFell { player_h } => BountyStep {
                    next: None,
                    release: Release { hirer: Some(hirer_h), mark: None, courier: None, player: Some(player_h) },
                    quest: QuestClose::Keep,
                    disband_squad: None,
                    note: BountyNote::HirerDiedOwing,
                },
                LaunchReport::NoFreeMember { player_h } => BountyStep {
                    next: Some(Bounty::Owed { hirer_h, hirer_name, mark_name, waiting_logged: true }),
                    release: Release { hirer: None, mark: None, courier: None, player: Some(player_h) },
                    quest: QuestClose::Keep,
                    disband_squad: None,
                    note: BountyNote::Waiting { first: !waiting_logged },
                },
                LaunchReport::BareStores { player_h, courier_h } => BountyStep {
                    next: None,
                    release: Release { hirer: Some(hirer_h), mark: None, courier: Some(courier_h), player: Some(player_h) },
                    quest: QuestClose::Keep,
                    disband_squad: None,
                    note: BountyNote::CannotPay,
                },
                LaunchReport::SquadFailed { player_h, courier_h } => BountyStep {
                    next: None,
                    release: Release { hirer: Some(hirer_h), mark: None, courier: Some(courier_h), player: Some(player_h) },
                    quest: QuestClose::Keep,
                    disband_squad: None,
                    note: BountyNote::LaunchFailed,
                },
                LaunchReport::Launched { courier } => BountyStep {
                    next: Some(Bounty::Paying(courier)),
                    release: release_none(),
                    quest: QuestClose::Keep,
                    disband_squad: None,
                    note: BountyNote::CourierSent,
                },
            };
            assert(conserves(bounty_handles(b), report_acquired(r), s)) by {
                assert(bounty_handles(b).union(report_acquired(r)) =~= slot_handles(s.next).union(released(s.release)).union(quest_closed(s.quest)));
            }
            s
        },
        Bounty::Paying(c) => {
            let p = match r {
                BountyReport::Pay(p) => p,
                _ => { proof { assert(false); } PayingReport { courier_alive: false, timed_out: false, tile_known: false, arrived: false } },
            };
            let o = paying_outcome(c.leg, p);
            let s = match o {
                PayingOutcome::OnTheRoad | PayingOutcome::Deliver => {
                    BountyStep { next: Some(Bounty::Paying(c)), release: release_none(), quest: QuestClose::Keep, disband_squad: None, note: BountyNote::Courier(o) }
                },
                _ => {
                    let rel = Release { hirer: Some(c.hirer_h), mark: None, courier: Some(c.courier_h), player: Some(c.player_h) };
                    let squad = c.squad_id;
                    BountyStep { next: None, release: rel, quest: QuestClose::Keep, disband_squad: Some(squad), note: BountyNote::Courier(o) }
                },
            };
            assert(conserves(bounty_handles(b), report_acquired(r), s)) by {
                assert(bounty_handles(b).union(report_acquired(r)) =~= slot_handles(s.next).union(released(s.release)).union(quest_closed(s.quest)));
            }
            s
        },
    }
}

/// The death is the mark's while the offer stands.
pub open spec fn is_mark_death(slot: Option<Bounty>, dead_id: i64) -> bool {
    slot matches Some(Bounty::Offered { mark_id, .. }) && mark_id == dead_id
}

/// The bounty after a death.
pub open spec fn spec_death_next(slot: Option<Bounty>, dead_id: i64, by_player: bool) -> Option<
    Bounty,
> {
    match slot {
        Some(Bounty::Offered { hirer_h, hirer_name, mark_id, mark_name, .. }) => if mark_id
            != dead_id {
            slot
        } else if by_player {
            Some(Bounty::Owed { hirer_h, hirer_name, mark_name, waiting_logged: false })
        } else {
            None
        },
        _ => slot,
    }
}

/// What a death meant to the bounty.
pub open spec fn spec_death_note(slot: Option<Bounty>, dead_id: i64, by_player: bool) -> BountyNote {
    if !is_mark_death(slot, dead_id) {
        BountyNote::NotTheMark
    } else if by_player {
        BountyNote::Claimed
    } else {
        BountyNote::MarkFellElsewhere
    }
}

/// How a death resolves the journal entry: completed when the player
/// claimed the bounty, failed when the mark fell to other hands.
pub open spec fn spec_death_quest(slot: Option<Bounty>, dead_id: i64, by_player: bool) -> QuestClose {
    match slot {
        Some(Bounty::Offered { mark_id, quest_h, .. }) => if mark_id != dead_id {
            QuestClose::Keep
        } else if by_player {
            spec_complete_quest(quest_h)
        } else {
            spec_fail_quest(quest_h)
        },
        _ => QuestClose::Keep,
    }
}

/// A death in the world, seen by the bounty. Only the mark's death
/// while the offer stands changes anything: by the player's hand the
/// hirer owes, by any other the offer lapses.
pub fn on_death(slot: Option<Bounty>, dead_id: i64, by_player: bool) -> (s: BountyStep)
    ensures
        conserves(slot_handles(slot), Set::empty(), s),
        s.next == spec_death_next(slot, dead_id, by_player),
        s.note == spec_death_note(slot, dead_id, by_player),
        s.quest == spec_death_quest(slot, dead_id, by_player),
        s.disband_squad is None,
{
    match slot {
        Some(Bounty::Offered {
            hirer_h,
            hirer_name,
            mark_h,
            mark_id,
            mark_name,
            enemy_name,
            pays,
            quest_h,
            expires_bits,
        }) => {
            if mark_id != dead_id {
                let next = Bounty::Offered {
                    hirer_h,
                    hirer_name,
                    mark_h,
                    mark_id,
                    mark_name,
                    enemy_name,
                    pays,
                    quest_h,
                    expires_bits,
                };
                let s = BountyStep { next: Some(next), release: release_none(), quest: QuestClose::Keep, disband_squad: None, note: BountyNote::NotTheMark };
                assert(slot_handles(slot).union(Set::empty()) =~= slot_handles(s.next).union(released(s.release)).union(quest_closed(s.quest)));
                s
            } else if by_player {
                let q = complete_quest(quest_h);
                let s = BountyStep {
                    next: Some(Bounty::Owed { hirer_h, hirer_name, mark_name, waiting_logged: false }),
                    release: Release { hirer: None, mark: Some(mark_h), courier: None, player: None },
                    quest: q,
                    disband_squad: None,
                    note: BountyNote::Claimed,
                };
                assert(slot_handles(slot).union(Set::empty()) =~= slot_handles(s.next).union(released(s.release)).union(quest_closed(s.quest)));
                s
            } else {
                let q = fail_quest(quest_h);
                let s = BountyStep {
                    next: None,
                    release: Release { hirer: Some(hirer_h), mark: Some(mark_h), courier: None, player: None },
                    quest: q,
                    disband_squad: None,
                    note: BountyNote::MarkFellElsewhere,
                };
                assert(slot_handles(slot).union(Set::empty()) =~= slot_handles(s.next).union(released(s.release)).union(quest_closed(s.quest)));
                s
            }
        },
        other => {
            let s = BountyStep { next: other, release: release_none(), quest: QuestClose::Keep, disband_squad: None, note: BountyNote::NotTheMark };
            assert(slot_handles(slot).union(Set::empty()) =~= slot_handles(s.next).union(released(s.release)).union(quest_closed(s.quest)));
            s
        },
    }
}

/// After the courier handed the payment over at the player's gate, it turns for
/// home carrying the count it delivered.
pub fn delivered(b: Bounty, n: i64) -> (r: Bounty)
    requires
        b matches Bounty::Paying(c) && c.leg == Leg::Going,
    ensures
        r matches Bounty::Paying(c2) && c2.leg == Leg::Returning && c2.loaded == n,
        b matches Bounty::Paying(c) ==> r == Bounty::Paying(Courier { leg: Leg::Returning, loaded: n, ..c }),
        bounty_handles(r) == bounty_handles(b),
{
    match b {
        Bounty::Paying(c) => Bounty::Paying(turn_home(c, n)),
        other => other,
    }
}

/// A camp that could hire the bounty, as the offer scan sees it.
#[derive(Clone, Copy, Debug)]
pub struct HirerCandidate {
    /// Living non-zombie members.
    pub members: i64,
    /// The camp is an AI settlement (Normal or Looter) with an invasion
    /// target that is itself an AI settlement.
    pub at_war_with_ai: bool,
    /// The camp is not hostile to the player.
    pub friendly: bool,
    /// The camp holds at least one non-food stack to pay with.
    pub has_goods: bool,
}

/// A camp may hire: big enough, at war with another AI camp, friendly to
/// the player, able to pay.
pub open spec fn may_hire(c: HirerCandidate) -> bool {
    c.members >= 2 && c.at_war_with_ai && c.friendly && c.has_goods
}

/// `i` is the first of the smallest camps able to hire.
pub open spec fn is_first_smallest_hirer(cs: Seq<HirerCandidate>, i: int) -> bool {
    &&& 0 <= i < cs.len()
    &&& may_hire(cs[i])
    &&& forall|j: int| 0 <= j < cs.len() && may_hire(#[trigger] cs[j]) ==> cs[i].members <= cs[j].members
    &&& forall|j: int| 0 <= j < i && may_hire(#[trigger] cs[j]) ==> cs[i].members < cs[j].members
}

/// The hirer: the smallest camp able to hire (the side losing its war
/// hires the help), the first such when sizes tie.
pub fn pick_hirer(cs: &Vec<HirerCandidate>) -> (r: Option<usize>)
    ensures
        r is None <==> forall|j: int| 0 <= j < cs@.len() ==> !may_hire(#[trigger] cs@[j]),
        r matches Some(i) ==> is_first_smallest_hirer(cs@, i as int),
{
    let mut best: Option<usize> = None;
    let mut k: usize = 0;
    while k < cs.len()
        invariant
            k <= cs.len(),
            best is None <==> forall|j: int| 0 <= j < k ==> !may_hire(#[trigger] cs@[j]),
            best matches Some(i) ==> {
                &&& i < k
                &&& may_hire(cs@[i as int])
                &&& forall|j: int| 0 <= j < k && may_hire(#[trigger] cs@[j]) ==> cs@[i as int].members <= cs@[j].members
                &&& forall|j: int| 0 <= j < i && may_hire(#[trigger] cs@[j]) ==> cs@[i as int].members < cs@[j].members
            },
        decreases cs.len() - k,
    {
        let c = cs[k];
        if c.members >= 2 && c.at_war_with_ai && c.friendly && c.has_goods {
            match best {
                None => {
                    best = Some(k);
                },
                Some(i) => {
                    if c.members < cs[i].members {
                        best = Some(k);
                    }
                },
            }
        }
        k = k + 1;
    }
    best
}

/// The delivery happens once: a courier coming home never delivers.
pub proof fn law_delivery_once(p: PayingReport)
    ensures
        spec_paying_outcome(Leg::Returning, p) != PayingOutcome::Deliver,
        spec_paying_outcome(Leg::Going, p) != PayingOutcome::PaidHome,
{
}

} // verus!
