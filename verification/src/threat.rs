//! Clear the threat: a camp with raiders at its door pays the player to
//! wipe them out. The game's own Threat record defines the trouble and
//! the game dropping it defines "over". Payment is owed only if the
//! player's people killed at least one threat member while the offer
//! stood; the camp's own guards handling it, or the raiders leaving,
//! pays nothing.

use vstd::prelude::*;

use crate::courier::{
    courier_handles, launch_acquired, paying_outcome, spec_launch, spec_paying_outcome,
    turn_home, Courier, Handle, Launch, LaunchReport, Leg, PayingOutcome, PayingReport,
};
use crate::handles::{
    complete_quest, fail_quest, opt_set, quest_closed, release_none, released, spec_complete_quest,
    spec_fail_quest, QuestClose, Release,
};

verus! {

/// A threat member held by an offer: its handle and character id.
#[derive(Clone, Copy, PartialEq, Eq, Debug)]
pub struct Raider {
    pub handle: Handle,
    pub id: i64,
}

/// The handles of a list of raiders.
pub open spec fn raider_handles(rs: Seq<Raider>) -> Set<Handle> {
    Set::new(|h: Handle| exists|i: int| 0 <= i < rs.len() && #[trigger] rs[i].handle == h)
}

/// The one clear-threat job in flight map-wide.
#[derive(Clone, Debug)]
pub enum ClearThreat {
    Offered {
        camp_h: Handle,
        camp_name: String,
        /// The game's own Threat record id.
        threat_id: i64,
        /// The threat members at offer time.
        members: Vec<Raider>,
        /// Threat members the player's people killed while the offer stood.
        player_kills: i64,
        pays: i64,
        quest_h: Option<Handle>,
        expires_bits: u32,
    },
    Owed { camp_h: Handle, camp_name: String, waiting_logged: bool },
    Paying(Courier),
}

/// The handles a state owns.
pub open spec fn threat_handles(t: ClearThreat) -> Set<Handle> {
    match t {
        ClearThreat::Offered { camp_h, members, quest_h, .. } => set![camp_h].union(
            raider_handles(members@),
        ).union(opt_set(quest_h)),
        ClearThreat::Owed { camp_h, .. } => set![camp_h],
        ClearThreat::Paying(c) => courier_handles(c),
    }
}

/// The handles an optional job owns.
pub open spec fn slot_handles(t: Option<ClearThreat>) -> Set<Handle> {
    match t {
        Some(x) => threat_handles(x),
        None => Set::empty(),
    }
}

/// What the game reported about a standing offer.
#[derive(Clone, Copy, Debug)]
pub struct OfferReport {
    /// The clock has reached the offer's expiry.
    pub expired: bool,
    /// The camp still has living members.
    pub camp_standing: bool,
    /// The game dropped the Threat record: the threat is over.
    pub threat_gone: bool,
}

/// What the game reported for the job's current state.
#[derive(Clone, Debug)]
pub enum ThreatReport {
    Offer(OfferReport),
    Launch(LaunchReport),
    Pay(PayingReport),
}

/// The report fits the state it is about.
pub open spec fn report_fits(t: ClearThreat, r: ThreatReport) -> bool {
    match (t, r) {
        (ClearThreat::Offered { .. }, ThreatReport::Offer(_)) => true,
        (ClearThreat::Owed { camp_h, .. }, ThreatReport::Launch(l)) => match l {
            LaunchReport::Launched { courier } => courier.hirer_h == camp_h && courier.leg
                == Leg::Going,
            _ => true,
        },
        (ClearThreat::Paying(_), ThreatReport::Pay(_)) => true,
        _ => false,
    }
}

/// What happened on a step.
#[derive(Clone, Copy, PartialEq, Eq, Debug)]
pub enum ThreatNote {
    Standing,
    /// The offer lapsed unclaimed.
    Lapsed,
    /// The camp fell; the offer dies with it.
    CampFell,
    /// The threat is over with the player's hand in it: the camp owes.
    Earned,
    /// The threat ended without the player's hand: no debt.
    EndedWithoutPlayer,
    /// No free member to carry the payment; `first` marks the first wait.
    Waiting { first: bool },
    /// The debt is void (no player camp, hirer dead, bare stores, or no squad).
    DebtVoid,
    CourierSent,
    Courier(PayingOutcome),
}

/// One step of the job.
#[derive(Clone, Debug)]
pub struct ThreatStep {
    pub next: Option<ClearThreat>,
    pub release: Release,
    /// Raiders whose handles the step lets go of.
    pub release_raiders: Vec<Raider>,
    pub quest: QuestClose,
    pub disband_squad: Option<i64>,
    pub note: ThreatNote,
}

/// The handles a report brings in.
pub open spec fn report_acquired(r: ThreatReport) -> Set<Handle> {
    match r {
        ThreatReport::Launch(l) => launch_acquired(l),
        _ => Set::empty(),
    }
}

/// Nothing held is lost and nothing is invented.
pub open spec fn conserves(before: Set<Handle>, acquired: Set<Handle>, s: ThreatStep) -> bool {
    before.union(acquired) == slot_handles(s.next).union(released(s.release)).union(
        raider_handles(s.release_raiders@),
    ).union(quest_closed(s.quest))
}

/// The verdict on a standing offer: the window, then the camp, then the
/// game's own verdict on the threat (paid only with a player kill).
pub open spec fn offer_note(r: OfferReport, player_kills: i64) -> ThreatNote {
    if r.expired {
        ThreatNote::Lapsed
    } else if !r.camp_standing {
        ThreatNote::CampFell
    } else if r.threat_gone {
        if player_kills > 0 {
            ThreatNote::Earned
        } else {
            ThreatNote::EndedWithoutPlayer
        }
    } else {
        ThreatNote::Standing
    }
}

/// The note of an advance step.
pub open spec fn spec_note(t: ClearThreat, r: ThreatReport) -> ThreatNote {
    match (t, r) {
        (ClearThreat::Offered { player_kills, .. }, ThreatReport::Offer(o)) => offer_note(
            o,
            player_kills,
        ),
        (ClearThreat::Owed { waiting_logged, .. }, ThreatReport::Launch(l)) => match spec_launch(
            l,
        ) {
            Launch::Launched(_) => ThreatNote::CourierSent,
            Launch::Waiting => ThreatNote::Waiting { first: !waiting_logged },
            Launch::Void => ThreatNote::DebtVoid,
        },
        (ClearThreat::Paying(c), ThreatReport::Pay(p)) => ThreatNote::Courier(
            spec_paying_outcome(c.leg, p),
        ),
        _ => ThreatNote::Standing,
    }
}

/// The job after a step.
pub open spec fn spec_next(t: ClearThreat, r: ThreatReport) -> Option<ClearThreat> {
    match (t, r) {
        (ClearThreat::Offered { camp_h, camp_name, player_kills, .. }, ThreatReport::Offer(o)) => {
            let n = offer_note(o, player_kills);
            if n == ThreatNote::Standing {
                Some(t)
            } else if n == ThreatNote::Earned {
                Some(ClearThreat::Owed { camp_h, camp_name, waiting_logged: false })
            } else {
                None
            }
        },
        (ClearThreat::Owed { camp_h, camp_name, .. }, ThreatReport::Launch(l)) => match spec_launch(
            l,
        ) {
            Launch::Launched(c) => Some(ClearThreat::Paying(c)),
            Launch::Waiting => Some(ClearThreat::Owed { camp_h, camp_name, waiting_logged: true }),
            Launch::Void => None,
        },
        (ClearThreat::Paying(c), ThreatReport::Pay(p)) => {
            let o = spec_paying_outcome(c.leg, p);
            if o == PayingOutcome::OnTheRoad || o == PayingOutcome::Deliver {
                Some(t)
            } else {
                None
            }
        },
        _ => Some(t),
    }
}

fn launch_release(hirer_h: Handle, l: &LaunchReport) -> (rel: Release)
    ensures
        spec_launch(*l) is Void ==> released(rel) == set![hirer_h].union(launch_acquired(*l)),
        spec_launch(*l) is Waiting ==> released(rel) == launch_acquired(*l),
        spec_launch(*l) is Launched ==> released(rel) == Set::<Handle>::empty(),
{
    let rel = match l {
        LaunchReport::NoPlayerCamp => Release { hirer: Some(hirer_h), mark: None, courier: None, player: None },
        LaunchReport::HirerFell { player_h } => Release { hirer: Some(hirer_h), mark: None, courier: None, player: Some(*player_h) },
        LaunchReport::NoFreeMember { player_h } => Release { hirer: None, mark: None, courier: None, player: Some(*player_h) },
        LaunchReport::BareStores { player_h, courier_h } => Release { hirer: Some(hirer_h), mark: None, courier: Some(*courier_h), player: Some(*player_h) },
        LaunchReport::SquadFailed { player_h, courier_h } => Release { hirer: Some(hirer_h), mark: None, courier: Some(*courier_h), player: Some(*player_h) },
        LaunchReport::Launched { .. } => Release { hirer: None, mark: None, courier: None, player: None },
    };
    assert(spec_launch(*l) is Void ==> released(rel) =~= set![hirer_h].union(launch_acquired(*l)));
    assert(spec_launch(*l) is Waiting ==> released(rel) =~= launch_acquired(*l));
    assert(spec_launch(*l) is Launched ==> released(rel) =~= Set::<Handle>::empty());
    rel
}

/// How an advance step resolves the journal entry: completed when the
/// job is earned, failed when the offer ends otherwise.
pub open spec fn spec_quest(t: ClearThreat, r: ThreatReport) -> QuestClose {
    match (t, r) {
        (ClearThreat::Offered { player_kills, quest_h, .. }, ThreatReport::Offer(o)) => {
            let n = offer_note(o, player_kills);
            if n == ThreatNote::Standing {
                QuestClose::Keep
            } else if n == ThreatNote::Earned {
                spec_complete_quest(quest_h)
            } else {
                spec_fail_quest(quest_h)
            }
        },
        _ => QuestClose::Keep,
    }
}

/// The raiders an advance step lets go of: all of them when the offer
/// ends, none otherwise.
pub open spec fn spec_released_raiders(t: ClearThreat, r: ThreatReport) -> Seq<Raider> {
    match (t, r) {
        (ClearThreat::Offered { player_kills, members, .. }, ThreatReport::Offer(o)) => if offer_note(
            o,
            player_kills,
        ) == ThreatNote::Standing {
            Seq::empty()
        } else {
            members@
        },
        _ => Seq::empty(),
    }
}

/// The squad an advance step disbands: the courier's, when its run ends.
pub open spec fn spec_disband(t: ClearThreat, r: ThreatReport) -> Option<i64> {
    match (t, r) {
        (ClearThreat::Paying(c), ThreatReport::Pay(p)) => {
            let o = spec_paying_outcome(c.leg, p);
            if o == PayingOutcome::OnTheRoad || o == PayingOutcome::Deliver {
                None
            } else {
                Some(c.squad_id)
            }
        },
        _ => None,
    }
}

/// Advance the job by one pass of the game's report.
pub fn advance(t: ClearThreat, r: ThreatReport) -> (s: ThreatStep)
    requires
        report_fits(t, r),
    ensures
        s.next == spec_next(t, r),
        s.note == spec_note(t, r),
        conserves(threat_handles(t), report_acquired(r), s),
        s.quest == spec_quest(t, r),
        s.release_raiders@ == spec_released_raiders(t, r),
        s.disband_squad == spec_disband(t, r),
{
    match t {
        ClearThreat::Offered {
            camp_h,
            camp_name,
            threat_id,
            members,
            player_kills,
            pays,
            quest_h,
            expires_bits,
        } => {
            let o = match r {
                ThreatReport::Offer(o) => o,
                _ => { proof { assert(false); } OfferReport { expired: true, camp_standing: false, threat_gone: false } },
            };
            let ghost old_members = members@;
            if o.expired || !o.camp_standing || (o.threat_gone && player_kills <= 0) {
                let note = if o.expired {
                    ThreatNote::Lapsed
                } else if !o.camp_standing {
                    ThreatNote::CampFell
                } else {
                    ThreatNote::EndedWithoutPlayer
                };
                let s = ThreatStep {
                    next: None,
                    release: Release { hirer: Some(camp_h), mark: None, courier: None, player: None },
                    release_raiders: members,
                    quest: fail_quest(quest_h),
                    disband_squad: None,
                    note,
                };
                assert(threat_handles(t).union(report_acquired(r)) =~= slot_handles(s.next).union(released(s.release)).union(raider_handles(s.release_raiders@)).union(quest_closed(s.quest)));
                s
            } else if o.threat_gone {
                let s = ThreatStep {
                    next: Some(ClearThreat::Owed { camp_h, camp_name, waiting_logged: false }),
                    release: release_none(),
                    release_raiders: members,
                    quest: complete_quest(quest_h),
                    disband_squad: None,
                    note: ThreatNote::Earned,
                };
                assert(threat_handles(t).union(report_acquired(r)) =~= slot_handles(s.next).union(released(s.release)).union(raider_handles(s.release_raiders@)).union(quest_closed(s.quest)));
                s
            } else {
                let s = ThreatStep {
                    next: Some(ClearThreat::Offered { camp_h, camp_name, threat_id, members, player_kills, pays, quest_h, expires_bits }),
                    release: release_none(),
                    release_raiders: Vec::new(),
                    quest: QuestClose::Keep,
                    disband_squad: None,
                    note: ThreatNote::Standing,
                };
                assert(raider_handles(s.release_raiders@) =~= Set::<Handle>::empty());
                assert(threat_handles(t).union(report_acquired(r)) =~= slot_handles(s.next).union(released(s.release)).union(raider_handles(s.release_raiders@)).union(quest_closed(s.quest)));
                s
            }
        },
        ClearThreat::Owed { camp_h, camp_name, waiting_logged } => {
            let l = match r {
                ThreatReport::Launch(l) => l,
                _ => { proof { assert(false); } LaunchReport::NoPlayerCamp },
            };
            let rel = launch_release(camp_h, &l);
            let empty: Vec<Raider> = Vec::new();
            assert(raider_handles(empty@) =~= Set::<Handle>::empty());
            let s = match l {
                LaunchReport::Launched { courier } => ThreatStep {
                    next: Some(ClearThreat::Paying(courier)),
                    release: rel,
                    release_raiders: empty,
                    quest: QuestClose::Keep,
                    disband_squad: None,
                    note: ThreatNote::CourierSent,
                },
                LaunchReport::NoFreeMember { .. } => ThreatStep {
                    next: Some(ClearThreat::Owed { camp_h, camp_name, waiting_logged: true }),
                    release: rel,
                    release_raiders: empty,
                    quest: QuestClose::Keep,
                    disband_squad: None,
                    note: ThreatNote::Waiting { first: !waiting_logged },
                },
                _ => ThreatStep {
                    next: None,
                    release: rel,
                    release_raiders: empty,
                    quest: QuestClose::Keep,
                    disband_squad: None,
                    note: ThreatNote::DebtVoid,
                },
            };
            assert(threat_handles(t).union(report_acquired(r)) =~= slot_handles(s.next).union(released(s.release)).union(raider_handles(s.release_raiders@)).union(quest_closed(s.quest)));
            s
        },
        ClearThreat::Paying(c) => {
            let p = match r {
                ThreatReport::Pay(p) => p,
                _ => { proof { assert(false); } PayingReport { courier_alive: false, timed_out: false, tile_known: false, arrived: false } },
            };
            let o = paying_outcome(c.leg, p);
            let empty: Vec<Raider> = Vec::new();
            assert(raider_handles(empty@) =~= Set::<Handle>::empty());
            let s = match o {
                PayingOutcome::OnTheRoad | PayingOutcome::Deliver => ThreatStep {
                    next: Some(ClearThreat::Paying(c)),
                    release: release_none(),
                    release_raiders: empty,
                    quest: QuestClose::Keep,
                    disband_squad: None,
                    note: ThreatNote::Courier(o),
                },
                _ => {
                    let rel = Release { hirer: Some(c.hirer_h), mark: None, courier: Some(c.courier_h), player: Some(c.player_h) };
                    let squad = c.squad_id;
                    ThreatStep { next: None, release: rel, release_raiders: empty, quest: QuestClose::Keep, disband_squad: Some(squad), note: ThreatNote::Courier(o) }
                },
            };
            assert(threat_handles(t).union(report_acquired(r)) =~= slot_handles(s.next).union(released(s.release)).union(raider_handles(s.release_raiders@)).union(quest_closed(s.quest)));
            s
        },
    }
}

/// The dead character was one of the offer's raiders.
pub open spec fn is_raider(members: Seq<Raider>, dead_id: i64) -> bool {
    exists|i: int| 0 <= i < members.len() && #[trigger] members[i].id == dead_id
}

/// The kill count after a death: one more when the dead was a raider of
/// the standing offer and the killer one of the player's people.
pub open spec fn spec_kills_after(members: Seq<Raider>, kills: i64, dead_id: i64, by_player: bool) -> int {
    if by_player && is_raider(members, dead_id) {
        kills + 1
    } else {
        kills as int
    }
}

/// A death in the world, seen by the job: a raider felled by the
/// player's people while the offer stands counts toward the payment.
/// Resolution stays in the advance pass, never here.
pub fn on_death(slot: Option<ClearThreat>, dead_id: i64, by_player: bool) -> (r: Option<
    ClearThreat,
>)
    requires
        slot matches Some(ClearThreat::Offered { player_kills, .. }) ==> player_kills < i64::MAX,
    ensures
        slot_handles(r) == slot_handles(slot),
        !(slot is Some && slot.unwrap() is Offered) ==> r == slot,
        slot matches Some(
            ClearThreat::Offered {
                camp_h,
                camp_name,
                threat_id,
                members,
                player_kills,
                pays,
                quest_h,
                expires_bits,
            },
        ) ==> r == Some(
            ClearThreat::Offered {
                camp_h,
                camp_name,
                threat_id,
                members,
                player_kills: spec_kills_after(members@, player_kills, dead_id, by_player) as i64,
                pays,
                quest_h,
                expires_bits,
            },
        ),
{
    match slot {
        Some(
            ClearThreat::Offered {
                camp_h,
                camp_name,
                threat_id,
                members,
                player_kills,
                pays,
                quest_h,
                expires_bits,
            },
        ) => {
            let mut found = false;
            let mut i: usize = 0;
            while i < members.len()
                invariant
                    i <= members.len(),
                    found <==> exists|j: int| 0 <= j < i && #[trigger] members@[j].id == dead_id,
                decreases members.len() - i,
            {
                if members[i].id == dead_id {
                    found = true;
                }
                i = i + 1;
            }
            let kills = if by_player && found { player_kills + 1 } else { player_kills };
            Some(ClearThreat::Offered { camp_h, camp_name, threat_id, members, player_kills: kills, pays, quest_h, expires_bits })
        },
        other => other,
    }
}

/// After the courier handed the payment over: it turns for home.
pub fn delivered(t: ClearThreat, n: i64) -> (r: ClearThreat)
    requires
        t matches ClearThreat::Paying(c) && c.leg == Leg::Going,
    ensures
        r matches ClearThreat::Paying(c2) && c2.leg == Leg::Returning && c2.loaded == n,
        t matches ClearThreat::Paying(c) ==> r == ClearThreat::Paying(Courier { leg: Leg::Returning, loaded: n, ..c }),
        threat_handles(r) == threat_handles(t),
{
    match t {
        ClearThreat::Paying(c) => ClearThreat::Paying(turn_home(c, n)),
        other => other,
    }
}

/// A threat member as the offer snapshot sees it.
#[derive(Clone, Copy, Debug)]
pub struct ThreatMember {
    pub handle: Handle,
    pub id: i64,
    /// Alive and not a zombie.
    pub alive: bool,
    /// Belongs to the player's community.
    pub is_player: bool,
}

/// A threat that can be posted: its living membership holds nobody of
/// the player's (a threat with the player's people in it is the player
/// attacking this camp; nobody hires the mark) and somebody at all.
pub open spec fn postable(ms: Seq<ThreatMember>) -> bool {
    &&& forall|i: int| 0 <= i < ms.len() && (#[trigger] ms[i]).alive ==> !ms[i].is_player
    &&& exists|i: int| 0 <= i < ms.len() && (#[trigger] ms[i]).alive
}

fn is_postable(ms: &Vec<ThreatMember>) -> (b: bool)
    ensures
        b == postable(ms@),
{
    let mut any = false;
    let mut i: usize = 0;
    while i < ms.len()
        invariant
            i <= ms.len(),
            forall|j: int| 0 <= j < i && (#[trigger] ms@[j]).alive ==> !ms@[j].is_player,
            any <==> exists|j: int| 0 <= j < i && (#[trigger] ms@[j]).alive,
        decreases ms.len() - i,
    {
        let m = ms[i];
        if m.alive {
            if m.is_player {
                return false;
            }
            any = true;
        }
        i = i + 1;
    }
    any
}

/// The first postable threat of the camp, in the game's order.
pub fn pick_threat(threats: &Vec<Vec<ThreatMember>>) -> (r: Option<usize>)
    ensures
        r matches Some(i) ==> i < threats@.len() && postable(threats@[i as int]@) && forall|j: int|
            0 <= j < i ==> !postable(#[trigger] threats@[j]@),
        r is None ==> forall|j: int| 0 <= j < threats@.len() ==> !postable(#[trigger] threats@[j]@),
{
    let mut i: usize = 0;
    while i < threats.len()
        invariant
            i <= threats.len(),
            forall|j: int| 0 <= j < i ==> !postable(#[trigger] threats@[j]@),
        decreases threats.len() - i,
    {
        if is_postable(&threats[i]) {
            return Some(i);
        }
        i = i + 1;
    }
    None
}

/// The living members of a threat: the raiders the offer holds.
pub fn living_raiders(ms: &Vec<ThreatMember>) -> (r: Vec<Raider>)
    ensures
        r@ == ms@.filter(|m: ThreatMember| m.alive).map_values(
            |m: ThreatMember| Raider { handle: m.handle, id: m.id },
        ),
{
    let mut out: Vec<Raider> = Vec::new();
    let mut i: usize = 0;
    while i < ms.len()
        invariant
            i <= ms.len(),
            out@ == ms@.take(i as int).filter(|m: ThreatMember| m.alive).map_values(
                |m: ThreatMember| Raider { handle: m.handle, id: m.id },
            ),
        decreases ms.len() - i,
    {
        let m = ms[i];
        proof {
            reveal_with_fuel(Seq::<ThreatMember>::filter, 1);
            assert(ms@.take(i + 1).drop_last() =~= ms@.take(i as int));
        }
        if m.alive {
            out.push(Raider { handle: m.handle, id: m.id });
        }
        i = i + 1;
    }
    assert(ms@.take(ms.len() as int) =~= ms@);
    out
}

/// A camp that could hire the clearing, as the scan sees it.
#[derive(Clone, Copy, Debug)]
pub struct HirerCandidate {
    /// Living non-zombie members.
    pub members: i64,
    /// Live Threat records at the camp's door.
    pub threats: i64,
    /// Not hostile to the player.
    pub friendly: bool,
    /// Holds at least one non-food stack.
    pub has_goods: bool,
}

/// A camp may hire: two or more living, a live threat, friendly, able to pay.
pub open spec fn may_hire(c: HirerCandidate) -> bool {
    c.members >= 2 && c.threats > 0 && c.friendly && c.has_goods
}

/// The hirer: the smallest camp able to hire (the least able to handle
/// it alone), the first such when sizes tie.
pub fn pick_hirer(cs: &Vec<HirerCandidate>) -> (r: Option<usize>)
    ensures
        r is None <==> forall|j: int| 0 <= j < cs@.len() ==> !may_hire(#[trigger] cs@[j]),
        r matches Some(i) ==> {
            &&& i < cs@.len()
            &&& may_hire(cs@[i as int])
            &&& forall|j: int| 0 <= j < cs@.len() && may_hire(#[trigger] cs@[j]) ==> cs@[i as int].members <= cs@[j].members
            &&& forall|j: int| 0 <= j < i && may_hire(#[trigger] cs@[j]) ==> cs@[i as int].members < cs@[j].members
        },
{
    let mut best: Option<usize> = None;
    let mut k: usize = 0;
    while k < cs.len()
        invariant
            k <= cs.len(),
            best is None <==> forall|j: int| 0 <= j < k ==> !may_hire(#[trigger] cs@[j]),
            best matches Some(i) ==> {
                &&& i < k
                &&& may_hire(cs@[i as int])
                &&& forall|j: int| 0 <= j < k && may_hire(#[trigger] cs@[j]) ==> cs@[i as int].members <= cs@[j].members
                &&& forall|j: int| 0 <= j < i && may_hire(#[trigger] cs@[j]) ==> cs@[i as int].members < cs@[j].members
            },
        decreases cs.len() - k,
    {
        let c = cs[k];
        if c.members >= 2 && c.threats > 0 && c.friendly && c.has_goods {
            match best {
                None => {
                    best = Some(k);
                },
                Some(i) => {
                    if c.members < cs[i].members {
                        best = Some(k);
                    }
                },
            }
        }
        k = k + 1;
    }
    best
}

} // verus!
