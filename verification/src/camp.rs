//! Camps and their people as the scans see them: the kind of a
//! community, who among its members is free to be sent on an errand, and
//! who among those the camp's vote would pick.

use vstd::prelude::*;

use crate::courier::Handle;

verus! {

/// The game type that determines a camp's behavior.
#[derive(Clone, Copy, PartialEq, Eq, Debug)]
pub enum CommunityKind {
    /// The player's own camp.
    Player,
    /// An ordinary settlement.
    Normal,
    /// A predatory settlement.
    Looter,
    /// A vanilla roving trader.
    RovingTrader,
    /// Anything else (ambient groups, refugees, the dead).
    Other,
}

/// A settlement in the faction sense: a Normal or Looter camp.
pub open spec fn is_settlement_kind(k: CommunityKind) -> bool {
    k == CommunityKind::Normal || k == CommunityKind::Looter
}

/// A settlement in the faction sense: a Normal or Looter camp.
pub fn is_settlement(k: CommunityKind) -> (b: bool)
    ensures
        b == is_settlement_kind(k),
{
    matches!(k, CommunityKind::Normal | CommunityKind::Looter)
}

/// A member as the scans see it.
#[derive(Clone, Copy, PartialEq, Eq, Debug)]
pub struct MemberSnapshot {
    pub handle: Handle,
    /// The character id.
    pub id: i64,
    /// Alive and not a zombie.
    pub alive: bool,
    /// A human (not an animal).
    pub human: bool,
    pub conscious: bool,
    /// Already in a squad.
    pub squadded: bool,
}

/// Free to be sent out: alive, human, conscious, in no squad, and not
/// the camp's leader.
pub open spec fn is_free(m: MemberSnapshot, leader: Option<i64>) -> bool {
    m.alive && m.human && m.conscious && !m.squadded && leader != Some(m.id)
}

/// The first free member, in the camp's order.
pub fn first_free(ms: &Vec<MemberSnapshot>, leader: Option<i64>) -> (r: Option<usize>)
    ensures
        r matches Some(i) ==> i < ms@.len() && is_free(ms@[i as int], leader) && forall|j: int|
            0 <= j < i ==> !is_free(#[trigger] ms@[j], leader),
        r is None ==> forall|j: int| 0 <= j < ms@.len() ==> !is_free(#[trigger] ms@[j], leader),
{
    let mut i: usize = 0;
    while i < ms.len()
        invariant
            i <= ms.len(),
            forall|j: int| 0 <= j < i ==> !is_free(#[trigger] ms@[j], leader),
        decreases ms.len() - i,
    {
        let m = ms[i];
        let is_leader = match leader {
            Some(l) => l == m.id,
            None => false,
        };
        if m.alive && m.human && m.conscious && !m.squadded && !is_leader {
            return Some(i);
        }
        i = i + 1;
    }
    None
}

/// `i` is the first free member with the greatest score.
pub open spec fn is_best_free(ms: Seq<MemberSnapshot>, scores: Seq<u64>, leader: Option<i64>, i: int) -> bool {
    &&& 0 <= i < ms.len()
    &&& is_free(ms[i], leader)
    &&& forall|j: int| 0 <= j < ms.len() && is_free(#[trigger] ms[j], leader) ==> scores[j] <= scores[i]
    &&& forall|j: int| 0 <= j < i && is_free(#[trigger] ms[j], leader) ==> scores[j] < scores[i]
}

/// The free member the camp would send: the one with the greatest
/// trait score, the first such on ties. A score is the bit pattern of a
/// non-negative trait value, whose order is the values' order.
pub fn best_free(ms: &Vec<MemberSnapshot>, scores: &Vec<u64>, leader: Option<i64>) -> (r: Option<usize>)
    requires
        scores@.len() == ms@.len(),
    ensures
        r matches Some(i) ==> is_best_free(ms@, scores@, leader, i as int),
        r is None <==> forall|j: int| 0 <= j < ms@.len() ==> !is_free(#[trigger] ms@[j], leader),
{
    let mut best: Option<usize> = None;
    let mut i: usize = 0;
    while i < ms.len()
        invariant
            scores@.len() == ms@.len(),
            i <= ms.len(),
            best is None <==> forall|j: int| 0 <= j < i ==> !is_free(#[trigger] ms@[j], leader),
            best matches Some(b) ==> {
                &&& b < i
                &&& is_free(ms@[b as int], leader)
                &&& forall|j: int| 0 <= j < i && is_free(#[trigger] ms@[j], leader) ==> scores@[j] <= scores@[b as int]
                &&& forall|j: int| 0 <= j < b && is_free(#[trigger] ms@[j], leader) ==> scores@[j] < scores@[b as int]
            },
        decreases ms.len() - i,
    {
        let m = ms[i];
        let is_leader = match leader {
            Some(l) => l == m.id,
            None => false,
        };
        if m.alive && m.human && m.conscious && !m.squadded && !is_leader {
            match best {
                None => {
                    best = Some(i);
                },
                Some(b) => {
                    if scores[i] > scores[b] {
                        best = Some(i);
                    }
                },
            }
        }
        i = i + 1;
    }
    best
}

/// Room for newcomers: the camp's beds minus its living members, never
/// below zero.
pub open spec fn spec_headroom(beds: i64, members: i64) -> int {
    if beds - members > 0 { beds - members } else { 0 }
}

/// Room for newcomers at a camp.
pub fn headroom(beds: i64, members: i64) -> (h: i64)
    requires
        i64::MIN <= beds - members <= i64::MAX,
    ensures
        h == spec_headroom(beds, members),
{
    let d = beds - members;
    if d > 0 { d } else { 0 }
}

/// The living members that join a camp with `room` beds free: the first
/// `room` of the living, in the group's order.
pub open spec fn joiners_spec(ms: Seq<MemberSnapshot>, room: int) -> Seq<MemberSnapshot> {
    let living = ms.filter(|m: MemberSnapshot| m.alive);
    if room <= 0 {
        Seq::empty()
    } else if living.len() <= room {
        living
    } else {
        living.take(room)
    }
}

/// Pick the living members who join, up to the camp's room.
pub fn joiners(ms: &Vec<MemberSnapshot>, room: i64) -> (r: Vec<MemberSnapshot>)
    ensures
        r@ == joiners_spec(ms@, room as int),
{
    let mut out: Vec<MemberSnapshot> = Vec::new();
    if room <= 0 {
        return out;
    }
    let mut i: usize = 0;
    while i < ms.len()
        invariant
            room > 0,
            i <= ms.len(),
            out@.len() <= room,
            out@.len() < room ==> out@ == ms@.take(i as int).filter(|m: MemberSnapshot| m.alive),
            out@.len() == room ==> out@ == ms@.take(i as int).filter(|m: MemberSnapshot| m.alive).take(room as int),
            out@.len() <= ms@.take(i as int).filter(|m: MemberSnapshot| m.alive).len(),
        decreases ms.len() - i,
    {
        let m = ms[i];
        proof {
            reveal_with_fuel(Seq::<MemberSnapshot>::filter, 1);
            assert(ms@.take(i + 1).drop_last() =~= ms@.take(i as int));
        }
        if (out.len() as i64) < room && m.alive {
            out.push(m);
        } else if out.len() as i64 == room && m.alive {
            proof {
                let f = ms@.take(i as int).filter(|m: MemberSnapshot| m.alive);
                let g = ms@.take(i + 1).filter(|m: MemberSnapshot| m.alive);
                assert(g == f.push(m));
                assert(g.take(room as int) =~= f.take(room as int));
            }
        }
        i = i + 1;
    }
    assert(ms@.take(ms.len() as int) =~= ms@);
    proof {
        let living = ms@.filter(|m: MemberSnapshot| m.alive);
        if living.len() <= room {
            if out@.len() == room {
                assert(living.take(room as int) =~= living);
            }
        } else {
            if out@.len() < room {
                assert(false);
            }
        }
    }
    out
}

} // verus!
