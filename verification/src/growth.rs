//! Real growth of people: the game's repopulator is switched off, so a
//! camp grows only when refugees who walked onto the map reach its gate.
//! An ordinary settlement with free beds and enough food opens its door;
//! a refugee group whose leader stands near an open door walks in, as
//! many as there are beds. Looter camps take nobody in.
//!
//! This module holds the door rule, which door a group meets and who
//! walks in; positions and the join itself are the game's.

use vstd::prelude::*;

use crate::camp::{CommunityKind, MemberSnapshot, joiners_spec};

verus! {

/// A settlement as the recruitment scan sees it.
#[derive(Clone, Copy, Debug)]
pub struct DoorCamp {
    pub kind: CommunityKind,
    pub ai_settlement: bool,
    pub living: i64,
    pub beds: i64,
    /// The camp's nutrition level is at least one half, the game's own
    /// hunger line.
    pub well_fed: bool,
    /// The camp has a first building to stand for its position.
    pub has_anchor: bool,
}

/// The door's room, when the camp's door is open: an ordinary AI
/// settlement, alive, with free beds, fed, and with a position.
pub open spec fn spec_open_door(c: DoorCamp) -> Option<i64> {
    if c.kind == CommunityKind::Normal && c.ai_settlement && c.living != 0 && c.beds - c.living > 0
        && c.well_fed && c.has_anchor {
        Some((c.beds - c.living) as i64)
    } else {
        None
    }
}

/// Whether the camp's door is open, and to how many.
pub fn open_door(c: &DoorCamp) -> (r: Option<i64>)
    requires
        i64::MIN <= c.beds - c.living <= i64::MAX,
    ensures
        r == spec_open_door(*c),
{
    let normal = matches!(c.kind, CommunityKind::Normal);
    if normal && c.ai_settlement && c.living != 0 && c.beds - c.living > 0 && c.well_fed && c.has_anchor {
        Some(c.beds - c.living)
    } else {
        None
    }
}

/// The door a refugee group walks through: the first open door, in
/// scan order, with room left and within reach of the group's leader.
pub fn door_for(room: &Vec<i64>, in_reach: &Vec<bool>) -> (r: Option<usize>)
    requires
        room@.len() == in_reach@.len(),
    ensures
        r matches Some(d) ==> d < room@.len() && room@[d as int] > 0 && in_reach@[d as int] && forall|e: int|
            0 <= e < d ==> !(#[trigger] room@[e] > 0 && in_reach@[e]),
        r is None ==> forall|e: int| 0 <= e < room@.len() ==> !(#[trigger] room@[e] > 0 && in_reach@[e]),
{
    let mut d: usize = 0;
    while d < room.len()
        invariant
            room@.len() == in_reach@.len(),
            d <= room.len(),
            forall|e: int| 0 <= e < d ==> !(#[trigger] room@[e] > 0 && in_reach@[e]),
        decreases room.len() - d,
    {
        if room[d] > 0 && in_reach[d] {
            return Some(d);
        }
        d = d + 1;
    }
    None
}

/// Walk a group in through a door with `room` beds: the first `room` of
/// its living members join, in the group's order, and the door's room
/// shrinks by as many.
pub fn walk_in(members: &Vec<MemberSnapshot>, room: &mut Vec<i64>, d: usize) -> (joined: Vec<MemberSnapshot>)
    requires
        d < old(room)@.len(),
        old(room)@[d as int] > 0,
    ensures
        joined@ == joiners_spec(members@, old(room)@[d as int] as int),
        final(room)@ == old(room)@.update(d as int, (old(room)@[d as int] - joined@.len()) as i64),
        0 <= final(room)@[d as int],
{
    let r = room[d];
    let joined = crate::camp::joiners(members, r);
    proof {
        let living = members@.filter(|m: MemberSnapshot| m.alive);
        if living.len() <= r {
        } else {
            assert(living.take(r as int).len() == r);
        }
    }
    room.set(d, r - joined.len() as i64);
    joined
}

/// A door never takes in more people than it has beds for, and a full
/// door takes in nobody more.
pub proof fn law_no_more_than_the_beds(members: Seq<MemberSnapshot>, room: int)
    ensures
        joiners_spec(members, room).len() <= (if room > 0 { room } else { 0 }),
        forall|i: int| 0 <= i < joiners_spec(members, room).len() ==> (#[trigger] joiners_spec(members, room)[i]).alive,
{
    let living = members.filter(|m: MemberSnapshot| m.alive);
    assert forall|i: int| 0 <= i < living.len() implies (#[trigger] living[i]).alive by {
        members.lemma_filter_pred(|m: MemberSnapshot| m.alive, i);
    }
}

/// Looter camps never open their door, nor camps without free beds.
pub proof fn law_looters_take_nobody(c: DoorCamp)
    requires
        c.beds - c.living <= i64::MAX,
    ensures
        c.kind == CommunityKind::Looter ==> spec_open_door(c) is None,
        c.beds <= c.living ==> spec_open_door(c) is None,
        spec_open_door(c) matches Some(n) ==> n > 0,
{
}

} // verus!
