//! A settling faction: a real band crosses the map's edge and walks to a
//! husk, a dead settlement with a real base, where the game's own
//! reclamation turns it into a new camp. The map is never fully known and
//! a husk is a real power vacuum. One settling band is watched at a time;
//! the game's own AI owns the squad, so a watch that times out can still
//! settle unannounced.

use vstd::prelude::*;

use crate::courier::Handle;

verus! {

/// One settling faction in flight at a time.
pub const MAX_SETTLERS: usize = 1;

/// A band on its way to a husk.
#[derive(Clone, Debug)]
pub struct SettlerMission {
    pub group_h: Handle,
    pub group_id: i64,
    pub husk_h: Handle,
    pub husk_name: String,
    /// The clock bits at which the watch stops.
    pub deadline_bits: u32,
}

/// The bands being watched.
#[derive(Clone, Debug)]
pub struct SettlerBook {
    pub missions: Vec<SettlerMission>,
}

/// The group with this id is on its way to settle.
pub open spec fn claimed(b: SettlerBook, id: i64) -> bool {
    exists|i: int| 0 <= i < b.missions@.len() && #[trigger] b.missions@[i].group_id == id
}

/// A book as every pass leaves it: no more than `MAX_SETTLERS` bands
/// watched.
pub open spec fn book_wf(b: SettlerBook) -> bool {
    b.missions@.len() <= MAX_SETTLERS
}

/// An empty book.
pub fn new_book() -> (b: SettlerBook)
    ensures
        b.missions@.len() == 0,
        book_wf(b),
{
    SettlerBook { missions: Vec::new() }
}

/// Groups this system owns; growth and the strangers skip them so
/// nothing recruits or re-rolls a band mid-walk.
pub fn is_claimed(b: &SettlerBook, id: i64) -> (r: bool)
    ensures
        r == claimed(*b, id),
{
    let mut i: usize = 0;
    while i < b.missions.len()
        invariant
            i <= b.missions@.len(),
            forall|j: int| 0 <= j < i ==> #[trigger] b.missions@[j].group_id != id,
        decreases b.missions@.len() - i,
    {
        if b.missions[i].group_id == id {
            return true;
        }
        i = i + 1;
    }
    false
}

/// How many settling bands are watched.
pub fn active_count(b: &SettlerBook) -> (n: usize)
    ensures
        n == b.missions@.len(),
{
    b.missions.len()
}

/// A new band may set out only while none is being watched.
pub fn may_launch(b: &SettlerBook) -> (r: bool)
    ensures
        r == (b.missions@.len() < MAX_SETTLERS),
{
    b.missions.len() < MAX_SETTLERS
}

/// The salt that varies the band's edge direction.
pub fn spawn_salt(b: &SettlerBook) -> (s: u64)
    requires
        b.missions@.len() + 40 <= u64::MAX,
    ensures
        s == 40 + b.missions@.len(),
{
    40 + b.missions.len() as u64
}

/// Start watching a band, only while the cap has room: the cap still
/// holds after.
pub fn launch(b: &mut SettlerBook, m: SettlerMission)
    requires
        old(b).missions@.len() < MAX_SETTLERS,
    ensures
        final(b).missions@ == old(b).missions@.push(m),
        claimed(*final(b), m.group_id),
        book_wf(*final(b)),
{
    b.missions.push(m);
    assert(final(b).missions@[final(b).missions@.len() - 1].group_id == m.group_id);
}

/// Stop watching a band (its handles go back to the caller).
pub fn finish(b: &mut SettlerBook, i: usize) -> (m: SettlerMission)
    requires
        i < old(b).missions@.len(),
    ensures
        m == old(b).missions@[i as int],
        final(b).missions@ == old(b).missions@.remove(i as int),
        book_wf(*old(b)) ==> book_wf(*final(b)) && !claimed(*final(b), m.group_id),
{
    b.missions.remove(i)
}

/// A camp that can be claimed: a dead settlement with a base to take.
pub open spec fn is_husk(settlement: bool, members: i64, has_centre: bool) -> bool {
    settlement && members <= 0 && has_centre
}

/// A dead Normal or Looter camp (no living members) with a real base
/// rectangle is a husk.
pub fn husk(settlement: bool, members: i64, has_centre: bool) -> (b: bool)
    ensures
        b == is_husk(settlement, members, has_centre),
{
    settlement && members <= 0 && has_centre
}

/// What the game reported about a watched band.
#[derive(Clone, Copy, Debug)]
pub struct SettleReport {
    /// The group has turned into a Normal or Looter settlement.
    pub settled: bool,
    /// Living non-zombie members of the group.
    pub members: i64,
    /// The clock has passed the watch's deadline.
    pub timed_out: bool,
}

/// Where a watched band stands.
#[derive(Clone, Copy, PartialEq, Eq, Debug)]
pub enum SettleOutcome {
    /// A new banner flies over the dead walls.
    Settled,
    /// The road ate them.
    DiedOnRoad,
    /// The watch stops; the game still owns the squad.
    TimedOut,
    /// Still walking.
    Walking,
}

/// The watch's decision: settling first, then death, then the deadline.
pub open spec fn spec_settle(r: SettleReport) -> SettleOutcome {
    if r.settled {
        SettleOutcome::Settled
    } else if r.members <= 0 {
        SettleOutcome::DiedOnRoad
    } else if r.timed_out {
        SettleOutcome::TimedOut
    } else {
        SettleOutcome::Walking
    }
}

/// Decide one watch pass.
pub fn settle(r: SettleReport) -> (o: SettleOutcome)
    ensures
        o == spec_settle(r),
{
    if r.settled {
        SettleOutcome::Settled
    } else if r.members <= 0 {
        SettleOutcome::DiedOnRoad
    } else if r.timed_out {
        SettleOutcome::TimedOut
    } else {
        SettleOutcome::Walking
    }
}

} // verus!
