//! Strangers of unknown intent. A real band crosses the map's edge
//! toward the nearest camp with a HIDDEN intent, announced only as
//! strangers approaching; the truth is revealed at the camp's gate, and they join,
//! share supplies, attack, size the camp up and leave, or shake it down.
//! The mysterious stranger is a lone figure whose meaning is never
//! learned; a refugee wave seeks shelter.
//!
//! This module holds the book of bands in play, the intent roll, the
//! arrival decision, and every line the chronicle posts about them.

use vstd::prelude::*;

use crate::courier::Handle;
use crate::mix::{hash_pick, spec_hash_pick};
use crate::text::{around, around_name, decimal, decimal_string};

verus! {

/// At most this many stranger bands in play map-wide.
pub const MAX_STRANGERS: usize = 2;

/// At most this many refugee-wave groups in play map-wide (a wave has its
/// own cap so it can cross while a band is already out).
pub const WAVE_MAX: usize = 3;

/// Non-food stacks a friendly trader shares.
pub const SHARE_STACKS: i64 = 2;

/// Non-food stacks a shakedown takes.
pub const TRIBUTE_STACKS: i64 = 1;

/// The bit pattern of the salt 0.0 used for the arrival lines.
pub const SALT_ANNOUNCE: u32 = 0;

/// The bit pattern of the salt 7.0 used for the reveal lines.
pub const SALT_REVEAL: u32 = 0x40E0_0000;

/// The bit pattern of the salt 9.0 used for the mysterious outcome.
pub const SALT_MYSTERY: u32 = 0x4110_0000;

/// The rolled outcome, hidden until the band reaches the camp.
#[derive(Clone, Copy, PartialEq, Eq, Debug)]
pub enum Intent {
    FriendlyJoin,
    FriendlyShare,
    Aggressive,
    Mysterious,
    Refugee,
    WaryLeave,
    Shakedown,
}

/// The intent a band's roll out of 100 gives: join 30, share 12,
/// aggressive 30, leave 13, shakedown 15.
pub open spec fn intent_of_roll(r: u64) -> Intent {
    if r <= 29 {
        Intent::FriendlyJoin
    } else if r <= 41 {
        Intent::FriendlyShare
    } else if r <= 71 {
        Intent::Aggressive
    } else if r <= 84 {
        Intent::WaryLeave
    } else {
        Intent::Shakedown
    }
}

/// The hidden intent of a band, rolled from its id and the clock bits.
pub open spec fn spec_roll_intent(id: i64, now_bits: u32) -> Intent {
    intent_of_roll(spec_hash_pick(id, now_bits, 100))
}

/// Roll whether strangers join, share, threaten, rob, or leave.
pub fn roll_intent(id: i64, now_bits: u32) -> (i: Intent)
    ensures
        i == spec_roll_intent(id, now_bits),
{
    let r = hash_pick(id, now_bits, 100);
    if r <= 29 {
        Intent::FriendlyJoin
    } else if r <= 41 {
        Intent::FriendlyShare
    } else if r <= 71 {
        Intent::Aggressive
    } else if r <= 84 {
        Intent::WaryLeave
    } else {
        Intent::Shakedown
    }
}

/// A band in play.
#[derive(Clone, Debug)]
pub struct StrangerMission {
    pub group_h: Handle,
    pub group_id: i64,
    pub target_h: Handle,
    pub target_name: String,
    pub intent: Intent,
    /// The clock bits after which the band has wandered off.
    pub deadline_bits: u32,
}

/// The bands in play. A band's group is claimed while it is in play, so
/// growth and the settlers leave its fate to this system.
#[derive(Clone, Debug)]
pub struct StrangerBook {
    pub missions: Vec<StrangerMission>,
}

/// The number of refugee groups among the bands.
pub open spec fn refugee_count(ms: Seq<StrangerMission>) -> nat {
    ms.filter(|m: StrangerMission| m.intent == Intent::Refugee).len()
}

/// The group with this id is held by a band in play.
pub open spec fn claimed(b: StrangerBook, id: i64) -> bool {
    exists|i: int| 0 <= i < b.missions@.len() && #[trigger] b.missions@[i].group_id == id
}

/// A book as every pass leaves it: at most `WAVE_MAX` refugee groups and
/// at most `MAX_STRANGERS` other bands in play, and no group held by two
/// bands.
pub open spec fn book_wf(b: StrangerBook) -> bool {
    &&& refugee_count(b.missions@) <= WAVE_MAX
    &&& b.missions@.len() - refugee_count(b.missions@) <= MAX_STRANGERS
    &&& forall|i: int, j: int|
        0 <= i < j < b.missions@.len() ==> (#[trigger] b.missions@[i]).group_id != (
        #[trigger] b.missions@[j]).group_id
}

/// The cap a band of this intent counts against has room.
pub open spec fn room_for(b: StrangerBook, intent: Intent) -> bool {
    spec_may_launch(b, if intent == Intent::Refugee { Some(Intent::Refugee) } else { None })
}

/// An empty book.
pub fn new_book() -> (b: StrangerBook)
    ensures
        b.missions@.len() == 0,
        book_wf(b),
{
    let b = StrangerBook { missions: Vec::new() };
    assert(b.missions@.filter(|m: StrangerMission| m.intent == Intent::Refugee) =~= Seq::empty());
    b
}

/// Check whether this system already controls an arriving group.
pub fn is_claimed(b: &StrangerBook, id: i64) -> (r: bool)
    ensures
        r == claimed(*b, id),
{
    let mut i: usize = 0;
    while i < b.missions.len()
        invariant
            i <= b.missions@.len(),
            forall|j: int| 0 <= j < i ==> #[trigger] b.missions@[j].group_id != id,
        decreases b.missions@.len() - i,
    {
        if b.missions[i].group_id == id {
            return true;
        }
        i = i + 1;
    }
    false
}

/// Count the bands in play.
pub fn active_count(b: &StrangerBook) -> (n: usize)
    ensures
        n == b.missions@.len(),
{
    b.missions.len()
}

/// Count the refugee groups in play.
pub fn refugees(b: &StrangerBook) -> (n: usize)
    ensures
        n == refugee_count(b.missions@),
{
    let mut n: usize = 0;
    let mut i: usize = 0;
    while i < b.missions.len()
        invariant
            i <= b.missions@.len(),
            n == refugee_count(b.missions@.take(i as int)),
            n <= i,
        decreases b.missions@.len() - i,
    {
        proof {
            reveal_with_fuel(Seq::<StrangerMission>::filter, 1);
            assert(b.missions@.take(i + 1).drop_last() =~= b.missions@.take(i as int));
        }
        if matches!(b.missions[i].intent, Intent::Refugee) {
            n = n + 1;
        }
        i = i + 1;
    }
    assert(b.missions@.take(b.missions@.len() as int) =~= b.missions@);
    n
}

/// A new band may cross: a refugee wave while fewer than `WAVE_MAX`
/// refugee groups are out, any other band while fewer than
/// `MAX_STRANGERS` non-refugee bands are out.
pub open spec fn spec_may_launch(b: StrangerBook, forced: Option<Intent>) -> bool {
    let refugees = refugee_count(b.missions@);
    let bands = b.missions@.len() - refugees;
    if forced == Some(Intent::Refugee) {
        refugees < WAVE_MAX
    } else {
        bands < MAX_STRANGERS
    }
}

proof fn lemma_filter_len_le(s: Seq<StrangerMission>, p: spec_fn(StrangerMission) -> bool)
    ensures
        s.filter(p).len() <= s.len(),
    decreases s.len(),
{
    reveal_with_fuel(Seq::<StrangerMission>::filter, 1);
    if s.len() > 0 {
        lemma_filter_len_le(s.drop_last(), p);
    }
}

/// Check the caps before a band crosses.
pub fn may_launch(b: &StrangerBook, forced: Option<Intent>) -> (r: bool)
    ensures
        r == spec_may_launch(*b, forced),
{
    let refugees = refugees(b);
    proof {
        lemma_filter_len_le(b.missions@, |m: StrangerMission| m.intent == Intent::Refugee);
    }
    let bands = b.missions.len() - refugees;
    match forced {
        Some(Intent::Refugee) => refugees < WAVE_MAX,
        _ => bands < MAX_STRANGERS,
    }
}

/// The salt that varies a new band's edge direction, so several bands in
/// one pass land apart.
pub fn spawn_salt(b: &StrangerBook) -> (s: u64)
    requires
        b.missions@.len() + 30 <= u64::MAX,
    ensures
        s == 30 + b.missions@.len(),
{
    30 + b.missions.len() as u64
}

/// Check that the cap a band of this intent counts against has room.
pub fn has_room(b: &StrangerBook, intent: Intent) -> (r: bool)
    ensures
        r == room_for(*b, intent),
{
    if matches!(intent, Intent::Refugee) {
        may_launch(b, Some(Intent::Refugee))
    } else {
        may_launch(b, None)
    }
}

/// Put a band in play, below its cap and for a group no band holds yet;
/// its group is claimed from now on, and the caps still hold.
pub fn launch(b: &mut StrangerBook, m: StrangerMission)
    requires
        room_for(*old(b), m.intent),
        !claimed(*old(b), m.group_id),
    ensures
        final(b).missions@ == old(b).missions@.push(m),
        claimed(*final(b), m.group_id),
        book_wf(*old(b)) ==> book_wf(*final(b)),
{
    proof {
        if book_wf(*b) {
            law_caps_hold(*b, m);
        }
    }
    b.missions.push(m);
    assert(final(b).missions@[final(b).missions@.len() - 1].group_id == m.group_id);
}

/// Take a finished band out of play (its handles go back to the caller):
/// its group is no longer claimed, every other claim stands, and the caps
/// still hold.
pub fn finish(b: &mut StrangerBook, i: usize) -> (m: StrangerMission)
    requires
        i < old(b).missions@.len(),
    ensures
        m == old(b).missions@[i as int],
        final(b).missions@ == old(b).missions@.remove(i as int),
        book_wf(*old(b)) ==> book_wf(*final(b)) && !claimed(*final(b), m.group_id),
        forall|id: i64| id != m.group_id ==> (claimed(*final(b), id) <==> claimed(*old(b), id)),
{
    let ghost before = b.missions@;
    let m = b.missions.remove(i);
    proof {
        let after = b.missions@;
        assert forall|k: int| 0 <= k < after.len() implies after[k] == (if k < i { before[k] } else {
            before[k + 1]
        }) by {}
        assert forall|id: i64| id != m.group_id implies (claimed(*b, id) <==> claimed(*old(b), id)) by {
            if claimed(*b, id) {
                let k = choose|k: int| 0 <= k < after.len() && #[trigger] after[k].group_id == id;
                if k < i {
                    assert(before[k].group_id == id);
                } else {
                    assert(before[k + 1].group_id == id);
                }
            }
            if claimed(*old(b), id) {
                let k = choose|k: int| 0 <= k < before.len() && #[trigger] before[k].group_id == id;
                assert(k != i);
                if k < i {
                    assert(after[k].group_id == id);
                } else {
                    assert(after[k - 1].group_id == id);
                }
            }
        }
        if book_wf(*old(b)) {
            lemma_refugees_remove(before, i as int);
            assert forall|x: int, y: int| 0 <= x < y < after.len() implies (#[trigger] after[x]).group_id
                != (#[trigger] after[y]).group_id by {
                let x2 = if x < i { x } else { x + 1 };
                let y2 = if y < i { y } else { y + 1 };
                assert(after[x] == before[x2] && after[y] == before[y2]);
            }
            if claimed(*b, m.group_id) {
                let k = choose|k: int| 0 <= k < after.len() && #[trigger] after[k].group_id == m.group_id;
                let k2 = if k < i { k } else { k + 1 };
                assert(after[k] == before[k2]);
                assert(before[k2].group_id == before[i as int].group_id);
            }
        }
    }
    m
}

/// Taking band `i` out of play lowers the refugee count by one exactly
/// when it was a refugee group, and never raises the other bands.
proof fn lemma_refugees_remove(s: Seq<StrangerMission>, i: int)
    requires
        0 <= i < s.len(),
    ensures
        refugee_count(s.remove(i)) + (if s[i].intent == Intent::Refugee { 1int } else { 0 }) == refugee_count(s),
    decreases s.len(),
{
    reveal_with_fuel(Seq::<StrangerMission>::filter, 1);
    if i == s.len() - 1 {
        assert(s.remove(i) =~= s.drop_last());
    } else {
        lemma_refugees_remove(s.drop_last(), i);
        assert(s.remove(i).drop_last() =~= s.drop_last().remove(i));
        assert(s.remove(i).last() == s.last());
    }
}

/// What the game reported about a band on its way.
#[derive(Clone, Copy, Debug)]
pub struct ArrivalReport {
    /// Living non-zombie members of the band.
    pub members: i64,
    /// The clock has passed the band's deadline.
    pub timed_out: bool,
    /// The band's leader could be found and placed.
    pub leader_placed: bool,
    /// The target camp still has a building to stand at.
    pub camp_placed: bool,
    /// The leader stands within reveal range of the camp.
    pub at_gate: bool,
}

/// Where a band stands on this pass.
#[derive(Clone, Copy, PartialEq, Eq, Debug)]
pub enum Arrival {
    /// The band is gone (nobody left alive); nothing to reveal.
    Vanished,
    /// The band never reached the camp; it moved on.
    TimedOut,
    /// Still on the road (or the leader could not be placed).
    Walking,
    /// The camp is gone; nothing to reveal.
    CampGone,
    /// At the camp's gate, where the intent is revealed.
    AtGate,
}

/// The arrival decision: an empty band first, then the deadline, then the
/// leader's position, the camp's, and the range.
pub open spec fn spec_arrival(r: ArrivalReport) -> Arrival {
    if r.members <= 0 {
        Arrival::Vanished
    } else if r.timed_out {
        Arrival::TimedOut
    } else if !r.leader_placed {
        Arrival::Walking
    } else if !r.camp_placed {
        Arrival::CampGone
    } else if !r.at_gate {
        Arrival::Walking
    } else {
        Arrival::AtGate
    }
}

/// Decide where a band stands.
pub fn arrival(r: ArrivalReport) -> (a: Arrival)
    ensures
        a == spec_arrival(r),
{
    if r.members <= 0 {
        Arrival::Vanished
    } else if r.timed_out {
        Arrival::TimedOut
    } else if !r.leader_placed {
        Arrival::Walking
    } else if !r.camp_placed {
        Arrival::CampGone
    } else if !r.at_gate {
        Arrival::Walking
    } else {
        Arrival::AtGate
    }
}

/// What the mysterious stranger does at the camp's gate, never explained.
#[derive(Clone, Copy, PartialEq, Eq, Debug)]
pub enum Mystery {
    /// Leaves a gift and walks away.
    LeavesGift,
    /// Watches the camp from a distance and vanishes.
    Watches,
    /// Speaks a single sentence and leaves.
    Speaks,
}

/// The mysterious outcome of a lone figure, from its group id.
pub open spec fn spec_mystery(group_id: i64) -> Mystery {
    let r = spec_hash_pick(group_id, SALT_MYSTERY, 3);
    if r == 0 {
        Mystery::LeavesGift
    } else if r == 1 {
        Mystery::Watches
    } else {
        Mystery::Speaks
    }
}

/// Decide what the lone figure does.
pub fn mystery(group_id: i64) -> (m: Mystery)
    ensures
        m == spec_mystery(group_id),
{
    let r = hash_pick(group_id, SALT_MYSTERY, 3);
    if r == 0 {
        Mystery::LeavesGift
    } else if r == 1 {
        Mystery::Watches
    } else {
        Mystery::Speaks
    }
}

/// The chronicle's line when the lone figure only watched.
pub open spec fn spec_watched_line(camp: &str) -> Seq<char> {
    around("a lone figure watched ", camp, " from a distance for hours; by nightfall there was no trace")
}

/// Write the line for a lone figure that only watched.
pub fn watched_line(camp: &str) -> (s: String)
    ensures
        s@ == spec_watched_line(camp),
{
    around_name("a lone figure watched ", camp, " from a distance for hours; by nightfall there was no trace")
}

/// The chronicle's line when the lone figure spoke and left.
pub open spec fn spec_spoke_line(camp: &str) -> Seq<char> {
    around("the stranger spoke a single sentence at ", camp, "'s gate and left; no two retellings agree")
}

/// Write the line for a lone figure that spoke and left.
pub fn spoke_line(camp: &str) -> (s: String)
    ensures
        s@ == spec_spoke_line(camp),
{
    around_name("the stranger spoke a single sentence at ", camp, "'s gate and left; no two retellings agree")
}

/// The chronicle's line when a band never reached its camp.
pub open spec fn spec_timeout_line(intent: Intent, camp: &str) -> Seq<char> {
    match intent {
        Intent::Mysterious => around("the lone figure never reached ", camp, "; perhaps it was never coming"),
        Intent::Refugee => around("the refugees scattered before reaching ", camp, ""),
        _ => around("the strangers never reached ", camp, " and moved on"),
    }
}

/// Write the line for a band that never arrived.
pub fn timeout_line(intent: Intent, camp: &str) -> (s: String)
    ensures
        s@ == spec_timeout_line(intent, camp),
{
    match intent {
        Intent::Mysterious => around_name("the lone figure never reached ", camp, "; perhaps it was never coming"),
        Intent::Refugee => around_name("the refugees scattered before reaching ", camp, ""),
        _ => around_name("the strangers never reached ", camp, " and moved on"),
    }
}

/// What each member of a band hands into the camp's store, in the
/// band's order: its non-food stacks, until `max` are given in all; a
/// member without an inventory gives nothing. `nonfood[i]` is member
/// `i`'s non-food stacks, or `None` without an inventory.
pub open spec fn spec_gift_plan(nonfood: Seq<Option<i64>>, max: int) -> Seq<i64>
    decreases nonfood.len(),
{
    if nonfood.len() == 0 {
        Seq::empty()
    } else {
        let left = if max > 0 { max } else { 0 };
        let have: int = match nonfood[0] {
            Some(n) => if n > 0 { n as int } else { 0 },
            None => 0,
        };
        let give = if have < left { have } else { left };
        seq![give as i64] + spec_gift_plan(nonfood.drop_first(), max - give)
    }
}

/// Plan a band's gift.
pub fn gift_plan(nonfood: &Vec<Option<i64>>, max: i64) -> (r: Vec<i64>)
    requires
        max >= 0,
    ensures
        r@ == spec_gift_plan(nonfood@, max as int),
{
    let mut r: Vec<i64> = Vec::new();
    let mut left: i64 = max;
    let mut i: usize = 0;
    assert(nonfood@.skip(0) =~= nonfood@);
    assert(r@ + spec_gift_plan(nonfood@, max as int) =~= spec_gift_plan(nonfood@, max as int));
    while i < nonfood.len()
        invariant
            i <= nonfood.len(),
            0 <= left <= max,
            r@ + spec_gift_plan(nonfood@.skip(i as int), left as int) == spec_gift_plan(nonfood@, max as int),
        decreases nonfood.len() - i,
    {
        let have: i64 = match nonfood[i] {
            Some(n) => if n > 0 { n } else { 0 },
            None => 0,
        };
        let give: i64 = if have < left { have } else { left };
        proof {
            let rest = nonfood@.skip(i as int);
            assert(rest.drop_first() =~= nonfood@.skip(i + 1));
            assert(rest[0] == nonfood@[i as int]);
            assert(spec_gift_plan(rest, left as int) == seq![give] + spec_gift_plan(nonfood@.skip(i + 1), left - give));
            assert(r@.push(give) + spec_gift_plan(nonfood@.skip(i + 1), left - give) =~= r@ + (seq![give]
                + spec_gift_plan(nonfood@.skip(i + 1), left - give)));
        }
        r.push(give);
        left = left - give;
        i = i + 1;
    }
    proof {
        assert(nonfood@.skip(nonfood.len() as int) =~= Seq::<Option<i64>>::empty());
        assert(r@ + Seq::<i64>::empty() =~= r@);
    }
    r
}

/// Who carries a shakedown's tribute: the band's leader, else its first
/// member.
pub fn tribute_carrier(leader: Option<Handle>, members: &Vec<Handle>) -> (r: Option<Handle>)
    ensures
        r == (if leader is Some { leader } else if members@.len() > 0 { Some(members@[0]) } else { None::<Handle> }),
{
    match leader {
        Some(h) => Some(h),
        None => if members.len() > 0 { Some(members[0]) } else { None },
    }
}

// ---- the lines ---------------------------------------------------------

/// The line heads of the approach rumor (each followed by the camp's name).
pub open spec fn announce_head(i: u64) -> &'static str {
    if i == 0 {
        "strangers are approaching "
    } else if i == 1 {
        "an unknown band moves toward "
    } else {
        "figures on the road near "
    }
}

/// The line tails of the approach rumor.
pub open spec fn announce_tail(i: u64) -> &'static str {
    if i == 0 {
        ""
    } else if i == 1 {
        ""
    } else {
        ", their intent unclear"
    }
}

/// The first rumor announcing an unknown group near a camp.
pub open spec fn spec_announce_line(id: i64, camp: &str) -> Seq<char> {
    let i = spec_hash_pick(id, SALT_ANNOUNCE, 3);
    around(announce_head(i), camp, announce_tail(i))
}

/// Choose the first rumor announcing an unknown group near a camp.
pub fn announce_line(id: i64, camp: &str) -> (s: String)
    ensures
        s@ == spec_announce_line(id, camp),
{
    let i = hash_pick(id, SALT_ANNOUNCE, 3);
    if i == 0 {
        around_name("strangers are approaching ", camp, "")
    } else if i == 1 {
        around_name("an unknown band moves toward ", camp, "")
    } else {
        around_name("figures on the road near ", camp, ", their intent unclear")
    }
}

/// The line heads of the lone figure's rumor.
pub open spec fn lone_head(i: u64) -> &'static str {
    if i == 0 {
        "a lone figure is walking toward "
    } else if i == 1 {
        "someone approaches "
    } else {
        "a single traveller nears "
    }
}

/// The line tails of the lone figure's rumor.
pub open spec fn lone_tail(i: u64) -> &'static str {
    if i == 0 {
        ""
    } else if i == 1 {
        " alone, and no one knows them"
    } else {
        ", saying nothing"
    }
}

/// The first rumor announcing a lone mysterious figure.
pub open spec fn spec_announce_lone_line(id: i64, camp: &str) -> Seq<char> {
    let i = spec_hash_pick(id, SALT_ANNOUNCE, 3);
    around(lone_head(i), camp, lone_tail(i))
}

/// Choose the first rumor announcing a lone mysterious figure.
pub fn announce_lone_line(id: i64, camp: &str) -> (s: String)
    ensures
        s@ == spec_announce_lone_line(id, camp),
{
    let i = hash_pick(id, SALT_ANNOUNCE, 3);
    if i == 0 {
        around_name("a lone figure is walking toward ", camp, "")
    } else if i == 1 {
        around_name("someone approaches ", camp, " alone, and no one knows them")
    } else {
        around_name("a single traveller nears ", camp, ", saying nothing")
    }
}

/// The line heads of the refugees' rumor.
pub open spec fn refugee_head(i: u64) -> &'static str {
    if i == 0 {
        "refugees are coming down the road toward "
    } else if i == 1 {
        "a ragged band nears "
    } else {
        "families on the road make for "
    }
}

/// The line tails of the refugees' rumor.
pub open spec fn refugee_tail(i: u64) -> &'static str {
    if i == 0 {
        ", looking behind them"
    } else if i == 1 {
        ", running from something"
    } else {
        ", carrying what they could"
    }
}

/// The first rumor announcing refugees near a camp.
pub open spec fn spec_announce_refugee_line(id: i64, camp: &str) -> Seq<char> {
    let i = spec_hash_pick(id, SALT_ANNOUNCE, 3);
    around(refugee_head(i), camp, refugee_tail(i))
}

/// Choose the first rumor announcing refugees near a camp.
pub fn announce_refugee_line(id: i64, camp: &str) -> (s: String)
    ensures
        s@ == spec_announce_refugee_line(id, camp),
{
    let i = hash_pick(id, SALT_ANNOUNCE, 3);
    if i == 0 {
        around_name("refugees are coming down the road toward ", camp, ", looking behind them")
    } else if i == 1 {
        around_name("a ragged band nears ", camp, ", running from something")
    } else {
        around_name("families on the road make for ", camp, ", carrying what they could")
    }
}

/// How many refugees a camp accepted, told without naming what they fled.
pub open spec fn spec_reveal_refugees(camp: &str, n: i64) -> Seq<char> {
    if n > 0 {
        around("refugees found shelter at ", camp, "; they will not speak of what they fled")
    } else {
        around("refugees begged at ", camp, "'s gate, but there was no room, and they moved on")
    }
}

/// Describe how many refugees a camp accepted.
pub fn reveal_refugees(camp: &str, n: i64) -> (s: String)
    ensures
        s@ == spec_reveal_refugees(camp, n),
{
    if n > 0 {
        around_name("refugees found shelter at ", camp, "; they will not speak of what they fled")
    } else {
        around_name("refugees begged at ", camp, "'s gate, but there was no room, and they moved on")
    }
}

/// The unexplained gift a mysterious stranger left, or did not.
pub open spec fn spec_reveal_mystery_gift(camp: &str, n: i64) -> Seq<char> {
    if n > 0 {
        around("the stranger left something at ", camp, "'s gate and walked away without a word")
    } else {
        around("the stranger stood a while at ", camp, "'s gate, said nothing, and moved on")
    }
}

/// Describe the unexplained gift left by a mysterious stranger.
pub fn reveal_mystery_gift(camp: &str, n: i64) -> (s: String)
    ensures
        s@ == spec_reveal_mystery_gift(camp, n),
{
    if n > 0 {
        around_name("the stranger left something at ", camp, "'s gate and walked away without a word")
    } else {
        around_name("the stranger stood a while at ", camp, "'s gate, said nothing, and moved on")
    }
}

/// Strangers who arrived ready to join: how many threw in, or that there
/// was no room.
pub open spec fn spec_reveal_friendly(camp: &str, n: i64) -> Seq<char> {
    if n > 0 {
        "the strangers came in peace: "@ + decimal(n as nat) + " threw in with "@ + camp@
    } else {
        around("the strangers sought shelter at ", camp, ", but there was no room")
    }
}

/// Describe strangers who arrived ready to join.
pub fn reveal_friendly(camp: &str, n: i64) -> (s: String)
    ensures
        s@ == spec_reveal_friendly(camp, n),
{
    if n > 0 {
        let mut s = String::from_str("the strangers came in peace: ");
        let d = decimal_string(n as u64);
        s.append(d.as_str());
        s.append(" threw in with ");
        s.append(camp);
        s
    } else {
        around_name("the strangers sought shelter at ", camp, ", but there was no room")
    }
}

/// The goods a friendly band shared.
pub open spec fn spec_reveal_share(id: i64, camp: &str, n: i64) -> Seq<char> {
    if n > 0 {
        if spec_hash_pick(id, SALT_REVEAL, 2) == 0 {
            around(
                "the strangers proved traders: they left ",
                camp,
                " some supplies and moved on",
            )
        } else {
            around("the band shared what they could spare with ", camp, " and kept walking")
        }
    } else {
        around("the strangers were friendly but had nothing to spare for ", camp, "")
    }
}

/// Describe the goods a friendly band shared.
pub fn reveal_share(id: i64, camp: &str, n: i64) -> (s: String)
    ensures
        s@ == spec_reveal_share(id, camp, n),
{
    if n > 0 {
        if hash_pick(id, SALT_REVEAL, 2) == 0 {
            around_name("the strangers proved traders: they left ", camp, " some supplies and moved on")
        } else {
            around_name("the band shared what they could spare with ", camp, " and kept walking")
        }
    } else {
        around_name("the strangers were friendly but had nothing to spare for ", camp, "")
    }
}

/// Strangers revealing hostile intent.
pub open spec fn spec_reveal_aggressive(id: i64, camp: &str) -> Seq<char> {
    let i = spec_hash_pick(id, SALT_REVEAL, 3);
    if i == 0 {
        around("the strangers came for blood: ", camp, " is under attack")
    } else if i == 1 {
        around("it was a raid; the band fell on ", camp, "")
    } else {
        around("the newcomers drew blades at ", camp, "'s gate")
    }
}

/// Describe strangers revealing hostile intent.
pub fn reveal_aggressive(id: i64, camp: &str) -> (s: String)
    ensures
        s@ == spec_reveal_aggressive(id, camp),
{
    let i = hash_pick(id, SALT_REVEAL, 3);
    if i == 0 {
        around_name("the strangers came for blood: ", camp, " is under attack")
    } else if i == 1 {
        around_name("it was a raid; the band fell on ", camp, "")
    } else {
        around_name("the newcomers drew blades at ", camp, "'s gate")
    }
}

/// Cautious strangers deciding to leave.
pub open spec fn spec_reveal_wary(id: i64, camp: &str) -> Seq<char> {
    let i = spec_hash_pick(id, SALT_REVEAL, 3);
    if i == 0 {
        around("the strangers sized up ", camp, " and moved on")
    } else if i == 1 {
        around("the band eyed ", camp, "'s walls and kept walking")
    } else {
        around("the newcomers thought better of ", camp, " and left")
    }
}

/// Describe cautious strangers deciding to leave.
pub fn reveal_wary(id: i64, camp: &str) -> (s: String)
    ensures
        s@ == spec_reveal_wary(id, camp),
{
    let i = hash_pick(id, SALT_REVEAL, 3);
    if i == 0 {
        around_name("the strangers sized up ", camp, " and moved on")
    } else if i == 1 {
        around_name("the band eyed ", camp, "'s walls and kept walking")
    } else {
        around_name("the newcomers thought better of ", camp, " and left")
    }
}

/// The tribute taken by threatening strangers.
pub open spec fn spec_reveal_shakedown(id: i64, camp: &str, n: i64) -> Seq<char> {
    if n > 0 {
        if spec_hash_pick(id, SALT_REVEAL, 2) == 0 {
            around(
                "the strangers demanded tribute: ",
                camp,
                " paid a stack to see them gone",
            )
        } else {
            around("the band shook ", camp, " down for goods and left")
        }
    } else {
        around("the strangers menaced ", camp, " for tribute but found nothing worth taking")
    }
}

/// Describe the tribute taken by threatening strangers.
pub fn reveal_shakedown(id: i64, camp: &str, n: i64) -> (s: String)
    ensures
        s@ == spec_reveal_shakedown(id, camp, n),
{
    if n > 0 {
        if hash_pick(id, SALT_REVEAL, 2) == 0 {
            around_name("the strangers demanded tribute: ", camp, " paid a stack to see them gone")
        } else {
            around_name("the band shook ", camp, " down for goods and left")
        }
    } else {
        around_name("the strangers menaced ", camp, " for tribute but found nothing worth taking")
    }
}

/// The caps hold in every book: a wave crosses only below its cap, any
/// other band only below the band cap, and only for a group no band holds,
/// so a launch keeps at most `WAVE_MAX` refugee groups and `MAX_STRANGERS`
/// other bands in play, each group held once.
pub proof fn law_caps_hold(b: StrangerBook, m: StrangerMission)
    requires
        book_wf(b),
        room_for(b, m.intent),
        !claimed(b, m.group_id),
    ensures
        refugee_count(b.missions@.push(m)) <= WAVE_MAX,
        b.missions@.push(m).len() - refugee_count(b.missions@.push(m)) <= MAX_STRANGERS,
        forall|i: int, j: int|
            0 <= i < j < b.missions@.push(m).len() ==> (#[trigger] b.missions@.push(m)[i]).group_id
                != (#[trigger] b.missions@.push(m)[j]).group_id,
{
    reveal_with_fuel(Seq::<StrangerMission>::filter, 1);
    let s = b.missions@.push(m);
    assert(s.drop_last() =~= b.missions@);
    assert forall|i: int, j: int| 0 <= i < j < s.len() implies (#[trigger] s[i]).group_id != (
        #[trigger] s[j]).group_id by {
        if j == s.len() - 1 {
            assert(s[i] == b.missions@[i]);
            assert(b.missions@[i].group_id != m.group_id);
        } else {
            assert(s[i] == b.missions@[i] && s[j] == b.missions@[j]);
        }
    }
}

/// The hidden intent against the band's roll out of 100: join for rolls
/// 0 to 29, share 30 to 41, aggression 42 to 71, leave 72 to 84,
/// shakedown 85 to 99; a rolled band is never a refugee group nor the lone
/// stranger, who come only when the dread loop forces them.
pub proof fn law_intent_by_roll(r: u64, id: i64, now_bits: u32)
    ensures
        r < 100 ==> (intent_of_roll(r) == Intent::FriendlyJoin <==> r <= 29),
        r < 100 ==> (intent_of_roll(r) == Intent::FriendlyShare <==> 30 <= r <= 41),
        r < 100 ==> (intent_of_roll(r) == Intent::Aggressive <==> 42 <= r <= 71),
        r < 100 ==> (intent_of_roll(r) == Intent::WaryLeave <==> 72 <= r <= 84),
        r < 100 ==> (intent_of_roll(r) == Intent::Shakedown <==> 85 <= r <= 99),
        intent_of_roll(r) != Intent::Refugee && intent_of_roll(r) != Intent::Mysterious,
        spec_hash_pick(id, now_bits, 100) < 100,
        spec_roll_intent(id, now_bits) == Intent::FriendlyShare <==> 30 <= spec_hash_pick(id, now_bits, 100) <= 41,
        spec_roll_intent(id, now_bits) == Intent::Aggressive <==> 42 <= spec_hash_pick(id, now_bits, 100) <= 71,
{
    assert(spec_hash_pick(id, now_bits, 100) == crate::mix::spec_scramble(id as u64, now_bits as u64, 100));
}

} // verus!
