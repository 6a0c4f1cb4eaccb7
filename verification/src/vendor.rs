//! Traveling vendor: a storyteller event, the opportunity kind. A
//! well-stocked camp sends a member out as a merchant with real non-food
//! wares, walked over as a one-member squad, swapped at the destination,
//! and the payment carried home. It favors the player's gate but will
//! visit another camp too.

use vstd::prelude::*;

use crate::courier::{Handle, Leg};
use crate::geo::Tile;
use crate::mix::{rng, spec_rng};

verus! {

/// A camp needs this many living members to spare one as a trader.
pub const VENDOR_MIN_MEMBERS: i64 = 3;

/// Non-food ware stacks the vendor carries out to sell.
pub const VENDOR_GOODS_STACKS: i64 = 2;

/// Non-food stacks taken as payment and carried home.
pub const VENDOR_PAY_STACKS: i64 = 1;

/// At most this many vendors on the road map-wide.
pub const MAX_VENDORS: usize = 2;

/// An in-flight vendor; it keeps its source, target and trader handles
/// until cleanup releases all three.
#[derive(Clone, Debug)]
pub struct VendorMission {
    pub source_h: Handle,
    pub source_id: i64,
    pub source_name: String,
    pub target_h: Handle,
    pub target_name: String,
    pub target_is_player: bool,
    pub trader_h: Handle,
    pub trader_name: String,
    pub squad_id: i64,
    pub home: Tile,
    pub leg: Leg,
    pub brought: i64,
    pub sold: i64,
    pub paid: i64,
    pub deadline_bits: u32,
}

/// The vendors on the road.
#[derive(Clone, Debug)]
pub struct VendorBook {
    pub missions: Vec<VendorMission>,
}

/// A camp already has a vendor on the road.
pub open spec fn source_active(b: VendorBook, id: i64) -> bool {
    exists|i: int| 0 <= i < b.missions@.len() && #[trigger] b.missions@[i].source_id == id
}

/// A book as every pass leaves it: at most `MAX_VENDORS` on the road, and
/// no camp with two vendors out at once.
pub open spec fn book_wf(b: VendorBook) -> bool {
    &&& b.missions@.len() <= MAX_VENDORS
    &&& forall|i: int, j: int|
        0 <= i < j < b.missions@.len() ==> (#[trigger] b.missions@[i]).source_id != (
        #[trigger] b.missions@[j]).source_id
}

/// An empty book.
pub fn new_book() -> (b: VendorBook)
    ensures
        b.missions@.len() == 0,
        book_wf(b),
{
    VendorBook { missions: Vec::new() }
}

/// How many vendors are on the road.
pub fn active_count(b: &VendorBook) -> (n: usize)
    ensures
        n == b.missions@.len(),
{
    b.missions.len()
}

/// Check whether a camp already has a vendor on the road.
pub fn mission_active_source(b: &VendorBook, id: i64) -> (r: bool)
    ensures
        r == source_active(*b, id),
{
    let mut i: usize = 0;
    while i < b.missions.len()
        invariant
            i <= b.missions@.len(),
            forall|j: int| 0 <= j < i ==> #[trigger] b.missions@[j].source_id != id,
        decreases b.missions@.len() - i,
    {
        if b.missions[i].source_id == id {
            return true;
        }
        i = i + 1;
    }
    false
}

/// Another vendor may set out only below the cap.
pub fn may_launch(b: &VendorBook) -> (r: bool)
    ensures
        r == (b.missions@.len() < MAX_VENDORS),
{
    b.missions.len() < MAX_VENDORS
}

/// Put a vendor on the road, below the cap and from a camp with no vendor
/// out: the cap and the one-vendor-per-camp rule still hold after.
pub fn launch(b: &mut VendorBook, m: VendorMission)
    requires
        old(b).missions@.len() < MAX_VENDORS,
        !source_active(*old(b), m.source_id),
    ensures
        final(b).missions@ == old(b).missions@.push(m),
        source_active(*final(b), m.source_id),
        book_wf(*old(b)) ==> book_wf(*final(b)),
{
    let ghost before = b.missions@;
    b.missions.push(m);
    assert(final(b).missions@[final(b).missions@.len() - 1].source_id == m.source_id);
    proof {
        let after = b.missions@;
        if book_wf(*old(b)) {
            assert forall|i: int, j: int| 0 <= i < j < after.len() implies (#[trigger] after[i]).source_id
                != (#[trigger] after[j]).source_id by {
                assert(after[i] == before[i]);
                if j < before.len() {
                    assert(after[j] == before[j]);
                }
            }
        }
    }
}

/// Take a finished vendor off the road.
pub fn finish(b: &mut VendorBook, i: usize) -> (m: VendorMission)
    requires
        i < old(b).missions@.len(),
    ensures
        m == old(b).missions@[i as int],
        final(b).missions@ == old(b).missions@.remove(i as int),
        book_wf(*old(b)) ==> book_wf(*final(b)) && !source_active(*final(b), m.source_id),
{
    let ghost before = b.missions@;
    let m = b.missions.remove(i);
    proof {
        let after = b.missions@;
        if book_wf(*old(b)) {
            assert forall|x: int, y: int| 0 <= x < y < after.len() implies (#[trigger] after[x]).source_id
                != (#[trigger] after[y]).source_id by {
                let x2 = if x < i { x } else { x + 1 };
                let y2 = if y < i { y } else { y + 1 };
                assert(after[x] == before[x2] && after[y] == before[y2]);
            }
            if source_active(*b, m.source_id) {
                let k = choose|k: int| 0 <= k < after.len() && #[trigger] after[k].source_id == m.source_id;
                let k2 = if k < i { k } else { k + 1 };
                assert(after[k] == before[k2]);
            }
        }
    }
    m
}

/// A camp as the vendor scan sees it.
#[derive(Clone, Copy, Debug)]
pub struct VendorCamp {
    pub handle: Handle,
    pub id: i64,
    pub is_player: bool,
    pub centre: Tile,
    /// Living non-zombie members.
    pub members: i64,
    /// The camp has an invasion target.
    pub at_war: bool,
    /// Live threats at its door.
    pub threats: i64,
}

/// A camp can spare a trader: an AI camp with enough people, at peace,
/// with no threat at its door.
pub open spec fn eligible_source(c: VendorCamp) -> bool {
    !c.is_player && c.members >= VENDOR_MIN_MEMBERS && !c.at_war && c.threats == 0
}

/// The indices of the camps that may send a vendor now, in order.
pub open spec fn source_indices(cs: Seq<VendorCamp>, b: VendorBook) -> Seq<int> {
    Seq::new(cs.len(), |i: int| i).filter(
        |i: int| eligible_source(cs[i]) && !source_active(b, cs[i].id),
    )
}

/// The source the roll picks among the eligible camps.
pub open spec fn spec_pick_source(cs: Seq<VendorCamp>, b: VendorBook, now_bits: u32) -> Option<int> {
    let s = source_indices(cs, b);
    if s.len() == 0 {
        None
    } else {
        Some(s[spec_rng(now_bits, 0, s.len() as u64) as int])
    }
}

/// Pick the camp that sends the vendor.
pub fn pick_source(cs: &Vec<VendorCamp>, b: &VendorBook, now_bits: u32) -> (r: Option<usize>)
    ensures
        r matches Some(i) ==> spec_pick_source(cs@, *b, now_bits) == Some(i as int),
        r is None ==> spec_pick_source(cs@, *b, now_bits) is None,
{
    let ghost all = Seq::new(cs@.len(), |i: int| i);
    let mut sources: Vec<usize> = Vec::new();
    let mut i: usize = 0;
    while i < cs.len()
        invariant
            i <= cs@.len(),
            all == Seq::new(cs@.len(), |i: int| i),
            sources@.map_values(|x: usize| x as int) == all.take(i as int).filter(
                |k: int| eligible_source(cs@[k]) && !source_active(*b, cs@[k].id),
            ),
        decreases cs@.len() - i,
    {
        proof {
            reveal_with_fuel(Seq::<int>::filter, 1);
            assert(all.take(i + 1).drop_last() =~= all.take(i as int));
        }
        let c = cs[i];
        let active = mission_active_source(b, c.id);
        if !c.is_player && c.members >= VENDOR_MIN_MEMBERS && !c.at_war && c.threats == 0 && !active {
            let ghost before = sources@;
            sources.push(i);
            proof {
                assert(sources@.map_values(|x: usize| x as int) =~= before.map_values(|x: usize| x as int).push(i as int));
            }
        }
        i = i + 1;
    }
    assert(all.take(cs@.len() as int) =~= all);
    if sources.len() == 0 {
        return None;
    }
    let k = rng(now_bits, 0, sources.len() as u64);
    assert(sources@.map_values(|x: usize| x as int)[k as int] == sources@[k as int] as int);
    Some(sources[k as usize])
}

/// A camp the vendor may visit: not the source, not hostile to it.
pub open spec fn valid_target(cs: Seq<VendorCamp>, src: int, hostile: Seq<bool>, i: int) -> bool {
    cs[i].handle != cs[src].handle && !hostile[i]
}

/// The indices of the camps the vendor may visit, in order.
pub open spec fn target_indices(cs: Seq<VendorCamp>, src: int, hostile: Seq<bool>) -> Seq<int> {
    Seq::new(cs.len(), |i: int| i).filter(|i: int| valid_target(cs, src, hostile, i))
}

/// The target: the player's gate on an even roll when the player is a
/// valid target, otherwise any valid target by a second roll.
pub open spec fn spec_pick_target(cs: Seq<VendorCamp>, src: int, hostile: Seq<bool>, now_bits: u32) -> Option<int> {
    let t = target_indices(cs, src, hostile);
    if t.len() == 0 {
        None
    } else {
        let players = t.filter(|i: int| cs[i].is_player);
        if players.len() > 0 && spec_rng(now_bits, 1, 2) == 0 {
            Some(players[0])
        } else {
            Some(t[spec_rng(now_bits, 2, t.len() as u64) as int])
        }
    }
}

/// Pick where the vendor goes. `hostile[i]` says camp `i` is hostile to
/// the source.
pub fn pick_target(cs: &Vec<VendorCamp>, src: usize, hostile: &Vec<bool>, now_bits: u32) -> (r: Option<usize>)
    requires
        src < cs@.len(),
        hostile@.len() == cs@.len(),
    ensures
        r matches Some(i) ==> spec_pick_target(cs@, src as int, hostile@, now_bits) == Some(i as int),
        r is None ==> spec_pick_target(cs@, src as int, hostile@, now_bits) is None,
{
    let ghost all = Seq::new(cs@.len(), |i: int| i);
    let mut targets: Vec<usize> = Vec::new();
    let mut player: Option<usize> = None;
    let mut i: usize = 0;
    while i < cs.len()
        invariant
            i <= cs@.len(),
            src < cs@.len(),
            hostile@.len() == cs@.len(),
            all == Seq::new(cs@.len(), |i: int| i),
            targets@.map_values(|x: usize| x as int) == all.take(i as int).filter(
                |k: int| valid_target(cs@, src as int, hostile@, k),
            ),
            player is None <==> all.take(i as int).filter(
                |k: int| valid_target(cs@, src as int, hostile@, k),
            ).filter(|k: int| cs@[k].is_player).len() == 0,
            player matches Some(p) ==> all.take(i as int).filter(
                |k: int| valid_target(cs@, src as int, hostile@, k),
            ).filter(|k: int| cs@[k].is_player)[0] == p as int,
        decreases cs@.len() - i,
    {
        let ghost f0 = all.take(i as int).filter(|k: int| valid_target(cs@, src as int, hostile@, k));
        proof {
            reveal_with_fuel(Seq::<int>::filter, 1);
            assert(all.take(i + 1).drop_last() =~= all.take(i as int));
        }
        let c = cs[i];
        if c.handle != cs[src].handle && !hostile[i] {
            let ghost before = targets@;
            targets.push(i);
            proof {
                assert(targets@.map_values(|x: usize| x as int) =~= before.map_values(|x: usize| x as int).push(i as int));
                let f1 = all.take(i + 1).filter(|k: int| valid_target(cs@, src as int, hostile@, k));
                assert(f1 == f0.push(i as int));
                assert(f1.drop_last() =~= f0);
                if f0.filter(|k: int| cs@[k].is_player).len() > 0 {
                    lemma_filter_prefix_first(f1, |k: int| cs@[k].is_player);
                }
            }
            if c.is_player && player.is_none() {
                player = Some(i);
                proof {
                    let f1 = all.take(i + 1).filter(|k: int| valid_target(cs@, src as int, hostile@, k));
                    assert(f1.drop_last() =~= f0);
                    assert(f1.filter(|k: int| cs@[k].is_player) =~= f0.filter(|k: int| cs@[k].is_player).push(i as int));
                }
            }
        }
        i = i + 1;
    }
    assert(all.take(cs@.len() as int) =~= all);
    if targets.len() == 0 {
        return None;
    }
    if let Some(p) = player {
        if rng(now_bits, 1, 2) == 0 {
            return Some(p);
        }
    }
    let k = rng(now_bits, 2, targets.len() as u64);
    assert(targets@.map_values(|x: usize| x as int)[k as int] == targets@[k as int] as int);
    Some(targets[k as usize])
}

/// Filtering a sequence that grew by one element keeps the first
/// match when one was already there.
proof fn lemma_filter_prefix_first(s: Seq<int>, p: spec_fn(int) -> bool)
    requires
        s.len() > 0,
        s.drop_last().filter(p).len() > 0,
    ensures
        s.filter(p).len() > 0,
        s.filter(p)[0] == s.drop_last().filter(p)[0],
{
    reveal_with_fuel(Seq::<int>::filter, 1);
    assert(s.filter(p) == if p(s.last()) { s.drop_last().filter(p).push(s.last()) } else { s.drop_last().filter(p) });
}

/// What happens on the way out.
#[derive(Clone, Copy, PartialEq, Eq, Debug)]
pub enum VendorGoing {
    /// The destination has no one left: turn for home unsold.
    HostFell,
    /// Still walking.
    Walking,
    /// At the destination: collect payment first, then hand over the
    /// wares, then turn for home.
    Trade,
}

/// The decision on the way out.
pub open spec fn spec_going(target_alive: bool, arrived: bool) -> VendorGoing {
    if !target_alive {
        VendorGoing::HostFell
    } else if !arrived {
        VendorGoing::Walking
    } else {
        VendorGoing::Trade
    }
}

/// Decide one pass on the way out.
pub fn going(target_alive: bool, arrived: bool) -> (g: VendorGoing)
    ensures
        g == spec_going(target_alive, arrived),
{
    if !target_alive {
        VendorGoing::HostFell
    } else if !arrived {
        VendorGoing::Walking
    } else {
        VendorGoing::Trade
    }
}

/// Record the swap and turn for home.
pub fn traded(m: VendorMission, paid: i64, sold: i64) -> (r: VendorMission)
    ensures
        r == (VendorMission { leg: Leg::Returning, paid, sold, ..m }),
{
    VendorMission { leg: Leg::Returning, paid, sold, ..m }
}

/// The trip home pays when something was sold; the chronicle's gate
/// line posts only when the player's camp bought something.
pub fn announce_sale(m: &VendorMission) -> (b: bool)
    ensures
        b == (m.target_is_player && m.sold > 0),
{
    m.target_is_player && m.sold > 0
}

} // verus!
