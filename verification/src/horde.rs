//! The horde: the counterweight to the alpha settlement. Whenever the
//! director fires it, the largest settlement above the pressure threshold
//! (AI or player alike) draws a zombie pack, more zombies the bigger the
//! camp and stronger strains at each size tier. Growth is safe until it
//! is conspicuous; first place is a detriment.
//!
//! This module holds the size tiers, the choice of the alpha, and the
//! tracker of packs on the prowl.

use vstd::prelude::*;

use crate::courier::Handle;

verus! {

/// Camps below this size draw no extra pressure.
pub const HORDE_MIN_MEMBERS: i64 = 16;

/// At most this many packs roam at once map-wide.
pub const MAX_PACKS: usize = 2;

/// The game's own infection types, in ascending menace.
#[derive(Clone, Copy, PartialEq, Eq, Debug)]
pub enum Strain {
    Green,
    Blue,
    Red,
    White,
}

/// The strain's name as the game's spawner expects it.
pub fn strain_name(s: Strain) -> (n: &'static str)
    ensures
        n == spec_strain_name(s),
{
    match s {
        Strain::Green => "Green",
        Strain::Blue => "Blue",
        Strain::Red => "Red",
        Strain::White => "White",
    }
}

/// The strain's name.
pub open spec fn spec_strain_name(s: Strain) -> &'static str {
    match s {
        Strain::Green => "Green",
        Strain::Blue => "Blue",
        Strain::Red => "Red",
        Strain::White => "White",
    }
}

/// A pack of `min..=max` zombies of a strain.
#[derive(Clone, Copy, PartialEq, Eq, Debug)]
pub struct PackSize {
    pub min: i64,
    pub max: i64,
    pub strain: Strain,
}

/// The size tiers: 44 or more living draw 10-12 White, 34 or more 8-10
/// Red, 24 or more 6-8 Blue, 16 or more 4-6 Green; smaller camps draw
/// nothing.
pub open spec fn spec_tier(members: i64) -> Option<PackSize> {
    if members >= 44 {
        Some(PackSize { min: 10, max: 12, strain: Strain::White })
    } else if members >= 34 {
        Some(PackSize { min: 8, max: 10, strain: Strain::Red })
    } else if members >= 24 {
        Some(PackSize { min: 6, max: 8, strain: Strain::Blue })
    } else if members >= 16 {
        Some(PackSize { min: 4, max: 6, strain: Strain::Green })
    } else {
        None
    }
}

/// The pack a camp of `members` living draws.
pub fn tier(members: i64) -> (t: Option<PackSize>)
    ensures
        t == spec_tier(members),
{
    if members >= 44 {
        Some(PackSize { min: 10, max: 12, strain: Strain::White })
    } else if members >= 34 {
        Some(PackSize { min: 8, max: 10, strain: Strain::Red })
    } else if members >= 24 {
        Some(PackSize { min: 6, max: 8, strain: Strain::Blue })
    } else if members >= 16 {
        Some(PackSize { min: 4, max: 6, strain: Strain::Green })
    } else {
        None
    }
}

/// A camp as the alpha scan sees it.
#[derive(Clone, Copy, Debug)]
pub struct AlphaCandidate {
    /// The player's camp, or an AI settlement (Normal or Looter).
    pub eligible: bool,
    /// Living non-zombie members.
    pub members: i64,
    /// The camp has a base centre to ring.
    pub has_centre: bool,
}

/// A camp that can be the alpha: eligible, placed, and at least
/// `HORDE_MIN_MEMBERS` strong.
pub open spec fn can_be_alpha(c: AlphaCandidate) -> bool {
    c.eligible && c.has_centre && c.members >= HORDE_MIN_MEMBERS
}

/// `i` is the first of the largest camps that can be the alpha.
pub open spec fn is_alpha(cs: Seq<AlphaCandidate>, i: int) -> bool {
    &&& 0 <= i < cs.len()
    &&& can_be_alpha(cs[i])
    &&& forall|j: int| 0 <= j < cs.len() && can_be_alpha(#[trigger] cs[j]) ==> cs[j].members <= cs[i].members
    &&& forall|j: int| 0 <= j < i && can_be_alpha(#[trigger] cs[j]) ==> cs[j].members < cs[i].members
}

/// The alpha: the largest settlement above the pressure threshold, the
/// first such when sizes tie.
pub fn pick_alpha(cs: &Vec<AlphaCandidate>) -> (r: Option<usize>)
    ensures
        r matches Some(i) ==> is_alpha(cs@, i as int),
        r is None <==> forall|j: int| 0 <= j < cs@.len() ==> !can_be_alpha(#[trigger] cs@[j]),
{
    let mut best: Option<usize> = None;
    let mut i: usize = 0;
    while i < cs.len()
        invariant
            i <= cs.len(),
            best is None <==> forall|j: int| 0 <= j < i ==> !can_be_alpha(#[trigger] cs@[j]),
            best matches Some(b) ==> {
                &&& b < i
                &&& can_be_alpha(cs@[b as int])
                &&& forall|j: int| 0 <= j < i && can_be_alpha(#[trigger] cs@[j]) ==> cs@[j].members <= cs@[b as int].members
                &&& forall|j: int| 0 <= j < b && can_be_alpha(#[trigger] cs@[j]) ==> cs@[j].members < cs@[b as int].members
            },
        decreases cs.len() - i,
    {
        let c = cs[i];
        if c.eligible && c.has_centre && c.members >= HORDE_MIN_MEMBERS {
            match best {
                None => {
                    best = Some(i);
                },
                Some(b) => {
                    if c.members > cs[b].members {
                        best = Some(i);
                    }
                },
            }
        }
        i = i + 1;
    }
    best
}

/// The current alpha's name and size, for the storyteller readout: `None`
/// when no camp is over the pressure threshold.
pub fn alpha_view(cs: &Vec<AlphaCandidate>, names: &Vec<String>) -> (r: Option<(String, i64)>)
    requires
        names@.len() == cs@.len(),
    ensures
        r is None <==> forall|j: int| 0 <= j < cs@.len() ==> !can_be_alpha(#[trigger] cs@[j]),
        r matches Some((n, m)) ==> exists|i: int|
            is_alpha(cs@, i) && n == names@[i] && m == cs@[i].members,
{
    match pick_alpha(cs) {
        Some(i) => {
            let n = names[i].clone();
            Some((n, cs[i].members))
        },
        None => None,
    }
}

/// A pack on the prowl: the camp it was sent at and the pack's handle.
#[derive(Clone, Copy, PartialEq, Eq, Debug)]
pub struct Pack {
    pub target_id: i64,
    pub pack_h: Handle,
}

/// The packs on the prowl.
#[derive(Clone, Debug)]
pub struct PackTracker {
    pub packs: Vec<Pack>,
}

/// The tracker keeps within its cap and never sends two packs at one camp.
pub open spec fn tracker_wf(t: PackTracker) -> bool {
    &&& t.packs@.len() <= MAX_PACKS
    &&& forall|i: int, j: int|
        0 <= i < j < t.packs@.len() ==> (#[trigger] t.packs@[i]).target_id != (
        #[trigger] t.packs@[j]).target_id
}

/// A camp already has a pack sent at it.
pub open spec fn targeted(t: PackTracker, id: i64) -> bool {
    exists|i: int| 0 <= i < t.packs@.len() && #[trigger] t.packs@[i].target_id == id
}

/// An empty tracker.
pub fn new_tracker() -> (t: PackTracker)
    ensures
        t.packs@.len() == 0,
        tracker_wf(t),
{
    PackTracker { packs: Vec::new() }
}

/// How many packs are tracked as roaming.
pub fn live_pack_count(t: &PackTracker) -> (n: usize)
    ensures
        n == t.packs@.len(),
{
    t.packs.len()
}

/// No room for another pack.
pub fn is_full(t: &PackTracker) -> (b: bool)
    ensures
        b == (t.packs@.len() >= MAX_PACKS),
{
    t.packs.len() >= MAX_PACKS
}

/// A camp already has a pack sent at it.
pub fn is_targeted(t: &PackTracker, id: i64) -> (b: bool)
    ensures
        b == targeted(*t, id),
{
    let mut i: usize = 0;
    while i < t.packs.len()
        invariant
            i <= t.packs@.len(),
            forall|j: int| 0 <= j < i ==> #[trigger] t.packs@[j].target_id != id,
        decreases t.packs@.len() - i,
    {
        if t.packs[i].target_id == id {
            return true;
        }
        i = i + 1;
    }
    false
}

/// Track a pack sent at a camp: only below the cap, and never a second
/// pack at the same camp.
pub fn track(t: &mut PackTracker, target_id: i64, pack_h: Handle)
    requires
        tracker_wf(*old(t)),
        old(t).packs@.len() < MAX_PACKS,
        !targeted(*old(t), target_id),
    ensures
        final(t).packs@ == old(t).packs@.push(Pack { target_id, pack_h }),
        tracker_wf(*final(t)),
        targeted(*final(t), target_id),
{
    t.packs.push(Pack { target_id, pack_h });
    assert(final(t).packs@[final(t).packs@.len() - 1].target_id == target_id);
}

/// Forget the packs whose members are all dead (`alive[i]` says whether
/// pack `i` still has a living member). Returns the handles of the
/// forgotten packs, which the caller releases.
pub fn prune(t: &mut PackTracker, alive: &Vec<bool>) -> (gone: Vec<Handle>)
    requires
        alive@.len() == old(t).packs@.len(),
        tracker_wf(*old(t)),
    ensures
        final(t).packs@ == keep_alive(old(t).packs@, alive@),
        tracker_wf(*final(t)),
        gone@ == dead_handles(old(t).packs@, alive@),
        gone@.len() + final(t).packs@.len() == old(t).packs@.len(),
{
    let ghost old_packs = t.packs@;
    let ghost mut idx: Seq<int> = Seq::empty();
    let mut kept: Vec<Pack> = Vec::new();
    let mut gone: Vec<Handle> = Vec::new();
    let mut i: usize = 0;
    while i < t.packs.len()
        invariant
            t.packs@ == old_packs,
            alive@.len() == old_packs.len(),
            tracker_wf(*old(t)),
            old(t).packs@ == old_packs,
            i <= old_packs.len(),
            kept@ == keep_alive(old_packs.take(i as int), alive@.take(i as int)),
            gone@ == dead_handles(old_packs.take(i as int), alive@.take(i as int)),
            gone@.len() + kept@.len() == i,
            idx.len() == kept@.len(),
            forall|k: int| 0 <= k < idx.len() ==> 0 <= #[trigger] idx[k] < i,
            forall|k: int| 0 <= k < idx.len() ==> kept@[k] == old_packs[#[trigger] idx[k]],
            forall|a: int, b: int| 0 <= a < b < idx.len() ==> #[trigger] idx[a] < #[trigger] idx[b],
        decreases old_packs.len() - i,
    {
        proof {
            assert(old_packs.take(i + 1).drop_last() =~= old_packs.take(i as int));
            assert(alive@.take(i + 1).drop_last() =~= alive@.take(i as int));
        }
        if alive[i] {
            kept.push(t.packs[i]);
            proof {
                idx = idx.push(i as int);
            }
        } else {
            gone.push(t.packs[i].pack_h);
        }
        i = i + 1;
    }
    assert(old_packs.take(old_packs.len() as int) =~= old_packs);
    assert(alive@.take(alive@.len() as int) =~= alive@);
    assert forall|a: int, b: int| 0 <= a < b < kept@.len() implies (#[trigger] kept@[a]).target_id != (#[trigger] kept@[b]).target_id by {
        assert(kept@[a] == old_packs[idx[a]]);
        assert(kept@[b] == old_packs[idx[b]]);
        assert(idx[a] < idx[b]);
    }
    t.packs = kept;
    gone
}

/// The packs whose flag says they still have a living member, in order.
pub open spec fn keep_alive(ps: Seq<Pack>, alive: Seq<bool>) -> Seq<Pack>
    decreases ps.len(),
{
    if ps.len() == 0 || alive.len() != ps.len() {
        Seq::empty()
    } else {
        let rest = keep_alive(ps.drop_last(), alive.drop_last());
        if alive.last() {
            rest.push(ps.last())
        } else {
            rest
        }
    }
}

/// The handles of the packs whose flag says nobody in them lives, in
/// order.
pub open spec fn dead_handles(ps: Seq<Pack>, alive: Seq<bool>) -> Seq<Handle>
    decreases ps.len(),
{
    if ps.len() == 0 || alive.len() != ps.len() {
        Seq::empty()
    } else {
        let rest = dead_handles(ps.drop_last(), alive.drop_last());
        if alive.last() {
            rest
        } else {
            rest.push(ps.last().pack_h)
        }
    }
}

/// The menace of a strain: the game's infection types in ascending order.
pub open spec fn menace(s: Strain) -> int {
    match s {
        Strain::Green => 1,
        Strain::Blue => 2,
        Strain::Red => 3,
        Strain::White => 4,
    }
}

/// Each size band draws its documented pack: camps under 16 draw none;
/// 16 to 23 four to six Green; 24 to 33 six to eight Blue; 34 to 43 eight
/// to ten Red; 44 and over ten to twelve White. A bigger camp never draws
/// a smaller pack nor a milder strain.
pub proof fn law_tiers_by_size(m: i64, n: i64)
    ensures
        m < 16 ==> spec_tier(m) is None,
        16 <= m < 24 ==> spec_tier(m) == Some(PackSize { min: 4, max: 6, strain: Strain::Green }),
        24 <= m < 34 ==> spec_tier(m) == Some(PackSize { min: 6, max: 8, strain: Strain::Blue }),
        34 <= m < 44 ==> spec_tier(m) == Some(PackSize { min: 8, max: 10, strain: Strain::Red }),
        44 <= m ==> spec_tier(m) == Some(PackSize { min: 10, max: 12, strain: Strain::White }),
        m <= n && spec_tier(m) is Some ==> spec_tier(n) is Some && spec_tier(m).unwrap().min
            <= spec_tier(n).unwrap().min && spec_tier(m).unwrap().max <= spec_tier(n).unwrap().max
            && menace(spec_tier(m).unwrap().strain) <= menace(spec_tier(n).unwrap().strain),
{
}

} // verus!
