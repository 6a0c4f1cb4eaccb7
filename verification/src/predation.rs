//! Predation: a settlement whose invasion target has been beaten down to
//! a last handful consumes it. The beaten camp's living humans are
//! absorbed into the winner and carry its stored goods home, round-robin,
//! as far as their hands allow; the emptied husk dies and its genome
//! leaves the pool.
//!
//! This module holds the decisions: which war is ripe, who is absorbed,
//! which carrier takes the next stack and when the looting stops.

use vstd::prelude::*;

use crate::camp::{CommunityKind, MemberSnapshot, is_settlement_kind};
use crate::courier::Handle;

verus! {

/// A beaten camp with this many or fewer living members is ripe to be
/// consumed.
pub const CONSUME_AT_OR_BELOW: i64 = 2;

/// The most stacks one conquest carries off.
pub const LOOT_CAP: u64 = 500;

/// A camp is beaten: someone is still alive in it, and either only a
/// last handful is, or nobody is conscious.
pub open spec fn spec_beaten(living: i64, anyone_conscious: bool) -> bool {
    living >= 1 && (living <= CONSUME_AT_OR_BELOW || !anyone_conscious)
}

/// Whether a camp with `living` members is beaten.
pub fn is_beaten(living: i64, anyone_conscious: bool) -> (b: bool)
    ensures
        b == spec_beaten(living, anyone_conscious),
{
    living >= 1 && (living <= CONSUME_AT_OR_BELOW || !anyone_conscious)
}

/// A settlement and the camp it is invading, as the conquest scan sees
/// them.
#[derive(Clone, Copy, Debug)]
pub struct WarFront {
    pub camp: Handle,
    pub kind: CommunityKind,
    pub ai_settlement: bool,
    /// The camp's living, non-zombie members.
    pub living: i64,
    /// The camp it is invading, if any.
    pub target: Option<Handle>,
    /// The target's living, non-zombie members.
    pub target_living: i64,
    /// Anyone in the target is conscious.
    pub target_anyone_conscious: bool,
}

/// The winner of this front may consume its target now.
pub open spec fn ripe(f: WarFront) -> bool {
    &&& is_settlement_kind(f.kind)
    &&& f.ai_settlement
    &&& f.living != 0
    &&& f.target is Some
    &&& spec_beaten(f.target_living, f.target_anyone_conscious)
}

/// The first ripe front: one conquest per scan.
pub fn pick_conquest(fronts: &Vec<WarFront>) -> (r: Option<usize>)
    ensures
        r matches Some(i) ==> i < fronts@.len() && ripe(fronts@[i as int]) && forall|j: int|
            0 <= j < i ==> !ripe(#[trigger] fronts@[j]),
        r is None ==> forall|j: int| 0 <= j < fronts@.len() ==> !ripe(#[trigger] fronts@[j]),
{
    let mut i: usize = 0;
    while i < fronts.len()
        invariant
            i <= fronts.len(),
            forall|j: int| 0 <= j < i ==> !ripe(#[trigger] fronts@[j]),
        decreases fronts.len() - i,
    {
        let f = fronts[i];
        let settlement = matches!(f.kind, CommunityKind::Normal | CommunityKind::Looter);
        if settlement && f.ai_settlement && f.living != 0 && f.target.is_some() && is_beaten(
            f.target_living,
            f.target_anyone_conscious,
        ) {
            return Some(i);
        }
        i = i + 1;
    }
    None
}

/// Absorbed by the winner: alive, not a zombie, and human. Animals stay
/// with the husk.
pub open spec fn absorbed(m: MemberSnapshot) -> bool {
    m.alive && m.human
}

/// The beaten camp's members who join the winner, in the camp's order.
pub fn absorbed_members(ms: &Vec<MemberSnapshot>) -> (r: Vec<MemberSnapshot>)
    ensures
        r@ == ms@.filter(|m: MemberSnapshot| absorbed(m)),
{
    let mut out: Vec<MemberSnapshot> = Vec::new();
    let mut i: usize = 0;
    while i < ms.len()
        invariant
            i <= ms.len(),
            out@ == ms@.take(i as int).filter(|m: MemberSnapshot| absorbed(m)),
        decreases ms.len() - i,
    {
        let m = ms[i];
        proof {
            reveal_with_fuel(Seq::<MemberSnapshot>::filter, 1);
            assert(ms@.take(i + 1).drop_last() =~= ms@.take(i as int));
        }
        if m.alive && m.human {
            out.push(m);
        }
        i = i + 1;
    }
    assert(ms@.take(ms.len() as int) =~= ms@);
    out
}

/// The carrier that takes the next stack after `carried` stacks: the
/// carriers take turns.
pub fn carrier_for(carried: u64, carriers: usize) -> (k: usize)
    requires
        carriers > 0,
    ensures
        k == carried % (carriers as u64),
        k < carriers,
{
    (carried % (carriers as u64)) as usize
}

/// Looting stops once this many stacks have been carried off.
pub fn loot_done(carried: u64) -> (b: bool)
    ensures
        b == (carried >= LOOT_CAP),
{
    carried >= LOOT_CAP
}

/// A camp is only ever consumed while someone in it still lives, and a
/// camp with three or more living members only when nobody in it is
/// conscious.
pub proof fn law_only_the_beaten_are_consumed(f: WarFront)
    requires
        ripe(f),
    ensures
        f.target_living >= 1,
        f.target_living > CONSUME_AT_OR_BELOW ==> !f.target_anyone_conscious,
        f.living != 0,
{
}

/// Over any run of stacks the carriers take turns: stack `n` and stack
/// `n + carriers` go to the same carrier, and consecutive stacks to
/// different carriers when there are two or more.
pub proof fn law_carriers_take_turns(n: u64, carriers: usize)
    requires
        carriers > 0,
    ensures
        (n + carriers) % (carriers as int) == (n as int) % (carriers as int),
        carriers >= 2 ==> (n + 1) % (carriers as int) != (n as int) % (carriers as int),
{
    let c = carriers as int;
    let ni = n as int;
    vstd::arithmetic::div_mod::lemma_mod_add_multiples_vanish(ni, c);
    if carriers >= 2 {
        assert((ni + 1) % c != ni % c) by {
            vstd::arithmetic::div_mod::lemma_fundamental_div_mod(ni, c);
            vstd::arithmetic::div_mod::lemma_fundamental_div_mod(ni + 1, c);
            vstd::arithmetic::div_mod::lemma_mod_bound(ni, c);
            vstd::arithmetic::div_mod::lemma_mod_bound(ni + 1, c);
            if (ni + 1) % c == ni % c {
                assert(c * ((ni + 1) / c) - c * (ni / c) == 1);
                vstd::arithmetic::mul::lemma_mul_is_distributive_sub(c, (ni + 1) / c, ni / c);
                let d = (ni + 1) / c - ni / c;
                assert(c * d == 1);
                if d <= 0 {
                    vstd::arithmetic::mul::lemma_mul_inequality(d, 0, c);
                    assert(d * c <= 0 * c);
                    vstd::arithmetic::mul::lemma_mul_is_commutative(d, c);
                } else {
                    vstd::arithmetic::mul::lemma_mul_inequality(1, d, c);
                    vstd::arithmetic::mul::lemma_mul_is_commutative(d, c);
                }
            }
        }
    }
}

} // verus!
