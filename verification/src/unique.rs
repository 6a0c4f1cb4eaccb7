//! Named uniques: one-of-a-kind items that enter only with the incursion
//! that fits them, and never twice in one save. The Colonel's Rifle: each
//! military band that crosses the edge has a one-in-five chance to carry
//! it in, until one does; from then on it never enters again.
//!
//! This module keeps the book of uniques that have entered, rolls the
//! chance, and picks who carries the item; spawning it and the sidecar
//! that remembers the book across reloads are the game's and the app's.

use vstd::prelude::*;

use crate::camp::MemberSnapshot;
use crate::courier::Handle;
use crate::mix::spec_rng;

verus! {

/// The rifle's prototype name.
pub const COLONELS_RIFLE: &'static str = "ColonelsRifle";

/// Percent chance per military band until the rifle enters.
pub const ENTER_ROLL_PCT: u64 = 20;

/// The salt of the rifle's roll.
pub const RIFLE_SALT: u64 = 7793;

/// The uniques that have entered this save, each once.
pub struct UniqueBook {
    pub entered: Vec<String>,
}

/// The names the book holds.
pub open spec fn names(b: UniqueBook) -> Seq<Seq<char>> {
    b.entered@.map_values(|s: String| s@)
}

/// A book as it is read back: every name once.
pub open spec fn book_wf(b: UniqueBook) -> bool {
    names(b).no_duplicates()
}

/// An empty book.
pub fn new_unique_book() -> (b: UniqueBook)
    ensures
        names(b) == Seq::<Seq<char>>::empty(),
        book_wf(b),
{
    let b = UniqueBook { entered: Vec::new() };
    assert(names(b) =~= Seq::<Seq<char>>::empty());
    b
}

/// Whether the unique has entered.
pub fn has_entered(b: &UniqueBook, name: &String) -> (r: bool)
    ensures
        r == names(*b).contains(name@),
{
    let mut i: usize = 0;
    while i < b.entered.len()
        invariant
            i <= b.entered.len(),
            forall|j: int| 0 <= j < i ==> names(*b)[j] != name@,
        decreases b.entered.len() - i,
    {
        if b.entered[i] == *name {
            assert(names(*b)[i as int] == name@);
            return true;
        }
        i = i + 1;
    }
    false
}

/// Record that a unique entered; a name already there is not added
/// again.
pub fn mark_entered(b: &mut UniqueBook, name: String)
    requires
        book_wf(*old(b)),
    ensures
        book_wf(*final(b)),
        names(*final(b)) == (if names(*old(b)).contains(name@) {
            names(*old(b))
        } else {
            names(*old(b)).push(name@)
        }),
{
    if !has_entered(b, &name) {
        let ghost before = names(*b);
        b.entered.push(name);
        proof {
            assert(names(*b) =~= before.push(name@));
            assert forall|x: int, y: int| 0 <= x < names(*b).len() && 0 <= y < names(*b).len() && x != y implies names(*b)[x] != names(*b)[y] by {
                if x == before.len() as int {
                    assert(!before.contains(names(*b)[x]));
                    assert(names(*b)[y] == before[y]);
                } else if y == before.len() as int {
                    assert(names(*b)[x] == before[x]);
                } else {
                    assert(names(*b)[x] == before[x] && names(*b)[y] == before[y]);
                }
            }
        }
    }
}

/// The rifle's roll on a band's crossing at clock `now_bits`.
pub open spec fn spec_rifle_rolls(now_bits: u32) -> bool {
    spec_rng(now_bits, RIFLE_SALT, 100) < ENTER_ROLL_PCT
}

/// The rifle crosses with this band: it has not entered yet and the
/// roll succeeds.
pub open spec fn spec_rifle_enters(b: UniqueBook, now_bits: u32) -> bool {
    !names(b).contains(COLONELS_RIFLE@) && spec_rifle_rolls(now_bits)
}

/// Whether the rifle crosses with the band that crosses at `now_bits`.
pub fn rifle_enters(b: &UniqueBook, now_bits: u32) -> (r: bool)
    ensures
        r == spec_rifle_enters(*b, now_bits),
{
    let name = String::from_str(COLONELS_RIFLE);
    if has_entered(b, &name) {
        return false;
    }
    crate::mix::rng(now_bits, RIFLE_SALT, 100) < ENTER_ROLL_PCT
}

/// The handle of the first living member, in the band's order.
pub open spec fn first_alive(ms: Seq<MemberSnapshot>) -> Option<Handle>
    decreases ms.len(),
{
    if ms.len() == 0 {
        None
    } else if ms[0].alive {
        Some(ms[0].handle)
    } else {
        first_alive(ms.drop_first())
    }
}

/// Who carries the unique in: the band's leader while alive, else its
/// first living member.
pub open spec fn spec_carrier(leader: Option<Handle>, leader_alive: bool, members: Seq<MemberSnapshot>) -> Option<Handle> {
    if leader is Some && leader_alive {
        leader
    } else {
        first_alive(members)
    }
}

/// Pick the carrier.
pub fn carrier(leader: Option<Handle>, leader_alive: bool, members: &Vec<MemberSnapshot>) -> (r: Option<Handle>)
    ensures
        r == spec_carrier(leader, leader_alive, members@),
{
    if leader.is_some() && leader_alive {
        return leader;
    }
    let mut i: usize = 0;
    assert(members@.skip(0) =~= members@);
    while i < members.len()
        invariant
            i <= members.len(),
            !(leader is Some && leader_alive),
            first_alive(members@.skip(i as int)) == first_alive(members@),
        decreases members.len() - i,
    {
        assert(members@.skip(i as int)[0] == members@[i as int]);
        assert(members@.skip(i as int).drop_first() =~= members@.skip(i + 1));
        assert(members@.skip(i as int).len() > 0);
        if members[i].alive {
            assert(first_alive(members@.skip(i as int)) == Some(members@[i as int].handle));
            return Some(members[i].handle);
        }
        assert(first_alive(members@.skip(i as int)) == first_alive(members@.skip(i + 1)));
        i = i + 1;
    }
    assert(members@.skip(i as int).len() == 0);
    None
}

/// Once the rifle is marked as entered, it never enters again, whatever
/// the roll: the book after marking holds it.
pub proof fn law_rifle_enters_once(before: UniqueBook, after: UniqueBook, now_bits: u32)
    requires
        names(after) == (if names(before).contains(COLONELS_RIFLE@) {
            names(before)
        } else {
            names(before).push(COLONELS_RIFLE@)
        }),
    ensures
        !spec_rifle_enters(after, now_bits),
{
    if !names(before).contains(COLONELS_RIFLE@) {
        assert(names(after)[names(before).len() as int] == COLONELS_RIFLE@);
    }
}

} // verus!
