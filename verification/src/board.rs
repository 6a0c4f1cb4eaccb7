//! The work board: open work offers surface in the game's own quest
//! journal. Live offers own their journal entries; a sweep deletes the
//! board's entries that no live offer owns (left over from a reload or a
//! loaded save).
//!
//! This module keeps the book of owned entries and decides which journal
//! entries are orphans; spawning, completing, failing and deleting
//! entries are the game's own calls.

use vstd::prelude::*;

use crate::courier::Handle;
use vstd::string::StringSliceAdditionalSpecFns;

verus! {

/// Every board quest's unique id starts with this.
pub const BOARD_PREFIX: &'static str = "WorkBoard_";

/// The journal entries that live offers own, in the order they were
/// spawned.
pub struct BoardBook {
    pub owned: Vec<Handle>,
}

/// An empty book.
pub fn new_board() -> (b: BoardBook)
    ensures
        b.owned@ == Seq::<Handle>::empty(),
{
    BoardBook { owned: Vec::new() }
}

/// Record a freshly spawned entry as owned.
pub fn own_entry(b: &mut BoardBook, h: Handle)
    ensures
        final(b).owned@ == old(b).owned@.push(h),
{
    b.owned.push(h);
}

/// Forget an entry that was completed or failed: every record of it
/// leaves the book, the others keep their order.
pub fn release_entry(b: &mut BoardBook, h: Handle)
    ensures
        final(b).owned@ == old(b).owned@.filter(|x: Handle| x != h),
{
    let ghost start = b.owned@;
    let mut kept: Vec<Handle> = Vec::new();
    let mut i: usize = 0;
    while i < b.owned.len()
        invariant
            i <= b.owned.len(),
            b.owned@ == start,
            kept@ == start.take(i as int).filter(|x: Handle| x != h),
        decreases b.owned.len() - i,
    {
        let x = b.owned[i];
        proof {
            reveal_with_fuel(Seq::<Handle>::filter, 1);
            assert(start.take(i + 1).drop_last() =~= start.take(i as int));
        }
        if x != h {
            kept.push(x);
        }
        i = i + 1;
    }
    assert(start.take(start.len() as int) =~= start);
    b.owned = kept;
}

/// Whether a live offer owns the entry.
pub fn is_owned(b: &BoardBook, h: Handle) -> (r: bool)
    ensures
        r == b.owned@.contains(h),
{
    let mut i: usize = 0;
    while i < b.owned.len()
        invariant
            i <= b.owned.len(),
            forall|j: int| 0 <= j < i ==> b.owned@[j] != h,
        decreases b.owned.len() - i,
    {
        if b.owned[i] == h {
            return true;
        }
        i = i + 1;
    }
    false
}

/// The id's bytes begin with the board's prefix.
pub open spec fn has_board_prefix(uid: &str) -> bool {
    let p = BOARD_PREFIX.spec_bytes();
    uid.spec_bytes().len() >= p.len() && uid.spec_bytes().take(p.len() as int) == p
}

/// A journal entry is an orphan: a board entry (its id has the board's
/// prefix) that no live offer owns (its id is none of the owned ids).
pub open spec fn spec_is_orphan(uid: &str, owned_uids: Seq<String>) -> bool {
    has_board_prefix(uid) && !(exists|j: int| 0 <= j < owned_uids.len() && (#[trigger] owned_uids[j])@ == uid@)
}

/// Whether the sweep deletes the journal entry with id `uid`.
pub fn is_orphan(uid: &str, owned_uids: &Vec<String>) -> (r: bool)
    ensures
        r == spec_is_orphan(uid, owned_uids@),
{
    let p = BOARD_PREFIX.as_bytes();
    let u = uid.as_bytes();
    if u.len() < p.len() {
        return false;
    }
    let mut i: usize = 0;
    while i < p.len()
        invariant
            p@ == BOARD_PREFIX.spec_bytes(),
            u@ == uid.spec_bytes(),
            p@.len() <= u@.len(),
            i <= p@.len(),
            forall|j: int| 0 <= j < i ==> u@[j] == p@[j],
        decreases p.len() - i,
    {
        if u[i] != p[i] {
            assert(u@.take(p@.len() as int)[i as int] != p@[i as int]);
            return false;
        }
        i = i + 1;
    }
    assert(u@.take(p@.len() as int) =~= p@);
    let owned_id = uid.to_owned();
    let mut k: usize = 0;
    while k < owned_uids.len()
        invariant
            k <= owned_uids.len(),
            owned_id@ == uid@,
            forall|j: int| 0 <= j < k ==> (#[trigger] owned_uids@[j])@ != uid@,
        decreases owned_uids.len() - k,
    {
        if owned_uids[k] == owned_id {
            return false;
        }
        k = k + 1;
    }
    true
}

proof fn lemma_filter_without_absent(s: Seq<Handle>, h: Handle)
    requires
        !s.contains(h),
    ensures
        s.filter(|x: Handle| x != h) == s,
    decreases s.len(),
{
    reveal_with_fuel(Seq::<Handle>::filter, 1);
    if s.len() > 0 {
        assert(s.drop_last().contains(h) ==> s.contains(h)) by {
            if s.drop_last().contains(h) {
                let j = choose|j: int| 0 <= j < s.drop_last().len() && s.drop_last()[j] == h;
                assert(s[j] == h);
            }
        }
        assert(s[s.len() - 1] != h);
        lemma_filter_without_absent(s.drop_last(), h);
        assert(s.drop_last().push(s.last()) =~= s);
    } else {
        assert(s.filter(|x: Handle| x != h) =~= s);
    }
}

/// Spawning an entry and then closing it leaves the book as it was,
/// when the entry was not owned before.
pub proof fn law_close_undoes_spawn(owned: Seq<Handle>, h: Handle)
    requires
        !owned.contains(h),
    ensures
        owned.push(h).filter(|x: Handle| x != h) == owned,
{
    reveal_with_fuel(Seq::<Handle>::filter, 1);
    assert(owned.push(h).drop_last() =~= owned);
    lemma_filter_without_absent(owned, h);
}

/// An entry a live offer owns is never swept, and an id without the
/// board's prefix never is either: the sweep only ever deletes the
/// board's own unowned entries.
pub proof fn law_owned_entries_are_spared(uid: &str, owned_uids: Seq<String>, j: int)
    requires
        0 <= j < owned_uids.len(),
        owned_uids[j]@ == uid@,
    ensures
        !spec_is_orphan(uid, owned_uids),
{
    assert(owned_uids[j]@ == uid@);
}

} // verus!
