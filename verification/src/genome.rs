//! The faction trait genome's survivor-side bookkeeping: the trait
//! catalog, and the conscripts, survivors press-ganged into a camp who
//! never vote under Looter rule. The genome pools themselves (learning,
//! blending, persistence) are the shared genome machinery's; this book is
//! the part the mod owns.

use std::collections::HashSet;

use vstd::prelude::*;

verus! {

broadcast use vstd::std_specs::hash::group_hash_axioms;

/// The trait index of aggression.
pub const AGGRESSION: usize = 0;
/// The trait index of expansionism.
pub const EXPANSIONISM: usize = 1;
/// The trait index of defensiveness.
pub const DEFENSIVENESS: usize = 2;
/// The trait index of guile.
pub const GUILE: usize = 3;

/// The conscript set and whether remembered memory changed since the
/// last save.
#[derive(Debug)]
pub struct GenomeBook {
    pub conscripts: HashSet<i64>,
    /// Something changed that the next save must write.
    pub dirty: bool,
}

/// A book with no conscripts and nothing to save.
pub fn new_book() -> (b: GenomeBook)
    ensures
        b.conscripts@ == Set::<i64>::empty(),
        b.conscripts@ == replay(Seq::empty()),
        !b.dirty,
{
    GenomeBook { conscripts: HashSet::new(), dirty: false }
}

/// Mark a press-ganged survivor as unable to vote in a looter camp.
pub fn mark_conscript(b: &mut GenomeBook, char_id: i64)
    ensures
        final(b).conscripts@ == old(b).conscripts@.insert(char_id),
        final(b).conscripts@ == apply_event(old(b).conscripts@, (true, set![char_id])),
        final(b).dirty,
{
    b.conscripts.insert(char_id);
    assert(b.conscripts@ =~= apply_event(old(b).conscripts@, (true, set![char_id])));
    b.dirty = true;
}

/// Check whether a survivor is excluded from a looter camp vote.
pub fn is_conscript(b: &GenomeBook, char_id: i64) -> (r: bool)
    ensures
        r == b.conscripts@.contains(char_id),
{
    b.conscripts.contains(&char_id)
}

/// Forget a survivor after they are gone: they leave the conscript set
/// (and their vote with them), and the memory must be saved again.
pub fn drop_individual(b: &mut GenomeBook, char_id: i64)
    ensures
        final(b).conscripts@ == old(b).conscripts@.remove(char_id),
        final(b).conscripts@ == apply_event(old(b).conscripts@, (false, set![char_id])),
        final(b).dirty,
{
    b.conscripts.remove(&char_id);
    assert(b.conscripts@ =~= apply_event(old(b).conscripts@, (false, set![char_id])));
    b.dirty = true;
}

/// Restore the conscripts of a loaded save; returns how many ids the
/// save listed.
pub fn restore_conscripts(b: &mut GenomeBook, ids: &Vec<i64>) -> (n: usize)
    ensures
        n == ids@.len(),
        forall|x: i64|
            #![trigger final(b).conscripts@.contains(x)]
            final(b).conscripts@.contains(x) <==> old(b).conscripts@.contains(x) || ids@.contains(x),
        final(b).conscripts@ == apply_event(old(b).conscripts@, (true, ids@.to_set())),
        final(b).dirty == old(b).dirty,
{
    let ghost start = b.conscripts@;
    let mut i: usize = 0;
    while i < ids.len()
        invariant
            i <= ids@.len(),
            forall|x: i64|
                #![trigger b.conscripts@.contains(x)]
                b.conscripts@.contains(x) <==> start.contains(x) || exists|k: int|
                    0 <= k < i && ids@[k] == x,
            b.dirty == old(b).dirty,
        decreases ids@.len() - i,
    {
        b.conscripts.insert(ids[i]);
        proof {
            assert forall|x: i64| #![trigger b.conscripts@.contains(x)]
                b.conscripts@.contains(x) <==> start.contains(x) || exists|k: int|
                    0 <= k < i + 1 && ids@[k] == x by {
                if x == ids@[i as int] {
                    assert(ids@[i as int] == x);
                }
            }
        }
        i = i + 1;
    }
    assert forall|x: i64| b.conscripts@.contains(x) <==> apply_event(start, (true, ids@.to_set())).contains(x) by {
        if exists|k: int| 0 <= k < ids@.len() && ids@[k] == x {
            let k = choose|k: int| 0 <= k < ids@.len() && ids@[k] == x;
            assert(ids@.contains(x));
        }
        if ids@.to_set().contains(x) {
            assert(ids@.contains(x));
            let k = choose|k: int| 0 <= k < ids@.len() && ids@[k] == x;
        }
    }
    assert(b.conscripts@ =~= apply_event(start, (true, ids@.to_set())));
    ids.len()
}

/// One change to the conscript set: `(true, ids)` marks the ids (a
/// press-ganging, or the conscripts a save restores), `(false, ids)`
/// forgets them.
pub open spec fn apply_event(s: Set<i64>, e: (bool, Set<i64>)) -> Set<i64> {
    if e.0 {
        s.union(e.1)
    } else {
        s.difference(e.1)
    }
}

/// The conscript set after a history of changes, from a new book.
pub open spec fn replay(events: Seq<(bool, Set<i64>)>) -> Set<i64>
    decreases events.len(),
{
    if events.len() == 0 {
        Set::empty()
    } else {
        apply_event(replay(events.drop_last()), events.last())
    }
}

/// Change `e` forgets `id`.
pub open spec fn forgets(e: (bool, Set<i64>), id: i64) -> bool {
    !e.0 && e.1.contains(id)
}

/// `id` was marked by change `i` and not forgotten by any later change.
pub open spec fn marked_since(events: Seq<(bool, Set<i64>)>, id: i64, i: int) -> bool {
    &&& 0 <= i < events.len()
    &&& events[i].0
    &&& events[i].1.contains(id)
    &&& forall|j: int| i < j < events.len() ==> !forgets(#[trigger] events[j], id)
}

/// Over any history of markings, restores and forgettings from a new
/// book, a survivor is a conscript exactly when some change marked them
/// and no later change forgot them; in particular nobody is a conscript
/// before any marking.
pub proof fn law_conscripts_are_marked_and_not_forgotten(events: Seq<(bool, Set<i64>)>, id: i64)
    ensures
        replay(events).contains(id) <==> exists|i: int| marked_since(events, id, i),
    decreases events.len(),
{
    if events.len() == 0 {
        assert(!replay(events).contains(id));
    } else {
        let p = events.drop_last();
        let n = events.len() - 1;
        let e = events.last();
        law_conscripts_are_marked_and_not_forgotten(p, id);
        assert forall|i: int| 0 <= i < n implies marked_since(events, id, i) == (marked_since(p, id, i) && !forgets(e, id)) by {
            assert(events[i] == p[i]);
            if marked_since(events, id, i) {
                assert forall|j: int| i < j < p.len() implies !forgets(#[trigger] p[j], id) by {
                    assert(p[j] == events[j]);
                }
                assert(!forgets(events[n], id));
            }
            if marked_since(p, id, i) && !forgets(e, id) {
                assert forall|j: int| i < j < events.len() implies !forgets(#[trigger] events[j], id) by {
                    if j < n {
                        assert(p[j] == events[j]);
                    }
                }
            }
        }
        if replay(events).contains(id) {
            if e.0 && e.1.contains(id) {
                assert(marked_since(events, id, n));
            } else {
                let i = choose|i: int| marked_since(p, id, i);
                assert(marked_since(events, id, i));
            }
        }
        if exists|i: int| marked_since(events, id, i) {
            let i = choose|i: int| marked_since(events, id, i);
            if i < n {
                assert(marked_since(p, id, i));
            }
        }
    }
}

/// A conscript stays silenced until the survivor is forgotten: marking
/// and then checking says yes, and forgetting clears it.
pub proof fn law_conscript_round_trip(s: Set<i64>, id: i64)
    ensures
        s.insert(id).contains(id),
        !s.insert(id).remove(id).contains(id),
{
}

} // verus!
