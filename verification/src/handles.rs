//! Handle bookkeeping for the work contracts: every live game object a
//! contract holds is a handle it must release exactly when it lets go.
//! A step of a contract names what it releases and which journal entry
//! it closes, so the caller can drop precisely those.

use vstd::prelude::*;

use crate::courier::Handle;

verus! {

/// The handle in an optional slot, as a set.
pub open spec fn opt_set(h: Option<Handle>) -> Set<Handle> {
    match h {
        Some(x) => set![x],
        None => Set::empty(),
    }
}

/// The handles a step lets go of (each slot names one role).
#[derive(Clone, Copy, PartialEq, Eq, Debug)]
pub struct Release {
    pub hirer: Option<Handle>,
    pub mark: Option<Handle>,
    pub courier: Option<Handle>,
    pub player: Option<Handle>,
}

/// The set of handles a release names.
pub open spec fn released(r: Release) -> Set<Handle> {
    opt_set(r.hirer).union(opt_set(r.mark)).union(opt_set(r.courier)).union(opt_set(r.player))
}

/// Release nothing.
pub fn release_none() -> (r: Release)
    ensures
        released(r) == Set::<Handle>::empty(),
        r.hirer is None && r.mark is None && r.courier is None && r.player is None,
{
    let r = Release { hirer: None, mark: None, courier: None, player: None };
    assert(released(r) =~= Set::<Handle>::empty());
    r
}

/// How a step resolves the journal entry of the offer.
#[derive(Clone, Copy, PartialEq, Eq, Debug)]
pub enum QuestClose {
    /// Leave it open (or there is none).
    Keep,
    /// The work was claimed: complete the entry.
    Complete(Handle),
    /// The offer lapsed or was voided: fail the entry.
    Fail(Handle),
}

/// The journal handle a quest resolution lets go of.
pub open spec fn quest_closed(q: QuestClose) -> Set<Handle> {
    match q {
        QuestClose::Keep => Set::empty(),
        QuestClose::Complete(h) => set![h],
        QuestClose::Fail(h) => set![h],
    }
}

/// Complete the entry when there is one.
pub open spec fn spec_complete_quest(q: Option<Handle>) -> QuestClose {
    match q {
        Some(h) => QuestClose::Complete(h),
        None => QuestClose::Keep,
    }
}

/// Fail the entry when there is one.
pub open spec fn spec_fail_quest(q: Option<Handle>) -> QuestClose {
    match q {
        Some(h) => QuestClose::Fail(h),
        None => QuestClose::Keep,
    }
}

/// Complete the entry when there is one.
pub fn complete_quest(q: Option<Handle>) -> (c: QuestClose)
    ensures
        c == spec_complete_quest(q),
        quest_closed(c) == opt_set(q),
        q is None ==> c == QuestClose::Keep,
        q matches Some(h) ==> c == QuestClose::Complete(h),
{
    match q {
        Some(h) => QuestClose::Complete(h),
        None => QuestClose::Keep,
    }
}

/// Fail the entry when there is one.
pub fn fail_quest(q: Option<Handle>) -> (c: QuestClose)
    ensures
        c == spec_fail_quest(q),
        quest_closed(c) == opt_set(q),
        q is None ==> c == QuestClose::Keep,
        q matches Some(h) ==> c == QuestClose::Fail(h),
{
    match q {
        Some(h) => QuestClose::Fail(h),
        None => QuestClose::Keep,
    }
}

} // verus!
