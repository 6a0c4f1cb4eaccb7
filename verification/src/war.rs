//! AI-versus-AI war: when a member of one AI settlement is killed by a
//! member of another, and the two camps are hostile, the victim's camp
//! sets a revenge invasion on the killer's camp, as the game already
//! does when the player is the killer. Also the name matching of the
//! operator's war and ceasefire probes.

use vstd::prelude::*;

use crate::courier::Handle;

verus! {

/// Days a revenge invasion runs, as in the game's own revenge.
pub const REVENGE_DAYS: u32 = 7;

/// What a death reveals about the two camps involved.
#[derive(Clone, Copy, Debug)]
pub struct DeathFacts {
    /// The killer's camp; `None` when nobody killed the member (disease,
    /// a fall, a script) or the killer belongs to no camp.
    pub killer_camp: Option<Handle>,
    /// The dead member's camp.
    pub victim_camp: Option<Handle>,
    /// The id of the victim's camp, where it could be read.
    pub victim_camp_id: Option<i64>,
    /// The id of the killer's camp, where it could be read.
    pub killer_camp_id: Option<i64>,
    pub victim_is_ai_settlement: bool,
    pub killer_is_ai_settlement: bool,
    /// The victim's camp regards the killer's as hostile.
    pub hostile: bool,
    /// The victim's camp already has an invasion target.
    pub victim_invading: bool,
}

/// The same camp on both sides: an unreadable victim id counts as -1 and
/// an unreadable killer id as -2, so two unreadable ids never match.
pub open spec fn same_camp(f: DeathFacts) -> bool {
    f.victim_camp_id.unwrap_or(-1i64) == f.killer_camp_id.unwrap_or(-2i64)
}

/// The camp the victim's camp invades in revenge, if any: both camps
/// known, different, AI settlements, hostile, and the victim's camp not
/// already invading someone.
pub open spec fn spec_revenge_target(f: DeathFacts) -> Option<Handle> {
    if f.killer_camp is Some && f.victim_camp is Some && !same_camp(f)
        && f.victim_is_ai_settlement && f.killer_is_ai_settlement && f.hostile
        && !f.victim_invading {
        f.killer_camp
    } else {
        None
    }
}

/// Decide whether a death starts an AI-versus-AI revenge invasion, and
/// against which camp.
pub fn revenge_target(f: &DeathFacts) -> (r: Option<Handle>)
    ensures
        r == spec_revenge_target(*f),
{
    let kc = match f.killer_camp {
        Some(h) => h,
        None => return None,
    };
    if f.victim_camp.is_none() {
        return None;
    }
    let vid: i64 = match f.victim_camp_id {
        Some(v) => v,
        None => -1,
    };
    let kid: i64 = match f.killer_camp_id {
        Some(k) => k,
        None => -2,
    };
    if vid == kid {
        return None;
    }
    if !f.victim_is_ai_settlement || !f.killer_is_ai_settlement {
        return None;
    }
    if !f.hostile || f.victim_invading {
        return None;
    }
    Some(kc)
}

/// An ASCII byte in lower case.
pub open spec fn ascii_lower(b: u8) -> u8 {
    if 65 <= b <= 90 { (b + 32) as u8 } else { b }
}

/// Two names equal when ASCII letters are compared without case.
pub open spec fn same_name_any_case(a: Seq<u8>, b: Seq<u8>) -> bool {
    a.len() == b.len() && forall|i: int| 0 <= i < a.len() ==> #[trigger] ascii_lower(a[i]) == ascii_lower(b[i])
}

fn lower(b: u8) -> (r: u8)
    ensures
        r == ascii_lower(b),
{
    if 65 <= b && b <= 90 { b + 32 } else { b }
}

/// Compare two names, ASCII letters without regard to case.
pub fn eq_ignore_ascii_case(a: &Vec<u8>, b: &Vec<u8>) -> (r: bool)
    ensures
        r == same_name_any_case(a@, b@),
{
    if a.len() != b.len() {
        return false;
    }
    let mut i: usize = 0;
    while i < a.len()
        invariant
            a@.len() == b@.len(),
            i <= a.len(),
            forall|j: int| 0 <= j < i ==> #[trigger] ascii_lower(a@[j]) == ascii_lower(b@[j]),
        decreases a.len() - i,
    {
        if lower(a[i]) != lower(b[i]) {
            return false;
        }
        i = i + 1;
    }
    true
}

/// `r` is the first index of `names` that matches `wanted` without case.
pub open spec fn is_first_match(names: Seq<Vec<u8>>, wanted: Seq<u8>, r: Option<usize>) -> bool {
    match r {
        Some(i) => i < names.len() && same_name_any_case(names[i as int]@, wanted) && forall|j: int|
            0 <= j < i ==> !same_name_any_case(#[trigger] names[j]@, wanted),
        None => forall|j: int| 0 <= j < names.len() ==> !same_name_any_case(#[trigger] names[j]@, wanted),
    }
}

/// The two camps a forced war is between: the first camp whose name
/// matches the attacker's and the first whose name matches the
/// defender's, letters compared without case. One camp may match both.
pub fn war_pair(names: &Vec<Vec<u8>>, attacker: &Vec<u8>, defender: &Vec<u8>) -> (r: (
    Option<usize>,
    Option<usize>,
))
    ensures
        is_first_match(names@, attacker@, r.0),
        is_first_match(names@, defender@, r.1),
{
    let mut a: Option<usize> = None;
    let mut d: Option<usize> = None;
    let mut i: usize = 0;
    while i < names.len()
        invariant
            i <= names.len(),
            a matches Some(x) ==> x < i && is_first_match(names@, attacker@, a),
            a is None ==> forall|j: int| 0 <= j < i ==> !same_name_any_case(#[trigger] names@[j]@, attacker@),
            d matches Some(x) ==> x < i && is_first_match(names@, defender@, d),
            d is None ==> forall|j: int| 0 <= j < i ==> !same_name_any_case(#[trigger] names@[j]@, defender@),
        decreases names.len() - i,
    {
        if a.is_none() && eq_ignore_ascii_case(&names[i], attacker) {
            a = Some(i);
        }
        if d.is_none() && eq_ignore_ascii_case(&names[i], defender) {
            d = Some(i);
        }
        if a.is_some() && d.is_some() {
            return (a, d);
        }
        i = i + 1;
    }
    (a, d)
}

/// Entry `j` of `names` is exactly `wanted`, and not `other` where that
/// is given.
pub open spec fn exact_hit(names: Seq<Vec<u8>>, j: int, wanted: Seq<u8>, other: Option<Seq<u8>>) -> bool {
    names[j]@ == wanted && other != Some(names[j]@)
}

/// `r` is the last index of `names` that is exactly `wanted` and, where
/// `other` is given, is not `other`.
pub open spec fn is_last_exact(names: Seq<Vec<u8>>, wanted: Seq<u8>, other: Option<Seq<u8>>, r: Option<usize>) -> bool {
    match r {
        Some(i) => i < names.len() && exact_hit(names, i as int, wanted, other) && forall|j: int|
            i < j < names.len() ==> !#[trigger] exact_hit(names, j, wanted, other),
        None => forall|j: int| 0 <= j < names.len() ==> !#[trigger] exact_hit(names, j, wanted, other),
    }
}

/// The two camps of a ceasefire: the last camp named exactly as the
/// loser, and the last named exactly as the winner among those not
/// named as the loser.
pub fn ceasefire_pair(names: &Vec<Vec<u8>>, loser: &Vec<u8>, winner: &Vec<u8>) -> (r: (
    Option<usize>,
    Option<usize>,
))
    ensures
        is_last_exact(names@, loser@, None, r.0),
        is_last_exact(names@, winner@, Some(loser@), r.1),
{
    let mut l: Option<usize> = None;
    let mut w: Option<usize> = None;
    let mut i: usize = 0;
    while i < names.len()
        invariant
            i <= names.len(),
            l matches Some(x) ==> x < i && exact_hit(names@, x as int, loser@, None) && forall|j: int|
                x < j < i ==> !#[trigger] exact_hit(names@, j, loser@, None),
            l is None ==> forall|j: int| 0 <= j < i ==> !#[trigger] exact_hit(names@, j, loser@, None),
            w matches Some(x) ==> x < i && exact_hit(names@, x as int, winner@, Some(loser@)) && forall|j: int|
                x < j < i ==> !#[trigger] exact_hit(names@, j, winner@, Some(loser@)),
            w is None ==> forall|j: int| 0 <= j < i ==> !#[trigger] exact_hit(names@, j, winner@, Some(loser@)),
        decreases names.len() - i,
    {
        let is_loser = bytes_eq(&names[i], loser);
        if is_loser {
            l = Some(i);
        } else if bytes_eq(&names[i], winner) {
            w = Some(i);
        }
        i = i + 1;
    }
    (l, w)
}

/// Byte-for-byte equality of two names.
pub fn bytes_eq(a: &Vec<u8>, b: &Vec<u8>) -> (r: bool)
    ensures
        r == (a@ == b@),
{
    if a.len() != b.len() {
        return false;
    }
    let mut i: usize = 0;
    while i < a.len()
        invariant
            a@.len() == b@.len(),
            i <= a.len(),
            forall|j: int| 0 <= j < i ==> a@[j] == b@[j],
        decreases a.len() - i,
    {
        if a[i] != b[i] {
            return false;
        }
        i = i + 1;
    }
    assert(a@ =~= b@);
    true
}

/// A revenge invasion is only ever aimed at another camp, and only
/// between two AI settlements at war: the player's own revenge is left
/// to the game.
pub proof fn law_revenge_only_between_ai_enemies(f: DeathFacts)
    ensures
        spec_revenge_target(f) is Some ==> {
            &&& f.victim_is_ai_settlement && f.killer_is_ai_settlement
            &&& f.hostile
            &&& !same_camp(f)
            &&& spec_revenge_target(f) == f.killer_camp
        },
        f.victim_invading ==> spec_revenge_target(f) is None,
{
}

} // verus!
