//! The storyteller's guard: the brutal-but-survivable line for a
//! pressure event. The director never leans on a camp already handling
//! more threats than the configured ceiling.

use vstd::prelude::*;

verus! {

/// The live guard knob.
#[derive(Clone, Copy, PartialEq, Eq, Debug)]
pub struct Guard {
    /// The ceiling of threats a camp may already face before pressure
    /// pauses.
    pub max_threats: i64,
}

/// The guard at startup: any live threat at all holds pressure back.
pub fn new_guard() -> (g: Guard)
    ensures
        g.max_threats == 0,
{
    Guard { max_threats: 0 }
}

/// Read the live ceiling.
pub fn guard_max_threats(g: &Guard) -> (m: i64)
    ensures
        m == g.max_threats,
{
    g.max_threats
}

/// Read or set the ceiling: a new value replaces it, none leaves it.
pub fn set_guard(g: &mut Guard, v: Option<i64>) -> (m: i64)
    ensures
        final(g).max_threats == match v {
            Some(x) => x,
            None => old(g).max_threats,
        },
        m == final(g).max_threats,
{
    if let Some(x) = v {
        g.max_threats = x;
    }
    g.max_threats
}

/// Is it safe to lean on a camp facing `threats` live threats? Only while
/// it faces no more than the ceiling.
pub fn safe_to_pressure(g: &Guard, threats: i64) -> (b: bool)
    ensures
        b == (threats <= g.max_threats),
{
    threats <= g.max_threats
}

} // verus!
