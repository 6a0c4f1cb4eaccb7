//! Settlement upgrade scopes as the effects layer numbers them.

use vstd::prelude::*;

verus! {

/// The scope of structure upgrades.
pub const PROPS: &'static str = "props";

/// The scope of settlement upgrades.
pub const COMMUNITIES: &'static str = "communities";

/// The scope a number names: 0 structures, 1 settlements, nothing else.
pub open spec fn spec_scope(n: i32) -> Option<&'static str> {
    if n == 0 {
        Some(PROPS)
    } else if n == 1 {
        Some(COMMUNITIES)
    } else {
        None
    }
}

/// Translate the effects layer's scope number into an upgrade scope.
pub fn scope(n: i32) -> (s: Option<&'static str>)
    ensures
        s == spec_scope(n),
{
    if n == 0 {
        Some(PROPS)
    } else if n == 1 {
        Some(COMMUNITIES)
    } else {
        None
    }
}

} // verus!
