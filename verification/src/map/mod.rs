//! The store of issued codes.
pub mod expiring_map;

use vstd::prelude::*;

verus! {

/// The store of issued codes, empty at start.
pub fn init_map() -> (r: expiring_map::ExpiringMap)
    ensures
        r@ == Map::<Seq<char>, expiring_map::ProfileView>::empty(),
{
    expiring_map::ExpiringMap::new()
}

} // verus!
