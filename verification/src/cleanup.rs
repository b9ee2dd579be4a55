//! Which cached session directories are stale.

use vstd::prelude::*;

verus! {

/// A cache entry is stale when it is a directory last modified more than
/// the timeout ago.
pub open spec fn stale_cache_entry_spec(is_dir: bool, age_nanos: u128, timeout_nanos: u128) -> bool {
    is_dir && age_nanos > timeout_nanos
}

/// Whether a cache entry should be removed at startup: `age_nanos` is the
/// time since its last modification (zero when that lies in the future).
pub fn is_stale_cache_entry(is_dir: bool, age_nanos: u128, timeout_nanos: u128) -> (r: bool)
    ensures
        r == stale_cache_entry_spec(is_dir, age_nanos, timeout_nanos),
{
    is_dir && age_nanos > timeout_nanos
}

} // verus!
