//! File lock flags, `Flock.flags`

use vstd::prelude::*;

verus! {

/// Blocking request
pub const BLOCK: u32 = 1;

/// Reserved for future use
pub const RECLAIM: u32 = 2;

} // verus!
