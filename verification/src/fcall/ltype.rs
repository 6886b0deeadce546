//! File lock type, `Flock.typ`

use vstd::prelude::*;

verus! {

pub const RDLOCK: u8 = 0;

pub const WRLOCK: u8 = 1;

pub const UNLOCK: u8 = 2;

} // verus!
