//! File lock status

use vstd::prelude::*;

verus! {

pub const SUCCESS: u8 = 0;

pub const BLOCKED: u8 = 1;

pub const ERROR: u8 = 2;

pub const GRACE: u8 = 3;

} // verus!
