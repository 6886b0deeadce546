//! Bits in `mask` of `Tsetattr`.
//!
//! If a time bit is set without the corresponding SET bit, the current
//! system time on the server is used instead of the value sent in the request.

use vstd::prelude::*;

verus! {

pub const MODE: u32 = 0x00000001;

pub const UID: u32 = 0x00000002;

pub const GID: u32 = 0x00000004;

pub const SIZE: u32 = 0x00000008;

pub const ATIME: u32 = 0x00000010;

pub const MTIME: u32 = 0x00000020;

pub const CTIME: u32 = 0x00000040;

pub const ATIME_SET: u32 = 0x00000080;

pub const MTIME_SET: u32 = 0x00000100;

} // verus!
