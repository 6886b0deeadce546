//! Bits in `mask` and `valid` of `Tgetattr` and `Rgetattr`.

use vstd::prelude::*;

verus! {

pub const MODE: u64 = 0x00000001;

pub const NLINK: u64 = 0x00000002;

pub const UID: u64 = 0x00000004;

pub const GID: u64 = 0x00000008;

pub const RDEV: u64 = 0x00000010;

pub const ATIME: u64 = 0x00000020;

pub const MTIME: u64 = 0x00000040;

pub const CTIME: u64 = 0x00000080;

pub const INO: u64 = 0x00000100;

pub const SIZE: u64 = 0x00000200;

pub const BLOCKS: u64 = 0x00000400;

pub const BTIME: u64 = 0x00000800;

pub const GEN: u64 = 0x00001000;

pub const DATA_VERSION: u64 = 0x00002000;

/// Mask for fields up to BLOCKS
pub const BASIC: u64 = 0x000007ff;

/// Mask for All fields above
pub const ALL: u64 = 0x00003fff;

} // verus!
