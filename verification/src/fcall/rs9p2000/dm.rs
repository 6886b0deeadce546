//! Bits in `Stat.mode`

use vstd::prelude::*;

verus! {

/// Mode bit for directories
pub const DIR: u32 = 0x80000000;

/// Mode bit for append only files
pub const APPEND: u32 = 0x40000000;

/// Mode bit for exclusive use files
pub const EXCL: u32 = 0x20000000;

/// Mode bit for mounted channel
pub const MOUNT: u32 = 0x10000000;

/// Mode bit for authentication file
pub const AUTH: u32 = 0x08000000;

/// Mode bit for non-backed-up files
pub const TMP: u32 = 0x04000000;

/// Mode bit for read permission
pub const READ: u32 = 0x4;

/// Mode bit for write permission
pub const WRITE: u32 = 0x2;

/// Mode bit for execute permission
pub const EXEC: u32 = 0x1;

} // verus!
