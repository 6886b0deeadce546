//! Bits in `Qid.typ`

use vstd::prelude::*;

verus! {

/// Type bit for directories
pub const DIR: u8 = 0x80;

/// Type bit for append only files
pub const APPEND: u8 = 0x40;

/// Type bit for exclusive use files
pub const EXCL: u8 = 0x20;

/// Type bit for mounted channel
pub const MOUNT: u8 = 0x10;

/// Type bit for authentication file
pub const AUTH: u8 = 0x08;

/// Type bit for not-backed-up file
pub const TMP: u8 = 0x04;

/// Type bit for symbolic links
pub const SYMLINK: u8 = 0x02;

/// Type bit for hard links
pub const LINK: u8 = 0x01;

/// Plain file
pub const FILE: u8 = 0x00;

} // verus!
