//! The type of I/O
//!
//! Open mode to be checked against the permissions for the file.

use vstd::prelude::*;

verus! {

/// Open for read
pub const READ: u8 = 0;

/// Write
pub const WRITE: u8 = 1;

/// Read and write
pub const RDWR: u8 = 2;

/// Execute, == read but check execute permission
pub const EXEC: u8 = 3;

/// Or'ed in (except for exec), truncate file first
pub const TRUNC: u8 = 16;

/// Or'ed in, close on exec
pub const CEXEC: u8 = 32;

/// Or'ed in, remove on close
pub const RCLOSE: u8 = 64;

} // verus!
