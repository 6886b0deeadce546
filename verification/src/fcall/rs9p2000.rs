//! Old 9P2000 protocol types
//!
//! The types in this module are not used in 9P2000.L

use crate::fcall::Qid;
use vstd::prelude::*;
use vstd::utf8::encode_utf8;

pub mod dm;
pub mod om;

verus! {

/// Plan 9 Namespace metadata (somewhat like a unix fstat)
///
/// NOTE: Defined as `Dir` in libc.h of Plan 9
#[derive(Clone, Debug, PartialEq, Eq)]
pub struct Stat {
    /// Server type
    pub typ: u16,
    /// Server subtype
    pub dev: u32,
    /// Unique id from server
    pub qid: Qid,
    /// Permissions
    pub mode: u32,
    /// Last read time
    pub atime: u32,
    /// Last write time
    pub mtime: u32,
    /// File length
    pub length: u64,
    /// Last element of path
    pub name: String,
    /// Owner name
    pub uid: String,
    /// Group name
    pub gid: String,
    /// Last modifier name
    pub muid: String,
}

impl Stat {
    /// The size of the stat in bytes: 47 for its numbers, its qid and the
    /// lengths of its four strings, and the bytes of the strings.
    pub open spec fn spec_size(&self) -> nat {
        47 + encode_utf8(self.name@).len() + encode_utf8(self.uid@).len() + encode_utf8(
            self.gid@,
        ).len() + encode_utf8(self.muid@).len()
    }

    /// Get the current size of the stat, reduced to 16 bits
    pub fn size(&self) -> (n: u16)
        ensures
            n == self.spec_size() % 0x1_0000,
    {
        let name = self.name.as_str().as_bytes().len() % 0x1_0000;
        let uid = self.uid.as_str().as_bytes().len() % 0x1_0000;
        let gid = self.gid.as_str().as_bytes().len() % 0x1_0000;
        let muid = self.muid.as_str().as_bytes().len() % 0x1_0000;
        ((47 + name + uid + gid + muid) % 0x1_0000) as u16
    }
}

} // verus!
