//! Define data types and constants used in 9P protocol
//!
//! Supported protocol: 9P2000.L

use vstd::prelude::*;
use vstd::utf8::encode_utf8;

pub mod getattr;
pub mod lflag;
pub mod lstatus;
pub mod ltype;
pub mod qt;
pub mod rs9p2000;
pub mod setattr;

verus! {

/// The version string that comes with `Tversion` and `Rversion`
pub const P92000L: &'static str = "9P2000.L";

/// Special tag which `Tversion`/`Rversion` must use as `tag`
pub const NOTAG: u16 = 0xffff;

/// Special value which `Tattach` with no auth must use as `afid`
///
/// If the client does not wish to authenticate the connection, or knows that authentication is
/// not required, the afid field in the attach message should be set to `NOFID`
pub const NOFID: u32 = 0xffff_ffff;

/// Special uid which `Tauth`/`Tattach` use as `n_uname` to indicate no uid is specified
pub const NONUNAME: u32 = 0xffff_ffff;

/// Ample room for `Twrite`/`Rread` header
///
/// size[4] Tread/Twrite[2] tag[2] fid[4] offset[8] count[4]
pub const IOHDRSZ: u32 = 24;

/// Room for readdir header
pub const READDIRHDRSZ: u32 = 24;

/// v9fs default port
pub const V9FS_PORT: u16 = 564;

/// Server side data type for path tracking
///
/// The server's unique identification for the file being accessed
#[derive(Copy, Clone, Debug, PartialEq, Eq, Structural)]
pub struct Qid {
    /// Specify whether the file is a directory, append-only file, etc.
    pub typ: u8,
    /// Version number for a file; typically, it is incremented every time the file is modified
    pub version: u32,
    /// An integer which is unique among all files in the hierarchy
    pub path: u64,
}

/// Filesystem information corresponding to `struct statfs` of Linux.
#[derive(Copy, Clone, Debug, PartialEq, Eq, Structural)]
pub struct Statfs {
    /// Type of file system
    pub typ: u32,
    /// Optimal transfer block size
    pub bsize: u32,
    /// Total data blocks in file system
    pub blocks: u64,
    /// Free blocks in fs
    pub bfree: u64,
    /// Free blocks avail to non-superuser
    pub bavail: u64,
    /// Total file nodes in file system
    pub files: u64,
    /// Free file nodes in fs
    pub ffree: u64,
    /// File system id
    pub fsid: u64,
    /// Maximum length of filenames
    pub namelen: u32,
}

/// Time struct
#[derive(Copy, Clone, Debug, PartialEq, Eq, Structural)]
pub struct Time {
    pub sec: u64,
    pub nsec: u64,
}

/// File attributes corresponding to `struct stat` of Linux.
#[derive(Copy, Clone, Debug, PartialEq, Eq, Structural)]
pub struct Stat {
    /// Protection
    pub mode: u32,
    /// User ID of owner
    pub uid: u32,
    /// Group ID of owner
    pub gid: u32,
    /// Number of hard links
    pub nlink: u64,
    /// Device ID (if special file)
    pub rdev: u64,
    /// Total size, in bytes
    pub size: u64,
    /// Blocksize for file system I/O
    pub blksize: u64,
    /// Number of 512B blocks allocated
    pub blocks: u64,
    /// Time of last access
    pub atime: Time,
    /// Time of last modification
    pub mtime: Time,
    /// Time of last status change
    pub ctime: Time,
}

/// Subset of `Stat` used for `Tsetattr`
#[derive(Copy, Clone, Debug, PartialEq, Eq, Structural)]
pub struct SetAttr {
    pub mode: u32,
    pub uid: u32,
    pub gid: u32,
    pub size: u64,
    pub atime: Time,
    pub mtime: Time,
}

/// Directory entry used in `Rreaddir`
#[derive(Clone, Debug, PartialEq, Eq)]
pub struct DirEntry {
    /// Qid for this directory
    pub qid: Qid,
    /// The index of this entry
    pub offset: u64,
    /// Corresponds to `d_type` of `struct dirent`
    pub typ: u8,
    /// Directory name
    pub name: String,
}

/// What a `DirEntry` holds.
pub struct DirEntryView {
    pub qid: Qid,
    pub offset: u64,
    pub typ: u8,
    pub name: Seq<char>,
}

/// Directory entry array
#[derive(Clone, Debug, PartialEq, Eq)]
pub struct DirEntryData(Vec<DirEntry>);

/// Data type used in `Rread` and `Twrite`
#[derive(Clone, Debug, PartialEq, Eq)]
pub struct Data(Vec<u8>);

/// Similar to Linux `struct flock`
#[derive(Clone, Debug, PartialEq, Eq)]
pub struct Flock {
    pub typ: u8,
    pub flags: u32,
    pub start: u64,
    pub length: u64,
    pub proc_id: u32,
    pub client_id: String,
}

/// What a `Flock` holds.
pub struct FlockView {
    pub typ: u8,
    pub flags: u32,
    pub start: u64,
    pub length: u64,
    pub proc_id: u32,
    pub client_id: Seq<char>,
}

/// Getlock structure
#[derive(Clone, Debug, PartialEq, Eq)]
pub struct Getlock {
    pub typ: u8,
    pub start: u64,
    pub length: u64,
    pub proc_id: u32,
    pub client_id: String,
}

/// What a `Getlock` holds.
pub struct GetlockView {
    pub typ: u8,
    pub start: u64,
    pub length: u64,
    pub proc_id: u32,
    pub client_id: Seq<char>,
}

/// Message type, 9P operations
#[derive(Copy, Clone, Debug, PartialEq, Eq, Structural)]
pub enum MsgType {
    Tlerror,
    Rlerror,
    Tstatfs,
    Rstatfs,
    Tlopen,
    Rlopen,
    Tlcreate,
    Rlcreate,
    Tsymlink,
    Rsymlink,
    Tmknod,
    Rmknod,
    Trename,
    Rrename,
    Treadlink,
    Rreadlink,
    Tgetattr,
    Rgetattr,
    Tsetattr,
    Rsetattr,
    Txattrwalk,
    Rxattrwalk,
    Txattrcreate,
    Rxattrcreate,
    Treaddir,
    Rreaddir,
    Tfsync,
    Rfsync,
    Tlock,
    Rlock,
    Tgetlock,
    Rgetlock,
    Tlink,
    Rlink,
    Tmkdir,
    Rmkdir,
    Trenameat,
    Rrenameat,
    Tunlinkat,
    Runlinkat,
    Tversion,
    Rversion,
    Tauth,
    Rauth,
    Tattach,
    Rattach,
    Tflush,
    Rflush,
    Twalk,
    Rwalk,
    Tread,
    Rread,
    Twrite,
    Rwrite,
    Tclunk,
    Rclunk,
    Tremove,
    Rremove,
}

/// Envelope for 9P messages
#[derive(Clone, Debug, PartialEq, Eq)]
pub struct Msg {
    /// Message type, one of the constants in MsgType
    pub typ: MsgType,
    /// Chosen and used by the client to identify the message.
    /// The reply to the message will have the same tag
    pub tag: u16,
    /// Message body encapsulating the various 9P messages
    pub body: Fcall,
}

/// What a `Msg` holds.
pub struct MsgView {
    pub typ: MsgType,
    pub tag: u16,
    pub body: FcallView,
}

/// A data type encapsulating the various 9P messages
#[allow(inconsistent_fields)]
#[derive(Clone, Debug, PartialEq, Eq)]
pub enum Fcall {
    Rlerror { ecode: u32 },
    Tstatfs { fid: u32 },
    Rstatfs { statfs: Statfs },
    Tlopen { fid: u32, flags: u32 },
    Rlopen { qid: Qid, iounit: u32 },
    Tlcreate { fid: u32, name: String, flags: u32, mode: u32, gid: u32 },
    Rlcreate { qid: Qid, iounit: u32 },
    Tsymlink { fid: u32, name: String, symtgt: String, gid: u32 },
    Rsymlink { qid: Qid },
    Tmknod { dfid: u32, name: String, mode: u32, major: u32, minor: u32, gid: u32 },
    Rmknod { qid: Qid },
    Trename { fid: u32, dfid: u32, name: String },
    Rrename,
    Treadlink { fid: u32 },
    Rreadlink { target: String },
    Tgetattr { fid: u32, req_mask: u64 },
    Rgetattr { valid: u64, qid: Qid, stat: Stat },
    Tsetattr { fid: u32, valid: u32, stat: SetAttr },
    Rsetattr,
    Txattrwalk { fid: u32, newfid: u32, name: String },
    Rxattrwalk { size: u64 },
    Txattrcreate { fid: u32, name: String, attr_size: u64, flags: u32 },
    Rxattrcreate,
    Treaddir { fid: u32, offset: u64, count: u32 },
    Rreaddir { data: DirEntryData },
    Tfsync { fid: u32 },
    Rfsync,
    Tlock { fid: u32, flock: Flock },
    Rlock { status: u8 },
    Tgetlock { fid: u32, flock: Getlock },
    Rgetlock { flock: Getlock },
    Tlink { dfid: u32, fid: u32, name: String },
    Rlink,
    Tmkdir { dfid: u32, name: String, mode: u32, gid: u32 },
    Rmkdir { qid: Qid },
    Trenameat { olddirfid: u32, oldname: String, newdirfid: u32, newname: String },
    Rrenameat,
    Tunlinkat { dirfd: u32, name: String, flags: u32 },
    Runlinkat,
    Tauth { afid: u32, uname: String, aname: String, n_uname: u32 },
    Rauth { aqid: Qid },
    Tattach { fid: u32, afid: u32, uname: String, aname: String, n_uname: u32 },
    Rattach { qid: Qid },
    Tversion { msize: u32, version: String },
    Rversion { msize: u32, version: String },
    Tflush { oldtag: u16 },
    Rflush,
    Twalk { fid: u32, newfid: u32, wnames: Vec<String> },
    Rwalk { wqids: Vec<Qid> },
    Tread { fid: u32, offset: u64, count: u32 },
    Rread { data: Data },
    Twrite { fid: u32, offset: u64, data: Data },
    Rwrite { count: u32 },
    Tclunk { fid: u32 },
    Rclunk,
    Tremove { fid: u32 },
    Rremove,
}

/// What an `Fcall` holds.
#[allow(inconsistent_fields)]
pub enum FcallView {
    Rlerror { ecode: u32 },
    Tstatfs { fid: u32 },
    Rstatfs { statfs: Statfs },
    Tlopen { fid: u32, flags: u32 },
    Rlopen { qid: Qid, iounit: u32 },
    Tlcreate { fid: u32, name: Seq<char>, flags: u32, mode: u32, gid: u32 },
    Rlcreate { qid: Qid, iounit: u32 },
    Tsymlink { fid: u32, name: Seq<char>, symtgt: Seq<char>, gid: u32 },
    Rsymlink { qid: Qid },
    Tmknod { dfid: u32, name: Seq<char>, mode: u32, major: u32, minor: u32, gid: u32 },
    Rmknod { qid: Qid },
    Trename { fid: u32, dfid: u32, name: Seq<char> },
    Rrename,
    Treadlink { fid: u32 },
    Rreadlink { target: Seq<char> },
    Tgetattr { fid: u32, req_mask: u64 },
    Rgetattr { valid: u64, qid: Qid, stat: Stat },
    Tsetattr { fid: u32, valid: u32, stat: SetAttr },
    Rsetattr,
    Txattrwalk { fid: u32, newfid: u32, name: Seq<char> },
    Rxattrwalk { size: u64 },
    Txattrcreate { fid: u32, name: Seq<char>, attr_size: u64, flags: u32 },
    Rxattrcreate,
    Treaddir { fid: u32, offset: u64, count: u32 },
    Rreaddir { data: Seq<DirEntryView> },
    Tfsync { fid: u32 },
    Rfsync,
    Tlock { fid: u32, flock: FlockView },
    Rlock { status: u8 },
    Tgetlock { fid: u32, flock: GetlockView },
    Rgetlock { flock: GetlockView },
    Tlink { dfid: u32, fid: u32, name: Seq<char> },
    Rlink,
    Tmkdir { dfid: u32, name: Seq<char>, mode: u32, gid: u32 },
    Rmkdir { qid: Qid },
    Trenameat { olddirfid: u32, oldname: Seq<char>, newdirfid: u32, newname: Seq<char> },
    Rrenameat,
    Tunlinkat { dirfd: u32, name: Seq<char>, flags: u32 },
    Runlinkat,
    Tauth { afid: u32, uname: Seq<char>, aname: Seq<char>, n_uname: u32 },
    Rauth { aqid: Qid },
    Tattach { fid: u32, afid: u32, uname: Seq<char>, aname: Seq<char>, n_uname: u32 },
    Rattach { qid: Qid },
    Tversion { msize: u32, version: Seq<char> },
    Rversion { msize: u32, version: Seq<char> },
    Tflush { oldtag: u16 },
    Rflush,
    Twalk { fid: u32, newfid: u32, wnames: Seq<Seq<char>> },
    Rwalk { wqids: Seq<Qid> },
    Tread { fid: u32, offset: u64, count: u32 },
    Rread { data: Seq<u8> },
    Twrite { fid: u32, offset: u64, data: Seq<u8> },
    Rwrite { count: u32 },
    Tclunk { fid: u32 },
    Rclunk,
    Tremove { fid: u32 },
    Rremove,
}

impl DeepView for Qid {
    type V = Qid;

    open spec fn deep_view(&self) -> Qid {
        *self
    }
}

impl DeepView for Statfs {
    type V = Statfs;

    open spec fn deep_view(&self) -> Statfs {
        *self
    }
}

impl DeepView for Time {
    type V = Time;

    open spec fn deep_view(&self) -> Time {
        *self
    }
}

impl DeepView for Stat {
    type V = Stat;

    open spec fn deep_view(&self) -> Stat {
        *self
    }
}

impl DeepView for SetAttr {
    type V = SetAttr;

    open spec fn deep_view(&self) -> SetAttr {
        *self
    }
}

impl DeepView for DirEntry {
    type V = DirEntryView;

    open spec fn deep_view(&self) -> DirEntryView {
        DirEntryView { qid: self.qid, offset: self.offset, typ: self.typ, name: self.name@ }
    }
}

/// The number of bytes that a directory entry takes on the wire.
pub open spec fn entry_size(e: DirEntryView) -> nat {
    24 + encode_utf8(e.name).len()
}

/// The number of bytes that directory entries take on the wire, one behind
/// the other.
pub open spec fn entries_size(s: Seq<DirEntryView>) -> nat
    decreases s.len(),
{
    if s.len() == 0 {
        0
    } else {
        entries_size(s.drop_last()) + entry_size(s.last())
    }
}

/// `n`, or the largest `u32` where `n` is larger.
pub open spec fn clip(n: nat) -> u32 {
    if n > 0xffff_ffff {
        0xffff_ffff
    } else {
        n as u32
    }
}

impl DirEntry {
    /// The number of bytes that this entry takes on the wire, or the
    /// largest `u32` where they are more.
    pub fn size(&self) -> (n: u32)
        ensures
            n == clip(entry_size(self.deep_view())),
    {
        let len = self.name.as_str().as_bytes().len();
        if len > 0xffff_ffff - 24 {
            0xffff_ffff
        } else {
            (24 + len) as u32
        }
    }
}

impl DirEntryData {
    /// The number of bytes that the entries take on the wire, or the
    /// largest `u32` where they are more.
    pub fn size(&self) -> (n: u32)
        ensures
            n == clip(entries_size(self.deep_view())),
    {
        let mut total: u32 = 0;
        let mut i: usize = 0;
        assert(self.deep_view().take(0) =~= Seq::<DirEntryView>::empty());
        while i < self.0.len()
            invariant
                i <= self.0@.len(),
                self.0@ == self.entries(),
                total == clip(entries_size(self.deep_view().take(i as int))),
            decreases self.0.len() - i,
        {
            let size = self.0[i].size();
            proof {
                let s = self.deep_view().take(i + 1);
                assert(s.drop_last() =~= self.deep_view().take(i as int));
                assert(s.last() == self.0@[i as int].deep_view());
            }
            total = if size > 0xffff_ffff - total {
                0xffff_ffff
            } else {
                total + size
            };
            i = i + 1;
        }
        assert(self.deep_view().take(i as int) =~= self.deep_view());
        total
    }

    /// Appends an entry where the entries then take at most `count` bytes on
    /// the wire, and says whether it did.
    pub fn push_within(&mut self, entry: DirEntry, count: u32) -> (pushed: bool)
        ensures
            pushed == (entries_size(old(self).deep_view()) + entry_size(entry.deep_view())
                <= count),
            pushed ==> final(self).entries() == old(self).entries().push(entry),
            !pushed ==> final(self).entries() == old(self).entries(),
    {
        let len = entry.name.as_str().as_bytes().len();
        if count < 24 || len > (count - 24) as usize {
            return false;
        }
        let size = 24 + len as u32;
        if self.size() > count - size {
            return false;
        }
        self.0.push(entry);
        true
    }

    /// The entries, in order.
    pub closed spec fn entries(&self) -> Seq<DirEntry> {
        self.0@
    }

    pub fn new(v: Vec<DirEntry>) -> (r: DirEntryData)
        ensures
            r.entries() == v@,
    {
        DirEntryData(v)
    }

    pub fn data(&self) -> (r: &[DirEntry])
        ensures
            r@ == self.entries(),
    {
        self.0.as_slice()
    }

    /// Appends an entry.
    pub fn push(&mut self, entry: DirEntry)
        ensures
            final(self).entries() == old(self).entries().push(entry),
    {
        self.0.push(entry);
    }
}

impl DeepView for DirEntryData {
    type V = Seq<DirEntryView>;

    open spec fn deep_view(&self) -> Seq<DirEntryView> {
        let v = self.entries();
        Seq::new(v.len(), |i: int| v[i].deep_view())
    }
}

impl Data {
    /// The bytes, in order.
    pub closed spec fn bytes(&self) -> Seq<u8> {
        self.0@
    }

    pub fn new(v: Vec<u8>) -> (r: Data)
        ensures
            r.bytes() == v@,
    {
        Data(v)
    }

    pub fn data(&self) -> (r: &[u8])
        ensures
            r@ == self.bytes(),
    {
        self.0.as_slice()
    }
}

impl DeepView for Data {
    type V = Seq<u8>;

    open spec fn deep_view(&self) -> Seq<u8> {
        self.bytes()
    }
}

impl DeepView for Flock {
    type V = FlockView;

    open spec fn deep_view(&self) -> FlockView {
        FlockView {
            typ: self.typ,
            flags: self.flags,
            start: self.start,
            length: self.length,
            proc_id: self.proc_id,
            client_id: self.client_id@,
        }
    }
}

impl DeepView for Getlock {
    type V = GetlockView;

    open spec fn deep_view(&self) -> GetlockView {
        GetlockView {
            typ: self.typ,
            start: self.start,
            length: self.length,
            proc_id: self.proc_id,
            client_id: self.client_id@,
        }
    }
}

impl MsgType {
    /// The byte that stands for this message type on the wire.
    pub open spec fn number(self) -> int {
        match self {
            MsgType::Tlerror => 6,
            MsgType::Rlerror => 7,
            MsgType::Tstatfs => 8,
            MsgType::Rstatfs => 9,
            MsgType::Tlopen => 12,
            MsgType::Rlopen => 13,
            MsgType::Tlcreate => 14,
            MsgType::Rlcreate => 15,
            MsgType::Tsymlink => 16,
            MsgType::Rsymlink => 17,
            MsgType::Tmknod => 18,
            MsgType::Rmknod => 19,
            MsgType::Trename => 20,
            MsgType::Rrename => 21,
            MsgType::Treadlink => 22,
            MsgType::Rreadlink => 23,
            MsgType::Tgetattr => 24,
            MsgType::Rgetattr => 25,
            MsgType::Tsetattr => 26,
            MsgType::Rsetattr => 27,
            MsgType::Txattrwalk => 30,
            MsgType::Rxattrwalk => 31,
            MsgType::Txattrcreate => 32,
            MsgType::Rxattrcreate => 33,
            MsgType::Treaddir => 40,
            MsgType::Rreaddir => 41,
            MsgType::Tfsync => 50,
            MsgType::Rfsync => 51,
            MsgType::Tlock => 52,
            MsgType::Rlock => 53,
            MsgType::Tgetlock => 54,
            MsgType::Rgetlock => 55,
            MsgType::Tlink => 70,
            MsgType::Rlink => 71,
            MsgType::Tmkdir => 72,
            MsgType::Rmkdir => 73,
            MsgType::Trenameat => 74,
            MsgType::Rrenameat => 75,
            MsgType::Tunlinkat => 76,
            MsgType::Runlinkat => 77,
            MsgType::Tversion => 100,
            MsgType::Rversion => 101,
            MsgType::Tauth => 102,
            MsgType::Rauth => 103,
            MsgType::Tattach => 104,
            MsgType::Rattach => 105,
            MsgType::Tflush => 108,
            MsgType::Rflush => 109,
            MsgType::Twalk => 110,
            MsgType::Rwalk => 111,
            MsgType::Tread => 116,
            MsgType::Rread => 117,
            MsgType::Twrite => 118,
            MsgType::Rwrite => 119,
            MsgType::Tclunk => 120,
            MsgType::Rclunk => 121,
            MsgType::Tremove => 122,
            MsgType::Rremove => 123,
        }
    }

    /// The message type that byte `n` stands for, if any.
    pub open spec fn of_number(n: int) -> Option<MsgType> {
        if n == 6 {
            Some(MsgType::Tlerror)
        } else if n == 7 {
            Some(MsgType::Rlerror)
        } else if n == 8 {
            Some(MsgType::Tstatfs)
        } else if n == 9 {
            Some(MsgType::Rstatfs)
        } else if n == 12 {
            Some(MsgType::Tlopen)
        } else if n == 13 {
            Some(MsgType::Rlopen)
        } else if n == 14 {
            Some(MsgType::Tlcreate)
        } else if n == 15 {
            Some(MsgType::Rlcreate)
        } else if n == 16 {
            Some(MsgType::Tsymlink)
        } else if n == 17 {
            Some(MsgType::Rsymlink)
        } else if n == 18 {
            Some(MsgType::Tmknod)
        } else if n == 19 {
            Some(MsgType::Rmknod)
        } else if n == 20 {
            Some(MsgType::Trename)
        } else if n == 21 {
            Some(MsgType::Rrename)
        } else if n == 22 {
            Some(MsgType::Treadlink)
        } else if n == 23 {
            Some(MsgType::Rreadlink)
        } else if n == 24 {
            Some(MsgType::Tgetattr)
        } else if n == 25 {
            Some(MsgType::Rgetattr)
        } else if n == 26 {
            Some(MsgType::Tsetattr)
        } else if n == 27 {
            Some(MsgType::Rsetattr)
        } else if n == 30 {
            Some(MsgType::Txattrwalk)
        } else if n == 31 {
            Some(MsgType::Rxattrwalk)
        } else if n == 32 {
            Some(MsgType::Txattrcreate)
        } else if n == 33 {
            Some(MsgType::Rxattrcreate)
        } else if n == 40 {
            Some(MsgType::Treaddir)
        } else if n == 41 {
            Some(MsgType::Rreaddir)
        } else if n == 50 {
            Some(MsgType::Tfsync)
        } else if n == 51 {
            Some(MsgType::Rfsync)
        } else if n == 52 {
            Some(MsgType::Tlock)
        } else if n == 53 {
            Some(MsgType::Rlock)
        } else if n == 54 {
            Some(MsgType::Tgetlock)
        } else if n == 55 {
            Some(MsgType::Rgetlock)
        } else if n == 70 {
            Some(MsgType::Tlink)
        } else if n == 71 {
            Some(MsgType::Rlink)
        } else if n == 72 {
            Some(MsgType::Tmkdir)
        } else if n == 73 {
            Some(MsgType::Rmkdir)
        } else if n == 74 {
            Some(MsgType::Trenameat)
        } else if n == 75 {
            Some(MsgType::Rrenameat)
        } else if n == 76 {
            Some(MsgType::Tunlinkat)
        } else if n == 77 {
            Some(MsgType::Runlinkat)
        } else if n == 100 {
            Some(MsgType::Tversion)
        } else if n == 101 {
            Some(MsgType::Rversion)
        } else if n == 102 {
            Some(MsgType::Tauth)
        } else if n == 103 {
            Some(MsgType::Rauth)
        } else if n == 104 {
            Some(MsgType::Tattach)
        } else if n == 105 {
            Some(MsgType::Rattach)
        } else if n == 108 {
            Some(MsgType::Tflush)
        } else if n == 109 {
            Some(MsgType::Rflush)
        } else if n == 110 {
            Some(MsgType::Twalk)
        } else if n == 111 {
            Some(MsgType::Rwalk)
        } else if n == 116 {
            Some(MsgType::Tread)
        } else if n == 117 {
            Some(MsgType::Rread)
        } else if n == 118 {
            Some(MsgType::Twrite)
        } else if n == 119 {
            Some(MsgType::Rwrite)
        } else if n == 120 {
            Some(MsgType::Tclunk)
        } else if n == 121 {
            Some(MsgType::Rclunk)
        } else if n == 122 {
            Some(MsgType::Tremove)
        } else if n == 123 {
            Some(MsgType::Rremove)
        } else {
            None
        }
    }

    /// The wire value of this message type.
    pub fn code(self) -> (n: u8)
        ensures
            n == self.number(),
    {
        match self {
            MsgType::Tlerror => 6,
            MsgType::Rlerror => 7,
            MsgType::Tstatfs => 8,
            MsgType::Rstatfs => 9,
            MsgType::Tlopen => 12,
            MsgType::Rlopen => 13,
            MsgType::Tlcreate => 14,
            MsgType::Rlcreate => 15,
            MsgType::Tsymlink => 16,
            MsgType::Rsymlink => 17,
            MsgType::Tmknod => 18,
            MsgType::Rmknod => 19,
            MsgType::Trename => 20,
            MsgType::Rrename => 21,
            MsgType::Treadlink => 22,
            MsgType::Rreadlink => 23,
            MsgType::Tgetattr => 24,
            MsgType::Rgetattr => 25,
            MsgType::Tsetattr => 26,
            MsgType::Rsetattr => 27,
            MsgType::Txattrwalk => 30,
            MsgType::Rxattrwalk => 31,
            MsgType::Txattrcreate => 32,
            MsgType::Rxattrcreate => 33,
            MsgType::Treaddir => 40,
            MsgType::Rreaddir => 41,
            MsgType::Tfsync => 50,
            MsgType::Rfsync => 51,
            MsgType::Tlock => 52,
            MsgType::Rlock => 53,
            MsgType::Tgetlock => 54,
            MsgType::Rgetlock => 55,
            MsgType::Tlink => 70,
            MsgType::Rlink => 71,
            MsgType::Tmkdir => 72,
            MsgType::Rmkdir => 73,
            MsgType::Trenameat => 74,
            MsgType::Rrenameat => 75,
            MsgType::Tunlinkat => 76,
            MsgType::Runlinkat => 77,
            MsgType::Tversion => 100,
            MsgType::Rversion => 101,
            MsgType::Tauth => 102,
            MsgType::Rauth => 103,
            MsgType::Tattach => 104,
            MsgType::Rattach => 105,
            MsgType::Tflush => 108,
            MsgType::Rflush => 109,
            MsgType::Twalk => 110,
            MsgType::Rwalk => 111,
            MsgType::Tread => 116,
            MsgType::Rread => 117,
            MsgType::Twrite => 118,
            MsgType::Rwrite => 119,
            MsgType::Tclunk => 120,
            MsgType::Rclunk => 121,
            MsgType::Tremove => 122,
            MsgType::Rremove => 123,
        }
    }

    /// The message type of a wire value; `None` where the value names none.
    pub fn from_u8(n: u8) -> (r: Option<MsgType>)
        ensures
            r == MsgType::of_number(n as int),
    {
        match n {
            6 => Some(MsgType::Tlerror),
            7 => Some(MsgType::Rlerror),
            8 => Some(MsgType::Tstatfs),
            9 => Some(MsgType::Rstatfs),
            12 => Some(MsgType::Tlopen),
            13 => Some(MsgType::Rlopen),
            14 => Some(MsgType::Tlcreate),
            15 => Some(MsgType::Rlcreate),
            16 => Some(MsgType::Tsymlink),
            17 => Some(MsgType::Rsymlink),
            18 => Some(MsgType::Tmknod),
            19 => Some(MsgType::Rmknod),
            20 => Some(MsgType::Trename),
            21 => Some(MsgType::Rrename),
            22 => Some(MsgType::Treadlink),
            23 => Some(MsgType::Rreadlink),
            24 => Some(MsgType::Tgetattr),
            25 => Some(MsgType::Rgetattr),
            26 => Some(MsgType::Tsetattr),
            27 => Some(MsgType::Rsetattr),
            30 => Some(MsgType::Txattrwalk),
            31 => Some(MsgType::Rxattrwalk),
            32 => Some(MsgType::Txattrcreate),
            33 => Some(MsgType::Rxattrcreate),
            40 => Some(MsgType::Treaddir),
            41 => Some(MsgType::Rreaddir),
            50 => Some(MsgType::Tfsync),
            51 => Some(MsgType::Rfsync),
            52 => Some(MsgType::Tlock),
            53 => Some(MsgType::Rlock),
            54 => Some(MsgType::Tgetlock),
            55 => Some(MsgType::Rgetlock),
            70 => Some(MsgType::Tlink),
            71 => Some(MsgType::Rlink),
            72 => Some(MsgType::Tmkdir),
            73 => Some(MsgType::Rmkdir),
            74 => Some(MsgType::Trenameat),
            75 => Some(MsgType::Rrenameat),
            76 => Some(MsgType::Tunlinkat),
            77 => Some(MsgType::Runlinkat),
            100 => Some(MsgType::Tversion),
            101 => Some(MsgType::Rversion),
            102 => Some(MsgType::Tauth),
            103 => Some(MsgType::Rauth),
            104 => Some(MsgType::Tattach),
            105 => Some(MsgType::Rattach),
            108 => Some(MsgType::Tflush),
            109 => Some(MsgType::Rflush),
            110 => Some(MsgType::Twalk),
            111 => Some(MsgType::Rwalk),
            116 => Some(MsgType::Tread),
            117 => Some(MsgType::Rread),
            118 => Some(MsgType::Twrite),
            119 => Some(MsgType::Rwrite),
            120 => Some(MsgType::Tclunk),
            121 => Some(MsgType::Rclunk),
            122 => Some(MsgType::Tremove),
            123 => Some(MsgType::Rremove),
            _ => None,
        }
    }

    /// Whether this is the type of a request.
    pub open spec fn is_request(self) -> bool {
        self.number() % 2 == 0
    }
}

/// Every message type is found again from its wire value.
pub proof fn lemma_msg_type_of_number_inverse(t: MsgType)
    ensures
        MsgType::of_number(t.number()) == Some(t),
        0 <= t.number() < 256,
{
}

impl MsgView {
    /// Whether the type of the message is that of its body.
    pub open spec fn well_formed(self) -> bool {
        self.typ == self.body.msg_type()
    }
}

impl FcallView {
    /// The message type that belongs to this body.
    pub open spec fn msg_type(self) -> MsgType {
        match self {
            FcallView::Rlerror { .. } => MsgType::Rlerror,
            FcallView::Tstatfs { .. } => MsgType::Tstatfs,
            FcallView::Rstatfs { .. } => MsgType::Rstatfs,
            FcallView::Tlopen { .. } => MsgType::Tlopen,
            FcallView::Rlopen { .. } => MsgType::Rlopen,
            FcallView::Tlcreate { .. } => MsgType::Tlcreate,
            FcallView::Rlcreate { .. } => MsgType::Rlcreate,
            FcallView::Tsymlink { .. } => MsgType::Tsymlink,
            FcallView::Rsymlink { .. } => MsgType::Rsymlink,
            FcallView::Tmknod { .. } => MsgType::Tmknod,
            FcallView::Rmknod { .. } => MsgType::Rmknod,
            FcallView::Trename { .. } => MsgType::Trename,
            FcallView::Rrename => MsgType::Rrename,
            FcallView::Treadlink { .. } => MsgType::Treadlink,
            FcallView::Rreadlink { .. } => MsgType::Rreadlink,
            FcallView::Tgetattr { .. } => MsgType::Tgetattr,
            FcallView::Rgetattr { .. } => MsgType::Rgetattr,
            FcallView::Tsetattr { .. } => MsgType::Tsetattr,
            FcallView::Rsetattr => MsgType::Rsetattr,
            FcallView::Txattrwalk { .. } => MsgType::Txattrwalk,
            FcallView::Rxattrwalk { .. } => MsgType::Rxattrwalk,
            FcallView::Txattrcreate { .. } => MsgType::Txattrcreate,
            FcallView::Rxattrcreate => MsgType::Rxattrcreate,
            FcallView::Treaddir { .. } => MsgType::Treaddir,
            FcallView::Rreaddir { .. } => MsgType::Rreaddir,
            FcallView::Tfsync { .. } => MsgType::Tfsync,
            FcallView::Rfsync => MsgType::Rfsync,
            FcallView::Tlock { .. } => MsgType::Tlock,
            FcallView::Rlock { .. } => MsgType::Rlock,
            FcallView::Tgetlock { .. } => MsgType::Tgetlock,
            FcallView::Rgetlock { .. } => MsgType::Rgetlock,
            FcallView::Tlink { .. } => MsgType::Tlink,
            FcallView::Rlink => MsgType::Rlink,
            FcallView::Tmkdir { .. } => MsgType::Tmkdir,
            FcallView::Rmkdir { .. } => MsgType::Rmkdir,
            FcallView::Trenameat { .. } => MsgType::Trenameat,
            FcallView::Rrenameat => MsgType::Rrenameat,
            FcallView::Tunlinkat { .. } => MsgType::Tunlinkat,
            FcallView::Runlinkat => MsgType::Runlinkat,
            FcallView::Tauth { .. } => MsgType::Tauth,
            FcallView::Rauth { .. } => MsgType::Rauth,
            FcallView::Tattach { .. } => MsgType::Tattach,
            FcallView::Rattach { .. } => MsgType::Rattach,
            FcallView::Tversion { .. } => MsgType::Tversion,
            FcallView::Rversion { .. } => MsgType::Rversion,
            FcallView::Tflush { .. } => MsgType::Tflush,
            FcallView::Rflush => MsgType::Rflush,
            FcallView::Twalk { .. } => MsgType::Twalk,
            FcallView::Rwalk { .. } => MsgType::Rwalk,
            FcallView::Tread { .. } => MsgType::Tread,
            FcallView::Rread { .. } => MsgType::Rread,
            FcallView::Twrite { .. } => MsgType::Twrite,
            FcallView::Rwrite { .. } => MsgType::Rwrite,
            FcallView::Tclunk { .. } => MsgType::Tclunk,
            FcallView::Rclunk => MsgType::Rclunk,
            FcallView::Tremove { .. } => MsgType::Tremove,
            FcallView::Rremove => MsgType::Rremove,
        }
    }

    /// The fids of the request that must be live when it arrives, in the
    /// order in which they are handed to the file system.
    pub open spec fn fids(self) -> Seq<u32> {
        match self {
            FcallView::Tstatfs { fid, .. } => seq![fid],
            FcallView::Tlopen { fid, .. } => seq![fid],
            FcallView::Tlcreate { fid, .. } => seq![fid],
            FcallView::Tsymlink { fid, .. } => seq![fid],
            FcallView::Tmknod { dfid, .. } => seq![dfid],
            FcallView::Trename { fid, dfid, .. } => seq![fid, dfid],
            FcallView::Treadlink { fid, .. } => seq![fid],
            FcallView::Tgetattr { fid, .. } => seq![fid],
            FcallView::Tsetattr { fid, .. } => seq![fid],
            FcallView::Txattrwalk { fid, .. } => seq![fid],
            FcallView::Txattrcreate { fid, .. } => seq![fid],
            FcallView::Treaddir { fid, .. } => seq![fid],
            FcallView::Tfsync { fid, .. } => seq![fid],
            FcallView::Tlock { fid, .. } => seq![fid],
            FcallView::Tgetlock { fid, .. } => seq![fid],
            FcallView::Tlink { dfid, fid, .. } => seq![dfid, fid],
            FcallView::Tmkdir { dfid, .. } => seq![dfid],
            FcallView::Trenameat { olddirfid, newdirfid, .. } => seq![olddirfid, newdirfid],
            FcallView::Tunlinkat { dirfd, .. } => seq![dirfd],
            FcallView::Twalk { fid, .. } => seq![fid],
            FcallView::Tread { fid, .. } => seq![fid],
            FcallView::Twrite { fid, .. } => seq![fid],
            FcallView::Tclunk { fid, .. } => seq![fid],
            FcallView::Tremove { fid, .. } => seq![fid],
            _ => Seq::empty(),
        }
    }

    /// The fids that the request introduces.
    pub open spec fn newfids(self) -> Seq<u32> {
        match self {
            FcallView::Txattrwalk { newfid, .. } => seq![newfid],
            FcallView::Tauth { afid, .. } => seq![afid],
            FcallView::Tattach { fid, .. } => seq![fid],
            FcallView::Twalk { newfid, .. } => seq![newfid],
            _ => Seq::empty(),
        }
    }
}

impl DeepView for Fcall {
    type V = FcallView;

    open spec fn deep_view(&self) -> FcallView {
        match *self {
            Fcall::Rlerror { ecode } => FcallView::Rlerror { ecode },
            Fcall::Tstatfs { fid } => FcallView::Tstatfs { fid },
            Fcall::Rstatfs { statfs } => FcallView::Rstatfs { statfs },
            Fcall::Tlopen { fid, flags } => FcallView::Tlopen { fid, flags },
            Fcall::Rlopen { qid, iounit } => FcallView::Rlopen { qid, iounit },
            Fcall::Tlcreate { fid, name, flags, mode, gid } => FcallView::Tlcreate {
                fid,
                name: name@,
                flags,
                mode,
                gid,
            },
            Fcall::Rlcreate { qid, iounit } => FcallView::Rlcreate { qid, iounit },
            Fcall::Tsymlink { fid, name, symtgt, gid } => FcallView::Tsymlink {
                fid,
                name: name@,
                symtgt: symtgt@,
                gid,
            },
            Fcall::Rsymlink { qid } => FcallView::Rsymlink { qid },
            Fcall::Tmknod { dfid, name, mode, major, minor, gid } => FcallView::Tmknod {
                dfid,
                name: name@,
                mode,
                major,
                minor,
                gid,
            },
            Fcall::Rmknod { qid } => FcallView::Rmknod { qid },
            Fcall::Trename { fid, dfid, name } => FcallView::Trename { fid, dfid, name: name@ },
            Fcall::Rrename => FcallView::Rrename,
            Fcall::Treadlink { fid } => FcallView::Treadlink { fid },
            Fcall::Rreadlink { target } => FcallView::Rreadlink { target: target@ },
            Fcall::Tgetattr { fid, req_mask } => FcallView::Tgetattr { fid, req_mask },
            Fcall::Rgetattr { valid, qid, stat } => FcallView::Rgetattr { valid, qid, stat },
            Fcall::Tsetattr { fid, valid, stat } => FcallView::Tsetattr { fid, valid, stat },
            Fcall::Rsetattr => FcallView::Rsetattr,
            Fcall::Txattrwalk { fid, newfid, name } => FcallView::Txattrwalk {
                fid,
                newfid,
                name: name@,
            },
            Fcall::Rxattrwalk { size } => FcallView::Rxattrwalk { size },
            Fcall::Txattrcreate { fid, name, attr_size, flags } => FcallView::Txattrcreate {
                fid,
                name: name@,
                attr_size,
                flags,
            },
            Fcall::Rxattrcreate => FcallView::Rxattrcreate,
            Fcall::Treaddir { fid, offset, count } => FcallView::Treaddir { fid, offset, count },
            Fcall::Rreaddir { data } => FcallView::Rreaddir { data: data.deep_view() },
            Fcall::Tfsync { fid } => FcallView::Tfsync { fid },
            Fcall::Rfsync => FcallView::Rfsync,
            Fcall::Tlock { fid, flock } => FcallView::Tlock { fid, flock: flock.deep_view() },
            Fcall::Rlock { status } => FcallView::Rlock { status },
            Fcall::Tgetlock { fid, flock } => FcallView::Tgetlock { fid, flock: flock.deep_view() },
            Fcall::Rgetlock { flock } => FcallView::Rgetlock { flock: flock.deep_view() },
            Fcall::Tlink { dfid, fid, name } => FcallView::Tlink { dfid, fid, name: name@ },
            Fcall::Rlink => FcallView::Rlink,
            Fcall::Tmkdir { dfid, name, mode, gid } => FcallView::Tmkdir {
                dfid,
                name: name@,
                mode,
                gid,
            },
            Fcall::Rmkdir { qid } => FcallView::Rmkdir { qid },
            Fcall::Trenameat { olddirfid, oldname, newdirfid, newname } => FcallView::Trenameat {
                olddirfid,
                oldname: oldname@,
                newdirfid,
                newname: newname@,
            },
            Fcall::Rrenameat => FcallView::Rrenameat,
            Fcall::Tunlinkat { dirfd, name, flags } => FcallView::Tunlinkat {
                dirfd,
                name: name@,
                flags,
            },
            Fcall::Runlinkat => FcallView::Runlinkat,
            Fcall::Tauth { afid, uname, aname, n_uname } => FcallView::Tauth {
                afid,
                uname: uname@,
                aname: aname@,
                n_uname,
            },
            Fcall::Rauth { aqid } => FcallView::Rauth { aqid },
            Fcall::Tattach { fid, afid, uname, aname, n_uname } => FcallView::Tattach {
                fid,
                afid,
                uname: uname@,
                aname: aname@,
                n_uname,
            },
            Fcall::Rattach { qid } => FcallView::Rattach { qid },
            Fcall::Tversion { msize, version } => FcallView::Tversion { msize, version: version@ },
            Fcall::Rversion { msize, version } => FcallView::Rversion { msize, version: version@ },
            Fcall::Tflush { oldtag } => FcallView::Tflush { oldtag },
            Fcall::Rflush => FcallView::Rflush,
            Fcall::Twalk { fid, newfid, wnames } => FcallView::Twalk {
                fid,
                newfid,
                wnames: wnames.deep_view(),
            },
            Fcall::Rwalk { wqids } => FcallView::Rwalk { wqids: wqids.deep_view() },
            Fcall::Tread { fid, offset, count } => FcallView::Tread { fid, offset, count },
            Fcall::Rread { data } => FcallView::Rread { data: data.deep_view() },
            Fcall::Twrite { fid, offset, data } => FcallView::Twrite {
                fid,
                offset,
                data: data.deep_view(),
            },
            Fcall::Rwrite { count } => FcallView::Rwrite { count },
            Fcall::Tclunk { fid } => FcallView::Tclunk { fid },
            Fcall::Rclunk => FcallView::Rclunk,
            Fcall::Tremove { fid } => FcallView::Tremove { fid },
            Fcall::Rremove => FcallView::Rremove,
        }
    }
}

impl View for Fcall {
    type V = FcallView;

    open spec fn view(&self) -> FcallView {
        self.deep_view()
    }
}

impl DeepView for Msg {
    type V = MsgView;

    open spec fn deep_view(&self) -> MsgView {
        MsgView { typ: self.typ, tag: self.tag, body: self.body.deep_view() }
    }
}

impl View for Msg {
    type V = MsgView;

    open spec fn view(&self) -> MsgView {
        self.deep_view()
    }
}

impl Fcall {
    /// The message type that belongs to this body.
    pub fn msg_type(&self) -> (t: MsgType)
        ensures
            t == self@.msg_type(),
    {
        match self {
            Fcall::Rlerror { .. } => MsgType::Rlerror,
            Fcall::Tstatfs { .. } => MsgType::Tstatfs,
            Fcall::Rstatfs { .. } => MsgType::Rstatfs,
            Fcall::Tlopen { .. } => MsgType::Tlopen,
            Fcall::Rlopen { .. } => MsgType::Rlopen,
            Fcall::Tlcreate { .. } => MsgType::Tlcreate,
            Fcall::Rlcreate { .. } => MsgType::Rlcreate,
            Fcall::Tsymlink { .. } => MsgType::Tsymlink,
            Fcall::Rsymlink { .. } => MsgType::Rsymlink,
            Fcall::Tmknod { .. } => MsgType::Tmknod,
            Fcall::Rmknod { .. } => MsgType::Rmknod,
            Fcall::Trename { .. } => MsgType::Trename,
            Fcall::Rrename => MsgType::Rrename,
            Fcall::Treadlink { .. } => MsgType::Treadlink,
            Fcall::Rreadlink { .. } => MsgType::Rreadlink,
            Fcall::Tgetattr { .. } => MsgType::Tgetattr,
            Fcall::Rgetattr { .. } => MsgType::Rgetattr,
            Fcall::Tsetattr { .. } => MsgType::Tsetattr,
            Fcall::Rsetattr => MsgType::Rsetattr,
            Fcall::Txattrwalk { .. } => MsgType::Txattrwalk,
            Fcall::Rxattrwalk { .. } => MsgType::Rxattrwalk,
            Fcall::Txattrcreate { .. } => MsgType::Txattrcreate,
            Fcall::Rxattrcreate => MsgType::Rxattrcreate,
            Fcall::Treaddir { .. } => MsgType::Treaddir,
            Fcall::Rreaddir { .. } => MsgType::Rreaddir,
            Fcall::Tfsync { .. } => MsgType::Tfsync,
            Fcall::Rfsync => MsgType::Rfsync,
            Fcall::Tlock { .. } => MsgType::Tlock,
            Fcall::Rlock { .. } => MsgType::Rlock,
            Fcall::Tgetlock { .. } => MsgType::Tgetlock,
            Fcall::Rgetlock { .. } => MsgType::Rgetlock,
            Fcall::Tlink { .. } => MsgType::Tlink,
            Fcall::Rlink => MsgType::Rlink,
            Fcall::Tmkdir { .. } => MsgType::Tmkdir,
            Fcall::Rmkdir { .. } => MsgType::Rmkdir,
            Fcall::Trenameat { .. } => MsgType::Trenameat,
            Fcall::Rrenameat => MsgType::Rrenameat,
            Fcall::Tunlinkat { .. } => MsgType::Tunlinkat,
            Fcall::Runlinkat => MsgType::Runlinkat,
            Fcall::Tauth { .. } => MsgType::Tauth,
            Fcall::Rauth { .. } => MsgType::Rauth,
            Fcall::Tattach { .. } => MsgType::Tattach,
            Fcall::Rattach { .. } => MsgType::Rattach,
            Fcall::Tversion { .. } => MsgType::Tversion,
            Fcall::Rversion { .. } => MsgType::Rversion,
            Fcall::Tflush { .. } => MsgType::Tflush,
            Fcall::Rflush => MsgType::Rflush,
            Fcall::Twalk { .. } => MsgType::Twalk,
            Fcall::Rwalk { .. } => MsgType::Rwalk,
            Fcall::Tread { .. } => MsgType::Tread,
            Fcall::Rread { .. } => MsgType::Rread,
            Fcall::Twrite { .. } => MsgType::Twrite,
            Fcall::Rwrite { .. } => MsgType::Rwrite,
            Fcall::Tclunk { .. } => MsgType::Tclunk,
            Fcall::Rclunk => MsgType::Rclunk,
            Fcall::Tremove { .. } => MsgType::Tremove,
            Fcall::Rremove => MsgType::Rremove,
        }
    }

    /// Get request's fid if available
    pub fn fid(&self) -> (r: Vec<u32>)
        ensures
            r@ == self@.fids(),
    {
        match self {
            Fcall::Tstatfs { fid, .. } => vec![*fid],
            Fcall::Tlopen { fid, .. } => vec![*fid],
            Fcall::Tlcreate { fid, .. } => vec![*fid],
            Fcall::Tsymlink { fid, .. } => vec![*fid],
            Fcall::Tmknod { dfid, .. } => vec![*dfid],
            Fcall::Trename { fid, dfid, .. } => vec![*fid, *dfid],
            Fcall::Treadlink { fid, .. } => vec![*fid],
            Fcall::Tgetattr { fid, .. } => vec![*fid],
            Fcall::Tsetattr { fid, .. } => vec![*fid],
            Fcall::Txattrwalk { fid, .. } => vec![*fid],
            Fcall::Txattrcreate { fid, .. } => vec![*fid],
            Fcall::Treaddir { fid, .. } => vec![*fid],
            Fcall::Tfsync { fid, .. } => vec![*fid],
            Fcall::Tlock { fid, .. } => vec![*fid],
            Fcall::Tgetlock { fid, .. } => vec![*fid],
            Fcall::Tlink { dfid, fid, .. } => vec![*dfid, *fid],
            Fcall::Tmkdir { dfid, .. } => vec![*dfid],
            Fcall::Trenameat { olddirfid, newdirfid, .. } => vec![*olddirfid, *newdirfid],
            Fcall::Tunlinkat { dirfd, .. } => vec![*dirfd],
            Fcall::Twalk { fid, .. } => vec![*fid],
            Fcall::Tread { fid, .. } => vec![*fid],
            Fcall::Twrite { fid, .. } => vec![*fid],
            Fcall::Tclunk { fid, .. } => vec![*fid],
            Fcall::Tremove { fid, .. } => vec![*fid],
            _ => Vec::new(),
        }
    }

    /// Get request's newfid if available
    pub fn newfid(&self) -> (r: Vec<u32>)
        ensures
            r@ == self@.newfids(),
    {
        match self {
            Fcall::Txattrwalk { newfid, .. } => vec![*newfid],
            Fcall::Tauth { afid, .. } => vec![*afid],
            Fcall::Tattach { fid, .. } => vec![*fid],
            Fcall::Twalk { newfid, .. } => vec![*newfid],
            _ => Vec::new(),
        }
    }

    /// Get the qid that the message carries for a fid; no message carries one.
    pub fn qid(&self) -> (r: Option<Qid>)
        ensures
            r is None,
    {
        None
    }
}

} // verus!
