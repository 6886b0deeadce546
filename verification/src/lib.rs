//! Filesystems library using 9P2000.L protocol, an extended variant of 9P from Plan 9.
//!
//! 9P2000.L is the variant of 9P that carries Linux specific features and is
//! spoken by the Linux kernel's 9P client. This crate holds the wire codec of
//! the protocol, the per-connection fid table and the request dispatcher of a
//! server. A file system is written by implementing the `Filesystem` trait.

pub mod error;
pub mod fcall;
pub mod serialize;
pub mod srv;
pub mod utils;

pub use error::Errno;
pub use error::Error;
pub use fcall::Data;
pub use fcall::DirEntry;
pub use fcall::DirEntryData;
pub use fcall::Fcall;
pub use fcall::Flock;
pub use fcall::Getlock;
pub use fcall::Msg;
pub use fcall::MsgType;
pub use fcall::Qid;
pub use fcall::SetAttr;
pub use fcall::Stat;
pub use fcall::Statfs;
pub use fcall::Time;
pub use srv::Fid;
pub use srv::FidTable;
pub use srv::Filesystem;
pub use srv::ServerInstance;

use vstd::prelude::*;

verus! {

/// The result of an operation of a file system.
pub type Result<T> = core::result::Result<T, error::Error>;

} // verus!
