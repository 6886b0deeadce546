//! The interface between the server and a file system

use crate::error::Errno;
use crate::error::Error;
use crate::fcall::Data;
use crate::fcall::Fcall;
use crate::fcall::FcallView;
use crate::fcall::Flock;
use crate::fcall::Getlock;
use crate::fcall::SetAttr;
use crate::fcall::P92000L;
use crate::srv::Fid;
use crate::utils::str_eq;
use vstd::prelude::*;

verus! {

/// The reply of a file system to a request that it does not implement.
pub fn unsupported() -> (r: Result<Fcall, Error>)
    ensures
        r == Err::<Fcall, Error>(Error::No(Errno::EOPNOTSUPP)),
{
    Err(Error::No(Errno::EOPNOTSUPP))
}

/// The reply to `Tversion` of a file system that speaks 9P2000.L and nothing
/// else: the client's `msize` and version string where that string is
/// "9P2000.L", and `EPROTONOSUPPORT` for any other.
pub fn accept_version(msize: u32, version: &str) -> (r: Result<Fcall, Error>)
    ensures
        version@ == P92000L@ ==> r is Ok && r->Ok_0@ == (FcallView::Rversion {
            msize,
            version: version@,
        }),
        version@ != P92000L@ ==> r == Err::<Fcall, Error>(Error::No(Errno::EPROTONOSUPPORT)),
{
    if str_eq(version, P92000L) {
        Ok(Fcall::Rversion { msize, version: version.to_owned() })
    } else {
        Err(Error::No(Errno::EPROTONOSUPPORT))
    }
}

/// Filesystem server trait.
///
/// Implementors can represent an error condition by returning an `Err`.
/// Otherwise, they must return `Fcall` with the required fields filled.
///
/// The default implementation, returning EOPNOTSUPP error, is provided to the all methods
/// except Rversion.
/// The default implementation of Rversion returns a message accepting 9P2000.L.
///
/// # NOTE
/// Defined as `Srv` in 9p.h of Plan 9.
///
/// # Protocol
/// 9P2000.L
pub trait Filesystem {
    /// User defined fid type to be associated with a client's fid.
    type Fid;

    // 9P2000.L
    fn rstatfs(&mut self, _fid: &mut Fid<Self::Fid>) -> Result<Fcall, Error> {
        unsupported()
    }

    fn rlopen(&mut self, _fid: &mut Fid<Self::Fid>, _flags: u32) -> Result<Fcall, Error> {
        unsupported()
    }

    fn rlcreate(
        &mut self,
        _fid: &mut Fid<Self::Fid>,
        _name: &str,
        _flags: u32,
        _mode: u32,
        _gid: u32,
    ) -> Result<Fcall, Error> {
        unsupported()
    }

    fn rsymlink(
        &mut self,
        _fid: &mut Fid<Self::Fid>,
        _name: &str,
        _sym: &str,
        _gid: u32,
    ) -> Result<Fcall, Error> {
        unsupported()
    }

    fn rmknod(
        &mut self,
        _dfid: &mut Fid<Self::Fid>,
        _name: &str,
        _mode: u32,
        _major: u32,
        _minor: u32,
        _gid: u32,
    ) -> Result<Fcall, Error> {
        unsupported()
    }

    fn rrename(
        &mut self,
        _fid: &mut Fid<Self::Fid>,
        _dfid: &mut Fid<Self::Fid>,
        _name: &str,
    ) -> Result<Fcall, Error> {
        unsupported()
    }

    fn rreadlink(&mut self, _fid: &mut Fid<Self::Fid>) -> Result<Fcall, Error> {
        unsupported()
    }

    fn rgetattr(&mut self, _fid: &mut Fid<Self::Fid>, _req_mask: u64) -> Result<Fcall, Error> {
        unsupported()
    }

    fn rsetattr(
        &mut self,
        _fid: &mut Fid<Self::Fid>,
        _valid: u32,
        _stat: &SetAttr,
    ) -> Result<Fcall, Error> {
        unsupported()
    }

    /// `_newfid` is a new fid, without aux.
    fn rxattrwalk(
        &mut self,
        _fid: &mut Fid<Self::Fid>,
        _newfid: &mut Fid<Self::Fid>,
        _name: &str,
    ) -> Result<Fcall, Error>
        requires
            old(_newfid).state() is None,
    {
        unsupported()
    }

    fn rxattrcreate(
        &mut self,
        _fid: &mut Fid<Self::Fid>,
        _name: &str,
        _attr_size: u64,
        _flags: u32,
    ) -> Result<Fcall, Error> {
        unsupported()
    }

    fn rreaddir(
        &mut self,
        _fid: &mut Fid<Self::Fid>,
        _offset: u64,
        _count: u32,
    ) -> Result<Fcall, Error> {
        unsupported()
    }

    fn rfsync(&mut self, _fid: &mut Fid<Self::Fid>) -> Result<Fcall, Error> {
        unsupported()
    }

    fn rlock(&mut self, _fid: &mut Fid<Self::Fid>, _lock: &Flock) -> Result<Fcall, Error> {
        unsupported()
    }

    fn rgetlock(&mut self, _fid: &mut Fid<Self::Fid>, _lock: &Getlock) -> Result<Fcall, Error> {
        unsupported()
    }

    fn rlink(
        &mut self,
        _dfid: &mut Fid<Self::Fid>,
        _fid: &mut Fid<Self::Fid>,
        _name: &str,
    ) -> Result<Fcall, Error> {
        unsupported()
    }

    fn rmkdir(
        &mut self,
        _dfid: &mut Fid<Self::Fid>,
        _name: &str,
        _mode: u32,
        _gid: u32,
    ) -> Result<Fcall, Error> {
        unsupported()
    }

    fn rrenameat(
        &mut self,
        _olddir: &mut Fid<Self::Fid>,
        _oldname: &str,
        _newdir: &mut Fid<Self::Fid>,
        _newname: &str,
    ) -> Result<Fcall, Error> {
        unsupported()
    }

    fn runlinkat(
        &mut self,
        _dirfid: &mut Fid<Self::Fid>,
        _name: &str,
        _flags: u32,
    ) -> Result<Fcall, Error> {
        unsupported()
    }

    /*
     * 9P2000.u subset
     */
    /// `_afid` is a new fid, without aux.
    fn rauth(
        &mut self,
        _afid: &mut Fid<Self::Fid>,
        _uname: &str,
        _aname: &str,
        _n_uname: u32,
    ) -> Result<Fcall, Error>
        requires
            old(_afid).state() is None,
    {
        unsupported()
    }

    /// `_fid` is a new fid, without aux: the root of the attach, whose aux
    /// the callback fills.
    fn rattach(
        &mut self,
        _fid: &mut Fid<Self::Fid>,
        _afid: Option<&mut Fid<Self::Fid>>,
        _uname: &str,
        _aname: &str,
        _n_uname: u32,
    ) -> Result<Fcall, Error>
        requires
            old(_fid).state() is None,
    {
        unsupported()
    }

    /*
     * 9P2000 subset
     */
    fn rflush(&mut self, _old: Option<&mut Fcall>) -> Result<Fcall, Error> {
        unsupported()
    }

    /// `_new` is a new fid, without aux, also where the request walks a
    /// fid onto itself.
    fn rwalk(
        &mut self,
        _fid: &mut Fid<Self::Fid>,
        _new: &mut Fid<Self::Fid>,
        _wnames: &[String],
    ) -> Result<Fcall, Error>
        requires
            old(_new).state() is None,
    {
        unsupported()
    }

    fn rread(
        &mut self,
        _fid: &mut Fid<Self::Fid>,
        _offset: u64,
        _count: u32,
    ) -> Result<Fcall, Error> {
        unsupported()
    }

    fn rwrite(
        &mut self,
        _fid: &mut Fid<Self::Fid>,
        _offset: u64,
        _data: &Data,
    ) -> Result<Fcall, Error> {
        unsupported()
    }

    fn rclunk(&mut self, _fid: &mut Fid<Self::Fid>) -> Result<Fcall, Error> {
        unsupported()
    }

    fn rremove(&mut self, _fid: &mut Fid<Self::Fid>) -> Result<Fcall, Error> {
        unsupported()
    }

    fn rversion(&mut self, msize: u32, version: &str) -> Result<Fcall, Error> {
        accept_version(msize, version)
    }
}

} // verus!
