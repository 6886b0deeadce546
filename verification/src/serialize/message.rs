//! The wire form of 9P messages: the frame and the body of each kind

use crate::error::Error;
use crate::error::IoError;
use crate::error::IoErrorKind;
use crate::fcall::Data;
use crate::fcall::DirEntryData;
use crate::fcall::Fcall;
use crate::fcall::FcallView;
use crate::fcall::Flock;
use crate::fcall::Getlock;
use crate::fcall::Msg;
use crate::fcall::MsgType;
use crate::fcall::MsgView;
use crate::fcall::Qid;
use crate::fcall::SetAttr;
use crate::fcall::Stat;
use crate::fcall::Statfs;
use crate::serialize::append;
use crate::serialize::laws::lemma_le_u32;
use crate::serialize::protocol_error;
use crate::serialize::unencodable;
use crate::serialize::unexpected_eof;
use crate::serialize::Decodable;
use crate::serialize::Decoder;
use crate::serialize::Encodable;
use vstd::prelude::*;

verus! {

/// The bytes that stand for the body of a message, behind its type and tag.
pub open spec fn wire_body(f: FcallView) -> Seq<u8> {
    match f {
        FcallView::Rlerror { ecode } => u32::wire(ecode),
        FcallView::Tstatfs { fid } => u32::wire(fid),
        FcallView::Rstatfs { statfs } => Statfs::wire(statfs),
        FcallView::Tlopen { fid, flags } => u32::wire(fid) + u32::wire(flags),
        FcallView::Rlopen { qid, iounit } => Qid::wire(qid) + u32::wire(iounit),
        FcallView::Tlcreate { fid, name, flags, mode, gid } => {
            u32::wire(fid) + String::wire(name) + u32::wire(flags) + u32::wire(mode)
                + u32::wire(gid)
        },
        FcallView::Rlcreate { qid, iounit } => Qid::wire(qid) + u32::wire(iounit),
        FcallView::Tsymlink { fid, name, symtgt, gid } => {
            u32::wire(fid) + String::wire(name) + String::wire(symtgt) + u32::wire(gid)
        },
        FcallView::Rsymlink { qid } => Qid::wire(qid),
        FcallView::Tmknod { dfid, name, mode, major, minor, gid } => {
            u32::wire(dfid) + String::wire(name) + u32::wire(mode) + u32::wire(major)
                + u32::wire(minor) + u32::wire(gid)
        },
        FcallView::Rmknod { qid } => Qid::wire(qid),
        FcallView::Trename { fid, dfid, name } => {
            u32::wire(fid) + u32::wire(dfid) + String::wire(name)
        },
        FcallView::Rrename => Seq::empty(),
        FcallView::Treadlink { fid } => u32::wire(fid),
        FcallView::Rreadlink { target } => String::wire(target),
        FcallView::Tgetattr { fid, req_mask } => u32::wire(fid) + u64::wire(req_mask),
        FcallView::Rgetattr { valid, qid, stat } => {
            u64::wire(valid) + Qid::wire(qid) + Stat::wire(stat) + u64::wire(0) + u64::wire(0)
                + u64::wire(0) + u64::wire(0)
        },
        FcallView::Tsetattr { fid, valid, stat } => {
            u32::wire(fid) + u32::wire(valid) + SetAttr::wire(stat)
        },
        FcallView::Rsetattr => Seq::empty(),
        FcallView::Txattrwalk { fid, newfid, name } => {
            u32::wire(fid) + u32::wire(newfid) + String::wire(name)
        },
        FcallView::Rxattrwalk { size } => u64::wire(size),
        FcallView::Txattrcreate { fid, name, attr_size, flags } => {
            u32::wire(fid) + String::wire(name) + u64::wire(attr_size) + u32::wire(flags)
        },
        FcallView::Rxattrcreate => Seq::empty(),
        FcallView::Treaddir { fid, offset, count } => {
            u32::wire(fid) + u64::wire(offset) + u32::wire(count)
        },
        FcallView::Rreaddir { data } => DirEntryData::wire(data),
        FcallView::Tfsync { fid } => u32::wire(fid),
        FcallView::Rfsync => Seq::empty(),
        FcallView::Tlock { fid, flock } => u32::wire(fid) + Flock::wire(flock),
        FcallView::Rlock { status } => u8::wire(status),
        FcallView::Tgetlock { fid, flock } => u32::wire(fid) + Getlock::wire(flock),
        FcallView::Rgetlock { flock } => Getlock::wire(flock),
        FcallView::Tlink { dfid, fid, name } => {
            u32::wire(dfid) + u32::wire(fid) + String::wire(name)
        },
        FcallView::Rlink => Seq::empty(),
        FcallView::Tmkdir { dfid, name, mode, gid } => {
            u32::wire(dfid) + String::wire(name) + u32::wire(mode) + u32::wire(gid)
        },
        FcallView::Rmkdir { qid } => Qid::wire(qid),
        FcallView::Trenameat { olddirfid, oldname, newdirfid, newname } => {
            u32::wire(olddirfid) + String::wire(oldname) + u32::wire(newdirfid)
                + String::wire(newname)
        },
        FcallView::Rrenameat => Seq::empty(),
        FcallView::Tunlinkat { dirfd, name, flags } => {
            u32::wire(dirfd) + String::wire(name) + u32::wire(flags)
        },
        FcallView::Runlinkat => Seq::empty(),
        FcallView::Tauth { afid, uname, aname, n_uname } => {
            u32::wire(afid) + String::wire(uname) + String::wire(aname) + u32::wire(n_uname)
        },
        FcallView::Rauth { aqid } => Qid::wire(aqid),
        FcallView::Tattach { fid, afid, uname, aname, n_uname } => {
            u32::wire(fid) + u32::wire(afid) + String::wire(uname) + String::wire(aname)
                + u32::wire(n_uname)
        },
        FcallView::Rattach { qid } => Qid::wire(qid),
        FcallView::Tversion { msize, version } => u32::wire(msize) + String::wire(version),
        FcallView::Rversion { msize, version } => u32::wire(msize) + String::wire(version),
        FcallView::Tflush { oldtag } => u16::wire(oldtag),
        FcallView::Rflush => Seq::empty(),
        FcallView::Twalk { fid, newfid, wnames } => {
            u32::wire(fid) + u32::wire(newfid) + Vec::<String>::wire(wnames)
        },
        FcallView::Rwalk { wqids } => Vec::<Qid>::wire(wqids),
        FcallView::Tread { fid, offset, count } => {
            u32::wire(fid) + u64::wire(offset) + u32::wire(count)
        },
        FcallView::Rread { data } => Data::wire(data),
        FcallView::Twrite { fid, offset, data } => {
            u32::wire(fid) + u64::wire(offset) + Data::wire(data)
        },
        FcallView::Rwrite { count } => u32::wire(count),
        FcallView::Tclunk { fid } => u32::wire(fid),
        FcallView::Rclunk => Seq::empty(),
        FcallView::Tremove { fid } => u32::wire(fid),
        FcallView::Rremove => Seq::empty(),
    }
}

/// Whether the body of a message has a wire form.
pub open spec fn body_fits(f: FcallView) -> bool {
    match f {
        FcallView::Tlcreate { name, .. } => String::fits(name),
        FcallView::Tsymlink { name, symtgt, .. } => String::fits(name) && String::fits(symtgt),
        FcallView::Tmknod { name, .. } => String::fits(name),
        FcallView::Trename { name, .. } => String::fits(name),
        FcallView::Rreadlink { target, .. } => String::fits(target),
        FcallView::Txattrwalk { name, .. } => String::fits(name),
        FcallView::Txattrcreate { name, .. } => String::fits(name),
        FcallView::Rreaddir { data, .. } => DirEntryData::fits(data),
        FcallView::Tlock { flock, .. } => Flock::fits(flock),
        FcallView::Tgetlock { flock, .. } => Getlock::fits(flock),
        FcallView::Rgetlock { flock, .. } => Getlock::fits(flock),
        FcallView::Tlink { name, .. } => String::fits(name),
        FcallView::Tmkdir { name, .. } => String::fits(name),
        FcallView::Trenameat { oldname, newname, .. } => {
            String::fits(oldname) && String::fits(newname)
        },
        FcallView::Tunlinkat { name, .. } => String::fits(name),
        FcallView::Tauth { uname, aname, .. } => String::fits(uname) && String::fits(aname),
        FcallView::Tattach { uname, aname, .. } => String::fits(uname) && String::fits(aname),
        FcallView::Tversion { version, .. } => String::fits(version),
        FcallView::Rversion { version, .. } => String::fits(version),
        FcallView::Twalk { wnames, .. } => Vec::<String>::fits(wnames),
        FcallView::Rwalk { wqids, .. } => Vec::<Qid>::fits(wqids),
        FcallView::Rread { data, .. } => Data::fits(data),
        FcallView::Twrite { data, .. } => Data::fits(data),
        _ => true,
    }
}

/// The body of a `Rlerror` that stands at the head of `b`.
pub open spec fn take_rlerror(b: Seq<u8>) -> Result<(FcallView, Seq<u8>), Error> {
    match u32::take(b) {
        Err(e) => Err(e),
        Ok((ecode, b)) => Ok((FcallView::Rlerror { ecode }, b)),
    }
}

/// The body of a `Tstatfs` that stands at the head of `b`.
pub open spec fn take_tstatfs(b: Seq<u8>) -> Result<(FcallView, Seq<u8>), Error> {
    match u32::take(b) {
        Err(e) => Err(e),
        Ok((fid, b)) => Ok((FcallView::Tstatfs { fid }, b)),
    }
}

/// The body of a `Rstatfs` that stands at the head of `b`.
pub open spec fn take_rstatfs(b: Seq<u8>) -> Result<(FcallView, Seq<u8>), Error> {
    match Statfs::take(b) {
        Err(e) => Err(e),
        Ok((statfs, b)) => Ok((FcallView::Rstatfs { statfs }, b)),
    }
}

/// The body of a `Tlopen` that stands at the head of `b`.
pub open spec fn take_tlopen(b: Seq<u8>) -> Result<(FcallView, Seq<u8>), Error> {
    match u32::take(b) {
        Err(e) => Err(e),
        Ok((fid, b)) => match u32::take(b) {
            Err(e) => Err(e),
            Ok((flags, b)) => Ok((FcallView::Tlopen { fid, flags }, b)),
        },
    }
}

/// The body of a `Rlopen` that stands at the head of `b`.
pub open spec fn take_rlopen(b: Seq<u8>) -> Result<(FcallView, Seq<u8>), Error> {
    match Qid::take(b) {
        Err(e) => Err(e),
        Ok((qid, b)) => match u32::take(b) {
            Err(e) => Err(e),
            Ok((iounit, b)) => Ok((FcallView::Rlopen { qid, iounit }, b)),
        },
    }
}

/// The body of a `Tlcreate` that stands at the head of `b`.
pub open spec fn take_tlcreate(b: Seq<u8>) -> Result<(FcallView, Seq<u8>), Error> {
    match u32::take(b) {
        Err(e) => Err(e),
        Ok((fid, b)) => match String::take(b) {
            Err(e) => Err(e),
            Ok((name, b)) => match u32::take(b) {
                Err(e) => Err(e),
                Ok((flags, b)) => match u32::take(b) {
                    Err(e) => Err(e),
                    Ok((mode, b)) => match u32::take(b) {
                        Err(e) => Err(e),
                        Ok((gid, b)) => Ok((
                            FcallView::Tlcreate {
                                fid,
                                name,
                                flags,
                                mode,
                                gid,
                            },
                            b,
                        )),
                    },
                },
            },
        },
    }
}

/// The body of a `Rlcreate` that stands at the head of `b`.
pub open spec fn take_rlcreate(b: Seq<u8>) -> Result<(FcallView, Seq<u8>), Error> {
    match Qid::take(b) {
        Err(e) => Err(e),
        Ok((qid, b)) => match u32::take(b) {
            Err(e) => Err(e),
            Ok((iounit, b)) => Ok((FcallView::Rlcreate { qid, iounit }, b)),
        },
    }
}

/// The body of a `Tsymlink` that stands at the head of `b`.
pub open spec fn take_tsymlink(b: Seq<u8>) -> Result<(FcallView, Seq<u8>), Error> {
    match u32::take(b) {
        Err(e) => Err(e),
        Ok((fid, b)) => match String::take(b) {
            Err(e) => Err(e),
            Ok((name, b)) => match String::take(b) {
                Err(e) => Err(e),
                Ok((symtgt, b)) => match u32::take(b) {
                    Err(e) => Err(e),
                    Ok((gid, b)) => Ok((FcallView::Tsymlink { fid, name, symtgt, gid }, b)),
                },
            },
        },
    }
}

/// The body of a `Rsymlink` that stands at the head of `b`.
pub open spec fn take_rsymlink(b: Seq<u8>) -> Result<(FcallView, Seq<u8>), Error> {
    match Qid::take(b) {
        Err(e) => Err(e),
        Ok((qid, b)) => Ok((FcallView::Rsymlink { qid }, b)),
    }
}

/// The body of a `Tmknod` that stands at the head of `b`.
pub open spec fn take_tmknod(b: Seq<u8>) -> Result<(FcallView, Seq<u8>), Error> {
    match u32::take(b) {
        Err(e) => Err(e),
        Ok((dfid, b)) => match String::take(b) {
            Err(e) => Err(e),
            Ok((name, b)) => match u32::take(b) {
                Err(e) => Err(e),
                Ok((mode, b)) => match u32::take(b) {
                    Err(e) => Err(e),
                    Ok((major, b)) => match u32::take(b) {
                        Err(e) => Err(e),
                        Ok((minor, b)) => match u32::take(b) {
                            Err(e) => Err(e),
                            Ok((gid, b)) => Ok((
                                FcallView::Tmknod {
                                    dfid,
                                    name,
                                    mode,
                                    major,
                                    minor,
                                    gid,
                                },
                                b,
                            )),
                        },
                    },
                },
            },
        },
    }
}

/// The body of a `Rmknod` that stands at the head of `b`.
pub open spec fn take_rmknod(b: Seq<u8>) -> Result<(FcallView, Seq<u8>), Error> {
    match Qid::take(b) {
        Err(e) => Err(e),
        Ok((qid, b)) => Ok((FcallView::Rmknod { qid }, b)),
    }
}

/// The body of a `Trename` that stands at the head of `b`.
pub open spec fn take_trename(b: Seq<u8>) -> Result<(FcallView, Seq<u8>), Error> {
    match u32::take(b) {
        Err(e) => Err(e),
        Ok((fid, b)) => match u32::take(b) {
            Err(e) => Err(e),
            Ok((dfid, b)) => match String::take(b) {
                Err(e) => Err(e),
                Ok((name, b)) => Ok((FcallView::Trename { fid, dfid, name }, b)),
            },
        },
    }
}

/// The body of a `Treadlink` that stands at the head of `b`.
pub open spec fn take_treadlink(b: Seq<u8>) -> Result<(FcallView, Seq<u8>), Error> {
    match u32::take(b) {
        Err(e) => Err(e),
        Ok((fid, b)) => Ok((FcallView::Treadlink { fid }, b)),
    }
}

/// The body of a `Rreadlink` that stands at the head of `b`.
pub open spec fn take_rreadlink(b: Seq<u8>) -> Result<(FcallView, Seq<u8>), Error> {
    match String::take(b) {
        Err(e) => Err(e),
        Ok((target, b)) => Ok((FcallView::Rreadlink { target }, b)),
    }
}

/// The body of a `Tgetattr` that stands at the head of `b`.
pub open spec fn take_tgetattr(b: Seq<u8>) -> Result<(FcallView, Seq<u8>), Error> {
    match u32::take(b) {
        Err(e) => Err(e),
        Ok((fid, b)) => match u64::take(b) {
            Err(e) => Err(e),
            Ok((req_mask, b)) => Ok((FcallView::Tgetattr { fid, req_mask }, b)),
        },
    }
}

/// The body of a `Rgetattr` that stands at the head of `b`.
pub open spec fn take_rgetattr(b: Seq<u8>) -> Result<(FcallView, Seq<u8>), Error> {
    match u64::take(b) {
        Err(e) => Err(e),
        Ok((valid, b)) => match Qid::take(b) {
            Err(e) => Err(e),
            Ok((qid, b)) => match Stat::take(b) {
                Err(e) => Err(e),
                Ok((stat, b)) => match u64::take(b) {
                    Err(e) => Err(e),
                    Ok((_, b)) => match u64::take(b) {
                        Err(e) => Err(e),
                        Ok((_, b)) => match u64::take(b) {
                            Err(e) => Err(e),
                            Ok((_, b)) => match u64::take(b) {
                                Err(e) => Err(e),
                                Ok((_, b)) => Ok((FcallView::Rgetattr { valid, qid, stat }, b)),
                            },
                        },
                    },
                },
            },
        },
    }
}

/// The body of a `Tsetattr` that stands at the head of `b`.
pub open spec fn take_tsetattr(b: Seq<u8>) -> Result<(FcallView, Seq<u8>), Error> {
    match u32::take(b) {
        Err(e) => Err(e),
        Ok((fid, b)) => match u32::take(b) {
            Err(e) => Err(e),
            Ok((valid, b)) => match SetAttr::take(b) {
                Err(e) => Err(e),
                Ok((stat, b)) => Ok((FcallView::Tsetattr { fid, valid, stat }, b)),
            },
        },
    }
}

/// The body of a `Txattrwalk` that stands at the head of `b`.
pub open spec fn take_txattrwalk(b: Seq<u8>) -> Result<(FcallView, Seq<u8>), Error> {
    match u32::take(b) {
        Err(e) => Err(e),
        Ok((fid, b)) => match u32::take(b) {
            Err(e) => Err(e),
            Ok((newfid, b)) => match String::take(b) {
                Err(e) => Err(e),
                Ok((name, b)) => Ok((FcallView::Txattrwalk { fid, newfid, name }, b)),
            },
        },
    }
}

/// The body of a `Rxattrwalk` that stands at the head of `b`.
pub open spec fn take_rxattrwalk(b: Seq<u8>) -> Result<(FcallView, Seq<u8>), Error> {
    match u64::take(b) {
        Err(e) => Err(e),
        Ok((size, b)) => Ok((FcallView::Rxattrwalk { size }, b)),
    }
}

/// The body of a `Txattrcreate` that stands at the head of `b`.
pub open spec fn take_txattrcreate(b: Seq<u8>) -> Result<(FcallView, Seq<u8>), Error> {
    match u32::take(b) {
        Err(e) => Err(e),
        Ok((fid, b)) => match String::take(b) {
            Err(e) => Err(e),
            Ok((name, b)) => match u64::take(b) {
                Err(e) => Err(e),
                Ok((attr_size, b)) => match u32::take(b) {
                    Err(e) => Err(e),
                    Ok((flags, b)) => Ok((
                        FcallView::Txattrcreate {
                            fid,
                            name,
                            attr_size,
                            flags,
                        },
                        b,
                    )),
                },
            },
        },
    }
}

/// The body of a `Treaddir` that stands at the head of `b`.
pub open spec fn take_treaddir(b: Seq<u8>) -> Result<(FcallView, Seq<u8>), Error> {
    match u32::take(b) {
        Err(e) => Err(e),
        Ok((fid, b)) => match u64::take(b) {
            Err(e) => Err(e),
            Ok((offset, b)) => match u32::take(b) {
                Err(e) => Err(e),
                Ok((count, b)) => Ok((FcallView::Treaddir { fid, offset, count }, b)),
            },
        },
    }
}

/// The body of a `Rreaddir` that stands at the head of `b`.
pub open spec fn take_rreaddir(b: Seq<u8>) -> Result<(FcallView, Seq<u8>), Error> {
    match DirEntryData::take(b) {
        Err(e) => Err(e),
        Ok((data, b)) => Ok((FcallView::Rreaddir { data }, b)),
    }
}

/// The body of a `Tfsync` that stands at the head of `b`.
pub open spec fn take_tfsync(b: Seq<u8>) -> Result<(FcallView, Seq<u8>), Error> {
    match u32::take(b) {
        Err(e) => Err(e),
        Ok((fid, b)) => Ok((FcallView::Tfsync { fid }, b)),
    }
}

/// The body of a `Tlock` that stands at the head of `b`.
pub open spec fn take_tlock(b: Seq<u8>) -> Result<(FcallView, Seq<u8>), Error> {
    match u32::take(b) {
        Err(e) => Err(e),
        Ok((fid, b)) => match Flock::take(b) {
            Err(e) => Err(e),
            Ok((flock, b)) => Ok((FcallView::Tlock { fid, flock }, b)),
        },
    }
}

/// The body of a `Rlock` that stands at the head of `b`.
pub open spec fn take_rlock(b: Seq<u8>) -> Result<(FcallView, Seq<u8>), Error> {
    match u8::take(b) {
        Err(e) => Err(e),
        Ok((status, b)) => Ok((FcallView::Rlock { status }, b)),
    }
}

/// The body of a `Tgetlock` that stands at the head of `b`.
pub open spec fn take_tgetlock(b: Seq<u8>) -> Result<(FcallView, Seq<u8>), Error> {
    match u32::take(b) {
        Err(e) => Err(e),
        Ok((fid, b)) => match Getlock::take(b) {
            Err(e) => Err(e),
            Ok((flock, b)) => Ok((FcallView::Tgetlock { fid, flock }, b)),
        },
    }
}

/// The body of a `Rgetlock` that stands at the head of `b`.
pub open spec fn take_rgetlock(b: Seq<u8>) -> Result<(FcallView, Seq<u8>), Error> {
    match Getlock::take(b) {
        Err(e) => Err(e),
        Ok((flock, b)) => Ok((FcallView::Rgetlock { flock }, b)),
    }
}

/// The body of a `Tlink` that stands at the head of `b`.
pub open spec fn take_tlink(b: Seq<u8>) -> Result<(FcallView, Seq<u8>), Error> {
    match u32::take(b) {
        Err(e) => Err(e),
        Ok((dfid, b)) => match u32::take(b) {
            Err(e) => Err(e),
            Ok((fid, b)) => match String::take(b) {
                Err(e) => Err(e),
                Ok((name, b)) => Ok((FcallView::Tlink { dfid, fid, name }, b)),
            },
        },
    }
}

/// The body of a `Tmkdir` that stands at the head of `b`.
pub open spec fn take_tmkdir(b: Seq<u8>) -> Result<(FcallView, Seq<u8>), Error> {
    match u32::take(b) {
        Err(e) => Err(e),
        Ok((dfid, b)) => match String::take(b) {
            Err(e) => Err(e),
            Ok((name, b)) => match u32::take(b) {
                Err(e) => Err(e),
                Ok((mode, b)) => match u32::take(b) {
                    Err(e) => Err(e),
                    Ok((gid, b)) => Ok((FcallView::Tmkdir { dfid, name, mode, gid }, b)),
                },
            },
        },
    }
}

/// The body of a `Rmkdir` that stands at the head of `b`.
pub open spec fn take_rmkdir(b: Seq<u8>) -> Result<(FcallView, Seq<u8>), Error> {
    match Qid::take(b) {
        Err(e) => Err(e),
        Ok((qid, b)) => Ok((FcallView::Rmkdir { qid }, b)),
    }
}

/// The body of a `Trenameat` that stands at the head of `b`.
pub open spec fn take_trenameat(b: Seq<u8>) -> Result<(FcallView, Seq<u8>), Error> {
    match u32::take(b) {
        Err(e) => Err(e),
        Ok((olddirfid, b)) => match String::take(b) {
            Err(e) => Err(e),
            Ok((oldname, b)) => match u32::take(b) {
                Err(e) => Err(e),
                Ok((newdirfid, b)) => match String::take(b) {
                    Err(e) => Err(e),
                    Ok((newname, b)) => Ok((
                        FcallView::Trenameat {
                            olddirfid,
                            oldname,
                            newdirfid,
                            newname,
                        },
                        b,
                    )),
                },
            },
        },
    }
}

/// The body of a `Tunlinkat` that stands at the head of `b`.
pub open spec fn take_tunlinkat(b: Seq<u8>) -> Result<(FcallView, Seq<u8>), Error> {
    match u32::take(b) {
        Err(e) => Err(e),
        Ok((dirfd, b)) => match String::take(b) {
            Err(e) => Err(e),
            Ok((name, b)) => match u32::take(b) {
                Err(e) => Err(e),
                Ok((flags, b)) => Ok((FcallView::Tunlinkat { dirfd, name, flags }, b)),
            },
        },
    }
}

/// The body of a `Tauth` that stands at the head of `b`.
pub open spec fn take_tauth(b: Seq<u8>) -> Result<(FcallView, Seq<u8>), Error> {
    match u32::take(b) {
        Err(e) => Err(e),
        Ok((afid, b)) => match String::take(b) {
            Err(e) => Err(e),
            Ok((uname, b)) => match String::take(b) {
                Err(e) => Err(e),
                Ok((aname, b)) => match u32::take(b) {
                    Err(e) => Err(e),
                    Ok((n_uname, b)) => Ok((FcallView::Tauth { afid, uname, aname, n_uname }, b)),
                },
            },
        },
    }
}

/// The body of a `Rauth` that stands at the head of `b`.
pub open spec fn take_rauth(b: Seq<u8>) -> Result<(FcallView, Seq<u8>), Error> {
    match Qid::take(b) {
        Err(e) => Err(e),
        Ok((aqid, b)) => Ok((FcallView::Rauth { aqid }, b)),
    }
}

/// The body of a `Tattach` that stands at the head of `b`.
pub open spec fn take_tattach(b: Seq<u8>) -> Result<(FcallView, Seq<u8>), Error> {
    match u32::take(b) {
        Err(e) => Err(e),
        Ok((fid, b)) => match u32::take(b) {
            Err(e) => Err(e),
            Ok((afid, b)) => match String::take(b) {
                Err(e) => Err(e),
                Ok((uname, b)) => match String::take(b) {
                    Err(e) => Err(e),
                    Ok((aname, b)) => match u32::take(b) {
                        Err(e) => Err(e),
                        Ok((n_uname, b)) => Ok((
                            FcallView::Tattach {
                                fid,
                                afid,
                                uname,
                                aname,
                                n_uname,
                            },
                            b,
                        )),
                    },
                },
            },
        },
    }
}

/// The body of a `Rattach` that stands at the head of `b`.
pub open spec fn take_rattach(b: Seq<u8>) -> Result<(FcallView, Seq<u8>), Error> {
    match Qid::take(b) {
        Err(e) => Err(e),
        Ok((qid, b)) => Ok((FcallView::Rattach { qid }, b)),
    }
}

/// The body of a `Tversion` that stands at the head of `b`.
pub open spec fn take_tversion(b: Seq<u8>) -> Result<(FcallView, Seq<u8>), Error> {
    match u32::take(b) {
        Err(e) => Err(e),
        Ok((msize, b)) => match String::take(b) {
            Err(e) => Err(e),
            Ok((version, b)) => Ok((FcallView::Tversion { msize, version }, b)),
        },
    }
}

/// The body of a `Rversion` that stands at the head of `b`.
pub open spec fn take_rversion(b: Seq<u8>) -> Result<(FcallView, Seq<u8>), Error> {
    match u32::take(b) {
        Err(e) => Err(e),
        Ok((msize, b)) => match String::take(b) {
            Err(e) => Err(e),
            Ok((version, b)) => Ok((FcallView::Rversion { msize, version }, b)),
        },
    }
}

/// The body of a `Tflush` that stands at the head of `b`.
pub open spec fn take_tflush(b: Seq<u8>) -> Result<(FcallView, Seq<u8>), Error> {
    match u16::take(b) {
        Err(e) => Err(e),
        Ok((oldtag, b)) => Ok((FcallView::Tflush { oldtag }, b)),
    }
}

/// The body of a `Twalk` that stands at the head of `b`.
pub open spec fn take_twalk(b: Seq<u8>) -> Result<(FcallView, Seq<u8>), Error> {
    match u32::take(b) {
        Err(e) => Err(e),
        Ok((fid, b)) => match u32::take(b) {
            Err(e) => Err(e),
            Ok((newfid, b)) => match Vec::<String>::take(b) {
                Err(e) => Err(e),
                Ok((wnames, b)) => Ok((FcallView::Twalk { fid, newfid, wnames }, b)),
            },
        },
    }
}

/// The body of a `Rwalk` that stands at the head of `b`.
pub open spec fn take_rwalk(b: Seq<u8>) -> Result<(FcallView, Seq<u8>), Error> {
    match Vec::<Qid>::take(b) {
        Err(e) => Err(e),
        Ok((wqids, b)) => Ok((FcallView::Rwalk { wqids }, b)),
    }
}

/// The body of a `Tread` that stands at the head of `b`.
pub open spec fn take_tread(b: Seq<u8>) -> Result<(FcallView, Seq<u8>), Error> {
    match u32::take(b) {
        Err(e) => Err(e),
        Ok((fid, b)) => match u64::take(b) {
            Err(e) => Err(e),
            Ok((offset, b)) => match u32::take(b) {
                Err(e) => Err(e),
                Ok((count, b)) => Ok((FcallView::Tread { fid, offset, count }, b)),
            },
        },
    }
}

/// The body of a `Rread` that stands at the head of `b`.
pub open spec fn take_rread(b: Seq<u8>) -> Result<(FcallView, Seq<u8>), Error> {
    match Data::take(b) {
        Err(e) => Err(e),
        Ok((data, b)) => Ok((FcallView::Rread { data }, b)),
    }
}

/// The body of a `Twrite` that stands at the head of `b`.
pub open spec fn take_twrite(b: Seq<u8>) -> Result<(FcallView, Seq<u8>), Error> {
    match u32::take(b) {
        Err(e) => Err(e),
        Ok((fid, b)) => match u64::take(b) {
            Err(e) => Err(e),
            Ok((offset, b)) => match Data::take(b) {
                Err(e) => Err(e),
                Ok((data, b)) => Ok((FcallView::Twrite { fid, offset, data }, b)),
            },
        },
    }
}

/// The body of a `Rwrite` that stands at the head of `b`.
pub open spec fn take_rwrite(b: Seq<u8>) -> Result<(FcallView, Seq<u8>), Error> {
    match u32::take(b) {
        Err(e) => Err(e),
        Ok((count, b)) => Ok((FcallView::Rwrite { count }, b)),
    }
}

/// The body of a `Tclunk` that stands at the head of `b`.
pub open spec fn take_tclunk(b: Seq<u8>) -> Result<(FcallView, Seq<u8>), Error> {
    match u32::take(b) {
        Err(e) => Err(e),
        Ok((fid, b)) => Ok((FcallView::Tclunk { fid }, b)),
    }
}

/// The body of a `Tremove` that stands at the head of `b`.
pub open spec fn take_tremove(b: Seq<u8>) -> Result<(FcallView, Seq<u8>), Error> {
    match u32::take(b) {
        Err(e) => Err(e),
        Ok((fid, b)) => Ok((FcallView::Tremove { fid }, b)),
    }
}

/// The body of a message of type `t` that stands at the head of `b`, with
/// the bytes behind it, or the reason why none stands there.
pub open spec fn take_body(t: MsgType, b: Seq<u8>) -> Result<(FcallView, Seq<u8>), Error> {
    match t {
        MsgType::Tlerror => Err(protocol_error()),
        MsgType::Rlerror => take_rlerror(b),
        MsgType::Tstatfs => take_tstatfs(b),
        MsgType::Rstatfs => take_rstatfs(b),
        MsgType::Tlopen => take_tlopen(b),
        MsgType::Rlopen => take_rlopen(b),
        MsgType::Tlcreate => take_tlcreate(b),
        MsgType::Rlcreate => take_rlcreate(b),
        MsgType::Tsymlink => take_tsymlink(b),
        MsgType::Rsymlink => take_rsymlink(b),
        MsgType::Tmknod => take_tmknod(b),
        MsgType::Rmknod => take_rmknod(b),
        MsgType::Trename => take_trename(b),
        MsgType::Rrename => Ok((FcallView::Rrename, b)),
        MsgType::Treadlink => take_treadlink(b),
        MsgType::Rreadlink => take_rreadlink(b),
        MsgType::Tgetattr => take_tgetattr(b),
        MsgType::Rgetattr => take_rgetattr(b),
        MsgType::Tsetattr => take_tsetattr(b),
        MsgType::Rsetattr => Ok((FcallView::Rsetattr, b)),
        MsgType::Txattrwalk => take_txattrwalk(b),
        MsgType::Rxattrwalk => take_rxattrwalk(b),
        MsgType::Txattrcreate => take_txattrcreate(b),
        MsgType::Rxattrcreate => Ok((FcallView::Rxattrcreate, b)),
        MsgType::Treaddir => take_treaddir(b),
        MsgType::Rreaddir => take_rreaddir(b),
        MsgType::Tfsync => take_tfsync(b),
        MsgType::Rfsync => Ok((FcallView::Rfsync, b)),
        MsgType::Tlock => take_tlock(b),
        MsgType::Rlock => take_rlock(b),
        MsgType::Tgetlock => take_tgetlock(b),
        MsgType::Rgetlock => take_rgetlock(b),
        MsgType::Tlink => take_tlink(b),
        MsgType::Rlink => Ok((FcallView::Rlink, b)),
        MsgType::Tmkdir => take_tmkdir(b),
        MsgType::Rmkdir => take_rmkdir(b),
        MsgType::Trenameat => take_trenameat(b),
        MsgType::Rrenameat => Ok((FcallView::Rrenameat, b)),
        MsgType::Tunlinkat => take_tunlinkat(b),
        MsgType::Runlinkat => Ok((FcallView::Runlinkat, b)),
        MsgType::Tauth => take_tauth(b),
        MsgType::Rauth => take_rauth(b),
        MsgType::Tattach => take_tattach(b),
        MsgType::Rattach => take_rattach(b),
        MsgType::Tversion => take_tversion(b),
        MsgType::Rversion => take_rversion(b),
        MsgType::Tflush => take_tflush(b),
        MsgType::Rflush => Ok((FcallView::Rflush, b)),
        MsgType::Twalk => take_twalk(b),
        MsgType::Rwalk => take_rwalk(b),
        MsgType::Tread => take_tread(b),
        MsgType::Rread => take_rread(b),
        MsgType::Twrite => take_twrite(b),
        MsgType::Rwrite => take_rwrite(b),
        MsgType::Tclunk => take_tclunk(b),
        MsgType::Rclunk => Ok((FcallView::Rclunk, b)),
        MsgType::Tremove => take_tremove(b),
        MsgType::Rremove => Ok((FcallView::Rremove, b)),
    }
}

/// The message that fills a frame: a type, a tag and the body of that type.
/// Bytes of the frame behind the body are passed over.
pub open spec fn take_frame(frame: Seq<u8>) -> Result<MsgView, Error> {
    match u8::take(frame) {
        Ok((code, b)) => match u16::take(b) {
            Ok((tag, b)) => match MsgType::of_number(code as int) {
                Some(typ) => match take_body(typ, b) {
                    Ok((body, _)) => Ok(MsgView { typ, tag, body }),
                    Err(e) => Err(e),
                },
                None => Err(protocol_error()),
            },
            Err(e) => Err(e),
        },
        Err(e) => Err(e),
    }
}

/// The bytes of a frame behind its size: the type, the tag and the body.
pub open spec fn wire_frame(m: MsgView) -> Seq<u8> {
    u8::wire(m.typ.number() as u8) + u16::wire(m.tag) + wire_body(m.body)
}

/// Encodes the body of a message. Where it fails, `w` may hold a part of the
/// body.
#[verifier::rlimit(100)]
fn encode_body(body: &Fcall, w: &mut Vec<u8>) -> (res: Result<(), Error>)
    ensures
        match res {
            Ok(_) => body_fits(body@) && final(w)@ == old(w)@ + wire_body(body@),
            Err(e) => !body_fits(body@) && e == unencodable(),
        },
{
    match body {
        Fcall::Rlerror { ecode } => {
            ecode.encode(w)?;
            assert(w@ =~= old(w)@ + wire_body(body@));
        },
        Fcall::Tstatfs { fid } => {
            fid.encode(w)?;
            assert(w@ =~= old(w)@ + wire_body(body@));
        },
        Fcall::Rstatfs { statfs } => {
            statfs.encode(w)?;
            assert(w@ =~= old(w)@ + wire_body(body@));
        },
        Fcall::Tlopen { fid, flags } => {
            fid.encode(w)?;
            flags.encode(w)?;
            assert(w@ =~= old(w)@ + wire_body(body@));
        },
        Fcall::Rlopen { qid, iounit } => {
            qid.encode(w)?;
            iounit.encode(w)?;
            assert(w@ =~= old(w)@ + wire_body(body@));
        },
        Fcall::Tlcreate { fid, name, flags, mode, gid } => {
            fid.encode(w)?;
            name.encode(w)?;
            flags.encode(w)?;
            mode.encode(w)?;
            gid.encode(w)?;
            assert(w@ =~= old(w)@ + wire_body(body@));
        },
        Fcall::Rlcreate { qid, iounit } => {
            qid.encode(w)?;
            iounit.encode(w)?;
            assert(w@ =~= old(w)@ + wire_body(body@));
        },
        Fcall::Tsymlink { fid, name, symtgt, gid } => {
            fid.encode(w)?;
            name.encode(w)?;
            symtgt.encode(w)?;
            gid.encode(w)?;
            assert(w@ =~= old(w)@ + wire_body(body@));
        },
        Fcall::Rsymlink { qid } => {
            qid.encode(w)?;
            assert(w@ =~= old(w)@ + wire_body(body@));
        },
        Fcall::Tmknod { dfid, name, mode, major, minor, gid } => {
            dfid.encode(w)?;
            name.encode(w)?;
            mode.encode(w)?;
            major.encode(w)?;
            minor.encode(w)?;
            gid.encode(w)?;
            assert(w@ =~= old(w)@ + wire_body(body@));
        },
        Fcall::Rmknod { qid } => {
            qid.encode(w)?;
            assert(w@ =~= old(w)@ + wire_body(body@));
        },
        Fcall::Trename { fid, dfid, name } => {
            fid.encode(w)?;
            dfid.encode(w)?;
            name.encode(w)?;
            assert(w@ =~= old(w)@ + wire_body(body@));
        },
        Fcall::Rrename => {
            assert(w@ =~= old(w)@ + wire_body(body@));
        },
        Fcall::Treadlink { fid } => {
            fid.encode(w)?;
            assert(w@ =~= old(w)@ + wire_body(body@));
        },
        Fcall::Rreadlink { target } => {
            target.encode(w)?;
            assert(w@ =~= old(w)@ + wire_body(body@));
        },
        Fcall::Tgetattr { fid, req_mask } => {
            fid.encode(w)?;
            req_mask.encode(w)?;
            assert(w@ =~= old(w)@ + wire_body(body@));
        },
        Fcall::Rgetattr { valid, qid, stat } => {
            valid.encode(w)?;
            qid.encode(w)?;
            stat.encode(w)?;
            0u64.encode(w)?;
            0u64.encode(w)?;
            0u64.encode(w)?;
            0u64.encode(w)?;
            assert(w@ =~= old(w)@ + wire_body(body@));
        },
        Fcall::Tsetattr { fid, valid, stat } => {
            fid.encode(w)?;
            valid.encode(w)?;
            stat.encode(w)?;
            assert(w@ =~= old(w)@ + wire_body(body@));
        },
        Fcall::Rsetattr => {
            assert(w@ =~= old(w)@ + wire_body(body@));
        },
        Fcall::Txattrwalk { fid, newfid, name } => {
            fid.encode(w)?;
            newfid.encode(w)?;
            name.encode(w)?;
            assert(w@ =~= old(w)@ + wire_body(body@));
        },
        Fcall::Rxattrwalk { size } => {
            size.encode(w)?;
            assert(w@ =~= old(w)@ + wire_body(body@));
        },
        Fcall::Txattrcreate { fid, name, attr_size, flags } => {
            fid.encode(w)?;
            name.encode(w)?;
            attr_size.encode(w)?;
            flags.encode(w)?;
            assert(w@ =~= old(w)@ + wire_body(body@));
        },
        Fcall::Rxattrcreate => {
            assert(w@ =~= old(w)@ + wire_body(body@));
        },
        Fcall::Treaddir { fid, offset, count } => {
            fid.encode(w)?;
            offset.encode(w)?;
            count.encode(w)?;
            assert(w@ =~= old(w)@ + wire_body(body@));
        },
        Fcall::Rreaddir { data } => {
            data.encode(w)?;
            assert(w@ =~= old(w)@ + wire_body(body@));
        },
        Fcall::Tfsync { fid } => {
            fid.encode(w)?;
            assert(w@ =~= old(w)@ + wire_body(body@));
        },
        Fcall::Rfsync => {
            assert(w@ =~= old(w)@ + wire_body(body@));
        },
        Fcall::Tlock { fid, flock } => {
            fid.encode(w)?;
            flock.encode(w)?;
            assert(w@ =~= old(w)@ + wire_body(body@));
        },
        Fcall::Rlock { status } => {
            status.encode(w)?;
            assert(w@ =~= old(w)@ + wire_body(body@));
        },
        Fcall::Tgetlock { fid, flock } => {
            fid.encode(w)?;
            flock.encode(w)?;
            assert(w@ =~= old(w)@ + wire_body(body@));
        },
        Fcall::Rgetlock { flock } => {
            flock.encode(w)?;
            assert(w@ =~= old(w)@ + wire_body(body@));
        },
        Fcall::Tlink { dfid, fid, name } => {
            dfid.encode(w)?;
            fid.encode(w)?;
            name.encode(w)?;
            assert(w@ =~= old(w)@ + wire_body(body@));
        },
        Fcall::Rlink => {
            assert(w@ =~= old(w)@ + wire_body(body@));
        },
        Fcall::Tmkdir { dfid, name, mode, gid } => {
            dfid.encode(w)?;
            name.encode(w)?;
            mode.encode(w)?;
            gid.encode(w)?;
            assert(w@ =~= old(w)@ + wire_body(body@));
        },
        Fcall::Rmkdir { qid } => {
            qid.encode(w)?;
            assert(w@ =~= old(w)@ + wire_body(body@));
        },
        Fcall::Trenameat { olddirfid, oldname, newdirfid, newname } => {
            olddirfid.encode(w)?;
            oldname.encode(w)?;
            newdirfid.encode(w)?;
            newname.encode(w)?;
            assert(w@ =~= old(w)@ + wire_body(body@));
        },
        Fcall::Rrenameat => {
            assert(w@ =~= old(w)@ + wire_body(body@));
        },
        Fcall::Tunlinkat { dirfd, name, flags } => {
            dirfd.encode(w)?;
            name.encode(w)?;
            flags.encode(w)?;
            assert(w@ =~= old(w)@ + wire_body(body@));
        },
        Fcall::Runlinkat => {
            assert(w@ =~= old(w)@ + wire_body(body@));
        },
        Fcall::Tauth { afid, uname, aname, n_uname } => {
            afid.encode(w)?;
            uname.encode(w)?;
            aname.encode(w)?;
            n_uname.encode(w)?;
            assert(w@ =~= old(w)@ + wire_body(body@));
        },
        Fcall::Rauth { aqid } => {
            aqid.encode(w)?;
            assert(w@ =~= old(w)@ + wire_body(body@));
        },
        Fcall::Tattach { fid, afid, uname, aname, n_uname } => {
            fid.encode(w)?;
            afid.encode(w)?;
            uname.encode(w)?;
            aname.encode(w)?;
            n_uname.encode(w)?;
            assert(w@ =~= old(w)@ + wire_body(body@));
        },
        Fcall::Rattach { qid } => {
            qid.encode(w)?;
            assert(w@ =~= old(w)@ + wire_body(body@));
        },
        Fcall::Tversion { msize, version } => {
            msize.encode(w)?;
            version.encode(w)?;
            assert(w@ =~= old(w)@ + wire_body(body@));
        },
        Fcall::Rversion { msize, version } => {
            msize.encode(w)?;
            version.encode(w)?;
            assert(w@ =~= old(w)@ + wire_body(body@));
        },
        Fcall::Tflush { oldtag } => {
            oldtag.encode(w)?;
            assert(w@ =~= old(w)@ + wire_body(body@));
        },
        Fcall::Rflush => {
            assert(w@ =~= old(w)@ + wire_body(body@));
        },
        Fcall::Twalk { fid, newfid, wnames } => {
            fid.encode(w)?;
            newfid.encode(w)?;
            wnames.encode(w)?;
            assert(w@ =~= old(w)@ + wire_body(body@));
        },
        Fcall::Rwalk { wqids } => {
            wqids.encode(w)?;
            assert(w@ =~= old(w)@ + wire_body(body@));
        },
        Fcall::Tread { fid, offset, count } => {
            fid.encode(w)?;
            offset.encode(w)?;
            count.encode(w)?;
            assert(w@ =~= old(w)@ + wire_body(body@));
        },
        Fcall::Rread { data } => {
            data.encode(w)?;
            assert(w@ =~= old(w)@ + wire_body(body@));
        },
        Fcall::Twrite { fid, offset, data } => {
            fid.encode(w)?;
            offset.encode(w)?;
            data.encode(w)?;
            assert(w@ =~= old(w)@ + wire_body(body@));
        },
        Fcall::Rwrite { count } => {
            count.encode(w)?;
            assert(w@ =~= old(w)@ + wire_body(body@));
        },
        Fcall::Tclunk { fid } => {
            fid.encode(w)?;
            assert(w@ =~= old(w)@ + wire_body(body@));
        },
        Fcall::Rclunk => {
            assert(w@ =~= old(w)@ + wire_body(body@));
        },
        Fcall::Tremove { fid } => {
            fid.encode(w)?;
            assert(w@ =~= old(w)@ + wire_body(body@));
        },
        Fcall::Rremove => {
            assert(w@ =~= old(w)@ + wire_body(body@));
        },
    }
    Ok(())
}

/// What a decoder of bodies owes: its result is what the format makes of the
/// bytes that were left, and on success the bytes behind the body are left.
pub open spec fn body_decoded(
    expected: Result<(FcallView, Seq<u8>), Error>,
    res: Result<Fcall, Error>,
    after: Seq<u8>,
) -> bool {
    match res {
        Ok(f) => expected == Ok::<(FcallView, Seq<u8>), Error>((f@, after)),
        Err(e) => expected == Err::<(FcallView, Seq<u8>), Error>(e),
    }
}

/// Decodes the body of a `Rlerror`.
fn decode_rlerror(r: &mut Decoder) -> (res: Result<Fcall, Error>)
    ensures
        final(r).buffer() == old(r).buffer(),
        body_decoded(take_rlerror(old(r).remaining()), res, final(r).remaining()),
{
    let ecode = u32::decode(r)?;
    Ok(Fcall::Rlerror { ecode })
}

/// Decodes the body of a `Tstatfs`.
fn decode_tstatfs(r: &mut Decoder) -> (res: Result<Fcall, Error>)
    ensures
        final(r).buffer() == old(r).buffer(),
        body_decoded(take_tstatfs(old(r).remaining()), res, final(r).remaining()),
{
    let fid = u32::decode(r)?;
    Ok(Fcall::Tstatfs { fid })
}

/// Decodes the body of a `Rstatfs`.
fn decode_rstatfs(r: &mut Decoder) -> (res: Result<Fcall, Error>)
    ensures
        final(r).buffer() == old(r).buffer(),
        body_decoded(take_rstatfs(old(r).remaining()), res, final(r).remaining()),
{
    let statfs = Statfs::decode(r)?;
    Ok(Fcall::Rstatfs { statfs })
}

/// Decodes the body of a `Tlopen`.
fn decode_tlopen(r: &mut Decoder) -> (res: Result<Fcall, Error>)
    ensures
        final(r).buffer() == old(r).buffer(),
        body_decoded(take_tlopen(old(r).remaining()), res, final(r).remaining()),
{
    let fid = u32::decode(r)?;
    let flags = u32::decode(r)?;
    Ok(Fcall::Tlopen { fid, flags })
}

/// Decodes the body of a `Rlopen`.
fn decode_rlopen(r: &mut Decoder) -> (res: Result<Fcall, Error>)
    ensures
        final(r).buffer() == old(r).buffer(),
        body_decoded(take_rlopen(old(r).remaining()), res, final(r).remaining()),
{
    let qid = Qid::decode(r)?;
    let iounit = u32::decode(r)?;
    Ok(Fcall::Rlopen { qid, iounit })
}

/// Decodes the body of a `Tlcreate`.
fn decode_tlcreate(r: &mut Decoder) -> (res: Result<Fcall, Error>)
    ensures
        final(r).buffer() == old(r).buffer(),
        body_decoded(take_tlcreate(old(r).remaining()), res, final(r).remaining()),
{
    let fid = u32::decode(r)?;
    let name = String::decode(r)?;
    let flags = u32::decode(r)?;
    let mode = u32::decode(r)?;
    let gid = u32::decode(r)?;
    Ok(Fcall::Tlcreate { fid, name, flags, mode, gid })
}

/// Decodes the body of a `Rlcreate`.
fn decode_rlcreate(r: &mut Decoder) -> (res: Result<Fcall, Error>)
    ensures
        final(r).buffer() == old(r).buffer(),
        body_decoded(take_rlcreate(old(r).remaining()), res, final(r).remaining()),
{
    let qid = Qid::decode(r)?;
    let iounit = u32::decode(r)?;
    Ok(Fcall::Rlcreate { qid, iounit })
}

/// Decodes the body of a `Tsymlink`.
fn decode_tsymlink(r: &mut Decoder) -> (res: Result<Fcall, Error>)
    ensures
        final(r).buffer() == old(r).buffer(),
        body_decoded(take_tsymlink(old(r).remaining()), res, final(r).remaining()),
{
    let fid = u32::decode(r)?;
    let name = String::decode(r)?;
    let symtgt = String::decode(r)?;
    let gid = u32::decode(r)?;
    Ok(Fcall::Tsymlink { fid, name, symtgt, gid })
}

/// Decodes the body of a `Rsymlink`.
fn decode_rsymlink(r: &mut Decoder) -> (res: Result<Fcall, Error>)
    ensures
        final(r).buffer() == old(r).buffer(),
        body_decoded(take_rsymlink(old(r).remaining()), res, final(r).remaining()),
{
    let qid = Qid::decode(r)?;
    Ok(Fcall::Rsymlink { qid })
}

/// Decodes the body of a `Tmknod`.
fn decode_tmknod(r: &mut Decoder) -> (res: Result<Fcall, Error>)
    ensures
        final(r).buffer() == old(r).buffer(),
        body_decoded(take_tmknod(old(r).remaining()), res, final(r).remaining()),
{
    let dfid = u32::decode(r)?;
    let name = String::decode(r)?;
    let mode = u32::decode(r)?;
    let major = u32::decode(r)?;
    let minor = u32::decode(r)?;
    let gid = u32::decode(r)?;
    Ok(Fcall::Tmknod { dfid, name, mode, major, minor, gid })
}

/// Decodes the body of a `Rmknod`.
fn decode_rmknod(r: &mut Decoder) -> (res: Result<Fcall, Error>)
    ensures
        final(r).buffer() == old(r).buffer(),
        body_decoded(take_rmknod(old(r).remaining()), res, final(r).remaining()),
{
    let qid = Qid::decode(r)?;
    Ok(Fcall::Rmknod { qid })
}

/// Decodes the body of a `Trename`.
fn decode_trename(r: &mut Decoder) -> (res: Result<Fcall, Error>)
    ensures
        final(r).buffer() == old(r).buffer(),
        body_decoded(take_trename(old(r).remaining()), res, final(r).remaining()),
{
    let fid = u32::decode(r)?;
    let dfid = u32::decode(r)?;
    let name = String::decode(r)?;
    Ok(Fcall::Trename { fid, dfid, name })
}

/// Decodes the body of a `Treadlink`.
fn decode_treadlink(r: &mut Decoder) -> (res: Result<Fcall, Error>)
    ensures
        final(r).buffer() == old(r).buffer(),
        body_decoded(take_treadlink(old(r).remaining()), res, final(r).remaining()),
{
    let fid = u32::decode(r)?;
    Ok(Fcall::Treadlink { fid })
}

/// Decodes the body of a `Rreadlink`.
fn decode_rreadlink(r: &mut Decoder) -> (res: Result<Fcall, Error>)
    ensures
        final(r).buffer() == old(r).buffer(),
        body_decoded(take_rreadlink(old(r).remaining()), res, final(r).remaining()),
{
    let target = String::decode(r)?;
    Ok(Fcall::Rreadlink { target })
}

/// Decodes the body of a `Tgetattr`.
fn decode_tgetattr(r: &mut Decoder) -> (res: Result<Fcall, Error>)
    ensures
        final(r).buffer() == old(r).buffer(),
        body_decoded(take_tgetattr(old(r).remaining()), res, final(r).remaining()),
{
    let fid = u32::decode(r)?;
    let req_mask = u64::decode(r)?;
    Ok(Fcall::Tgetattr { fid, req_mask })
}

/// Decodes the body of a `Rgetattr`.
fn decode_rgetattr(r: &mut Decoder) -> (res: Result<Fcall, Error>)
    ensures
        final(r).buffer() == old(r).buffer(),
        body_decoded(take_rgetattr(old(r).remaining()), res, final(r).remaining()),
{
    let valid = u64::decode(r)?;
    let qid = Qid::decode(r)?;
    let stat = Stat::decode(r)?;
    let _ = u64::decode(r)?;
    let _ = u64::decode(r)?;
    let _ = u64::decode(r)?;
    let _ = u64::decode(r)?;
    Ok(Fcall::Rgetattr { valid, qid, stat })
}

/// Decodes the body of a `Tsetattr`.
fn decode_tsetattr(r: &mut Decoder) -> (res: Result<Fcall, Error>)
    ensures
        final(r).buffer() == old(r).buffer(),
        body_decoded(take_tsetattr(old(r).remaining()), res, final(r).remaining()),
{
    let fid = u32::decode(r)?;
    let valid = u32::decode(r)?;
    let stat = SetAttr::decode(r)?;
    Ok(Fcall::Tsetattr { fid, valid, stat })
}

/// Decodes the body of a `Txattrwalk`.
fn decode_txattrwalk(r: &mut Decoder) -> (res: Result<Fcall, Error>)
    ensures
        final(r).buffer() == old(r).buffer(),
        body_decoded(take_txattrwalk(old(r).remaining()), res, final(r).remaining()),
{
    let fid = u32::decode(r)?;
    let newfid = u32::decode(r)?;
    let name = String::decode(r)?;
    Ok(Fcall::Txattrwalk { fid, newfid, name })
}

/// Decodes the body of a `Rxattrwalk`.
fn decode_rxattrwalk(r: &mut Decoder) -> (res: Result<Fcall, Error>)
    ensures
        final(r).buffer() == old(r).buffer(),
        body_decoded(take_rxattrwalk(old(r).remaining()), res, final(r).remaining()),
{
    let size = u64::decode(r)?;
    Ok(Fcall::Rxattrwalk { size })
}

/// Decodes the body of a `Txattrcreate`.
fn decode_txattrcreate(r: &mut Decoder) -> (res: Result<Fcall, Error>)
    ensures
        final(r).buffer() == old(r).buffer(),
        body_decoded(take_txattrcreate(old(r).remaining()), res, final(r).remaining()),
{
    let fid = u32::decode(r)?;
    let name = String::decode(r)?;
    let attr_size = u64::decode(r)?;
    let flags = u32::decode(r)?;
    Ok(Fcall::Txattrcreate { fid, name, attr_size, flags })
}

/// Decodes the body of a `Treaddir`.
fn decode_treaddir(r: &mut Decoder) -> (res: Result<Fcall, Error>)
    ensures
        final(r).buffer() == old(r).buffer(),
        body_decoded(take_treaddir(old(r).remaining()), res, final(r).remaining()),
{
    let fid = u32::decode(r)?;
    let offset = u64::decode(r)?;
    let count = u32::decode(r)?;
    Ok(Fcall::Treaddir { fid, offset, count })
}

/// Decodes the body of a `Rreaddir`.
fn decode_rreaddir(r: &mut Decoder) -> (res: Result<Fcall, Error>)
    ensures
        final(r).buffer() == old(r).buffer(),
        body_decoded(take_rreaddir(old(r).remaining()), res, final(r).remaining()),
{
    let data = DirEntryData::decode(r)?;
    Ok(Fcall::Rreaddir { data })
}

/// Decodes the body of a `Tfsync`.
fn decode_tfsync(r: &mut Decoder) -> (res: Result<Fcall, Error>)
    ensures
        final(r).buffer() == old(r).buffer(),
        body_decoded(take_tfsync(old(r).remaining()), res, final(r).remaining()),
{
    let fid = u32::decode(r)?;
    Ok(Fcall::Tfsync { fid })
}

/// Decodes the body of a `Tlock`.
fn decode_tlock(r: &mut Decoder) -> (res: Result<Fcall, Error>)
    ensures
        final(r).buffer() == old(r).buffer(),
        body_decoded(take_tlock(old(r).remaining()), res, final(r).remaining()),
{
    let fid = u32::decode(r)?;
    let flock = Flock::decode(r)?;
    Ok(Fcall::Tlock { fid, flock })
}

/// Decodes the body of a `Rlock`.
fn decode_rlock(r: &mut Decoder) -> (res: Result<Fcall, Error>)
    ensures
        final(r).buffer() == old(r).buffer(),
        body_decoded(take_rlock(old(r).remaining()), res, final(r).remaining()),
{
    let status = u8::decode(r)?;
    Ok(Fcall::Rlock { status })
}

/// Decodes the body of a `Tgetlock`.
fn decode_tgetlock(r: &mut Decoder) -> (res: Result<Fcall, Error>)
    ensures
        final(r).buffer() == old(r).buffer(),
        body_decoded(take_tgetlock(old(r).remaining()), res, final(r).remaining()),
{
    let fid = u32::decode(r)?;
    let flock = Getlock::decode(r)?;
    Ok(Fcall::Tgetlock { fid, flock })
}

/// Decodes the body of a `Rgetlock`.
fn decode_rgetlock(r: &mut Decoder) -> (res: Result<Fcall, Error>)
    ensures
        final(r).buffer() == old(r).buffer(),
        body_decoded(take_rgetlock(old(r).remaining()), res, final(r).remaining()),
{
    let flock = Getlock::decode(r)?;
    Ok(Fcall::Rgetlock { flock })
}

/// Decodes the body of a `Tlink`.
fn decode_tlink(r: &mut Decoder) -> (res: Result<Fcall, Error>)
    ensures
        final(r).buffer() == old(r).buffer(),
        body_decoded(take_tlink(old(r).remaining()), res, final(r).remaining()),
{
    let dfid = u32::decode(r)?;
    let fid = u32::decode(r)?;
    let name = String::decode(r)?;
    Ok(Fcall::Tlink { dfid, fid, name })
}

/// Decodes the body of a `Tmkdir`.
fn decode_tmkdir(r: &mut Decoder) -> (res: Result<Fcall, Error>)
    ensures
        final(r).buffer() == old(r).buffer(),
        body_decoded(take_tmkdir(old(r).remaining()), res, final(r).remaining()),
{
    let dfid = u32::decode(r)?;
    let name = String::decode(r)?;
    let mode = u32::decode(r)?;
    let gid = u32::decode(r)?;
    Ok(Fcall::Tmkdir { dfid, name, mode, gid })
}

/// Decodes the body of a `Rmkdir`.
fn decode_rmkdir(r: &mut Decoder) -> (res: Result<Fcall, Error>)
    ensures
        final(r).buffer() == old(r).buffer(),
        body_decoded(take_rmkdir(old(r).remaining()), res, final(r).remaining()),
{
    let qid = Qid::decode(r)?;
    Ok(Fcall::Rmkdir { qid })
}

/// Decodes the body of a `Trenameat`.
fn decode_trenameat(r: &mut Decoder) -> (res: Result<Fcall, Error>)
    ensures
        final(r).buffer() == old(r).buffer(),
        body_decoded(take_trenameat(old(r).remaining()), res, final(r).remaining()),
{
    let olddirfid = u32::decode(r)?;
    let oldname = String::decode(r)?;
    let newdirfid = u32::decode(r)?;
    let newname = String::decode(r)?;
    Ok(Fcall::Trenameat { olddirfid, oldname, newdirfid, newname })
}

/// Decodes the body of a `Tunlinkat`.
fn decode_tunlinkat(r: &mut Decoder) -> (res: Result<Fcall, Error>)
    ensures
        final(r).buffer() == old(r).buffer(),
        body_decoded(take_tunlinkat(old(r).remaining()), res, final(r).remaining()),
{
    let dirfd = u32::decode(r)?;
    let name = String::decode(r)?;
    let flags = u32::decode(r)?;
    Ok(Fcall::Tunlinkat { dirfd, name, flags })
}

/// Decodes the body of a `Tauth`.
fn decode_tauth(r: &mut Decoder) -> (res: Result<Fcall, Error>)
    ensures
        final(r).buffer() == old(r).buffer(),
        body_decoded(take_tauth(old(r).remaining()), res, final(r).remaining()),
{
    let afid = u32::decode(r)?;
    let uname = String::decode(r)?;
    let aname = String::decode(r)?;
    let n_uname = u32::decode(r)?;
    Ok(Fcall::Tauth { afid, uname, aname, n_uname })
}

/// Decodes the body of a `Rauth`.
fn decode_rauth(r: &mut Decoder) -> (res: Result<Fcall, Error>)
    ensures
        final(r).buffer() == old(r).buffer(),
        body_decoded(take_rauth(old(r).remaining()), res, final(r).remaining()),
{
    let aqid = Qid::decode(r)?;
    Ok(Fcall::Rauth { aqid })
}

/// Decodes the body of a `Tattach`.
fn decode_tattach(r: &mut Decoder) -> (res: Result<Fcall, Error>)
    ensures
        final(r).buffer() == old(r).buffer(),
        body_decoded(take_tattach(old(r).remaining()), res, final(r).remaining()),
{
    let fid = u32::decode(r)?;
    let afid = u32::decode(r)?;
    let uname = String::decode(r)?;
    let aname = String::decode(r)?;
    let n_uname = u32::decode(r)?;
    Ok(Fcall::Tattach { fid, afid, uname, aname, n_uname })
}

/// Decodes the body of a `Rattach`.
fn decode_rattach(r: &mut Decoder) -> (res: Result<Fcall, Error>)
    ensures
        final(r).buffer() == old(r).buffer(),
        body_decoded(take_rattach(old(r).remaining()), res, final(r).remaining()),
{
    let qid = Qid::decode(r)?;
    Ok(Fcall::Rattach { qid })
}

/// Decodes the body of a `Tversion`.
fn decode_tversion(r: &mut Decoder) -> (res: Result<Fcall, Error>)
    ensures
        final(r).buffer() == old(r).buffer(),
        body_decoded(take_tversion(old(r).remaining()), res, final(r).remaining()),
{
    let msize = u32::decode(r)?;
    let version = String::decode(r)?;
    Ok(Fcall::Tversion { msize, version })
}

/// Decodes the body of a `Rversion`.
fn decode_rversion(r: &mut Decoder) -> (res: Result<Fcall, Error>)
    ensures
        final(r).buffer() == old(r).buffer(),
        body_decoded(take_rversion(old(r).remaining()), res, final(r).remaining()),
{
    let msize = u32::decode(r)?;
    let version = String::decode(r)?;
    Ok(Fcall::Rversion { msize, version })
}

/// Decodes the body of a `Tflush`.
fn decode_tflush(r: &mut Decoder) -> (res: Result<Fcall, Error>)
    ensures
        final(r).buffer() == old(r).buffer(),
        body_decoded(take_tflush(old(r).remaining()), res, final(r).remaining()),
{
    let oldtag = u16::decode(r)?;
    Ok(Fcall::Tflush { oldtag })
}

/// Decodes the body of a `Twalk`.
fn decode_twalk(r: &mut Decoder) -> (res: Result<Fcall, Error>)
    ensures
        final(r).buffer() == old(r).buffer(),
        body_decoded(take_twalk(old(r).remaining()), res, final(r).remaining()),
{
    let fid = u32::decode(r)?;
    let newfid = u32::decode(r)?;
    let wnames = Vec::<String>::decode(r)?;
    Ok(Fcall::Twalk { fid, newfid, wnames })
}

/// Decodes the body of a `Rwalk`.
fn decode_rwalk(r: &mut Decoder) -> (res: Result<Fcall, Error>)
    ensures
        final(r).buffer() == old(r).buffer(),
        body_decoded(take_rwalk(old(r).remaining()), res, final(r).remaining()),
{
    let wqids = Vec::<Qid>::decode(r)?;
    Ok(Fcall::Rwalk { wqids })
}

/// Decodes the body of a `Tread`.
fn decode_tread(r: &mut Decoder) -> (res: Result<Fcall, Error>)
    ensures
        final(r).buffer() == old(r).buffer(),
        body_decoded(take_tread(old(r).remaining()), res, final(r).remaining()),
{
    let fid = u32::decode(r)?;
    let offset = u64::decode(r)?;
    let count = u32::decode(r)?;
    Ok(Fcall::Tread { fid, offset, count })
}

/// Decodes the body of a `Rread`.
fn decode_rread(r: &mut Decoder) -> (res: Result<Fcall, Error>)
    ensures
        final(r).buffer() == old(r).buffer(),
        body_decoded(take_rread(old(r).remaining()), res, final(r).remaining()),
{
    let data = Data::decode(r)?;
    Ok(Fcall::Rread { data })
}

/// Decodes the body of a `Twrite`.
fn decode_twrite(r: &mut Decoder) -> (res: Result<Fcall, Error>)
    ensures
        final(r).buffer() == old(r).buffer(),
        body_decoded(take_twrite(old(r).remaining()), res, final(r).remaining()),
{
    let fid = u32::decode(r)?;
    let offset = u64::decode(r)?;
    let data = Data::decode(r)?;
    Ok(Fcall::Twrite { fid, offset, data })
}

/// Decodes the body of a `Rwrite`.
fn decode_rwrite(r: &mut Decoder) -> (res: Result<Fcall, Error>)
    ensures
        final(r).buffer() == old(r).buffer(),
        body_decoded(take_rwrite(old(r).remaining()), res, final(r).remaining()),
{
    let count = u32::decode(r)?;
    Ok(Fcall::Rwrite { count })
}

/// Decodes the body of a `Tclunk`.
fn decode_tclunk(r: &mut Decoder) -> (res: Result<Fcall, Error>)
    ensures
        final(r).buffer() == old(r).buffer(),
        body_decoded(take_tclunk(old(r).remaining()), res, final(r).remaining()),
{
    let fid = u32::decode(r)?;
    Ok(Fcall::Tclunk { fid })
}

/// Decodes the body of a `Tremove`.
fn decode_tremove(r: &mut Decoder) -> (res: Result<Fcall, Error>)
    ensures
        final(r).buffer() == old(r).buffer(),
        body_decoded(take_tremove(old(r).remaining()), res, final(r).remaining()),
{
    let fid = u32::decode(r)?;
    Ok(Fcall::Tremove { fid })
}

/// Decodes the body of a message of type `t`.
fn decode_body(t: MsgType, r: &mut Decoder) -> (res: Result<Fcall, Error>)
    ensures
        final(r).buffer() == old(r).buffer(),
        body_decoded(take_body(t, old(r).remaining()), res, final(r).remaining()),
{
    match t {
        MsgType::Tlerror => Err(Error::Io(IoError::new(IoErrorKind::Other))),
        MsgType::Rlerror => decode_rlerror(r),
        MsgType::Tstatfs => decode_tstatfs(r),
        MsgType::Rstatfs => decode_rstatfs(r),
        MsgType::Tlopen => decode_tlopen(r),
        MsgType::Rlopen => decode_rlopen(r),
        MsgType::Tlcreate => decode_tlcreate(r),
        MsgType::Rlcreate => decode_rlcreate(r),
        MsgType::Tsymlink => decode_tsymlink(r),
        MsgType::Rsymlink => decode_rsymlink(r),
        MsgType::Tmknod => decode_tmknod(r),
        MsgType::Rmknod => decode_rmknod(r),
        MsgType::Trename => decode_trename(r),
        MsgType::Rrename => Ok(Fcall::Rrename),
        MsgType::Treadlink => decode_treadlink(r),
        MsgType::Rreadlink => decode_rreadlink(r),
        MsgType::Tgetattr => decode_tgetattr(r),
        MsgType::Rgetattr => decode_rgetattr(r),
        MsgType::Tsetattr => decode_tsetattr(r),
        MsgType::Rsetattr => Ok(Fcall::Rsetattr),
        MsgType::Txattrwalk => decode_txattrwalk(r),
        MsgType::Rxattrwalk => decode_rxattrwalk(r),
        MsgType::Txattrcreate => decode_txattrcreate(r),
        MsgType::Rxattrcreate => Ok(Fcall::Rxattrcreate),
        MsgType::Treaddir => decode_treaddir(r),
        MsgType::Rreaddir => decode_rreaddir(r),
        MsgType::Tfsync => decode_tfsync(r),
        MsgType::Rfsync => Ok(Fcall::Rfsync),
        MsgType::Tlock => decode_tlock(r),
        MsgType::Rlock => decode_rlock(r),
        MsgType::Tgetlock => decode_tgetlock(r),
        MsgType::Rgetlock => decode_rgetlock(r),
        MsgType::Tlink => decode_tlink(r),
        MsgType::Rlink => Ok(Fcall::Rlink),
        MsgType::Tmkdir => decode_tmkdir(r),
        MsgType::Rmkdir => decode_rmkdir(r),
        MsgType::Trenameat => decode_trenameat(r),
        MsgType::Rrenameat => Ok(Fcall::Rrenameat),
        MsgType::Tunlinkat => decode_tunlinkat(r),
        MsgType::Runlinkat => Ok(Fcall::Runlinkat),
        MsgType::Tauth => decode_tauth(r),
        MsgType::Rauth => decode_rauth(r),
        MsgType::Tattach => decode_tattach(r),
        MsgType::Rattach => decode_rattach(r),
        MsgType::Tversion => decode_tversion(r),
        MsgType::Rversion => decode_rversion(r),
        MsgType::Tflush => decode_tflush(r),
        MsgType::Rflush => Ok(Fcall::Rflush),
        MsgType::Twalk => decode_twalk(r),
        MsgType::Rwalk => decode_rwalk(r),
        MsgType::Tread => decode_tread(r),
        MsgType::Rread => decode_rread(r),
        MsgType::Twrite => decode_twrite(r),
        MsgType::Rwrite => decode_rwrite(r),
        MsgType::Tclunk => decode_tclunk(r),
        MsgType::Rclunk => Ok(Fcall::Rclunk),
        MsgType::Tremove => decode_tremove(r),
        MsgType::Rremove => Ok(Fcall::Rremove),
    }
}

impl Encodable for Msg {
    open spec fn wire(v: MsgView) -> Seq<u8> {
        u32::wire((4 + wire_frame(v).len()) as u32) + wire_frame(v)
    }

    open spec fn fits(v: MsgView) -> bool {
        body_fits(v.body) && 4 + wire_frame(v).len() <= 0xffff_ffff
    }

    fn encode(&self, w: &mut Vec<u8>) -> (res: Result<usize, Error>) {
        let mut buf: Vec<u8> = Vec::new();
        self.typ.code().encode(&mut buf)?;
        self.tag.encode(&mut buf)?;
        match encode_body(&self.body, &mut buf) {
            Ok(_) => {},
            Err(e) => {
                return Err(e);
            },
        }
        assert(buf@ =~= wire_frame(self@));
        if buf.len() > 0xffff_fffb {
            return Err(Error::Io(IoError::new(IoErrorKind::InvalidInput)));
        }
        let size = buf.len() + 4;
        proof {
            lemma_le_u32(size as u32);
        }
        (size as u32).encode(w)?;
        append(w, buf.as_slice());
        assert(w@ =~= old(w)@ + Msg::wire(self@));
        Ok(size)
    }
}

impl Decodable for Msg {
    open spec fn take(b: Seq<u8>) -> Result<(MsgView, Seq<u8>), Error> {
        match u32::take(b) {
            Ok((size, b)) => if size < 4 {
                Err(protocol_error())
            } else if b.len() < size - 4 {
                Err(unexpected_eof())
            } else {
                match take_frame(b.take(size - 4)) {
                    Ok(m) => Ok((m, b.skip(size - 4))),
                    Err(e) => Err(e),
                }
            },
            Err(e) => Err(e),
        }
    }

    fn decode(r: &mut Decoder) -> (res: Result<Msg, Error>) {
        let size = u32::decode(r)?;
        if size < 4 {
            return Err(Error::Io(IoError::new(IoErrorKind::Other)));
        }
        let frame = r.take((size - 4) as usize)?;
        let mut buf = Decoder::new(frame);
        let code = u8::decode(&mut buf)?;
        let tag = u16::decode(&mut buf)?;
        let typ = match MsgType::from_u8(code) {
            Some(typ) => typ,
            None => {
                return Err(Error::Io(IoError::new(IoErrorKind::Other)));
            },
        };
        let body = decode_body(typ, &mut buf)?;
        Ok(Msg { typ, tag, body })
    }
}

/// Helper function to read a 9P message from a buffer of bytes
pub fn read_msg(r: &mut Decoder) -> (res: Result<Msg, Error>)
    ensures
        final(r).buffer() == old(r).buffer(),
        match res {
            Ok(m) => Msg::take(old(r).remaining()) == Ok::<(MsgView, Seq<u8>), Error>(
                (m@, final(r).remaining()),
            ),
            Err(e) => Msg::take(old(r).remaining()) == Err::<(MsgView, Seq<u8>), Error>(e),
        },
{
    Msg::decode(r)
}

/// Helper function to write a 9P message behind what a buffer of bytes holds
pub fn write_msg(w: &mut Vec<u8>, msg: &Msg) -> (res: Result<usize, Error>)
    ensures
        match res {
            Ok(n) => Msg::fits(msg@) && final(w)@ == old(w)@ + Msg::wire(msg@) && n == Msg::wire(
                msg@,
            ).len(),
            Err(e) => !Msg::fits(msg@) && e == unencodable() && final(w)@ == old(w)@,
        },
{
    msg.encode(w)
}

/// The number of bytes that a frame of the given size holds behind the four
/// bytes of the size itself. A size under four is no size of a frame.
pub fn frame_rest(size: u32) -> (res: Result<usize, Error>)
    ensures
        size >= 4 ==> res == Ok::<usize, Error>((size - 4) as usize),
        size < 4 ==> res == Err::<usize, Error>(protocol_error()),
{
    if size < 4 {
        Err(Error::Io(IoError::new(IoErrorKind::Other)))
    } else {
        Ok((size - 4) as usize)
    }
}

} // verus!
