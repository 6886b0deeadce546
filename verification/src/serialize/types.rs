//! The wire forms of the data types that 9P messages carry

use crate::error::Error;
use crate::error::IoError;
use crate::error::IoErrorKind;
use crate::fcall::Data;
use crate::fcall::DirEntry;
use crate::fcall::DirEntryData;
use crate::fcall::DirEntryView;
use crate::fcall::Flock;
use crate::fcall::FlockView;
use crate::fcall::Getlock;
use crate::fcall::GetlockView;
use crate::fcall::Qid;
use crate::fcall::SetAttr;
use crate::fcall::Stat;
use crate::fcall::Statfs;
use crate::fcall::Time;
use crate::serialize::append;
use crate::serialize::decode_n;
use crate::serialize::encode_all;
use crate::serialize::fits_all;
use crate::serialize::le_bytes_u32;
use crate::serialize::take_n;
use crate::serialize::unexpected_eof;
use crate::serialize::wire_all;
use crate::serialize::Decodable;
use crate::serialize::Decoder;
use crate::serialize::Encodable;
use vstd::prelude::*;

verus! {

impl Encodable for Time {
    open spec fn wire(v: Time) -> Seq<u8> {
        u64::wire(v.sec) + u64::wire(v.nsec)
    }

    open spec fn fits(v: Time) -> bool {
        true
    }

    fn encode(&self, w: &mut Vec<u8>) -> (res: Result<usize, Error>) {
        let start = w.len();
        self.sec.encode(w)?;
        self.nsec.encode(w)?;
        assert(w@ =~= old(w)@ + Time::wire(self.deep_view()));
        Ok(w.len() - start)
    }
}

impl Decodable for Time {
    open spec fn take(b: Seq<u8>) -> Result<(Time, Seq<u8>), Error> {
        match u64::take(b) {
            Err(e) => Err(e),
            Ok((sec, b)) => match u64::take(b) {
                Err(e) => Err(e),
                Ok((nsec, b)) => Ok((Time { sec, nsec }, b)),
            },
        }
    }

    fn decode(r: &mut Decoder) -> (res: Result<Time, Error>) {
        let sec = u64::decode(r)?;
        let nsec = u64::decode(r)?;
        Ok(Time { sec, nsec })
    }
}

impl Encodable for Qid {
    open spec fn wire(v: Qid) -> Seq<u8> {
        u8::wire(v.typ) + u32::wire(v.version) + u64::wire(v.path)
    }

    open spec fn fits(v: Qid) -> bool {
        true
    }

    fn encode(&self, w: &mut Vec<u8>) -> (res: Result<usize, Error>) {
        let start = w.len();
        self.typ.encode(w)?;
        self.version.encode(w)?;
        self.path.encode(w)?;
        assert(w@ =~= old(w)@ + Qid::wire(self.deep_view()));
        Ok(w.len() - start)
    }
}

impl Decodable for Qid {
    open spec fn take(b: Seq<u8>) -> Result<(Qid, Seq<u8>), Error> {
        match u8::take(b) {
            Err(e) => Err(e),
            Ok((typ, b)) => match u32::take(b) {
                Err(e) => Err(e),
                Ok((version, b)) => match u64::take(b) {
                    Err(e) => Err(e),
                    Ok((path, b)) => Ok((Qid { typ, version, path }, b)),
                },
            },
        }
    }

    fn decode(r: &mut Decoder) -> (res: Result<Qid, Error>) {
        let typ = u8::decode(r)?;
        let version = u32::decode(r)?;
        let path = u64::decode(r)?;
        Ok(Qid { typ, version, path })
    }
}

impl Encodable for Statfs {
    open spec fn wire(v: Statfs) -> Seq<u8> {
        u32::wire(v.typ) + u32::wire(v.bsize) + u64::wire(v.blocks) + u64::wire(v.bfree)
            + u64::wire(v.bavail) + u64::wire(v.files) + u64::wire(v.ffree) + u64::wire(v.fsid)
            + u32::wire(v.namelen)
    }

    open spec fn fits(v: Statfs) -> bool {
        true
    }

    fn encode(&self, w: &mut Vec<u8>) -> (res: Result<usize, Error>) {
        let start = w.len();
        self.typ.encode(w)?;
        self.bsize.encode(w)?;
        self.blocks.encode(w)?;
        self.bfree.encode(w)?;
        self.bavail.encode(w)?;
        self.files.encode(w)?;
        self.ffree.encode(w)?;
        self.fsid.encode(w)?;
        self.namelen.encode(w)?;
        assert(w@ =~= old(w)@ + Statfs::wire(self.deep_view()));
        Ok(w.len() - start)
    }
}

impl Decodable for Statfs {
    open spec fn take(b: Seq<u8>) -> Result<(Statfs, Seq<u8>), Error> {
        match u32::take(b) {
            Err(e) => Err(e),
            Ok((typ, b)) => match u32::take(b) {
                Err(e) => Err(e),
                Ok((bsize, b)) => match u64::take(b) {
                    Err(e) => Err(e),
                    Ok((blocks, b)) => match u64::take(b) {
                        Err(e) => Err(e),
                        Ok((bfree, b)) => match u64::take(b) {
                            Err(e) => Err(e),
                            Ok((bavail, b)) => match u64::take(b) {
                                Err(e) => Err(e),
                                Ok((files, b)) => match u64::take(b) {
                                    Err(e) => Err(e),
                                    Ok((ffree, b)) => match u64::take(b) {
                                        Err(e) => Err(e),
                                        Ok((fsid, b)) => match u32::take(b) {
                                            Err(e) => Err(e),
                                            Ok((namelen, b)) => Ok((
                                                Statfs {
                                                    typ,
                                                    bsize,
                                                    blocks,
                                                    bfree,
                                                    bavail,
                                                    files,
                                                    ffree,
                                                    fsid,
                                                    namelen,
                                                },
                                                b,
                                            )),
                                        },
                                    },
                                },
                            },
                        },
                    },
                },
            },
        }
    }

    fn decode(r: &mut Decoder) -> (res: Result<Statfs, Error>) {
        let typ = u32::decode(r)?;
        let bsize = u32::decode(r)?;
        let blocks = u64::decode(r)?;
        let bfree = u64::decode(r)?;
        let bavail = u64::decode(r)?;
        let files = u64::decode(r)?;
        let ffree = u64::decode(r)?;
        let fsid = u64::decode(r)?;
        let namelen = u32::decode(r)?;
        Ok(Statfs { typ, bsize, blocks, bfree, bavail, files, ffree, fsid, namelen })
    }
}

impl Encodable for Stat {
    open spec fn wire(v: Stat) -> Seq<u8> {
        u32::wire(v.mode) + u32::wire(v.uid) + u32::wire(v.gid) + u64::wire(v.nlink)
            + u64::wire(v.rdev) + u64::wire(v.size) + u64::wire(v.blksize) + u64::wire(v.blocks)
            + Time::wire(v.atime) + Time::wire(v.mtime) + Time::wire(v.ctime)
    }

    open spec fn fits(v: Stat) -> bool {
        true
    }

    fn encode(&self, w: &mut Vec<u8>) -> (res: Result<usize, Error>) {
        let start = w.len();
        self.mode.encode(w)?;
        self.uid.encode(w)?;
        self.gid.encode(w)?;
        self.nlink.encode(w)?;
        self.rdev.encode(w)?;
        self.size.encode(w)?;
        self.blksize.encode(w)?;
        self.blocks.encode(w)?;
        self.atime.encode(w)?;
        self.mtime.encode(w)?;
        self.ctime.encode(w)?;
        assert(w@ =~= old(w)@ + Stat::wire(self.deep_view()));
        Ok(w.len() - start)
    }
}

impl Decodable for Stat {
    open spec fn take(b: Seq<u8>) -> Result<(Stat, Seq<u8>), Error> {
        match u32::take(b) {
            Err(e) => Err(e),
            Ok((mode, b)) => match u32::take(b) {
                Err(e) => Err(e),
                Ok((uid, b)) => match u32::take(b) {
                    Err(e) => Err(e),
                    Ok((gid, b)) => match u64::take(b) {
                        Err(e) => Err(e),
                        Ok((nlink, b)) => match u64::take(b) {
                            Err(e) => Err(e),
                            Ok((rdev, b)) => match u64::take(b) {
                                Err(e) => Err(e),
                                Ok((size, b)) => match u64::take(b) {
                                    Err(e) => Err(e),
                                    Ok((blksize, b)) => match u64::take(b) {
                                        Err(e) => Err(e),
                                        Ok((blocks, b)) => match Time::take(b) {
                                            Err(e) => Err(e),
                                            Ok((atime, b)) => match Time::take(b) {
                                                Err(e) => Err(e),
                                                Ok((mtime, b)) => match Time::take(b) {
                                                    Err(e) => Err(e),
                                                    Ok((ctime, b)) => Ok((
                                                        Stat {
                                                            mode,
                                                            uid,
                                                            gid,
                                                            nlink,
                                                            rdev,
                                                            size,
                                                            blksize,
                                                            blocks,
                                                            atime,
                                                            mtime,
                                                            ctime,
                                                        },
                                                        b,
                                                    )),
                                                },
                                            },
                                        },
                                    },
                                },
                            },
                        },
                    },
                },
            },
        }
    }

    fn decode(r: &mut Decoder) -> (res: Result<Stat, Error>) {
        let mode = u32::decode(r)?;
        let uid = u32::decode(r)?;
        let gid = u32::decode(r)?;
        let nlink = u64::decode(r)?;
        let rdev = u64::decode(r)?;
        let size = u64::decode(r)?;
        let blksize = u64::decode(r)?;
        let blocks = u64::decode(r)?;
        let atime = Time::decode(r)?;
        let mtime = Time::decode(r)?;
        let ctime = Time::decode(r)?;
        Ok(Stat { mode, uid, gid, nlink, rdev, size, blksize, blocks, atime, mtime, ctime })
    }
}

impl Encodable for SetAttr {
    open spec fn wire(v: SetAttr) -> Seq<u8> {
        u32::wire(v.mode) + u32::wire(v.uid) + u32::wire(v.gid) + u64::wire(v.size)
            + Time::wire(v.atime) + Time::wire(v.mtime)
    }

    open spec fn fits(v: SetAttr) -> bool {
        true
    }

    fn encode(&self, w: &mut Vec<u8>) -> (res: Result<usize, Error>) {
        let start = w.len();
        self.mode.encode(w)?;
        self.uid.encode(w)?;
        self.gid.encode(w)?;
        self.size.encode(w)?;
        self.atime.encode(w)?;
        self.mtime.encode(w)?;
        assert(w@ =~= old(w)@ + SetAttr::wire(self.deep_view()));
        Ok(w.len() - start)
    }
}

impl Decodable for SetAttr {
    open spec fn take(b: Seq<u8>) -> Result<(SetAttr, Seq<u8>), Error> {
        match u32::take(b) {
            Err(e) => Err(e),
            Ok((mode, b)) => match u32::take(b) {
                Err(e) => Err(e),
                Ok((uid, b)) => match u32::take(b) {
                    Err(e) => Err(e),
                    Ok((gid, b)) => match u64::take(b) {
                        Err(e) => Err(e),
                        Ok((size, b)) => match Time::take(b) {
                            Err(e) => Err(e),
                            Ok((atime, b)) => match Time::take(b) {
                                Err(e) => Err(e),
                                Ok((mtime, b)) => Ok((
                                    SetAttr {
                                        mode,
                                        uid,
                                        gid,
                                        size,
                                        atime,
                                        mtime,
                                    },
                                    b,
                                )),
                            },
                        },
                    },
                },
            },
        }
    }

    fn decode(r: &mut Decoder) -> (res: Result<SetAttr, Error>) {
        let mode = u32::decode(r)?;
        let uid = u32::decode(r)?;
        let gid = u32::decode(r)?;
        let size = u64::decode(r)?;
        let atime = Time::decode(r)?;
        let mtime = Time::decode(r)?;
        Ok(SetAttr { mode, uid, gid, size, atime, mtime })
    }
}

impl Encodable for DirEntry {
    open spec fn wire(v: DirEntryView) -> Seq<u8> {
        Qid::wire(v.qid) + u64::wire(v.offset) + u8::wire(v.typ) + String::wire(v.name)
    }

    open spec fn fits(v: DirEntryView) -> bool {
        String::fits(v.name)
    }

    fn encode(&self, w: &mut Vec<u8>) -> (res: Result<usize, Error>) {
        if self.name.as_str().as_bytes().len() > 0xffff {
            return Err(Error::Io(IoError::new(IoErrorKind::InvalidInput)));
        }
        let start = w.len();
        self.qid.encode(w)?;
        self.offset.encode(w)?;
        self.typ.encode(w)?;
        self.name.encode(w)?;
        assert(w@ =~= old(w)@ + DirEntry::wire(self.deep_view()));
        Ok(w.len() - start)
    }
}

impl Decodable for DirEntry {
    open spec fn take(b: Seq<u8>) -> Result<(DirEntryView, Seq<u8>), Error> {
        match Qid::take(b) {
            Err(e) => Err(e),
            Ok((qid, b)) => match u64::take(b) {
                Err(e) => Err(e),
                Ok((offset, b)) => match u8::take(b) {
                    Err(e) => Err(e),
                    Ok((typ, b)) => match String::take(b) {
                        Err(e) => Err(e),
                        Ok((name, b)) => Ok((DirEntryView { qid, offset, typ, name }, b)),
                    },
                },
            },
        }
    }

    fn decode(r: &mut Decoder) -> (res: Result<DirEntry, Error>) {
        let qid = Qid::decode(r)?;
        let offset = u64::decode(r)?;
        let typ = u8::decode(r)?;
        let name = String::decode(r)?;
        Ok(DirEntry { qid, offset, typ, name })
    }
}

impl Encodable for Flock {
    open spec fn wire(v: FlockView) -> Seq<u8> {
        u8::wire(v.typ) + u32::wire(v.flags) + u64::wire(v.start) + u64::wire(v.length)
            + u32::wire(v.proc_id) + String::wire(v.client_id)
    }

    open spec fn fits(v: FlockView) -> bool {
        String::fits(v.client_id)
    }

    fn encode(&self, w: &mut Vec<u8>) -> (res: Result<usize, Error>) {
        if self.client_id.as_str().as_bytes().len() > 0xffff {
            return Err(Error::Io(IoError::new(IoErrorKind::InvalidInput)));
        }
        let start = w.len();
        self.typ.encode(w)?;
        self.flags.encode(w)?;
        self.start.encode(w)?;
        self.length.encode(w)?;
        self.proc_id.encode(w)?;
        self.client_id.encode(w)?;
        assert(w@ =~= old(w)@ + Flock::wire(self.deep_view()));
        Ok(w.len() - start)
    }
}

impl Decodable for Flock {
    open spec fn take(b: Seq<u8>) -> Result<(FlockView, Seq<u8>), Error> {
        match u8::take(b) {
            Err(e) => Err(e),
            Ok((typ, b)) => match u32::take(b) {
                Err(e) => Err(e),
                Ok((flags, b)) => match u64::take(b) {
                    Err(e) => Err(e),
                    Ok((start, b)) => match u64::take(b) {
                        Err(e) => Err(e),
                        Ok((length, b)) => match u32::take(b) {
                            Err(e) => Err(e),
                            Ok((proc_id, b)) => match String::take(b) {
                                Err(e) => Err(e),
                                Ok((client_id, b)) => Ok((
                                    FlockView {
                                        typ,
                                        flags,
                                        start,
                                        length,
                                        proc_id,
                                        client_id,
                                    },
                                    b,
                                )),
                            },
                        },
                    },
                },
            },
        }
    }

    fn decode(r: &mut Decoder) -> (res: Result<Flock, Error>) {
        let typ = u8::decode(r)?;
        let flags = u32::decode(r)?;
        let start = u64::decode(r)?;
        let length = u64::decode(r)?;
        let proc_id = u32::decode(r)?;
        let client_id = String::decode(r)?;
        Ok(Flock { typ, flags, start, length, proc_id, client_id })
    }
}

impl Encodable for Getlock {
    open spec fn wire(v: GetlockView) -> Seq<u8> {
        u8::wire(v.typ) + u64::wire(v.start) + u64::wire(v.length) + u32::wire(v.proc_id)
            + String::wire(v.client_id)
    }

    open spec fn fits(v: GetlockView) -> bool {
        String::fits(v.client_id)
    }

    fn encode(&self, w: &mut Vec<u8>) -> (res: Result<usize, Error>) {
        if self.client_id.as_str().as_bytes().len() > 0xffff {
            return Err(Error::Io(IoError::new(IoErrorKind::InvalidInput)));
        }
        let start = w.len();
        self.typ.encode(w)?;
        self.start.encode(w)?;
        self.length.encode(w)?;
        self.proc_id.encode(w)?;
        self.client_id.encode(w)?;
        assert(w@ =~= old(w)@ + Getlock::wire(self.deep_view()));
        Ok(w.len() - start)
    }
}

impl Decodable for Getlock {
    open spec fn take(b: Seq<u8>) -> Result<(GetlockView, Seq<u8>), Error> {
        match u8::take(b) {
            Err(e) => Err(e),
            Ok((typ, b)) => match u64::take(b) {
                Err(e) => Err(e),
                Ok((start, b)) => match u64::take(b) {
                    Err(e) => Err(e),
                    Ok((length, b)) => match u32::take(b) {
                        Err(e) => Err(e),
                        Ok((proc_id, b)) => match String::take(b) {
                            Err(e) => Err(e),
                            Ok((client_id, b)) => Ok((
                                GetlockView {
                                    typ,
                                    start,
                                    length,
                                    proc_id,
                                    client_id,
                                },
                                b,
                            )),
                        },
                    },
                },
            },
        }
    }

    fn decode(r: &mut Decoder) -> (res: Result<Getlock, Error>) {
        let typ = u8::decode(r)?;
        let start = u64::decode(r)?;
        let length = u64::decode(r)?;
        let proc_id = u32::decode(r)?;
        let client_id = String::decode(r)?;
        Ok(Getlock { typ, start, length, proc_id, client_id })
    }
}

impl Encodable for Data {
    open spec fn wire(v: Seq<u8>) -> Seq<u8> {
        le_bytes_u32(v.len() as u32) + v
    }

    open spec fn fits(v: Seq<u8>) -> bool {
        v.len() <= 0xffff_ffff
    }

    fn encode(&self, w: &mut Vec<u8>) -> (res: Result<usize, Error>) {
        let bytes = self.data();
        let len = bytes.len();
        if len > 0xffff_ffff {
            return Err(Error::Io(IoError::new(IoErrorKind::InvalidInput)));
        }
        let start = w.len();
        (len as u32).encode(w)?;
        append(w, bytes);
        assert(w@ =~= old(w)@ + Data::wire(self.deep_view()));
        Ok(w.len() - start)
    }
}

impl Decodable for Data {
    open spec fn take(b: Seq<u8>) -> Result<(Seq<u8>, Seq<u8>), Error> {
        match u32::take(b) {
            Ok((len, b)) => if b.len() < len {
                Err(unexpected_eof())
            } else {
                Ok((b.take(len as int), b.skip(len as int)))
            },
            Err(e) => Err(e),
        }
    }

    fn decode(r: &mut Decoder) -> (res: Result<Data, Error>) {
        let len = u32::decode(r)?;
        let bytes = r.take(len as usize)?;
        Ok(Data::new(bytes))
    }
}

impl Encodable for DirEntryData {
    open spec fn wire(v: Seq<DirEntryView>) -> Seq<u8> {
        le_bytes_u32(v.len() as u32) + wire_all::<DirEntry>(v)
    }

    open spec fn fits(v: Seq<DirEntryView>) -> bool {
        v.len() <= 0xffff_ffff && fits_all::<DirEntry>(v)
    }

    fn encode(&self, w: &mut Vec<u8>) -> (res: Result<usize, Error>) {
        let items = self.data();
        let len = items.len();
        if len > 0xffff_ffff {
            return Err(Error::Io(IoError::new(IoErrorKind::InvalidInput)));
        }
        let start = w.len();
        (len as u32).encode(w)?;
        assert(items.deep_view() =~= self.deep_view());
        match encode_all::<DirEntry>(items, w) {
            Ok(_) => {
                assert(w@ =~= old(w)@ + DirEntryData::wire(self.deep_view()));
                Ok(w.len() - start)
            },
            Err(e) => {
                w.truncate(start);
                assert(w@ =~= old(w)@);
                Err(e)
            },
        }
    }
}

impl Decodable for DirEntryData {
    open spec fn take(b: Seq<u8>) -> Result<(Seq<DirEntryView>, Seq<u8>), Error> {
        match u32::take(b) {
            Ok((count, b)) => take_n::<DirEntry>(count as nat, b),
            Err(e) => Err(e),
        }
    }

    fn decode(r: &mut Decoder) -> (res: Result<DirEntryData, Error>) {
        let count = u32::decode(r)?;
        let entries = decode_n::<DirEntry>(r, count as usize)?;
        let data = DirEntryData::new(entries);
        assert(data.deep_view() =~= entries.deep_view());
        Ok(data)
    }
}

} // verus!
