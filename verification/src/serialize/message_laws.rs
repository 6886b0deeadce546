//! Every message that has a wire form is read back from it.

use crate::error::Error;
use crate::fcall::lemma_msg_type_of_number_inverse;
use crate::fcall::Data;
use crate::fcall::DirEntryData;
use crate::fcall::DirEntryView;
use crate::fcall::FcallView;
use crate::fcall::Flock;
use crate::fcall::FlockView;
use crate::fcall::Getlock;
use crate::fcall::GetlockView;
use crate::fcall::Msg;
use crate::fcall::MsgType;
use crate::fcall::MsgView;
use crate::fcall::Qid;
use crate::fcall::SetAttr;
use crate::fcall::Stat;
use crate::fcall::Statfs;
use crate::serialize::laws::lemma_concat_assoc;
use crate::serialize::laws::lemma_data_round_trip;
use crate::serialize::laws::lemma_dir_entry_data_round_trip;
use crate::serialize::laws::lemma_flock_round_trip;
use crate::serialize::laws::lemma_getlock_round_trip;
use crate::serialize::laws::lemma_le_u16;
use crate::serialize::laws::lemma_le_u32;
use crate::serialize::laws::lemma_qid_round_trip;
use crate::serialize::laws::lemma_qids_round_trip;
use crate::serialize::laws::lemma_setattr_round_trip;
use crate::serialize::laws::lemma_stat_round_trip;
use crate::serialize::laws::lemma_statfs_round_trip;
use crate::serialize::laws::lemma_string_round_trip;
use crate::serialize::laws::lemma_strings_round_trip;
use crate::serialize::laws::lemma_u16_round_trip;
use crate::serialize::laws::lemma_u32_round_trip;
use crate::serialize::laws::lemma_u64_round_trip;
use crate::serialize::laws::lemma_u8_round_trip;
use crate::serialize::laws::lemma_vec_round_trip;
use crate::serialize::le_bytes_u64;
use crate::serialize::le_value_u32;
use crate::serialize::message::body_fits;
use crate::serialize::message::take_body;
use crate::serialize::message::take_rattach;
use crate::serialize::message::take_rauth;
use crate::serialize::message::take_rgetattr;
use crate::serialize::message::take_rgetlock;
use crate::serialize::message::take_rlcreate;
use crate::serialize::message::take_rlerror;
use crate::serialize::message::take_rlock;
use crate::serialize::message::take_rlopen;
use crate::serialize::message::take_rmkdir;
use crate::serialize::message::take_rmknod;
use crate::serialize::message::take_rread;
use crate::serialize::message::take_rreaddir;
use crate::serialize::message::take_rreadlink;
use crate::serialize::message::take_rstatfs;
use crate::serialize::message::take_rsymlink;
use crate::serialize::message::take_rversion;
use crate::serialize::message::take_rwalk;
use crate::serialize::message::take_rwrite;
use crate::serialize::message::take_rxattrwalk;
use crate::serialize::message::take_tattach;
use crate::serialize::message::take_tauth;
use crate::serialize::message::take_tclunk;
use crate::serialize::message::take_tflush;
use crate::serialize::message::take_tfsync;
use crate::serialize::message::take_tgetattr;
use crate::serialize::message::take_tgetlock;
use crate::serialize::message::take_tlcreate;
use crate::serialize::message::take_tlink;
use crate::serialize::message::take_tlock;
use crate::serialize::message::take_tlopen;
use crate::serialize::message::take_tmkdir;
use crate::serialize::message::take_tmknod;
use crate::serialize::message::take_tread;
use crate::serialize::message::take_treaddir;
use crate::serialize::message::take_treadlink;
use crate::serialize::message::take_tremove;
use crate::serialize::message::take_trename;
use crate::serialize::message::take_trenameat;
use crate::serialize::message::take_tsetattr;
use crate::serialize::message::take_tstatfs;
use crate::serialize::message::take_tsymlink;
use crate::serialize::message::take_tunlinkat;
use crate::serialize::message::take_tversion;
use crate::serialize::message::take_twalk;
use crate::serialize::message::take_twrite;
use crate::serialize::message::take_txattrcreate;
use crate::serialize::message::take_txattrwalk;
use crate::serialize::message::take_frame;
use crate::serialize::message::wire_body;
use crate::serialize::message::wire_frame;
use crate::serialize::Decodable;
use crate::serialize::Encodable;
use vstd::prelude::*;

verus! {

/// The body `f`, read with `rest` left behind it.
pub open spec fn read_back(f: FcallView, rest: Seq<u8>) -> Result<(FcallView, Seq<u8>), Error> {
    Ok((f, rest))
}

/// The body of a `Rlerror` is read back from its wire form, whatever follows it.
proof fn lemma_rlerror_round_trip(ecode: u32, rest: Seq<u8>)
    ensures
        ({
            let f = FcallView::Rlerror { ecode };
            take_body(MsgType::Rlerror, wire_body(f) + rest) == read_back(f, rest)
        }),
{
    let rest1 = rest;
    lemma_u32_round_trip(ecode, rest1);
    let f = FcallView::Rlerror { ecode };
    assert(take_rlerror(wire_body(f) + rest) == read_back(f, rest));
}

/// The body of a `Tstatfs` is read back from its wire form, whatever follows it.
proof fn lemma_tstatfs_round_trip(fid: u32, rest: Seq<u8>)
    ensures
        ({
            let f = FcallView::Tstatfs { fid };
            take_body(MsgType::Tstatfs, wire_body(f) + rest) == read_back(f, rest)
        }),
{
    let rest1 = rest;
    lemma_u32_round_trip(fid, rest1);
    let f = FcallView::Tstatfs { fid };
    assert(take_tstatfs(wire_body(f) + rest) == read_back(f, rest));
}

/// The body of a `Rstatfs` is read back from its wire form, whatever follows it.
proof fn lemma_rstatfs_round_trip(statfs: Statfs, rest: Seq<u8>)
    ensures
        ({
            let f = FcallView::Rstatfs { statfs };
            take_body(MsgType::Rstatfs, wire_body(f) + rest) == read_back(f, rest)
        }),
{
    let rest1 = rest;
    lemma_statfs_round_trip(statfs, rest1);
    let f = FcallView::Rstatfs { statfs };
    assert(take_rstatfs(wire_body(f) + rest) == read_back(f, rest));
}

/// The body of a `Tlopen` is read back from its wire form, whatever follows it.
proof fn lemma_tlopen_round_trip(fid: u32, flags: u32, rest: Seq<u8>)
    ensures
        ({
            let f = FcallView::Tlopen { fid, flags };
            take_body(MsgType::Tlopen, wire_body(f) + rest) == read_back(f, rest)
        }),
{
    let rest2 = rest;
    let rest1 = u32::wire(flags) + rest2;
    let front1 = u32::wire(fid);
    lemma_concat_assoc(front1, u32::wire(flags), rest2);
    lemma_u32_round_trip(fid, rest1);
    lemma_u32_round_trip(flags, rest2);
    let f = FcallView::Tlopen { fid, flags };
    assert(take_tlopen(wire_body(f) + rest) == read_back(f, rest));
}

/// The body of a `Rlopen` is read back from its wire form, whatever follows it.
proof fn lemma_rlopen_round_trip(qid: Qid, iounit: u32, rest: Seq<u8>)
    ensures
        ({
            let f = FcallView::Rlopen { qid, iounit };
            take_body(MsgType::Rlopen, wire_body(f) + rest) == read_back(f, rest)
        }),
{
    let rest2 = rest;
    let rest1 = u32::wire(iounit) + rest2;
    let front1 = Qid::wire(qid);
    lemma_concat_assoc(front1, u32::wire(iounit), rest2);
    lemma_qid_round_trip(qid, rest1);
    lemma_u32_round_trip(iounit, rest2);
    let f = FcallView::Rlopen { qid, iounit };
    assert(take_rlopen(wire_body(f) + rest) == read_back(f, rest));
}

/// The body of a `Tlcreate` is read back from its wire form, whatever follows it.
proof fn lemma_tlcreate_round_trip(
    fid: u32,
    name: Seq<char>,
    flags: u32,
    mode: u32,
    gid: u32,
    rest: Seq<u8>,
)
    requires
        String::fits(name),
    ensures
        ({
            let f = FcallView::Tlcreate { fid, name, flags, mode, gid };
            take_body(MsgType::Tlcreate, wire_body(f) + rest) == read_back(f, rest)
        }),
{
    let rest5 = rest;
    let rest4 = u32::wire(gid) + rest5;
    let rest3 = u32::wire(mode) + rest4;
    let rest2 = u32::wire(flags) + rest3;
    let rest1 = String::wire(name) + rest2;
    let front1 = u32::wire(fid);
    let front2 = front1 + String::wire(name);
    let front3 = front2 + u32::wire(flags);
    let front4 = front3 + u32::wire(mode);
    lemma_concat_assoc(front4, u32::wire(gid), rest5);
    lemma_concat_assoc(front3, u32::wire(mode), rest4);
    lemma_concat_assoc(front2, u32::wire(flags), rest3);
    lemma_concat_assoc(front1, String::wire(name), rest2);
    lemma_u32_round_trip(fid, rest1);
    lemma_string_round_trip(name, rest2);
    lemma_u32_round_trip(flags, rest3);
    lemma_u32_round_trip(mode, rest4);
    lemma_u32_round_trip(gid, rest5);
    let f = FcallView::Tlcreate { fid, name, flags, mode, gid };
    assert(take_tlcreate(wire_body(f) + rest) == read_back(f, rest));
}

/// The body of a `Rlcreate` is read back from its wire form, whatever follows it.
proof fn lemma_rlcreate_round_trip(qid: Qid, iounit: u32, rest: Seq<u8>)
    ensures
        ({
            let f = FcallView::Rlcreate { qid, iounit };
            take_body(MsgType::Rlcreate, wire_body(f) + rest) == read_back(f, rest)
        }),
{
    let rest2 = rest;
    let rest1 = u32::wire(iounit) + rest2;
    let front1 = Qid::wire(qid);
    lemma_concat_assoc(front1, u32::wire(iounit), rest2);
    lemma_qid_round_trip(qid, rest1);
    lemma_u32_round_trip(iounit, rest2);
    let f = FcallView::Rlcreate { qid, iounit };
    assert(take_rlcreate(wire_body(f) + rest) == read_back(f, rest));
}

/// The body of a `Tsymlink` is read back from its wire form, whatever follows it.
proof fn lemma_tsymlink_round_trip(
    fid: u32,
    name: Seq<char>,
    symtgt: Seq<char>,
    gid: u32,
    rest: Seq<u8>,
)
    requires
        String::fits(name),
        String::fits(symtgt),
    ensures
        ({
            let f = FcallView::Tsymlink { fid, name, symtgt, gid };
            take_body(MsgType::Tsymlink, wire_body(f) + rest) == read_back(f, rest)
        }),
{
    let rest4 = rest;
    let rest3 = u32::wire(gid) + rest4;
    let rest2 = String::wire(symtgt) + rest3;
    let rest1 = String::wire(name) + rest2;
    let front1 = u32::wire(fid);
    let front2 = front1 + String::wire(name);
    let front3 = front2 + String::wire(symtgt);
    lemma_concat_assoc(front3, u32::wire(gid), rest4);
    lemma_concat_assoc(front2, String::wire(symtgt), rest3);
    lemma_concat_assoc(front1, String::wire(name), rest2);
    lemma_u32_round_trip(fid, rest1);
    lemma_string_round_trip(name, rest2);
    lemma_string_round_trip(symtgt, rest3);
    lemma_u32_round_trip(gid, rest4);
    let f = FcallView::Tsymlink { fid, name, symtgt, gid };
    assert(take_tsymlink(wire_body(f) + rest) == read_back(f, rest));
}

/// The body of a `Rsymlink` is read back from its wire form, whatever follows it.
proof fn lemma_rsymlink_round_trip(qid: Qid, rest: Seq<u8>)
    ensures
        ({
            let f = FcallView::Rsymlink { qid };
            take_body(MsgType::Rsymlink, wire_body(f) + rest) == read_back(f, rest)
        }),
{
    let rest1 = rest;
    lemma_qid_round_trip(qid, rest1);
    let f = FcallView::Rsymlink { qid };
    assert(take_rsymlink(wire_body(f) + rest) == read_back(f, rest));
}

/// The body of a `Tmknod` is read back from its wire form, whatever follows it.
proof fn lemma_tmknod_round_trip(
    dfid: u32,
    name: Seq<char>,
    mode: u32,
    major: u32,
    minor: u32,
    gid: u32,
    rest: Seq<u8>,
)
    requires
        String::fits(name),
    ensures
        ({
            let f = FcallView::Tmknod { dfid, name, mode, major, minor, gid };
            take_body(MsgType::Tmknod, wire_body(f) + rest) == read_back(f, rest)
        }),
{
    let rest6 = rest;
    let rest5 = u32::wire(gid) + rest6;
    let rest4 = u32::wire(minor) + rest5;
    let rest3 = u32::wire(major) + rest4;
    let rest2 = u32::wire(mode) + rest3;
    let rest1 = String::wire(name) + rest2;
    let front1 = u32::wire(dfid);
    let front2 = front1 + String::wire(name);
    let front3 = front2 + u32::wire(mode);
    let front4 = front3 + u32::wire(major);
    let front5 = front4 + u32::wire(minor);
    lemma_concat_assoc(front5, u32::wire(gid), rest6);
    lemma_concat_assoc(front4, u32::wire(minor), rest5);
    lemma_concat_assoc(front3, u32::wire(major), rest4);
    lemma_concat_assoc(front2, u32::wire(mode), rest3);
    lemma_concat_assoc(front1, String::wire(name), rest2);
    lemma_u32_round_trip(dfid, rest1);
    lemma_string_round_trip(name, rest2);
    lemma_u32_round_trip(mode, rest3);
    lemma_u32_round_trip(major, rest4);
    lemma_u32_round_trip(minor, rest5);
    lemma_u32_round_trip(gid, rest6);
    let f = FcallView::Tmknod { dfid, name, mode, major, minor, gid };
    assert(take_tmknod(wire_body(f) + rest) == read_back(f, rest));
}

/// The body of a `Rmknod` is read back from its wire form, whatever follows it.
proof fn lemma_rmknod_round_trip(qid: Qid, rest: Seq<u8>)
    ensures
        ({
            let f = FcallView::Rmknod { qid };
            take_body(MsgType::Rmknod, wire_body(f) + rest) == read_back(f, rest)
        }),
{
    let rest1 = rest;
    lemma_qid_round_trip(qid, rest1);
    let f = FcallView::Rmknod { qid };
    assert(take_rmknod(wire_body(f) + rest) == read_back(f, rest));
}

/// The body of a `Trename` is read back from its wire form, whatever follows it.
proof fn lemma_trename_round_trip(fid: u32, dfid: u32, name: Seq<char>, rest: Seq<u8>)
    requires
        String::fits(name),
    ensures
        ({
            let f = FcallView::Trename { fid, dfid, name };
            take_body(MsgType::Trename, wire_body(f) + rest) == read_back(f, rest)
        }),
{
    let rest3 = rest;
    let rest2 = String::wire(name) + rest3;
    let rest1 = u32::wire(dfid) + rest2;
    let front1 = u32::wire(fid);
    let front2 = front1 + u32::wire(dfid);
    lemma_concat_assoc(front2, String::wire(name), rest3);
    lemma_concat_assoc(front1, u32::wire(dfid), rest2);
    lemma_u32_round_trip(fid, rest1);
    lemma_u32_round_trip(dfid, rest2);
    lemma_string_round_trip(name, rest3);
    let f = FcallView::Trename { fid, dfid, name };
    assert(take_trename(wire_body(f) + rest) == read_back(f, rest));
}

/// The body of a `Treadlink` is read back from its wire form, whatever follows it.
proof fn lemma_treadlink_round_trip(fid: u32, rest: Seq<u8>)
    ensures
        ({
            let f = FcallView::Treadlink { fid };
            take_body(MsgType::Treadlink, wire_body(f) + rest) == read_back(f, rest)
        }),
{
    let rest1 = rest;
    lemma_u32_round_trip(fid, rest1);
    let f = FcallView::Treadlink { fid };
    assert(take_treadlink(wire_body(f) + rest) == read_back(f, rest));
}

/// The body of a `Rreadlink` is read back from its wire form, whatever follows it.
proof fn lemma_rreadlink_round_trip(target: Seq<char>, rest: Seq<u8>)
    requires
        String::fits(target),
    ensures
        ({
            let f = FcallView::Rreadlink { target };
            take_body(MsgType::Rreadlink, wire_body(f) + rest) == read_back(f, rest)
        }),
{
    let rest1 = rest;
    lemma_string_round_trip(target, rest1);
    let f = FcallView::Rreadlink { target };
    assert(take_rreadlink(wire_body(f) + rest) == read_back(f, rest));
}

/// The body of a `Tgetattr` is read back from its wire form, whatever follows it.
proof fn lemma_tgetattr_round_trip(fid: u32, req_mask: u64, rest: Seq<u8>)
    ensures
        ({
            let f = FcallView::Tgetattr { fid, req_mask };
            take_body(MsgType::Tgetattr, wire_body(f) + rest) == read_back(f, rest)
        }),
{
    let rest2 = rest;
    let rest1 = u64::wire(req_mask) + rest2;
    let front1 = u32::wire(fid);
    lemma_concat_assoc(front1, u64::wire(req_mask), rest2);
    lemma_u32_round_trip(fid, rest1);
    lemma_u64_round_trip(req_mask, rest2);
    let f = FcallView::Tgetattr { fid, req_mask };
    assert(take_tgetattr(wire_body(f) + rest) == read_back(f, rest));
}

/// The body of a `Rgetattr` is read back from its wire form, whatever follows it.
proof fn lemma_rgetattr_round_trip(valid: u64, qid: Qid, stat: Stat, rest: Seq<u8>)
    ensures
        ({
            let f = FcallView::Rgetattr { valid, qid, stat };
            take_body(MsgType::Rgetattr, wire_body(f) + rest) == read_back(f, rest)
        }),
{
    let rest7 = rest;
    let rest6 = u64::wire(0) + rest7;
    let rest5 = u64::wire(0) + rest6;
    let rest4 = u64::wire(0) + rest5;
    let rest3 = u64::wire(0) + rest4;
    let rest2 = Stat::wire(stat) + rest3;
    let rest1 = Qid::wire(qid) + rest2;
    let front1 = u64::wire(valid);
    let front2 = front1 + Qid::wire(qid);
    let front3 = front2 + Stat::wire(stat);
    let front4 = front3 + u64::wire(0);
    let front5 = front4 + u64::wire(0);
    let front6 = front5 + u64::wire(0);
    lemma_concat_assoc(front6, u64::wire(0), rest7);
    lemma_concat_assoc(front5, u64::wire(0), rest6);
    lemma_concat_assoc(front4, u64::wire(0), rest5);
    lemma_concat_assoc(front3, u64::wire(0), rest4);
    lemma_concat_assoc(front2, Stat::wire(stat), rest3);
    lemma_concat_assoc(front1, Qid::wire(qid), rest2);
    lemma_u64_round_trip(valid, rest1);
    lemma_qid_round_trip(qid, rest2);
    lemma_stat_round_trip(stat, rest3);
    lemma_u64_round_trip(0, rest4);
    lemma_u64_round_trip(0, rest5);
    lemma_u64_round_trip(0, rest6);
    lemma_u64_round_trip(0, rest7);
    let f = FcallView::Rgetattr { valid, qid, stat };
    assert(take_rgetattr(wire_body(f) + rest) == read_back(f, rest));
}

/// The body of a `Tsetattr` is read back from its wire form, whatever follows it.
proof fn lemma_tsetattr_round_trip(fid: u32, valid: u32, stat: SetAttr, rest: Seq<u8>)
    ensures
        ({
            let f = FcallView::Tsetattr { fid, valid, stat };
            take_body(MsgType::Tsetattr, wire_body(f) + rest) == read_back(f, rest)
        }),
{
    let rest3 = rest;
    let rest2 = SetAttr::wire(stat) + rest3;
    let rest1 = u32::wire(valid) + rest2;
    let front1 = u32::wire(fid);
    let front2 = front1 + u32::wire(valid);
    lemma_concat_assoc(front2, SetAttr::wire(stat), rest3);
    lemma_concat_assoc(front1, u32::wire(valid), rest2);
    lemma_u32_round_trip(fid, rest1);
    lemma_u32_round_trip(valid, rest2);
    lemma_setattr_round_trip(stat, rest3);
    let f = FcallView::Tsetattr { fid, valid, stat };
    assert(take_tsetattr(wire_body(f) + rest) == read_back(f, rest));
}

/// The body of a `Txattrwalk` is read back from its wire form, whatever follows it.
proof fn lemma_txattrwalk_round_trip(fid: u32, newfid: u32, name: Seq<char>, rest: Seq<u8>)
    requires
        String::fits(name),
    ensures
        ({
            let f = FcallView::Txattrwalk { fid, newfid, name };
            take_body(MsgType::Txattrwalk, wire_body(f) + rest) == read_back(f, rest)
        }),
{
    let rest3 = rest;
    let rest2 = String::wire(name) + rest3;
    let rest1 = u32::wire(newfid) + rest2;
    let front1 = u32::wire(fid);
    let front2 = front1 + u32::wire(newfid);
    lemma_concat_assoc(front2, String::wire(name), rest3);
    lemma_concat_assoc(front1, u32::wire(newfid), rest2);
    lemma_u32_round_trip(fid, rest1);
    lemma_u32_round_trip(newfid, rest2);
    lemma_string_round_trip(name, rest3);
    let f = FcallView::Txattrwalk { fid, newfid, name };
    assert(take_txattrwalk(wire_body(f) + rest) == read_back(f, rest));
}

/// The body of a `Rxattrwalk` is read back from its wire form, whatever follows it.
proof fn lemma_rxattrwalk_round_trip(size: u64, rest: Seq<u8>)
    ensures
        ({
            let f = FcallView::Rxattrwalk { size };
            take_body(MsgType::Rxattrwalk, wire_body(f) + rest) == read_back(f, rest)
        }),
{
    let rest1 = rest;
    lemma_u64_round_trip(size, rest1);
    let f = FcallView::Rxattrwalk { size };
    assert(take_rxattrwalk(wire_body(f) + rest) == read_back(f, rest));
}

/// The body of a `Txattrcreate` is read back from its wire form, whatever follows it.
proof fn lemma_txattrcreate_round_trip(
    fid: u32,
    name: Seq<char>,
    attr_size: u64,
    flags: u32,
    rest: Seq<u8>,
)
    requires
        String::fits(name),
    ensures
        ({
            let f = FcallView::Txattrcreate { fid, name, attr_size, flags };
            take_body(MsgType::Txattrcreate, wire_body(f) + rest) == read_back(f, rest)
        }),
{
    let rest4 = rest;
    let rest3 = u32::wire(flags) + rest4;
    let rest2 = u64::wire(attr_size) + rest3;
    let rest1 = String::wire(name) + rest2;
    let front1 = u32::wire(fid);
    let front2 = front1 + String::wire(name);
    let front3 = front2 + u64::wire(attr_size);
    lemma_concat_assoc(front3, u32::wire(flags), rest4);
    lemma_concat_assoc(front2, u64::wire(attr_size), rest3);
    lemma_concat_assoc(front1, String::wire(name), rest2);
    lemma_u32_round_trip(fid, rest1);
    lemma_string_round_trip(name, rest2);
    lemma_u64_round_trip(attr_size, rest3);
    lemma_u32_round_trip(flags, rest4);
    let f = FcallView::Txattrcreate { fid, name, attr_size, flags };
    assert(take_txattrcreate(wire_body(f) + rest) == read_back(f, rest));
}

/// The body of a `Treaddir` is read back from its wire form, whatever follows it.
proof fn lemma_treaddir_round_trip(fid: u32, offset: u64, count: u32, rest: Seq<u8>)
    ensures
        ({
            let f = FcallView::Treaddir { fid, offset, count };
            take_body(MsgType::Treaddir, wire_body(f) + rest) == read_back(f, rest)
        }),
{
    let rest3 = rest;
    let rest2 = u32::wire(count) + rest3;
    let rest1 = u64::wire(offset) + rest2;
    let front1 = u32::wire(fid);
    let front2 = front1 + u64::wire(offset);
    lemma_concat_assoc(front2, u32::wire(count), rest3);
    lemma_concat_assoc(front1, u64::wire(offset), rest2);
    lemma_u32_round_trip(fid, rest1);
    lemma_u64_round_trip(offset, rest2);
    lemma_u32_round_trip(count, rest3);
    let f = FcallView::Treaddir { fid, offset, count };
    assert(take_treaddir(wire_body(f) + rest) == read_back(f, rest));
}

/// The body of a `Rreaddir` is read back from its wire form, whatever follows it.
proof fn lemma_rreaddir_round_trip(data: Seq<DirEntryView>, rest: Seq<u8>)
    requires
        DirEntryData::fits(data),
    ensures
        ({
            let f = FcallView::Rreaddir { data };
            take_body(MsgType::Rreaddir, wire_body(f) + rest) == read_back(f, rest)
        }),
{
    let rest1 = rest;
    lemma_dir_entry_data_round_trip(data, rest1);
    let f = FcallView::Rreaddir { data };
    assert(take_rreaddir(wire_body(f) + rest) == read_back(f, rest));
}

/// The body of a `Tfsync` is read back from its wire form, whatever follows it.
proof fn lemma_tfsync_round_trip(fid: u32, rest: Seq<u8>)
    ensures
        ({
            let f = FcallView::Tfsync { fid };
            take_body(MsgType::Tfsync, wire_body(f) + rest) == read_back(f, rest)
        }),
{
    let rest1 = rest;
    lemma_u32_round_trip(fid, rest1);
    let f = FcallView::Tfsync { fid };
    assert(take_tfsync(wire_body(f) + rest) == read_back(f, rest));
}

/// The body of a `Tlock` is read back from its wire form, whatever follows it.
proof fn lemma_tlock_round_trip(fid: u32, flock: FlockView, rest: Seq<u8>)
    requires
        Flock::fits(flock),
    ensures
        ({
            let f = FcallView::Tlock { fid, flock };
            take_body(MsgType::Tlock, wire_body(f) + rest) == read_back(f, rest)
        }),
{
    let rest2 = rest;
    let rest1 = Flock::wire(flock) + rest2;
    let front1 = u32::wire(fid);
    lemma_concat_assoc(front1, Flock::wire(flock), rest2);
    lemma_u32_round_trip(fid, rest1);
    lemma_flock_round_trip(flock, rest2);
    let f = FcallView::Tlock { fid, flock };
    assert(take_tlock(wire_body(f) + rest) == read_back(f, rest));
}

/// The body of a `Rlock` is read back from its wire form, whatever follows it.
proof fn lemma_rlock_round_trip(status: u8, rest: Seq<u8>)
    ensures
        ({
            let f = FcallView::Rlock { status };
            take_body(MsgType::Rlock, wire_body(f) + rest) == read_back(f, rest)
        }),
{
    let rest1 = rest;
    lemma_u8_round_trip(status, rest1);
    let f = FcallView::Rlock { status };
    assert(take_rlock(wire_body(f) + rest) == read_back(f, rest));
}

/// The body of a `Tgetlock` is read back from its wire form, whatever follows it.
proof fn lemma_tgetlock_round_trip(fid: u32, flock: GetlockView, rest: Seq<u8>)
    requires
        Getlock::fits(flock),
    ensures
        ({
            let f = FcallView::Tgetlock { fid, flock };
            take_body(MsgType::Tgetlock, wire_body(f) + rest) == read_back(f, rest)
        }),
{
    let rest2 = rest;
    let rest1 = Getlock::wire(flock) + rest2;
    let front1 = u32::wire(fid);
    lemma_concat_assoc(front1, Getlock::wire(flock), rest2);
    lemma_u32_round_trip(fid, rest1);
    lemma_getlock_round_trip(flock, rest2);
    let f = FcallView::Tgetlock { fid, flock };
    assert(take_tgetlock(wire_body(f) + rest) == read_back(f, rest));
}

/// The body of a `Rgetlock` is read back from its wire form, whatever follows it.
proof fn lemma_rgetlock_round_trip(flock: GetlockView, rest: Seq<u8>)
    requires
        Getlock::fits(flock),
    ensures
        ({
            let f = FcallView::Rgetlock { flock };
            take_body(MsgType::Rgetlock, wire_body(f) + rest) == read_back(f, rest)
        }),
{
    let rest1 = rest;
    lemma_getlock_round_trip(flock, rest1);
    let f = FcallView::Rgetlock { flock };
    assert(take_rgetlock(wire_body(f) + rest) == read_back(f, rest));
}

/// The body of a `Tlink` is read back from its wire form, whatever follows it.
proof fn lemma_tlink_round_trip(dfid: u32, fid: u32, name: Seq<char>, rest: Seq<u8>)
    requires
        String::fits(name),
    ensures
        ({
            let f = FcallView::Tlink { dfid, fid, name };
            take_body(MsgType::Tlink, wire_body(f) + rest) == read_back(f, rest)
        }),
{
    let rest3 = rest;
    let rest2 = String::wire(name) + rest3;
    let rest1 = u32::wire(fid) + rest2;
    let front1 = u32::wire(dfid);
    let front2 = front1 + u32::wire(fid);
    lemma_concat_assoc(front2, String::wire(name), rest3);
    lemma_concat_assoc(front1, u32::wire(fid), rest2);
    lemma_u32_round_trip(dfid, rest1);
    lemma_u32_round_trip(fid, rest2);
    lemma_string_round_trip(name, rest3);
    let f = FcallView::Tlink { dfid, fid, name };
    assert(take_tlink(wire_body(f) + rest) == read_back(f, rest));
}

/// The body of a `Tmkdir` is read back from its wire form, whatever follows it.
proof fn lemma_tmkdir_round_trip(dfid: u32, name: Seq<char>, mode: u32, gid: u32, rest: Seq<u8>)
    requires
        String::fits(name),
    ensures
        ({
            let f = FcallView::Tmkdir { dfid, name, mode, gid };
            take_body(MsgType::Tmkdir, wire_body(f) + rest) == read_back(f, rest)
        }),
{
    let rest4 = rest;
    let rest3 = u32::wire(gid) + rest4;
    let rest2 = u32::wire(mode) + rest3;
    let rest1 = String::wire(name) + rest2;
    let front1 = u32::wire(dfid);
    let front2 = front1 + String::wire(name);
    let front3 = front2 + u32::wire(mode);
    lemma_concat_assoc(front3, u32::wire(gid), rest4);
    lemma_concat_assoc(front2, u32::wire(mode), rest3);
    lemma_concat_assoc(front1, String::wire(name), rest2);
    lemma_u32_round_trip(dfid, rest1);
    lemma_string_round_trip(name, rest2);
    lemma_u32_round_trip(mode, rest3);
    lemma_u32_round_trip(gid, rest4);
    let f = FcallView::Tmkdir { dfid, name, mode, gid };
    assert(take_tmkdir(wire_body(f) + rest) == read_back(f, rest));
}

/// The body of a `Rmkdir` is read back from its wire form, whatever follows it.
proof fn lemma_rmkdir_round_trip(qid: Qid, rest: Seq<u8>)
    ensures
        ({
            let f = FcallView::Rmkdir { qid };
            take_body(MsgType::Rmkdir, wire_body(f) + rest) == read_back(f, rest)
        }),
{
    let rest1 = rest;
    lemma_qid_round_trip(qid, rest1);
    let f = FcallView::Rmkdir { qid };
    assert(take_rmkdir(wire_body(f) + rest) == read_back(f, rest));
}

/// The body of a `Trenameat` is read back from its wire form, whatever follows it.
proof fn lemma_trenameat_round_trip(
    olddirfid: u32,
    oldname: Seq<char>,
    newdirfid: u32,
    newname: Seq<char>,
    rest: Seq<u8>,
)
    requires
        String::fits(oldname),
        String::fits(newname),
    ensures
        ({
            let f = FcallView::Trenameat { olddirfid, oldname, newdirfid, newname };
            take_body(MsgType::Trenameat, wire_body(f) + rest) == read_back(f, rest)
        }),
{
    let rest4 = rest;
    let rest3 = String::wire(newname) + rest4;
    let rest2 = u32::wire(newdirfid) + rest3;
    let rest1 = String::wire(oldname) + rest2;
    let front1 = u32::wire(olddirfid);
    let front2 = front1 + String::wire(oldname);
    let front3 = front2 + u32::wire(newdirfid);
    lemma_concat_assoc(front3, String::wire(newname), rest4);
    lemma_concat_assoc(front2, u32::wire(newdirfid), rest3);
    lemma_concat_assoc(front1, String::wire(oldname), rest2);
    lemma_u32_round_trip(olddirfid, rest1);
    lemma_string_round_trip(oldname, rest2);
    lemma_u32_round_trip(newdirfid, rest3);
    lemma_string_round_trip(newname, rest4);
    let f = FcallView::Trenameat { olddirfid, oldname, newdirfid, newname };
    assert(take_trenameat(wire_body(f) + rest) == read_back(f, rest));
}

/// The body of a `Tunlinkat` is read back from its wire form, whatever follows it.
proof fn lemma_tunlinkat_round_trip(dirfd: u32, name: Seq<char>, flags: u32, rest: Seq<u8>)
    requires
        String::fits(name),
    ensures
        ({
            let f = FcallView::Tunlinkat { dirfd, name, flags };
            take_body(MsgType::Tunlinkat, wire_body(f) + rest) == read_back(f, rest)
        }),
{
    let rest3 = rest;
    let rest2 = u32::wire(flags) + rest3;
    let rest1 = String::wire(name) + rest2;
    let front1 = u32::wire(dirfd);
    let front2 = front1 + String::wire(name);
    lemma_concat_assoc(front2, u32::wire(flags), rest3);
    lemma_concat_assoc(front1, String::wire(name), rest2);
    lemma_u32_round_trip(dirfd, rest1);
    lemma_string_round_trip(name, rest2);
    lemma_u32_round_trip(flags, rest3);
    let f = FcallView::Tunlinkat { dirfd, name, flags };
    assert(take_tunlinkat(wire_body(f) + rest) == read_back(f, rest));
}

/// The body of a `Tauth` is read back from its wire form, whatever follows it.
proof fn lemma_tauth_round_trip(
    afid: u32,
    uname: Seq<char>,
    aname: Seq<char>,
    n_uname: u32,
    rest: Seq<u8>,
)
    requires
        String::fits(uname),
        String::fits(aname),
    ensures
        ({
            let f = FcallView::Tauth { afid, uname, aname, n_uname };
            take_body(MsgType::Tauth, wire_body(f) + rest) == read_back(f, rest)
        }),
{
    let rest4 = rest;
    let rest3 = u32::wire(n_uname) + rest4;
    let rest2 = String::wire(aname) + rest3;
    let rest1 = String::wire(uname) + rest2;
    let front1 = u32::wire(afid);
    let front2 = front1 + String::wire(uname);
    let front3 = front2 + String::wire(aname);
    lemma_concat_assoc(front3, u32::wire(n_uname), rest4);
    lemma_concat_assoc(front2, String::wire(aname), rest3);
    lemma_concat_assoc(front1, String::wire(uname), rest2);
    lemma_u32_round_trip(afid, rest1);
    lemma_string_round_trip(uname, rest2);
    lemma_string_round_trip(aname, rest3);
    lemma_u32_round_trip(n_uname, rest4);
    let f = FcallView::Tauth { afid, uname, aname, n_uname };
    assert(take_tauth(wire_body(f) + rest) == read_back(f, rest));
}

/// The body of a `Rauth` is read back from its wire form, whatever follows it.
proof fn lemma_rauth_round_trip(aqid: Qid, rest: Seq<u8>)
    ensures
        ({
            let f = FcallView::Rauth { aqid };
            take_body(MsgType::Rauth, wire_body(f) + rest) == read_back(f, rest)
        }),
{
    let rest1 = rest;
    lemma_qid_round_trip(aqid, rest1);
    let f = FcallView::Rauth { aqid };
    assert(take_rauth(wire_body(f) + rest) == read_back(f, rest));
}

/// The body of a `Tattach` is read back from its wire form, whatever follows it.
proof fn lemma_tattach_round_trip(
    fid: u32,
    afid: u32,
    uname: Seq<char>,
    aname: Seq<char>,
    n_uname: u32,
    rest: Seq<u8>,
)
    requires
        String::fits(uname),
        String::fits(aname),
    ensures
        ({
            let f = FcallView::Tattach { fid, afid, uname, aname, n_uname };
            take_body(MsgType::Tattach, wire_body(f) + rest) == read_back(f, rest)
        }),
{
    let rest5 = rest;
    let rest4 = u32::wire(n_uname) + rest5;
    let rest3 = String::wire(aname) + rest4;
    let rest2 = String::wire(uname) + rest3;
    let rest1 = u32::wire(afid) + rest2;
    let front1 = u32::wire(fid);
    let front2 = front1 + u32::wire(afid);
    let front3 = front2 + String::wire(uname);
    let front4 = front3 + String::wire(aname);
    lemma_concat_assoc(front4, u32::wire(n_uname), rest5);
    lemma_concat_assoc(front3, String::wire(aname), rest4);
    lemma_concat_assoc(front2, String::wire(uname), rest3);
    lemma_concat_assoc(front1, u32::wire(afid), rest2);
    lemma_u32_round_trip(fid, rest1);
    lemma_u32_round_trip(afid, rest2);
    lemma_string_round_trip(uname, rest3);
    lemma_string_round_trip(aname, rest4);
    lemma_u32_round_trip(n_uname, rest5);
    let f = FcallView::Tattach { fid, afid, uname, aname, n_uname };
    assert(take_tattach(wire_body(f) + rest) == read_back(f, rest));
}

/// The body of a `Rattach` is read back from its wire form, whatever follows it.
proof fn lemma_rattach_round_trip(qid: Qid, rest: Seq<u8>)
    ensures
        ({
            let f = FcallView::Rattach { qid };
            take_body(MsgType::Rattach, wire_body(f) + rest) == read_back(f, rest)
        }),
{
    let rest1 = rest;
    lemma_qid_round_trip(qid, rest1);
    let f = FcallView::Rattach { qid };
    assert(take_rattach(wire_body(f) + rest) == read_back(f, rest));
}

/// The body of a `Tversion` is read back from its wire form, whatever follows it.
proof fn lemma_tversion_round_trip(msize: u32, version: Seq<char>, rest: Seq<u8>)
    requires
        String::fits(version),
    ensures
        ({
            let f = FcallView::Tversion { msize, version };
            take_body(MsgType::Tversion, wire_body(f) + rest) == read_back(f, rest)
        }),
{
    let rest2 = rest;
    let rest1 = String::wire(version) + rest2;
    let front1 = u32::wire(msize);
    lemma_concat_assoc(front1, String::wire(version), rest2);
    lemma_u32_round_trip(msize, rest1);
    lemma_string_round_trip(version, rest2);
    let f = FcallView::Tversion { msize, version };
    assert(take_tversion(wire_body(f) + rest) == read_back(f, rest));
}

/// The body of a `Rversion` is read back from its wire form, whatever follows it.
proof fn lemma_rversion_round_trip(msize: u32, version: Seq<char>, rest: Seq<u8>)
    requires
        String::fits(version),
    ensures
        ({
            let f = FcallView::Rversion { msize, version };
            take_body(MsgType::Rversion, wire_body(f) + rest) == read_back(f, rest)
        }),
{
    let rest2 = rest;
    let rest1 = String::wire(version) + rest2;
    let front1 = u32::wire(msize);
    lemma_concat_assoc(front1, String::wire(version), rest2);
    lemma_u32_round_trip(msize, rest1);
    lemma_string_round_trip(version, rest2);
    let f = FcallView::Rversion { msize, version };
    assert(take_rversion(wire_body(f) + rest) == read_back(f, rest));
}

/// The body of a `Tflush` is read back from its wire form, whatever follows it.
proof fn lemma_tflush_round_trip(oldtag: u16, rest: Seq<u8>)
    ensures
        ({
            let f = FcallView::Tflush { oldtag };
            take_body(MsgType::Tflush, wire_body(f) + rest) == read_back(f, rest)
        }),
{
    let rest1 = rest;
    lemma_u16_round_trip(oldtag, rest1);
    let f = FcallView::Tflush { oldtag };
    assert(take_tflush(wire_body(f) + rest) == read_back(f, rest));
}

/// The body of a `Twalk` is read back from its wire form, whatever follows it.
proof fn lemma_twalk_round_trip(fid: u32, newfid: u32, wnames: Seq<Seq<char>>, rest: Seq<u8>)
    requires
        Vec::<String>::fits(wnames),
    ensures
        ({
            let f = FcallView::Twalk { fid, newfid, wnames };
            take_body(MsgType::Twalk, wire_body(f) + rest) == read_back(f, rest)
        }),
{
    lemma_strings_round_trip();
    let rest3 = rest;
    let rest2 = Vec::<String>::wire(wnames) + rest3;
    let rest1 = u32::wire(newfid) + rest2;
    let front1 = u32::wire(fid);
    let front2 = front1 + u32::wire(newfid);
    lemma_concat_assoc(front2, Vec::<String>::wire(wnames), rest3);
    lemma_concat_assoc(front1, u32::wire(newfid), rest2);
    lemma_u32_round_trip(fid, rest1);
    lemma_u32_round_trip(newfid, rest2);
    lemma_vec_round_trip::<String>(wnames, rest3);
    let f = FcallView::Twalk { fid, newfid, wnames };
    assert(take_twalk(wire_body(f) + rest) == read_back(f, rest));
}

/// The body of a `Rwalk` is read back from its wire form, whatever follows it.
proof fn lemma_rwalk_round_trip(wqids: Seq<Qid>, rest: Seq<u8>)
    requires
        Vec::<Qid>::fits(wqids),
    ensures
        ({
            let f = FcallView::Rwalk { wqids };
            take_body(MsgType::Rwalk, wire_body(f) + rest) == read_back(f, rest)
        }),
{
    lemma_qids_round_trip();
    let rest1 = rest;
    lemma_vec_round_trip::<Qid>(wqids, rest1);
    let f = FcallView::Rwalk { wqids };
    assert(take_rwalk(wire_body(f) + rest) == read_back(f, rest));
}

/// The body of a `Tread` is read back from its wire form, whatever follows it.
proof fn lemma_tread_round_trip(fid: u32, offset: u64, count: u32, rest: Seq<u8>)
    ensures
        ({
            let f = FcallView::Tread { fid, offset, count };
            take_body(MsgType::Tread, wire_body(f) + rest) == read_back(f, rest)
        }),
{
    let rest3 = rest;
    let rest2 = u32::wire(count) + rest3;
    let rest1 = u64::wire(offset) + rest2;
    let front1 = u32::wire(fid);
    let front2 = front1 + u64::wire(offset);
    lemma_concat_assoc(front2, u32::wire(count), rest3);
    lemma_concat_assoc(front1, u64::wire(offset), rest2);
    lemma_u32_round_trip(fid, rest1);
    lemma_u64_round_trip(offset, rest2);
    lemma_u32_round_trip(count, rest3);
    let f = FcallView::Tread { fid, offset, count };
    assert(take_tread(wire_body(f) + rest) == read_back(f, rest));
}

/// The body of a `Rread` is read back from its wire form, whatever follows it.
proof fn lemma_rread_round_trip(data: Seq<u8>, rest: Seq<u8>)
    requires
        Data::fits(data),
    ensures
        ({
            let f = FcallView::Rread { data };
            take_body(MsgType::Rread, wire_body(f) + rest) == read_back(f, rest)
        }),
{
    let rest1 = rest;
    lemma_data_round_trip(data, rest1);
    let f = FcallView::Rread { data };
    assert(take_rread(wire_body(f) + rest) == read_back(f, rest));
}

/// The body of a `Twrite` is read back from its wire form, whatever follows it.
proof fn lemma_twrite_round_trip(fid: u32, offset: u64, data: Seq<u8>, rest: Seq<u8>)
    requires
        Data::fits(data),
    ensures
        ({
            let f = FcallView::Twrite { fid, offset, data };
            take_body(MsgType::Twrite, wire_body(f) + rest) == read_back(f, rest)
        }),
{
    let rest3 = rest;
    let rest2 = Data::wire(data) + rest3;
    let rest1 = u64::wire(offset) + rest2;
    let front1 = u32::wire(fid);
    let front2 = front1 + u64::wire(offset);
    lemma_concat_assoc(front2, Data::wire(data), rest3);
    lemma_concat_assoc(front1, u64::wire(offset), rest2);
    lemma_u32_round_trip(fid, rest1);
    lemma_u64_round_trip(offset, rest2);
    lemma_data_round_trip(data, rest3);
    let f = FcallView::Twrite { fid, offset, data };
    assert(take_twrite(wire_body(f) + rest) == read_back(f, rest));
}

/// The body of a `Rwrite` is read back from its wire form, whatever follows it.
proof fn lemma_rwrite_round_trip(count: u32, rest: Seq<u8>)
    ensures
        ({
            let f = FcallView::Rwrite { count };
            take_body(MsgType::Rwrite, wire_body(f) + rest) == read_back(f, rest)
        }),
{
    let rest1 = rest;
    lemma_u32_round_trip(count, rest1);
    let f = FcallView::Rwrite { count };
    assert(take_rwrite(wire_body(f) + rest) == read_back(f, rest));
}

/// The body of a `Tclunk` is read back from its wire form, whatever follows it.
proof fn lemma_tclunk_round_trip(fid: u32, rest: Seq<u8>)
    ensures
        ({
            let f = FcallView::Tclunk { fid };
            take_body(MsgType::Tclunk, wire_body(f) + rest) == read_back(f, rest)
        }),
{
    let rest1 = rest;
    lemma_u32_round_trip(fid, rest1);
    let f = FcallView::Tclunk { fid };
    assert(take_tclunk(wire_body(f) + rest) == read_back(f, rest));
}

/// The body of a `Tremove` is read back from its wire form, whatever follows it.
proof fn lemma_tremove_round_trip(fid: u32, rest: Seq<u8>)
    ensures
        ({
            let f = FcallView::Tremove { fid };
            take_body(MsgType::Tremove, wire_body(f) + rest) == read_back(f, rest)
        }),
{
    let rest1 = rest;
    lemma_u32_round_trip(fid, rest1);
    let f = FcallView::Tremove { fid };
    assert(take_tremove(wire_body(f) + rest) == read_back(f, rest));
}

/// The body of a message that has a wire form is read back from it under
/// its own message type, whatever follows it.
pub proof fn lemma_body_round_trip(f: FcallView, rest: Seq<u8>)
    requires
        body_fits(f),
    ensures
        take_body(f.msg_type(), wire_body(f) + rest) == read_back(f, rest),
{
    match f {
        FcallView::Rlerror { ecode } => lemma_rlerror_round_trip(ecode, rest),
        FcallView::Tstatfs { fid } => lemma_tstatfs_round_trip(fid, rest),
        FcallView::Rstatfs { statfs } => lemma_rstatfs_round_trip(statfs, rest),
        FcallView::Tlopen { fid, flags } => lemma_tlopen_round_trip(fid, flags, rest),
        FcallView::Rlopen { qid, iounit } => lemma_rlopen_round_trip(qid, iounit, rest),
        FcallView::Tlcreate { fid, name, flags, mode, gid } => {
            lemma_tlcreate_round_trip(fid, name, flags, mode, gid, rest);
        },
        FcallView::Rlcreate { qid, iounit } => lemma_rlcreate_round_trip(qid, iounit, rest),
        FcallView::Tsymlink { fid, name, symtgt, gid } => {
            lemma_tsymlink_round_trip(fid, name, symtgt, gid, rest);
        },
        FcallView::Rsymlink { qid } => lemma_rsymlink_round_trip(qid, rest),
        FcallView::Tmknod { dfid, name, mode, major, minor, gid } => {
            lemma_tmknod_round_trip(dfid, name, mode, major, minor, gid, rest);
        },
        FcallView::Rmknod { qid } => lemma_rmknod_round_trip(qid, rest),
        FcallView::Trename { fid, dfid, name } => lemma_trename_round_trip(fid, dfid, name, rest),
        FcallView::Rrename => {
            assert(Seq::<u8>::empty() + rest =~= rest);
        },
        FcallView::Treadlink { fid } => lemma_treadlink_round_trip(fid, rest),
        FcallView::Rreadlink { target } => lemma_rreadlink_round_trip(target, rest),
        FcallView::Tgetattr { fid, req_mask } => lemma_tgetattr_round_trip(fid, req_mask, rest),
        FcallView::Rgetattr { valid, qid, stat } => {
            lemma_rgetattr_round_trip(valid, qid, stat, rest);
        },
        FcallView::Tsetattr { fid, valid, stat } => {
            lemma_tsetattr_round_trip(fid, valid, stat, rest);
        },
        FcallView::Rsetattr => {
            assert(Seq::<u8>::empty() + rest =~= rest);
        },
        FcallView::Txattrwalk { fid, newfid, name } => {
            lemma_txattrwalk_round_trip(fid, newfid, name, rest);
        },
        FcallView::Rxattrwalk { size } => lemma_rxattrwalk_round_trip(size, rest),
        FcallView::Txattrcreate { fid, name, attr_size, flags } => {
            lemma_txattrcreate_round_trip(fid, name, attr_size, flags, rest);
        },
        FcallView::Rxattrcreate => {
            assert(Seq::<u8>::empty() + rest =~= rest);
        },
        FcallView::Treaddir { fid, offset, count } => {
            lemma_treaddir_round_trip(fid, offset, count, rest);
        },
        FcallView::Rreaddir { data } => lemma_rreaddir_round_trip(data, rest),
        FcallView::Tfsync { fid } => lemma_tfsync_round_trip(fid, rest),
        FcallView::Rfsync => {
            assert(Seq::<u8>::empty() + rest =~= rest);
        },
        FcallView::Tlock { fid, flock } => lemma_tlock_round_trip(fid, flock, rest),
        FcallView::Rlock { status } => lemma_rlock_round_trip(status, rest),
        FcallView::Tgetlock { fid, flock } => lemma_tgetlock_round_trip(fid, flock, rest),
        FcallView::Rgetlock { flock } => lemma_rgetlock_round_trip(flock, rest),
        FcallView::Tlink { dfid, fid, name } => lemma_tlink_round_trip(dfid, fid, name, rest),
        FcallView::Rlink => {
            assert(Seq::<u8>::empty() + rest =~= rest);
        },
        FcallView::Tmkdir { dfid, name, mode, gid } => {
            lemma_tmkdir_round_trip(dfid, name, mode, gid, rest);
        },
        FcallView::Rmkdir { qid } => lemma_rmkdir_round_trip(qid, rest),
        FcallView::Trenameat { olddirfid, oldname, newdirfid, newname } => {
            lemma_trenameat_round_trip(olddirfid, oldname, newdirfid, newname, rest);
        },
        FcallView::Rrenameat => {
            assert(Seq::<u8>::empty() + rest =~= rest);
        },
        FcallView::Tunlinkat { dirfd, name, flags } => {
            lemma_tunlinkat_round_trip(dirfd, name, flags, rest);
        },
        FcallView::Runlinkat => {
            assert(Seq::<u8>::empty() + rest =~= rest);
        },
        FcallView::Tauth { afid, uname, aname, n_uname } => {
            lemma_tauth_round_trip(afid, uname, aname, n_uname, rest);
        },
        FcallView::Rauth { aqid } => lemma_rauth_round_trip(aqid, rest),
        FcallView::Tattach { fid, afid, uname, aname, n_uname } => {
            lemma_tattach_round_trip(fid, afid, uname, aname, n_uname, rest);
        },
        FcallView::Rattach { qid } => lemma_rattach_round_trip(qid, rest),
        FcallView::Tversion { msize, version } => lemma_tversion_round_trip(msize, version, rest),
        FcallView::Rversion { msize, version } => lemma_rversion_round_trip(msize, version, rest),
        FcallView::Tflush { oldtag } => lemma_tflush_round_trip(oldtag, rest),
        FcallView::Rflush => {
            assert(Seq::<u8>::empty() + rest =~= rest);
        },
        FcallView::Twalk { fid, newfid, wnames } => {
            lemma_twalk_round_trip(fid, newfid, wnames, rest);
        },
        FcallView::Rwalk { wqids } => lemma_rwalk_round_trip(wqids, rest),
        FcallView::Tread { fid, offset, count } => lemma_tread_round_trip(fid, offset, count, rest),
        FcallView::Rread { data } => lemma_rread_round_trip(data, rest),
        FcallView::Twrite { fid, offset, data } => lemma_twrite_round_trip(fid, offset, data, rest),
        FcallView::Rwrite { count } => lemma_rwrite_round_trip(count, rest),
        FcallView::Tclunk { fid } => lemma_tclunk_round_trip(fid, rest),
        FcallView::Rclunk => {
            assert(Seq::<u8>::empty() + rest =~= rest);
        },
        FcallView::Tremove { fid } => lemma_tremove_round_trip(fid, rest),
        FcallView::Rremove => {
            assert(Seq::<u8>::empty() + rest =~= rest);
        },
    }
}

/// A message whose type is that of its body is read back from the frame
/// that holds its type, its tag and its body.
pub proof fn lemma_frame_round_trip(m: MsgView)
    requires
        body_fits(m.body),
        m.well_formed(),
    ensures
        take_frame(wire_frame(m)) == Ok::<MsgView, Error>(m),
{
    let code = m.typ.number() as u8;
    let empty = Seq::<u8>::empty();
    let r2 = wire_body(m.body) + empty;
    let r1 = u16::wire(m.tag) + r2;
    assert(r2 =~= wire_body(m.body));
    lemma_concat_assoc(u8::wire(code), u16::wire(m.tag), wire_body(m.body));
    lemma_u8_round_trip(code, r1);
    lemma_u16_round_trip(m.tag, r2);
    lemma_msg_type_of_number_inverse(m.typ);
    lemma_body_round_trip(m.body, empty);
}

/// Codec round trip: a message that has a wire form, and whose type is that
/// of its body, is read back from its wire form, and what follows the frame
/// is left.
pub proof fn lemma_msg_round_trip(m: MsgView, rest: Seq<u8>)
    requires
        Msg::fits(m),
        m.well_formed(),
    ensures
        Msg::take(Msg::wire(m) + rest) == Ok::<(MsgView, Seq<u8>), Error>((m, rest)),
{
    let frame = wire_frame(m);
    let size = (4 + frame.len()) as u32;
    let tail = frame + rest;
    lemma_concat_assoc(u32::wire(size), frame, rest);
    lemma_u32_round_trip(size, tail);
    assert(tail.take(size - 4) =~= frame);
    assert(tail.skip(size - 4) =~= rest);
    lemma_frame_round_trip(m);
}

/// The body of an `Rgetattr` ends with four reserved 8-byte fields that are
/// zero: 32 zero bytes stand behind `valid`, the qid and the attributes.
pub proof fn lemma_rgetattr_trailer(valid: u64, qid: Qid, stat: Stat)
    ensures
        wire_body(FcallView::Rgetattr { valid, qid, stat }) == u64::wire(valid) + Qid::wire(qid)
            + Stat::wire(stat) + Seq::new(32, |i: int| 0u8),
{
    let zero = u64::wire(0);
    assert(zero =~= Seq::new(8, |i: int| 0u8)) by {
        reveal(le_bytes_u64);
    }
    let head = u64::wire(valid) + Qid::wire(qid) + Stat::wire(stat);
    assert(head + zero + zero + zero + zero =~= head + Seq::new(32, |i: int| 0u8));
}

/// Frame size consistency: the four bytes at the head of a message's wire
/// form hold, least significant byte first, the length of that wire form,
/// themselves included.
pub proof fn lemma_frame_size(m: MsgView)
    requires
        Msg::fits(m),
    ensures
        Msg::wire(m).len() >= 4,
        le_value_u32(Msg::wire(m).take(4)) == Msg::wire(m).len(),
        Msg::wire(m).len() == 7 + wire_body(m.body).len(),
{
    let frame = wire_frame(m);
    let size = (4 + frame.len()) as u32;
    lemma_le_u32(size);
    lemma_le_u16(m.tag);
    assert(Msg::wire(m).take(4) =~= u32::wire(size));
}

} // verus!
