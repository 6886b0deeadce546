//! What holds of the wire format: every value that has a wire form is read
//! back from it.

use crate::error::Error;
use crate::fcall::entries_size;
use crate::fcall::entry_size;
use crate::fcall::Data;
use crate::fcall::DirEntry;
use crate::fcall::DirEntryData;
use crate::fcall::DirEntryView;
use crate::fcall::Flock;
use crate::fcall::FlockView;
use crate::fcall::Getlock;
use crate::fcall::GetlockView;
use crate::fcall::Qid;
use crate::fcall::SetAttr;
use crate::fcall::Stat;
use crate::fcall::Statfs;
use crate::fcall::Time;
use crate::serialize::fits_all;
use crate::serialize::le_bytes_u16;
use crate::serialize::le_bytes_u32;
use crate::serialize::le_bytes_u64;
use crate::serialize::le_value_u16;
use crate::serialize::le_value_u32;
use crate::serialize::le_value_u64;
use crate::serialize::take_n;
use crate::serialize::wire_all;
use crate::serialize::Decodable;
use crate::serialize::Encodable;
use vstd::prelude::*;
use vstd::utf8::encode_utf8;
use vstd::utf8::encode_utf8_decode_utf8;
use vstd::utf8::encode_utf8_valid_utf8;

verus! {

/// The bytes of a 16-bit integer, least significant first, give the integer back.
pub proof fn lemma_le_u16(v: u16)
    ensures
        le_bytes_u16(v).len() == 2,
        le_value_u16(le_bytes_u16(v)) == v,
{
    reveal(le_bytes_u16);
    reveal(le_value_u16);
}

/// The bytes of a 32-bit integer, least significant first, give the integer back.
pub proof fn lemma_le_u32(v: u32)
    ensures
        le_bytes_u32(v).len() == 4,
        le_value_u32(le_bytes_u32(v)) == v,
{
    reveal(le_bytes_u32);
    reveal(le_value_u32);
}

/// The bytes of a 64-bit integer are those of its lower half, then those
/// of its upper half.
proof fn lemma_le_u64_halves(v: u64)
    ensures
        le_bytes_u64(v) == le_bytes_u32((v % 0x1_0000_0000) as u32) + le_bytes_u32(
            (v / 0x1_0000_0000) as u32,
        ),
{
    reveal(le_bytes_u32);
    reveal(le_bytes_u64);
    let lo = (v % 0x1_0000_0000) as u32;
    let hi = (v / 0x1_0000_0000) as u32;
    assert(v % 256 == (v % 0x1_0000_0000) % 256) by (bit_vector);
    assert(v / 0x100 % 256 == (v % 0x1_0000_0000) / 0x100 % 256) by (bit_vector);
    assert(v / 0x1_0000 % 256 == (v % 0x1_0000_0000) / 0x1_0000 % 256) by (bit_vector);
    assert(v / 0x100_0000 % 256 == (v % 0x1_0000_0000) / 0x100_0000) by (bit_vector);
    assert(v / 0x1_0000_0000 % 256 == (v / 0x1_0000_0000) % 256) by (bit_vector);
    assert(v / 0x100_0000_0000 % 256 == (v / 0x1_0000_0000) / 0x100 % 256) by (bit_vector);
    assert(v / 0x1_0000_0000_0000 % 256 == (v / 0x1_0000_0000) / 0x1_0000 % 256)
        by (bit_vector);
    assert(v / 0x100_0000_0000_0000 == (v / 0x1_0000_0000) / 0x100_0000) by (bit_vector);
    assert(le_bytes_u64(v) =~= le_bytes_u32(lo) + le_bytes_u32(hi));
}

/// The value of eight bytes is that of the first four, plus 2^32 times that
/// of the last four.
proof fn lemma_le_value_u64_halves(a: Seq<u8>, b: Seq<u8>)
    requires
        a.len() == 4,
        b.len() == 4,
    ensures
        le_value_u64(a + b) == le_value_u32(a) + 0x1_0000_0000 * le_value_u32(b),
{
    reveal(le_value_u32);
    reveal(le_value_u64);
}

/// The bytes of a 64-bit integer, least significant first, give the integer back.
pub proof fn lemma_le_u64(v: u64)
    ensures
        le_bytes_u64(v).len() == 8,
        le_value_u64(le_bytes_u64(v)) == v,
{
    let lo = (v % 0x1_0000_0000) as u32;
    let hi = (v / 0x1_0000_0000) as u32;
    lemma_le_u64_halves(v);
    lemma_le_u32(lo);
    lemma_le_u32(hi);
    lemma_le_value_u64_halves(le_bytes_u32(lo), le_bytes_u32(hi));
}

/// Endianness: the wire form of a 16-bit integer is its low byte, then its
/// high byte.
pub proof fn lemma_u16_little_endian(v: u16)
    ensures
        u16::wire(v) == seq![(v & 0xff) as u8, (v >> 8) as u8],
{
    reveal(le_bytes_u16);
    assert(v % 256 == v & 0xff) by (bit_vector);
    assert(v / 256 == v >> 8) by (bit_vector);
    assert(u16::wire(v) =~= seq![(v & 0xff) as u8, (v >> 8) as u8]);
}

/// Endianness: the wire form of a 32-bit integer is its four bytes, from the
/// least significant to the most significant.
pub proof fn lemma_u32_little_endian(v: u32)
    ensures
        u32::wire(v) == seq![
            (v & 0xff) as u8,
            ((v >> 8) & 0xff) as u8,
            ((v >> 16) & 0xff) as u8,
            (v >> 24) as u8,
        ],
{
    reveal(le_bytes_u32);
    assert(v % 256 == v & 0xff) by (bit_vector);
    assert(v / 0x100 % 256 == (v >> 8) & 0xff) by (bit_vector);
    assert(v / 0x1_0000 % 256 == (v >> 16) & 0xff) by (bit_vector);
    assert(v / 0x100_0000 == v >> 24) by (bit_vector);
    assert(u32::wire(v) =~= seq![
        (v & 0xff) as u8,
        ((v >> 8) & 0xff) as u8,
        ((v >> 16) & 0xff) as u8,
        (v >> 24) as u8,
    ]);
}

/// Endianness: the wire form of a 64-bit integer is its eight bytes, from
/// the least significant to the most significant.
pub proof fn lemma_u64_little_endian(v: u64)
    ensures
        u64::wire(v) == seq![
            (v & 0xff) as u8,
            ((v >> 8) & 0xff) as u8,
            ((v >> 16) & 0xff) as u8,
            ((v >> 24) & 0xff) as u8,
            ((v >> 32) & 0xff) as u8,
            ((v >> 40) & 0xff) as u8,
            ((v >> 48) & 0xff) as u8,
            (v >> 56) as u8,
        ],
{
    reveal(le_bytes_u64);
    assert(v % 256 == v & 0xff) by (bit_vector);
    assert(v / 0x100 % 256 == (v >> 8) & 0xff) by (bit_vector);
    assert(v / 0x1_0000 % 256 == (v >> 16) & 0xff) by (bit_vector);
    assert(v / 0x100_0000 % 256 == (v >> 24) & 0xff) by (bit_vector);
    assert(v / 0x1_0000_0000 % 256 == (v >> 32) & 0xff) by (bit_vector);
    assert(v / 0x100_0000_0000 % 256 == (v >> 40) & 0xff) by (bit_vector);
    assert(v / 0x1_0000_0000_0000 % 256 == (v >> 48) & 0xff) by (bit_vector);
    assert(v / 0x100_0000_0000_0000 == v >> 56) by (bit_vector);
    assert(u64::wire(v) =~= seq![
        (v & 0xff) as u8,
        ((v >> 8) & 0xff) as u8,
        ((v >> 16) & 0xff) as u8,
        ((v >> 24) & 0xff) as u8,
        ((v >> 32) & 0xff) as u8,
        ((v >> 40) & 0xff) as u8,
        ((v >> 48) & 0xff) as u8,
        (v >> 56) as u8,
    ]);
}

/// Joining sequences does not depend on where the brackets stand.
pub proof fn lemma_concat_assoc(a: Seq<u8>, b: Seq<u8>, c: Seq<u8>)
    ensures
        (a + b) + c == a + (b + c),
{
    assert((a + b) + c =~= a + (b + c));
}

/// A byte is read back from its wire form, whatever follows it.
pub proof fn lemma_u8_round_trip(v: u8, rest: Seq<u8>)
    ensures
        u8::take(u8::wire(v) + rest) == Ok::<(u8, Seq<u8>), Error>((v, rest)),
{
    assert((u8::wire(v) + rest).skip(1) =~= rest);
}

/// A 16-bit integer is read back from its wire form, whatever follows it.
pub proof fn lemma_u16_round_trip(v: u16, rest: Seq<u8>)
    ensures
        u16::take(u16::wire(v) + rest) == Ok::<(u16, Seq<u8>), Error>((v, rest)),
{
    lemma_le_u16(v);
    let b = u16::wire(v) + rest;
    assert(b.skip(2) =~= rest);
    assert(le_value_u16(b) == le_value_u16(le_bytes_u16(v))) by {
        reveal(le_value_u16);
    }
}

/// A 32-bit integer is read back from its wire form, whatever follows it.
pub proof fn lemma_u32_round_trip(v: u32, rest: Seq<u8>)
    ensures
        u32::take(u32::wire(v) + rest) == Ok::<(u32, Seq<u8>), Error>((v, rest)),
{
    lemma_le_u32(v);
    let b = u32::wire(v) + rest;
    assert(b.skip(4) =~= rest);
    assert(le_value_u32(b) == le_value_u32(le_bytes_u32(v))) by {
        reveal(le_value_u32);
    }
}

/// A 64-bit integer is read back from its wire form, whatever follows it.
pub proof fn lemma_u64_round_trip(v: u64, rest: Seq<u8>)
    ensures
        u64::take(u64::wire(v) + rest) == Ok::<(u64, Seq<u8>), Error>((v, rest)),
{
    lemma_le_u64(v);
    let b = u64::wire(v) + rest;
    assert(b.skip(8) =~= rest);
    assert(le_value_u64(b) == le_value_u64(le_bytes_u64(v))) by {
        reveal(le_value_u64);
    }
}

/// A string whose UTF-8 form is at most 65535 bytes long is read back from
/// its wire form, whatever follows it.
pub proof fn lemma_string_round_trip(v: Seq<char>, rest: Seq<u8>)
    requires
        String::fits(v),
    ensures
        String::take(String::wire(v) + rest) == Ok::<(Seq<char>, Seq<u8>), Error>((v, rest)),
{
    let bytes = encode_utf8(v);
    let len = bytes.len() as u16;
    let tail = bytes + rest;
    assert(String::wire(v) + rest =~= u16::wire(len) + tail);
    lemma_u16_round_trip(len, tail);
    assert(tail.take(len as int) =~= bytes);
    assert(tail.skip(len as int) =~= rest);
    encode_utf8_valid_utf8(v);
    encode_utf8_decode_utf8(v);
}

/// Whether every value of `T` that has a wire form is read back from it,
/// whatever follows it.
pub open spec fn round_trips<T: Encodable + Decodable>() -> bool {
    forall|v: T::V, rest: Seq<u8>|
        T::fits(v) ==> #[trigger] T::take(T::wire(v) + rest) == Ok::<(T::V, Seq<u8>), Error>(
            (v, rest),
        )
}

/// Values that are read back one by one are read back as a run.
pub proof fn lemma_all_round_trip<T: Encodable + Decodable>(s: Seq<T::V>, rest: Seq<u8>)
    requires
        round_trips::<T>(),
        fits_all::<T>(s),
    ensures
        take_n::<T>(s.len(), wire_all::<T>(s) + rest) == Ok::<(Seq<T::V>, Seq<u8>), Error>(
            (s, rest),
        ),
    decreases s.len(),
{
    if s.len() > 0 {
        let front = s.drop_last();
        let tail = T::wire(s.last()) + rest;
        lemma_concat_assoc(wire_all::<T>(front), T::wire(s.last()), rest);
        assert forall|i: int| 0 <= i < front.len() implies T::fits(#[trigger] front[i]) by {
            assert(front[i] == s[i]);
        }
        lemma_all_round_trip::<T>(front, tail);
        assert(T::fits(s.last()));
        assert(T::take(T::wire(s.last()) + rest) == Ok::<(T::V, Seq<u8>), Error>(
            (s.last(), rest),
        ));
        assert(front.push(s.last()) =~= s);
        assert(front.len() == (s.len() - 1) as nat);
    } else {
        assert(wire_all::<T>(s) + rest =~= rest);
        assert(s =~= Seq::<T::V>::empty());
    }
}

/// A list of at most 65535 values is read back from its wire form where
/// each value is.
pub proof fn lemma_vec_round_trip<T: Encodable + Decodable>(v: Seq<T::V>, rest: Seq<u8>)
    requires
        round_trips::<T>(),
        Vec::<T>::fits(v),
    ensures
        Vec::<T>::take(Vec::<T>::wire(v) + rest) == Ok::<(Seq<T::V>, Seq<u8>), Error>((v, rest)),
{
    let len = v.len() as u16;
    let tail = wire_all::<T>(v) + rest;
    assert(Vec::<T>::wire(v) + rest =~= u16::wire(len) + tail);
    lemma_u16_round_trip(len, tail);
    lemma_all_round_trip::<T>(v, rest);
}

/// A `Time` is read back from its wire form, whatever follows it.
pub proof fn lemma_time_round_trip(v: Time, rest: Seq<u8>)
    ensures
        Time::take(Time::wire(v) + rest) == Ok::<(Time, Seq<u8>), Error>((v, rest)),
{
    let rest2 = rest;
    let rest1 = u64::wire(v.nsec) + rest2;
    let front1 = u64::wire(v.sec);
    lemma_concat_assoc(front1, u64::wire(v.nsec), rest2);
    lemma_u64_round_trip(v.sec, rest1);
    lemma_u64_round_trip(v.nsec, rest2);
}

/// A `Qid` is read back from its wire form, whatever follows it.
pub proof fn lemma_qid_round_trip(v: Qid, rest: Seq<u8>)
    ensures
        Qid::take(Qid::wire(v) + rest) == Ok::<(Qid, Seq<u8>), Error>((v, rest)),
{
    let rest3 = rest;
    let rest2 = u64::wire(v.path) + rest3;
    let rest1 = u32::wire(v.version) + rest2;
    let front1 = u8::wire(v.typ);
    let front2 = front1 + u32::wire(v.version);
    lemma_concat_assoc(front2, u64::wire(v.path), rest3);
    lemma_concat_assoc(front1, u32::wire(v.version), rest2);
    lemma_u8_round_trip(v.typ, rest1);
    lemma_u32_round_trip(v.version, rest2);
    lemma_u64_round_trip(v.path, rest3);
}

/// A `Statfs` is read back from its wire form, whatever follows it.
pub proof fn lemma_statfs_round_trip(v: Statfs, rest: Seq<u8>)
    ensures
        Statfs::take(Statfs::wire(v) + rest) == Ok::<(Statfs, Seq<u8>), Error>((v, rest)),
{
    let rest9 = rest;
    let rest8 = u32::wire(v.namelen) + rest9;
    let rest7 = u64::wire(v.fsid) + rest8;
    let rest6 = u64::wire(v.ffree) + rest7;
    let rest5 = u64::wire(v.files) + rest6;
    let rest4 = u64::wire(v.bavail) + rest5;
    let rest3 = u64::wire(v.bfree) + rest4;
    let rest2 = u64::wire(v.blocks) + rest3;
    let rest1 = u32::wire(v.bsize) + rest2;
    let front1 = u32::wire(v.typ);
    let front2 = front1 + u32::wire(v.bsize);
    let front3 = front2 + u64::wire(v.blocks);
    let front4 = front3 + u64::wire(v.bfree);
    let front5 = front4 + u64::wire(v.bavail);
    let front6 = front5 + u64::wire(v.files);
    let front7 = front6 + u64::wire(v.ffree);
    let front8 = front7 + u64::wire(v.fsid);
    lemma_concat_assoc(front8, u32::wire(v.namelen), rest9);
    lemma_concat_assoc(front7, u64::wire(v.fsid), rest8);
    lemma_concat_assoc(front6, u64::wire(v.ffree), rest7);
    lemma_concat_assoc(front5, u64::wire(v.files), rest6);
    lemma_concat_assoc(front4, u64::wire(v.bavail), rest5);
    lemma_concat_assoc(front3, u64::wire(v.bfree), rest4);
    lemma_concat_assoc(front2, u64::wire(v.blocks), rest3);
    lemma_concat_assoc(front1, u32::wire(v.bsize), rest2);
    lemma_u32_round_trip(v.typ, rest1);
    lemma_u32_round_trip(v.bsize, rest2);
    lemma_u64_round_trip(v.blocks, rest3);
    lemma_u64_round_trip(v.bfree, rest4);
    lemma_u64_round_trip(v.bavail, rest5);
    lemma_u64_round_trip(v.files, rest6);
    lemma_u64_round_trip(v.ffree, rest7);
    lemma_u64_round_trip(v.fsid, rest8);
    lemma_u32_round_trip(v.namelen, rest9);
}

/// A `Stat` is read back from its wire form, whatever follows it.
pub proof fn lemma_stat_round_trip(v: Stat, rest: Seq<u8>)
    ensures
        Stat::take(Stat::wire(v) + rest) == Ok::<(Stat, Seq<u8>), Error>((v, rest)),
{
    let rest11 = rest;
    let rest10 = Time::wire(v.ctime) + rest11;
    let rest9 = Time::wire(v.mtime) + rest10;
    let rest8 = Time::wire(v.atime) + rest9;
    let rest7 = u64::wire(v.blocks) + rest8;
    let rest6 = u64::wire(v.blksize) + rest7;
    let rest5 = u64::wire(v.size) + rest6;
    let rest4 = u64::wire(v.rdev) + rest5;
    let rest3 = u64::wire(v.nlink) + rest4;
    let rest2 = u32::wire(v.gid) + rest3;
    let rest1 = u32::wire(v.uid) + rest2;
    let front1 = u32::wire(v.mode);
    let front2 = front1 + u32::wire(v.uid);
    let front3 = front2 + u32::wire(v.gid);
    let front4 = front3 + u64::wire(v.nlink);
    let front5 = front4 + u64::wire(v.rdev);
    let front6 = front5 + u64::wire(v.size);
    let front7 = front6 + u64::wire(v.blksize);
    let front8 = front7 + u64::wire(v.blocks);
    let front9 = front8 + Time::wire(v.atime);
    let front10 = front9 + Time::wire(v.mtime);
    lemma_concat_assoc(front10, Time::wire(v.ctime), rest11);
    lemma_concat_assoc(front9, Time::wire(v.mtime), rest10);
    lemma_concat_assoc(front8, Time::wire(v.atime), rest9);
    lemma_concat_assoc(front7, u64::wire(v.blocks), rest8);
    lemma_concat_assoc(front6, u64::wire(v.blksize), rest7);
    lemma_concat_assoc(front5, u64::wire(v.size), rest6);
    lemma_concat_assoc(front4, u64::wire(v.rdev), rest5);
    lemma_concat_assoc(front3, u64::wire(v.nlink), rest4);
    lemma_concat_assoc(front2, u32::wire(v.gid), rest3);
    lemma_concat_assoc(front1, u32::wire(v.uid), rest2);
    lemma_u32_round_trip(v.mode, rest1);
    lemma_u32_round_trip(v.uid, rest2);
    lemma_u32_round_trip(v.gid, rest3);
    lemma_u64_round_trip(v.nlink, rest4);
    lemma_u64_round_trip(v.rdev, rest5);
    lemma_u64_round_trip(v.size, rest6);
    lemma_u64_round_trip(v.blksize, rest7);
    lemma_u64_round_trip(v.blocks, rest8);
    lemma_time_round_trip(v.atime, rest9);
    lemma_time_round_trip(v.mtime, rest10);
    lemma_time_round_trip(v.ctime, rest11);
}

/// A `SetAttr` is read back from its wire form, whatever follows it.
pub proof fn lemma_setattr_round_trip(v: SetAttr, rest: Seq<u8>)
    ensures
        SetAttr::take(SetAttr::wire(v) + rest) == Ok::<(SetAttr, Seq<u8>), Error>((v, rest)),
{
    let rest6 = rest;
    let rest5 = Time::wire(v.mtime) + rest6;
    let rest4 = Time::wire(v.atime) + rest5;
    let rest3 = u64::wire(v.size) + rest4;
    let rest2 = u32::wire(v.gid) + rest3;
    let rest1 = u32::wire(v.uid) + rest2;
    let front1 = u32::wire(v.mode);
    let front2 = front1 + u32::wire(v.uid);
    let front3 = front2 + u32::wire(v.gid);
    let front4 = front3 + u64::wire(v.size);
    let front5 = front4 + Time::wire(v.atime);
    lemma_concat_assoc(front5, Time::wire(v.mtime), rest6);
    lemma_concat_assoc(front4, Time::wire(v.atime), rest5);
    lemma_concat_assoc(front3, u64::wire(v.size), rest4);
    lemma_concat_assoc(front2, u32::wire(v.gid), rest3);
    lemma_concat_assoc(front1, u32::wire(v.uid), rest2);
    lemma_u32_round_trip(v.mode, rest1);
    lemma_u32_round_trip(v.uid, rest2);
    lemma_u32_round_trip(v.gid, rest3);
    lemma_u64_round_trip(v.size, rest4);
    lemma_time_round_trip(v.atime, rest5);
    lemma_time_round_trip(v.mtime, rest6);
}

/// A `DirEntry` is read back from its wire form, whatever follows it.
pub proof fn lemma_dir_entry_round_trip(v: DirEntryView, rest: Seq<u8>)
    requires
        DirEntry::fits(v),
    ensures
        DirEntry::take(DirEntry::wire(v) + rest) == Ok::<(DirEntryView, Seq<u8>), Error>((v, rest)),
{
    let rest4 = rest;
    let rest3 = String::wire(v.name) + rest4;
    let rest2 = u8::wire(v.typ) + rest3;
    let rest1 = u64::wire(v.offset) + rest2;
    let front1 = Qid::wire(v.qid);
    let front2 = front1 + u64::wire(v.offset);
    let front3 = front2 + u8::wire(v.typ);
    lemma_concat_assoc(front3, String::wire(v.name), rest4);
    lemma_concat_assoc(front2, u8::wire(v.typ), rest3);
    lemma_concat_assoc(front1, u64::wire(v.offset), rest2);
    lemma_qid_round_trip(v.qid, rest1);
    lemma_u64_round_trip(v.offset, rest2);
    lemma_u8_round_trip(v.typ, rest3);
    lemma_string_round_trip(v.name, rest4);
}

/// A `Flock` is read back from its wire form, whatever follows it.
pub proof fn lemma_flock_round_trip(v: FlockView, rest: Seq<u8>)
    requires
        Flock::fits(v),
    ensures
        Flock::take(Flock::wire(v) + rest) == Ok::<(FlockView, Seq<u8>), Error>((v, rest)),
{
    let rest6 = rest;
    let rest5 = String::wire(v.client_id) + rest6;
    let rest4 = u32::wire(v.proc_id) + rest5;
    let rest3 = u64::wire(v.length) + rest4;
    let rest2 = u64::wire(v.start) + rest3;
    let rest1 = u32::wire(v.flags) + rest2;
    let front1 = u8::wire(v.typ);
    let front2 = front1 + u32::wire(v.flags);
    let front3 = front2 + u64::wire(v.start);
    let front4 = front3 + u64::wire(v.length);
    let front5 = front4 + u32::wire(v.proc_id);
    lemma_concat_assoc(front5, String::wire(v.client_id), rest6);
    lemma_concat_assoc(front4, u32::wire(v.proc_id), rest5);
    lemma_concat_assoc(front3, u64::wire(v.length), rest4);
    lemma_concat_assoc(front2, u64::wire(v.start), rest3);
    lemma_concat_assoc(front1, u32::wire(v.flags), rest2);
    lemma_u8_round_trip(v.typ, rest1);
    lemma_u32_round_trip(v.flags, rest2);
    lemma_u64_round_trip(v.start, rest3);
    lemma_u64_round_trip(v.length, rest4);
    lemma_u32_round_trip(v.proc_id, rest5);
    lemma_string_round_trip(v.client_id, rest6);
}

/// A `Getlock` is read back from its wire form, whatever follows it.
pub proof fn lemma_getlock_round_trip(v: GetlockView, rest: Seq<u8>)
    requires
        Getlock::fits(v),
    ensures
        Getlock::take(Getlock::wire(v) + rest) == Ok::<(GetlockView, Seq<u8>), Error>((v, rest)),
{
    let rest5 = rest;
    let rest4 = String::wire(v.client_id) + rest5;
    let rest3 = u32::wire(v.proc_id) + rest4;
    let rest2 = u64::wire(v.length) + rest3;
    let rest1 = u64::wire(v.start) + rest2;
    let front1 = u8::wire(v.typ);
    let front2 = front1 + u64::wire(v.start);
    let front3 = front2 + u64::wire(v.length);
    let front4 = front3 + u32::wire(v.proc_id);
    lemma_concat_assoc(front4, String::wire(v.client_id), rest5);
    lemma_concat_assoc(front3, u32::wire(v.proc_id), rest4);
    lemma_concat_assoc(front2, u64::wire(v.length), rest3);
    lemma_concat_assoc(front1, u64::wire(v.start), rest2);
    lemma_u8_round_trip(v.typ, rest1);
    lemma_u64_round_trip(v.start, rest2);
    lemma_u64_round_trip(v.length, rest3);
    lemma_u32_round_trip(v.proc_id, rest4);
    lemma_string_round_trip(v.client_id, rest5);
}

/// Every string that has a wire form is read back from it.
pub proof fn lemma_strings_round_trip()
    ensures
        round_trips::<String>(),
{
    assert forall|v: Seq<char>, rest: Seq<u8>| String::fits(v) implies #[trigger] String::take(
        String::wire(v) + rest,
    ) == Ok::<(Seq<char>, Seq<u8>), Error>((v, rest)) by {
        lemma_string_round_trip(v, rest);
    }
}

/// Every qid is read back from its wire form.
pub proof fn lemma_qids_round_trip()
    ensures
        round_trips::<Qid>(),
{
    assert forall|v: Qid, rest: Seq<u8>| Qid::fits(v) implies #[trigger] Qid::take(
        Qid::wire(v) + rest,
    ) == Ok::<(Qid, Seq<u8>), Error>((v, rest)) by {
        lemma_qid_round_trip(v, rest);
    }
}

/// Every directory entry that has a wire form is read back from it.
pub proof fn lemma_dir_entries_round_trip()
    ensures
        round_trips::<DirEntry>(),
{
    assert forall|v: DirEntryView, rest: Seq<u8>|
        DirEntry::fits(v) implies #[trigger] DirEntry::take(DirEntry::wire(v) + rest) == Ok::<
        (DirEntryView, Seq<u8>),
        Error,
    >((v, rest)) by {
        lemma_dir_entry_round_trip(v, rest);
    }
}

/// A payload of less than 4 GiB is read back from its wire form, whatever
/// follows it.
pub proof fn lemma_data_round_trip(v: Seq<u8>, rest: Seq<u8>)
    requires
        Data::fits(v),
    ensures
        Data::take(Data::wire(v) + rest) == Ok::<(Seq<u8>, Seq<u8>), Error>((v, rest)),
{
    let len = v.len() as u32;
    let tail = v + rest;
    assert(Data::wire(v) + rest =~= u32::wire(len) + tail);
    lemma_u32_round_trip(len, tail);
    assert(tail.take(len as int) =~= v);
    assert(tail.skip(len as int) =~= rest);
}

/// A block of directory entries that has a wire form is read back from it,
/// whatever follows it.
pub proof fn lemma_dir_entry_data_round_trip(v: Seq<DirEntryView>, rest: Seq<u8>)
    requires
        DirEntryData::fits(v),
    ensures
        DirEntryData::take(DirEntryData::wire(v) + rest) == Ok::<
            (Seq<DirEntryView>, Seq<u8>),
            Error,
        >((v, rest)),
{
    let len = v.len() as u32;
    let tail = wire_all::<DirEntry>(v) + rest;
    assert(DirEntryData::wire(v) + rest =~= u32::wire(len) + tail);
    lemma_u32_round_trip(len, tail);
    lemma_dir_entries_round_trip();
    lemma_all_round_trip::<DirEntry>(v, rest);
}

/// A directory entry that has a wire form takes as many bytes on the wire
/// as `entry_size` says.
pub proof fn lemma_entry_size(e: DirEntryView)
    requires
        DirEntry::fits(e),
    ensures
        DirEntry::wire(e).len() == entry_size(e),
{
    lemma_le_u16(encode_utf8(e.name).len() as u16);
    lemma_le_u32(e.qid.version);
    lemma_le_u64(e.qid.path);
    lemma_le_u64(e.offset);
}

/// Directory entries that have a wire form take as many bytes on the wire
/// as `entries_size` says.
pub proof fn lemma_entries_size(s: Seq<DirEntryView>)
    requires
        fits_all::<DirEntry>(s),
    ensures
        wire_all::<DirEntry>(s).len() == entries_size(s),
    decreases s.len(),
{
    if s.len() > 0 {
        let front = s.drop_last();
        assert forall|i: int| 0 <= i < front.len() implies DirEntry::fits(#[trigger] front[i]) by {
            assert(front[i] == s[i]);
        }
        lemma_entries_size(front);
        lemma_entry_size(s.last());
    }
}

} // verus!
