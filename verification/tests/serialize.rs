use rs9p::error::Error;
use rs9p::error::IoError;
use rs9p::error::IoErrorKind;
use rs9p::fcall::P92000L;
use rs9p::serialize::frame_rest;
use rs9p::serialize::read_msg;
use rs9p::serialize::write_msg;
use rs9p::serialize::Decodable;
use rs9p::serialize::Decoder;
use rs9p::serialize::Encodable;
use rs9p::serialize::Encoder;
use rs9p::Data;
use rs9p::DirEntry;
use rs9p::DirEntryData;
use rs9p::Fcall;
use rs9p::Flock;
use rs9p::Getlock;
use rs9p::Msg;
use rs9p::MsgType;
use rs9p::Qid;
use rs9p::SetAttr;
use rs9p::Stat;
use rs9p::Statfs;
use rs9p::Time;

fn io(kind: IoErrorKind) -> Error {
    Error::Io(IoError { kind, raw_os_error: None })
}

fn round_trip(typ: MsgType, body: Fcall) {
    let expected = Msg { typ, tag: 0x1234, body };
    let mut buf = Vec::new();
    let n = expected.encode(&mut buf).unwrap();
    assert_eq!(n, buf.len());
    let size = u32::from_le_bytes([buf[0], buf[1], buf[2], buf[3]]);
    assert_eq!(size as usize, buf.len());
    assert_eq!(buf[4], typ.code());
    assert_eq!(&buf[5..7], &[0x34, 0x12]);
    let mut reader = Decoder::new(buf);
    let actual: Msg = Decodable::decode(&mut reader).unwrap();
    assert_eq!(expected, actual);
    assert_eq!(reader.len(), 0);
}

fn qid() -> Qid {
    Qid { typ: 0x80, version: 0x01020304, path: 0x1122334455667788 }
}

fn time(n: u64) -> Time {
    Time { sec: n, nsec: n + 1 }
}

fn stat() -> Stat {
    Stat {
        mode: 0o40755,
        uid: 1000,
        gid: 100,
        nlink: 2,
        rdev: 0,
        size: 4096,
        blksize: 512,
        blocks: 8,
        atime: time(10),
        mtime: time(20),
        ctime: time(30),
    }
}

#[test]
fn encoder_test1() {
    let expected: Vec<u8> = (0..10).collect();
    let mut encoder = Vec::new();
    for i in 0..10 {
        (&(i as u8)).encode(&mut encoder).unwrap();
    }
    assert_eq!(expected, encoder);
}

#[test]
fn decoder_test1() {
    let expected: Vec<u8> = (0..10).collect();
    let mut decoder = Decoder::new(expected.clone());
    let mut actual: Vec<u8> = Vec::new();
    loop {
        match Decodable::decode(&mut decoder) {
            Ok(i) => actual.push(i),
            Err(_) => break,
        }
    }
    assert_eq!(expected, actual);
}

#[test]
fn msg_encode_decode1() {
    let expected = Msg {
        typ: MsgType::Rversion,
        tag: 0xdead,
        body: Fcall::Rversion {
            msize: 40,
            version: P92000L.to_owned(),
        },
    };
    let mut buf = Vec::new();
    let _ = expected.encode(&mut buf);

    let mut readbuf = Decoder::new(buf);
    let actual = Decodable::decode(&mut readbuf);

    assert_eq!(expected, actual.unwrap());
}

#[test]
fn integers_are_little_endian() {
    let mut buf = Vec::new();
    assert_eq!(0x12u8.encode(&mut buf), Ok(1));
    assert_eq!(0x1234u16.encode(&mut buf), Ok(2));
    assert_eq!(0x12345678u32.encode(&mut buf), Ok(4));
    assert_eq!(0x0102030405060708u64.encode(&mut buf), Ok(8));
    assert_eq!(
        buf,
        vec![0x12, 0x34, 0x12, 0x78, 0x56, 0x34, 0x12, 8, 7, 6, 5, 4, 3, 2, 1]
    );
    let mut reader = Decoder::new(buf);
    assert_eq!(u8::decode(&mut reader), Ok(0x12));
    assert_eq!(u16::decode(&mut reader), Ok(0x1234));
    assert_eq!(u32::decode(&mut reader), Ok(0x12345678));
    assert_eq!(u64::decode(&mut reader), Ok(0x0102030405060708));
    assert_eq!(u8::decode(&mut reader), Err(io(IoErrorKind::UnexpectedEof)));
}

#[test]
fn integers_fail_short_of_bytes_and_take_nothing() {
    let mut reader = Decoder::new(vec![1, 2, 3]);
    assert_eq!(u32::decode(&mut reader), Err(io(IoErrorKind::UnexpectedEof)));
    assert_eq!(u64::decode(&mut reader), Err(io(IoErrorKind::UnexpectedEof)));
    assert_eq!(reader.len(), 3);
    assert_eq!(u16::decode(&mut reader), Ok(0x0201));
    assert_eq!(u16::decode(&mut reader), Err(io(IoErrorKind::UnexpectedEof)));
    assert_eq!(u8::decode(&mut reader), Ok(3));
}

#[test]
fn string_has_two_byte_length_and_utf8_bytes() {
    let mut buf = Vec::new();
    assert_eq!("h\u{e9}llo".to_owned().encode(&mut buf), Ok(8));
    assert_eq!(buf, vec![6, 0, b'h', 0xc3, 0xa9, b'l', b'l', b'o']);
    let mut reader = Decoder::new(buf);
    assert_eq!(String::decode(&mut reader), Ok("h\u{e9}llo".to_owned()));
}

#[test]
fn empty_string_is_two_zero_bytes() {
    let mut buf = Vec::new();
    assert_eq!(String::new().encode(&mut buf), Ok(2));
    assert_eq!(buf, vec![0, 0]);
    let mut reader = Decoder::new(buf);
    assert_eq!(String::decode(&mut reader), Ok(String::new()));
}

#[test]
fn string_of_65535_bytes_fits_and_one_more_does_not() {
    let longest = "a".repeat(0xffff);
    let mut buf = Vec::new();
    assert_eq!(longest.encode(&mut buf), Ok(0x10001));
    assert_eq!(&buf[..2], &[0xff, 0xff]);
    let mut reader = Decoder::new(buf);
    assert_eq!(String::decode(&mut reader), Ok(longest));

    let too_long = "a".repeat(0x10000);
    let mut buf = vec![9];
    assert_eq!(too_long.encode(&mut buf), Err(io(IoErrorKind::InvalidInput)));
    assert_eq!(buf, vec![9]);
}

#[test]
fn string_that_is_no_utf8_is_a_protocol_error() {
    let mut reader = Decoder::new(vec![2, 0, 0xff, 0xfe]);
    assert_eq!(String::decode(&mut reader), Err(io(IoErrorKind::Other)));
}

#[test]
fn string_cut_short_is_unexpected_eof() {
    let mut reader = Decoder::new(vec![5, 0, b'a', b'b']);
    assert_eq!(String::decode(&mut reader), Err(io(IoErrorKind::UnexpectedEof)));
    let mut reader = Decoder::new(vec![5]);
    assert_eq!(String::decode(&mut reader), Err(io(IoErrorKind::UnexpectedEof)));
}

#[test]
fn qid_is_typ_version_path() {
    let mut buf = Vec::new();
    assert_eq!(qid().encode(&mut buf), Ok(13));
    assert_eq!(
        buf,
        vec![0x80, 4, 3, 2, 1, 0x88, 0x77, 0x66, 0x55, 0x44, 0x33, 0x22, 0x11]
    );
    let mut reader = Decoder::new(buf);
    assert_eq!(Qid::decode(&mut reader), Ok(qid()));
}

#[test]
fn time_is_sec_nsec() {
    let mut buf = Vec::new();
    assert_eq!(Time { sec: 1, nsec: 2 }.encode(&mut buf), Ok(16));
    assert_eq!(buf, vec![1, 0, 0, 0, 0, 0, 0, 0, 2, 0, 0, 0, 0, 0, 0, 0]);
}

#[test]
fn stat_field_order_and_length() {
    let mut buf = Vec::new();
    assert_eq!(stat().encode(&mut buf), Ok(100));
    assert_eq!(&buf[0..4], &0o40755u32.to_le_bytes());
    assert_eq!(&buf[4..8], &1000u32.to_le_bytes());
    assert_eq!(&buf[8..12], &100u32.to_le_bytes());
    assert_eq!(&buf[12..20], &2u64.to_le_bytes());
    assert_eq!(&buf[20..28], &0u64.to_le_bytes());
    assert_eq!(&buf[28..36], &4096u64.to_le_bytes());
    assert_eq!(&buf[36..44], &512u64.to_le_bytes());
    assert_eq!(&buf[44..52], &8u64.to_le_bytes());
    assert_eq!(&buf[52..60], &10u64.to_le_bytes());
    assert_eq!(&buf[60..68], &11u64.to_le_bytes());
    assert_eq!(&buf[68..76], &20u64.to_le_bytes());
    assert_eq!(&buf[84..92], &30u64.to_le_bytes());
    let mut reader = Decoder::new(buf);
    assert_eq!(Stat::decode(&mut reader), Ok(stat()));
}

#[test]
fn setattr_field_order_and_length() {
    let attr = SetAttr { mode: 1, uid: 2, gid: 3, size: 4, atime: time(5), mtime: time(7) };
    let mut buf = Vec::new();
    assert_eq!(attr.encode(&mut buf), Ok(52));
    assert_eq!(&buf[0..4], &1u32.to_le_bytes());
    assert_eq!(&buf[12..20], &4u64.to_le_bytes());
    assert_eq!(&buf[20..28], &5u64.to_le_bytes());
    assert_eq!(&buf[36..44], &7u64.to_le_bytes());
    let mut reader = Decoder::new(buf);
    assert_eq!(SetAttr::decode(&mut reader), Ok(attr));
}

#[test]
fn statfs_field_order_and_length() {
    let fs = Statfs {
        typ: 1,
        bsize: 2,
        blocks: 3,
        bfree: 4,
        bavail: 5,
        files: 6,
        ffree: 7,
        fsid: 8,
        namelen: 9,
    };
    let mut buf = Vec::new();
    assert_eq!(fs.encode(&mut buf), Ok(60));
    assert_eq!(&buf[0..4], &1u32.to_le_bytes());
    assert_eq!(&buf[4..8], &2u32.to_le_bytes());
    assert_eq!(&buf[8..16], &3u64.to_le_bytes());
    assert_eq!(&buf[48..56], &8u64.to_le_bytes());
    assert_eq!(&buf[56..60], &9u32.to_le_bytes());
    let mut reader = Decoder::new(buf);
    assert_eq!(Statfs::decode(&mut reader), Ok(fs));
}

#[test]
fn dir_entry_is_qid_offset_typ_name() {
    let entry = DirEntry { qid: qid(), offset: 5, typ: 4, name: "ab".to_owned() };
    let mut buf = Vec::new();
    assert_eq!(entry.encode(&mut buf), Ok(26));
    assert_eq!(entry.size(), 26);
    assert_eq!(buf[0], 0x80);
    assert_eq!(&buf[13..21], &5u64.to_le_bytes());
    assert_eq!(buf[21], 4);
    assert_eq!(&buf[22..], &[2, 0, b'a', b'b']);
    let mut reader = Decoder::new(buf);
    assert_eq!(DirEntry::decode(&mut reader), Ok(entry));
}

#[test]
fn flock_and_getlock_field_order() {
    let lock = Flock {
        typ: 1,
        flags: 2,
        start: 3,
        length: 4,
        proc_id: 5,
        client_id: "c".to_owned(),
    };
    let mut buf = Vec::new();
    assert_eq!(lock.encode(&mut buf), Ok(28));
    assert_eq!(buf[0], 1);
    assert_eq!(&buf[1..5], &2u32.to_le_bytes());
    assert_eq!(&buf[5..13], &3u64.to_le_bytes());
    assert_eq!(&buf[13..21], &4u64.to_le_bytes());
    assert_eq!(&buf[21..25], &5u32.to_le_bytes());
    assert_eq!(&buf[25..], &[1, 0, b'c']);
    let mut reader = Decoder::new(buf);
    assert_eq!(Flock::decode(&mut reader), Ok(lock));

    let lock = Getlock { typ: 2, start: 3, length: 4, proc_id: 5, client_id: "c".to_owned() };
    let mut buf = Vec::new();
    assert_eq!(lock.encode(&mut buf), Ok(24));
    assert_eq!(buf[0], 2);
    assert_eq!(&buf[1..9], &3u64.to_le_bytes());
    assert_eq!(&buf[17..21], &5u32.to_le_bytes());
    let mut reader = Decoder::new(buf);
    assert_eq!(Getlock::decode(&mut reader), Ok(lock));
}

#[test]
fn data_has_four_byte_length() {
    let data = Data::new(vec![7, 8, 9]);
    let mut buf = Vec::new();
    assert_eq!(data.encode(&mut buf), Ok(7));
    assert_eq!(buf, vec![3, 0, 0, 0, 7, 8, 9]);
    let mut reader = Decoder::new(buf);
    assert_eq!(Data::decode(&mut reader), Ok(data));
    let mut reader = Decoder::new(vec![4, 0, 0, 0, 1, 2, 3]);
    assert_eq!(Data::decode(&mut reader), Err(io(IoErrorKind::UnexpectedEof)));
}

#[test]
fn vectors_have_two_byte_count() {
    let names = vec!["a".to_owned(), "bc".to_owned()];
    let mut buf = Vec::new();
    assert_eq!(names.encode(&mut buf), Ok(9));
    assert_eq!(buf, vec![2, 0, 1, 0, b'a', 2, 0, b'b', b'c']);
    let mut reader = Decoder::new(buf);
    assert_eq!(Vec::<String>::decode(&mut reader), Ok(names));

    let mut reader = Decoder::new(vec![2, 0, 1, 0, b'a']);
    assert_eq!(
        Vec::<String>::decode(&mut reader),
        Err(io(IoErrorKind::UnexpectedEof))
    );
}

#[test]
fn vector_with_an_element_that_does_not_fit_leaves_the_buffer() {
    let names = vec!["a".to_owned(), "b".repeat(0x10000)];
    let mut buf = vec![1, 2, 3];
    assert_eq!(names.encode(&mut buf), Err(io(IoErrorKind::InvalidInput)));
    assert_eq!(buf, vec![1, 2, 3]);
}

#[test]
fn dir_entry_block_has_four_byte_count_of_entries() {
    let a = DirEntry { qid: qid(), offset: 0, typ: 0, name: ".".to_owned() };
    let b = DirEntry { qid: qid(), offset: 1, typ: 0, name: "..".to_owned() };
    let data = DirEntryData::new(vec![a.clone(), b.clone()]);
    assert_eq!(data.size(), 25 + 26);
    let mut buf = Vec::new();
    assert_eq!(data.encode(&mut buf), Ok(4 + 25 + 26));
    assert_eq!(&buf[..4], &[2, 0, 0, 0]);
    let mut reader = Decoder::new(buf);
    let back = DirEntryData::decode(&mut reader).unwrap();
    assert_eq!(back.data(), &[a, b]);
}

#[test]
fn version_message_bytes() {
    let msg = Msg {
        typ: MsgType::Tversion,
        tag: 0xffff,
        body: Fcall::Tversion { msize: 8192, version: "9P2000.L".to_owned() },
    };
    let mut buf = Vec::new();
    assert_eq!(write_msg(&mut buf, &msg), Ok(21));
    assert_eq!(
        buf,
        vec![
            21, 0, 0, 0, 100, 0xff, 0xff, 0x00, 0x20, 0, 0, 8, 0, b'9', b'P', b'2', b'0', b'0',
            b'0', b'.', b'L'
        ]
    );
    let mut reader = Decoder::new(buf);
    assert_eq!(read_msg(&mut reader), Ok(msg));
}

#[test]
fn message_without_body_is_seven_bytes() {
    let msg = Msg { typ: MsgType::Rclunk, tag: 1, body: Fcall::Rclunk };
    let mut buf = Vec::new();
    assert_eq!(write_msg(&mut buf, &msg), Ok(7));
    assert_eq!(buf, vec![7, 0, 0, 0, 121, 1, 0]);
}

#[test]
fn message_goes_behind_what_the_buffer_holds() {
    let msg = Msg { typ: MsgType::Rflush, tag: 2, body: Fcall::Rflush };
    let mut buf = vec![0xaa];
    assert_eq!(write_msg(&mut buf, &msg), Ok(7));
    assert_eq!(buf, vec![0xaa, 7, 0, 0, 0, 109, 2, 0]);
}

#[test]
fn rgetattr_ends_with_four_zero_fields() {
    let msg = Msg {
        typ: MsgType::Rgetattr,
        tag: 3,
        body: Fcall::Rgetattr { valid: 0x7ff, qid: qid(), stat: stat() },
    };
    let mut buf = Vec::new();
    assert_eq!(write_msg(&mut buf, &msg), Ok(7 + 8 + 13 + 100 + 32));
    assert_eq!(&buf[7..15], &0x7ffu64.to_le_bytes());
    assert_eq!(buf[15], 0x80);
    assert_eq!(&buf[28..32], &0o40755u32.to_le_bytes());
    assert_eq!(&buf[128..], &[0u8; 32]);
    let mut reader = Decoder::new(buf.clone());
    assert_eq!(read_msg(&mut reader), Ok(msg.clone()));

    // the reserved fields are read and discarded, whatever they hold
    let last = buf.len() - 1;
    buf[last] = 0x55;
    let mut reader = Decoder::new(buf.clone());
    assert_eq!(read_msg(&mut reader), Ok(msg));

    // and they must be there
    buf.truncate(last);
    buf[0] -= 1;
    let mut reader = Decoder::new(buf);
    assert_eq!(read_msg(&mut reader), Err(io(IoErrorKind::UnexpectedEof)));
}

#[test]
fn every_kind_of_message_round_trips() {
    let s = |x: &str| x.to_owned();
    round_trip(MsgType::Rlerror, Fcall::Rlerror { ecode: 2 });
    round_trip(MsgType::Tstatfs, Fcall::Tstatfs { fid: 1 });
    round_trip(
        MsgType::Rstatfs,
        Fcall::Rstatfs {
            statfs: Statfs {
                typ: 1,
                bsize: 2,
                blocks: 3,
                bfree: 4,
                bavail: 5,
                files: 6,
                ffree: 7,
                fsid: 8,
                namelen: 9,
            },
        },
    );
    round_trip(MsgType::Tlopen, Fcall::Tlopen { fid: 1, flags: 2 });
    round_trip(MsgType::Rlopen, Fcall::Rlopen { qid: qid(), iounit: 8168 });
    round_trip(
        MsgType::Tlcreate,
        Fcall::Tlcreate { fid: 1, name: s("f"), flags: 2, mode: 3, gid: 4 },
    );
    round_trip(MsgType::Rlcreate, Fcall::Rlcreate { qid: qid(), iounit: 0 });
    round_trip(
        MsgType::Tsymlink,
        Fcall::Tsymlink { fid: 1, name: s("l"), symtgt: s("/t"), gid: 4 },
    );
    round_trip(MsgType::Rsymlink, Fcall::Rsymlink { qid: qid() });
    round_trip(
        MsgType::Tmknod,
        Fcall::Tmknod { dfid: 1, name: s("n"), mode: 2, major: 3, minor: 4, gid: 5 },
    );
    round_trip(MsgType::Rmknod, Fcall::Rmknod { qid: qid() });
    round_trip(MsgType::Trename, Fcall::Trename { fid: 1, dfid: 2, name: s("n") });
    round_trip(MsgType::Rrename, Fcall::Rrename);
    round_trip(MsgType::Treadlink, Fcall::Treadlink { fid: 1 });
    round_trip(MsgType::Rreadlink, Fcall::Rreadlink { target: s("/x/y") });
    round_trip(MsgType::Tgetattr, Fcall::Tgetattr { fid: 1, req_mask: 0x3fff });
    round_trip(
        MsgType::Rgetattr,
        Fcall::Rgetattr { valid: 0x7ff, qid: qid(), stat: stat() },
    );
    round_trip(
        MsgType::Tsetattr,
        Fcall::Tsetattr {
            fid: 1,
            valid: 0x1ff,
            stat: SetAttr { mode: 1, uid: 2, gid: 3, size: 4, atime: time(5), mtime: time(6) },
        },
    );
    round_trip(MsgType::Rsetattr, Fcall::Rsetattr);
    round_trip(
        MsgType::Txattrwalk,
        Fcall::Txattrwalk { fid: 1, newfid: 2, name: s("user.x") },
    );
    round_trip(MsgType::Rxattrwalk, Fcall::Rxattrwalk { size: 77 });
    round_trip(
        MsgType::Txattrcreate,
        Fcall::Txattrcreate { fid: 1, name: s("user.x"), attr_size: 9, flags: 1 },
    );
    round_trip(MsgType::Rxattrcreate, Fcall::Rxattrcreate);
    round_trip(MsgType::Treaddir, Fcall::Treaddir { fid: 1, offset: 0, count: 8192 });
    round_trip(
        MsgType::Rreaddir,
        Fcall::Rreaddir {
            data: DirEntryData::new(vec![
                DirEntry { qid: qid(), offset: 0, typ: 4, name: s(".") },
                DirEntry { qid: qid(), offset: 1, typ: 4, name: s("..") },
                DirEntry { qid: qid(), offset: 2, typ: 8, name: s("file") },
            ]),
        },
    );
    round_trip(MsgType::Rreaddir, Fcall::Rreaddir { data: DirEntryData::new(Vec::new()) });
    round_trip(MsgType::Tfsync, Fcall::Tfsync { fid: 1 });
    round_trip(MsgType::Rfsync, Fcall::Rfsync);
    round_trip(
        MsgType::Tlock,
        Fcall::Tlock {
            fid: 1,
            flock: Flock {
                typ: 1,
                flags: 1,
                start: 0,
                length: 10,
                proc_id: 42,
                client_id: s("host"),
            },
        },
    );
    round_trip(MsgType::Rlock, Fcall::Rlock { status: 1 });
    round_trip(
        MsgType::Tgetlock,
        Fcall::Tgetlock {
            fid: 1,
            flock: Getlock { typ: 0, start: 0, length: 10, proc_id: 42, client_id: s("host") },
        },
    );
    round_trip(
        MsgType::Rgetlock,
        Fcall::Rgetlock {
            flock: Getlock { typ: 2, start: 0, length: 10, proc_id: 42, client_id: s("host") },
        },
    );
    round_trip(MsgType::Tlink, Fcall::Tlink { dfid: 1, fid: 2, name: s("n") });
    round_trip(MsgType::Rlink, Fcall::Rlink);
    round_trip(MsgType::Tmkdir, Fcall::Tmkdir { dfid: 1, name: s("d"), mode: 0o755, gid: 5 });
    round_trip(MsgType::Rmkdir, Fcall::Rmkdir { qid: qid() });
    round_trip(
        MsgType::Trenameat,
        Fcall::Trenameat { olddirfid: 1, oldname: s("a"), newdirfid: 2, newname: s("b") },
    );
    round_trip(MsgType::Rrenameat, Fcall::Rrenameat);
    round_trip(MsgType::Tunlinkat, Fcall::Tunlinkat { dirfd: 1, name: s("a"), flags: 0x200 });
    round_trip(MsgType::Runlinkat, Fcall::Runlinkat);
    round_trip(
        MsgType::Tauth,
        Fcall::Tauth { afid: 1, uname: s("u"), aname: s("/"), n_uname: 1000 },
    );
    round_trip(MsgType::Rauth, Fcall::Rauth { aqid: qid() });
    round_trip(
        MsgType::Tattach,
        Fcall::Tattach { fid: 0, afid: 0xffff_ffff, uname: s("u"), aname: s("/"), n_uname: 0 },
    );
    round_trip(MsgType::Rattach, Fcall::Rattach { qid: qid() });
    round_trip(MsgType::Tversion, Fcall::Tversion { msize: 8192, version: s("9P2000.L") });
    round_trip(MsgType::Rversion, Fcall::Rversion { msize: 8192, version: s("9P2000.L") });
    round_trip(MsgType::Tflush, Fcall::Tflush { oldtag: 9 });
    round_trip(MsgType::Rflush, Fcall::Rflush);
    round_trip(
        MsgType::Twalk,
        Fcall::Twalk { fid: 1, newfid: 2, wnames: vec![s("usr"), s("lib")] },
    );
    round_trip(MsgType::Twalk, Fcall::Twalk { fid: 1, newfid: 2, wnames: Vec::new() });
    round_trip(MsgType::Rwalk, Fcall::Rwalk { wqids: vec![qid(), qid()] });
    round_trip(MsgType::Rwalk, Fcall::Rwalk { wqids: Vec::new() });
    round_trip(MsgType::Tread, Fcall::Tread { fid: 1, offset: 0, count: 4096 });
    round_trip(MsgType::Rread, Fcall::Rread { data: Data::new(vec![1, 2, 3]) });
    round_trip(MsgType::Rread, Fcall::Rread { data: Data::new(Vec::new()) });
    round_trip(
        MsgType::Twrite,
        Fcall::Twrite { fid: 1, offset: 10, data: Data::new(vec![0; 1000]) },
    );
    round_trip(MsgType::Rwrite, Fcall::Rwrite { count: 1000 });
    round_trip(MsgType::Tclunk, Fcall::Tclunk { fid: 1 });
    round_trip(MsgType::Rclunk, Fcall::Rclunk);
    round_trip(MsgType::Tremove, Fcall::Tremove { fid: 1 });
    round_trip(MsgType::Rremove, Fcall::Rremove);
}

#[test]
fn message_type_codes() {
    let table: [(MsgType, u8); 8] = [
        (MsgType::Tlerror, 6),
        (MsgType::Rlerror, 7),
        (MsgType::Tstatfs, 8),
        (MsgType::Treaddir, 40),
        (MsgType::Rrenameat, 75),
        (MsgType::Tversion, 100),
        (MsgType::Rwalk, 111),
        (MsgType::Rremove, 123),
    ];
    for (typ, code) in table {
        assert_eq!(typ.code(), code);
        assert_eq!(MsgType::from_u8(code), Some(typ));
    }
    let mut known = 0;
    for code in 0..=255u8 {
        if let Some(typ) = MsgType::from_u8(code) {
            assert_eq!(typ.code(), code);
            known += 1;
        }
    }
    assert_eq!(known, 58);
    for code in [0u8, 5, 10, 11, 28, 29, 106, 107, 112, 115, 124, 255] {
        assert_eq!(MsgType::from_u8(code), None);
    }
}

#[test]
fn unknown_message_type_is_a_protocol_error() {
    let mut reader = Decoder::new(vec![7, 0, 0, 0, 200, 1, 0]);
    assert_eq!(read_msg(&mut reader), Err(io(IoErrorKind::Other)));
    // Tlerror is never sent
    let mut reader = Decoder::new(vec![7, 0, 0, 0, 6, 1, 0]);
    assert_eq!(read_msg(&mut reader), Err(io(IoErrorKind::Other)));
}

#[test]
fn size_under_four_is_a_protocol_error() {
    let mut reader = Decoder::new(vec![3, 0, 0, 0, 121, 1, 0]);
    assert_eq!(read_msg(&mut reader), Err(io(IoErrorKind::Other)));
    assert_eq!(frame_rest(3), Err(io(IoErrorKind::Other)));
    assert_eq!(frame_rest(0), Err(io(IoErrorKind::Other)));
    assert_eq!(frame_rest(4), Ok(0));
    assert_eq!(frame_rest(8192), Ok(8188));
}

#[test]
fn frame_cut_short_is_unexpected_eof() {
    let msg = Msg { typ: MsgType::Tclunk, tag: 1, body: Fcall::Tclunk { fid: 7 } };
    let mut buf = Vec::new();
    write_msg(&mut buf, &msg).unwrap();
    for cut in 0..buf.len() {
        let mut reader = Decoder::new(buf[..cut].to_vec());
        assert_eq!(read_msg(&mut reader), Err(io(IoErrorKind::UnexpectedEof)));
    }
    // a frame that is whole but too small for its body
    let mut reader = Decoder::new(vec![9, 0, 0, 0, 120, 1, 0, 7, 0]);
    assert_eq!(read_msg(&mut reader), Err(io(IoErrorKind::UnexpectedEof)));
}

#[test]
fn reader_stops_at_the_end_of_the_frame() {
    let first = Msg { typ: MsgType::Tclunk, tag: 1, body: Fcall::Tclunk { fid: 7 } };
    let second = Msg { typ: MsgType::Tremove, tag: 2, body: Fcall::Tremove { fid: 8 } };
    let mut buf = Vec::new();
    write_msg(&mut buf, &first).unwrap();
    write_msg(&mut buf, &second).unwrap();
    let mut reader = Decoder::new(buf);
    assert_eq!(read_msg(&mut reader), Ok(first));
    assert_eq!(reader.len(), 11);
    assert_eq!(read_msg(&mut reader), Ok(second));
    assert_eq!(reader.len(), 0);
}

#[test]
fn bytes_of_a_frame_behind_the_body_are_passed_over() {
    let mut reader = Decoder::new(vec![13, 0, 0, 0, 120, 1, 0, 7, 0, 0, 0, 0xee, 0xee, 0x55]);
    assert_eq!(
        read_msg(&mut reader),
        Ok(Msg { typ: MsgType::Tclunk, tag: 1, body: Fcall::Tclunk { fid: 7 } })
    );
    assert_eq!(reader.len(), 1);
}

#[test]
fn message_with_a_string_too_long_cannot_be_encoded() {
    let msg = Msg {
        typ: MsgType::Rreadlink,
        tag: 1,
        body: Fcall::Rreadlink { target: "x".repeat(70000) },
    };
    let mut buf = vec![1];
    assert_eq!(write_msg(&mut buf, &msg), Err(io(IoErrorKind::InvalidInput)));
    assert_eq!(buf, vec![1]);
    let msg = Msg {
        typ: MsgType::Twalk,
        tag: 1,
        body: Fcall::Twalk { fid: 0, newfid: 1, wnames: vec![String::new(); 0x10000] },
    };
    assert_eq!(write_msg(&mut buf, &msg), Err(io(IoErrorKind::InvalidInput)));
    assert_eq!(buf, vec![1]);
}

#[test]
fn encoder_counts_what_it_wrote() {
    let mut encoder = Encoder::new(vec![0xff]);
    assert_eq!(encoder.bytes_written(), 0);
    assert_eq!(encoder.encode(&0x0102u16), Ok(2));
    assert_eq!(encoder.encode(&"ab".to_owned()), Ok(4));
    assert_eq!(encoder.bytes_written(), 6);
    assert_eq!(
        encoder.encode(&"a".repeat(0x10000)),
        Err(io(IoErrorKind::InvalidInput))
    );
    assert_eq!(encoder.bytes_written(), 6);
    assert_eq!(encoder.into_inner(), vec![0xff, 2, 1, 2, 0, b'a', b'b']);
}

#[test]
fn decoder_takes_bytes_in_order() {
    let mut decoder = Decoder::new(vec![1, 2, 3, 4, 5]);
    assert_eq!(decoder.len(), 5);
    assert_eq!(decoder.take(2), Ok(vec![1, 2]));
    assert_eq!(decoder.take(0), Ok(Vec::new()));
    assert_eq!(decoder.take(4), Err(io(IoErrorKind::UnexpectedEof)));
    assert_eq!(decoder.decode::<u8>(), Ok(3));
    assert_eq!(decoder.take(2), Ok(vec![4, 5]));
    assert_eq!(decoder.len(), 0);
    assert_eq!(decoder.into_inner(), vec![1, 2, 3, 4, 5]);
}
