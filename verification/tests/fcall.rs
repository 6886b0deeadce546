use rs9p::fcall::getattr;
use rs9p::fcall::lflag;
use rs9p::fcall::lstatus;
use rs9p::fcall::ltype;
use rs9p::fcall::qt;
use rs9p::fcall::rs9p2000;
use rs9p::fcall::setattr;
use rs9p::fcall::IOHDRSZ;
use rs9p::fcall::NOFID;
use rs9p::fcall::NONUNAME;
use rs9p::fcall::NOTAG;
use rs9p::fcall::P92000L;
use rs9p::fcall::READDIRHDRSZ;
use rs9p::fcall::V9FS_PORT;
use rs9p::Data;
use rs9p::DirEntry;
use rs9p::DirEntryData;
use rs9p::Fcall;
use rs9p::Flock;
use rs9p::Getlock;
use rs9p::MsgType;
use rs9p::Qid;
use rs9p::SetAttr;
use rs9p::Time;

fn s(x: &str) -> String {
    x.to_owned()
}

#[test]
fn fids_of_each_request() {
    let lock = Flock { typ: 0, flags: 0, start: 0, length: 0, proc_id: 0, client_id: s("") };
    let getlock = Getlock { typ: 0, start: 0, length: 0, proc_id: 0, client_id: s("") };
    let attr = SetAttr {
        mode: 0,
        uid: 0,
        gid: 0,
        size: 0,
        atime: Time { sec: 0, nsec: 0 },
        mtime: Time { sec: 0, nsec: 0 },
    };
    let table: Vec<(Fcall, Vec<u32>, Vec<u32>)> = vec![
        (Fcall::Tstatfs { fid: 1 }, vec![1], vec![]),
        (Fcall::Tlopen { fid: 1, flags: 0 }, vec![1], vec![]),
        (Fcall::Tlcreate { fid: 1, name: s("n"), flags: 0, mode: 0, gid: 0 }, vec![1], vec![]),
        (Fcall::Tsymlink { fid: 1, name: s("n"), symtgt: s("t"), gid: 0 }, vec![1], vec![]),
        (
            Fcall::Tmknod { dfid: 1, name: s("n"), mode: 0, major: 0, minor: 0, gid: 0 },
            vec![1],
            vec![],
        ),
        (Fcall::Trename { fid: 1, dfid: 2, name: s("n") }, vec![1, 2], vec![]),
        (Fcall::Treadlink { fid: 1 }, vec![1], vec![]),
        (Fcall::Tgetattr { fid: 1, req_mask: 0 }, vec![1], vec![]),
        (Fcall::Tsetattr { fid: 1, valid: 0, stat: attr }, vec![1], vec![]),
        (Fcall::Txattrwalk { fid: 1, newfid: 2, name: s("n") }, vec![1], vec![2]),
        (Fcall::Txattrcreate { fid: 1, name: s("n"), attr_size: 0, flags: 0 }, vec![1], vec![]),
        (Fcall::Treaddir { fid: 1, offset: 0, count: 0 }, vec![1], vec![]),
        (Fcall::Tfsync { fid: 1 }, vec![1], vec![]),
        (Fcall::Tlock { fid: 1, flock: lock }, vec![1], vec![]),
        (Fcall::Tgetlock { fid: 1, flock: getlock }, vec![1], vec![]),
        (Fcall::Tlink { dfid: 1, fid: 2, name: s("n") }, vec![1, 2], vec![]),
        (Fcall::Tmkdir { dfid: 1, name: s("n"), mode: 0, gid: 0 }, vec![1], vec![]),
        (
            Fcall::Trenameat { olddirfid: 1, oldname: s("a"), newdirfid: 2, newname: s("b") },
            vec![1, 2],
            vec![],
        ),
        (Fcall::Tunlinkat { dirfd: 1, name: s("n"), flags: 0 }, vec![1], vec![]),
        (Fcall::Tauth { afid: 1, uname: s("u"), aname: s("a"), n_uname: 0 }, vec![], vec![1]),
        (
            Fcall::Tattach { fid: 1, afid: 2, uname: s("u"), aname: s("a"), n_uname: 0 },
            vec![],
            vec![1],
        ),
        (Fcall::Tversion { msize: 0, version: s("v") }, vec![], vec![]),
        (Fcall::Tflush { oldtag: 0 }, vec![], vec![]),
        (Fcall::Twalk { fid: 1, newfid: 2, wnames: vec![] }, vec![1], vec![2]),
        (Fcall::Tread { fid: 1, offset: 0, count: 0 }, vec![1], vec![]),
        (Fcall::Twrite { fid: 1, offset: 0, data: Data::new(vec![]) }, vec![1], vec![]),
        (Fcall::Tclunk { fid: 1 }, vec![1], vec![]),
        (Fcall::Tremove { fid: 1 }, vec![1], vec![]),
        (Fcall::Rclunk, vec![], vec![]),
        (Fcall::Rlerror { ecode: 1 }, vec![], vec![]),
        (Fcall::Rattach { qid: Qid { typ: 0, version: 0, path: 0 } }, vec![], vec![]),
    ];
    for (body, fids, newfids) in table {
        assert_eq!(body.fid(), fids);
        assert_eq!(body.newfid(), newfids);
        assert_eq!(body.qid(), None);
    }
}

#[test]
fn message_type_of_a_body() {
    assert_eq!(Fcall::Tclunk { fid: 1 }.msg_type(), MsgType::Tclunk);
    assert_eq!(Fcall::Rclunk.msg_type(), MsgType::Rclunk);
    assert_eq!(Fcall::Rlerror { ecode: 1 }.msg_type(), MsgType::Rlerror);
    assert_eq!(Fcall::Tversion { msize: 1, version: s("") }.msg_type(), MsgType::Tversion);
    assert_eq!(Fcall::Rread { data: Data::new(vec![]) }.msg_type(), MsgType::Rread);
}

#[test]
fn constants_of_the_protocol() {
    assert_eq!(P92000L, "9P2000.L");
    assert_eq!(NOTAG, !0);
    assert_eq!(NOFID, !0);
    assert_eq!(NONUNAME, !0);
    assert_eq!(IOHDRSZ, 24);
    assert_eq!(READDIRHDRSZ, 24);
    assert_eq!(V9FS_PORT, 564);
    assert_eq!(qt::DIR, 0x80);
    assert_eq!(qt::APPEND | qt::EXCL | qt::MOUNT | qt::AUTH | qt::TMP, 0x7c);
    assert_eq!(qt::SYMLINK | qt::LINK | qt::FILE, 0x03);
    assert_eq!((ltype::RDLOCK, ltype::WRLOCK, ltype::UNLOCK), (0, 1, 2));
    assert_eq!((lflag::BLOCK, lflag::RECLAIM), (1, 2));
    assert_eq!(
        (lstatus::SUCCESS, lstatus::BLOCKED, lstatus::ERROR, lstatus::GRACE),
        (0, 1, 2, 3)
    );
    assert_eq!(getattr::BASIC, 0x7ff);
    assert_eq!(
        getattr::ALL,
        getattr::BASIC | getattr::BTIME | getattr::GEN | getattr::DATA_VERSION
    );
    assert_eq!(setattr::ATIME_SET | setattr::MTIME_SET, 0x180);
    assert_eq!(rs9p2000::dm::DIR, 0x8000_0000);
    assert_eq!(rs9p2000::om::RCLOSE, 64);
}

#[test]
fn data_and_entries_hold_what_they_were_given() {
    assert_eq!(Data::new(vec![1, 2]).data(), &[1, 2]);
    let e = DirEntry { qid: Qid { typ: 0, version: 0, path: 1 }, offset: 0, typ: 0, name: s("x") };
    let mut d = DirEntryData::new(vec![e.clone()]);
    assert_eq!(d.data(), &[e.clone()]);
    d.push(e.clone());
    assert_eq!(d.data(), &[e.clone(), e]);
    assert_eq!(d.size(), 50);
}

#[test]
fn size_of_an_old_stat() {
    let stat = rs9p2000::Stat {
        typ: 0,
        dev: 0,
        qid: Qid { typ: 0, version: 0, path: 0 },
        mode: 0,
        atime: 0,
        mtime: 0,
        length: 0,
        name: s("name"),
        uid: s("u"),
        gid: s("gg"),
        muid: s(""),
    };
    assert_eq!(stat.size(), 47 + 4 + 1 + 2);
    let long = rs9p2000::Stat { name: "x".repeat(0x10000), ..stat };
    assert_eq!(long.size(), 47 + 1 + 2);
}
