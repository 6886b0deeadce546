use rs9p::error::Errno;
use rs9p::error::Error;
use rs9p::error::IoError;
use rs9p::error::IoErrorKind;
use rs9p::fcall::NOFID;
use rs9p::serialize::read_msg;
use rs9p::serialize::write_msg;
use rs9p::serialize::Decoder;
use rs9p::srv::dispatch_once;
use rs9p::srv::filesystem::accept_version;
use rs9p::srv::filesystem::unsupported;
use rs9p::srv::respond;
use rs9p::srv::serve;
use rs9p::srv::settle;
use rs9p::utils::str_eq;
use rs9p::Data;
use rs9p::DirEntry;
use rs9p::DirEntryData;
use rs9p::Fcall;
use rs9p::Fid;
use rs9p::FidTable;
use rs9p::Filesystem;
use rs9p::Msg;
use rs9p::MsgType;
use rs9p::Qid;
use rs9p::ServerInstance;

/// A file system that implements nothing.
struct Noop;

impl Filesystem for Noop {
    type Fid = ();
}

/// A file system of one directory with one regular file of three bytes.
struct Small {
    clunk_fails: bool,
    names: Vec<String>,
}

fn small() -> Small {
    Small { clunk_fails: false, names: vec!["0123456789abcdef".to_owned(), "b".to_owned()] }
}

fn qid(path: u64) -> Qid {
    Qid { typ: 0, version: 0, path }
}

impl Filesystem for Small {
    type Fid = String;

    fn rattach(
        &mut self,
        fid: &mut Fid<String>,
        afid: Option<&mut Fid<String>>,
        _uname: &str,
        _aname: &str,
        _n_uname: u32,
    ) -> rs9p::Result<Fcall> {
        assert!(afid.is_none());
        assert!(fid.aux.is_none());
        fid.aux = Some("/".to_owned());
        Ok(Fcall::Rattach { qid: Qid { typ: 0x80, version: 0, path: 1 } })
    }

    fn rauth(
        &mut self,
        afid: &mut Fid<String>,
        _uname: &str,
        _aname: &str,
        _n_uname: u32,
    ) -> rs9p::Result<Fcall> {
        assert!(afid.aux.is_none());
        afid.aux = Some("auth".to_owned());
        Ok(Fcall::Rauth { aqid: Qid { typ: 0x08, version: 0, path: 9 } })
    }

    fn rwalk(
        &mut self,
        fid: &mut Fid<String>,
        new: &mut Fid<String>,
        wnames: &[String],
    ) -> rs9p::Result<Fcall> {
        assert!(new.aux.is_none());
        let mut path = fid.aux().clone();
        let mut wqids = Vec::new();
        for (i, name) in wnames.iter().enumerate() {
            if name == "missing" {
                if i == 0 {
                    return Err(Error::No(Errno::ENOENT));
                }
                break;
            }
            path.push_str(name);
            wqids.push(qid(2 + i as u64));
        }
        new.aux = Some(path);
        Ok(Fcall::Rwalk { wqids })
    }

    fn rread(&mut self, fid: &mut Fid<String>, offset: u64, count: u32) -> rs9p::Result<Fcall> {
        assert_eq!(fid.aux(), "/file");
        let file = [10u8, 20, 30];
        let from = (offset as usize).min(file.len());
        let to = (from + count as usize).min(file.len());
        Ok(Fcall::Rread { data: Data::new(file[from..to].to_vec()) })
    }

    fn rreaddir(&mut self, _: &mut Fid<String>, offset: u64, count: u32) -> rs9p::Result<Fcall> {
        let mut data = DirEntryData::new(Vec::new());
        for (i, name) in self.names.iter().enumerate().skip(offset as usize) {
            let entry =
                DirEntry { qid: qid(i as u64), offset: i as u64, typ: 0, name: name.clone() };
            if !data.push_within(entry, count) {
                break;
            }
        }
        Ok(Fcall::Rreaddir { data })
    }

    fn rrename(
        &mut self,
        fid: &mut Fid<String>,
        dfid: &mut Fid<String>,
        _name: &str,
    ) -> rs9p::Result<Fcall> {
        // a file system may do what it likes with what it is handed
        std::mem::swap(fid, dfid);
        Ok(Fcall::Rrename)
    }

    fn rxattrwalk(
        &mut self,
        fid: &mut Fid<String>,
        new: &mut Fid<String>,
        name: &str,
    ) -> rs9p::Result<Fcall> {
        new.aux = Some(format!("{}#{}", fid.aux(), name));
        Ok(Fcall::Rxattrwalk { size: 0 })
    }

    fn rlopen(&mut self, fid: &mut Fid<String>, _flags: u32) -> rs9p::Result<Fcall> {
        fid.aux_mut().push_str("+open");
        Err(Error::Io(IoError { kind: IoErrorKind::PermissionDenied, raw_os_error: None }))
    }

    fn rreadlink(&mut self, _: &mut Fid<String>) -> rs9p::Result<Fcall> {
        Ok(Fcall::Rreadlink { target: "t".repeat(70000) })
    }

    fn rfsync(&mut self, _: &mut Fid<String>) -> rs9p::Result<Fcall> {
        Ok(Fcall::Tfsync { fid: 0 })
    }

    fn rstatfs(&mut self, _: &mut Fid<String>) -> rs9p::Result<Fcall> {
        Err(Error::Io(IoError { kind: IoErrorKind::Other, raw_os_error: Some(28) }))
    }

    fn rclunk(&mut self, _: &mut Fid<String>) -> rs9p::Result<Fcall> {
        if self.clunk_fails {
            Err(Error::No(Errno::EBUSY))
        } else {
            Ok(Fcall::Rclunk)
        }
    }

    fn rremove(&mut self, _: &mut Fid<String>) -> rs9p::Result<Fcall> {
        Ok(Fcall::Rremove)
    }

    fn rflush(&mut self, old: Option<&mut Fcall>) -> rs9p::Result<Fcall> {
        assert!(old.is_none());
        Ok(Fcall::Rflush)
    }
}

fn request(tag: u16, body: Fcall) -> Msg {
    Msg { typ: body.msg_type(), tag, body }
}

fn ask<Fs: Filesystem>(fs: &mut Fs, table: &mut FidTable<Fs::Fid>, tag: u16, body: Fcall) -> Fcall {
    let (reply, back) = dispatch_once(&request(tag, body), fs, table).unwrap();
    assert_eq!(back, tag);
    reply
}

fn attach(fs: &mut Small, table: &mut FidTable<String>, fid: u32) {
    let reply = ask(
        fs,
        table,
        1,
        Fcall::Tattach {
            fid,
            afid: NOFID,
            uname: "u".to_owned(),
            aname: "/".to_owned(),
            n_uname: 0,
        },
    );
    assert_eq!(reply, Fcall::Rattach { qid: Qid { typ: 0x80, version: 0, path: 1 } });
}

fn walk(
    fs: &mut Small,
    table: &mut FidTable<String>,
    fid: u32,
    newfid: u32,
    names: &[&str],
) -> Fcall {
    let wnames = names.iter().map(|n| n.to_string()).collect();
    ask(fs, table, 2, Fcall::Twalk { fid, newfid, wnames })
}

fn state(table: &mut FidTable<String>, fid: u32) -> Option<String> {
    let f = table.take(fid).unwrap();
    assert_eq!(f.fid(), fid);
    let aux = f.aux.clone();
    table.insert(f);
    aux
}

fn enoent() -> Fcall {
    Fcall::Rlerror { ecode: 2 }
}

#[test]
fn handshake() {
    let mut table = FidTable::new();
    let reply = ask(
        &mut Noop,
        &mut table,
        0xffff,
        Fcall::Tversion { msize: 8192, version: "9P2000.L".to_owned() },
    );
    assert_eq!(reply, Fcall::Rversion { msize: 8192, version: "9P2000.L".to_owned() });
    let reply = ask(
        &mut Noop,
        &mut table,
        0xffff,
        Fcall::Tversion { msize: 8192, version: "9P2000".to_owned() },
    );
    assert_eq!(reply, Fcall::Rlerror { ecode: 93 });
}

#[test]
fn handshake_on_the_wire() {
    let mut server = ServerInstance::new(Noop);
    let mut frame = Vec::new();
    write_msg(
        &mut frame,
        &request(0xffff, Fcall::Tversion { msize: 8192, version: "9P2000.L".to_owned() }),
    )
    .unwrap();
    let reply = server.dispatch(frame).unwrap();
    assert_eq!(
        reply,
        vec![
            21, 0, 0, 0, 101, 0xff, 0xff, 0x00, 0x20, 0, 0, 8, 0, b'9', b'P', b'2', b'0', b'0',
            b'0', b'.', b'L'
        ]
    );
    let mut frame = Vec::new();
    write_msg(
        &mut frame,
        &request(0xffff, Fcall::Tversion { msize: 8192, version: "9P2000".to_owned() }),
    )
    .unwrap();
    let reply = server.dispatch(frame).unwrap();
    assert_eq!(reply, vec![11, 0, 0, 0, 7, 0xff, 0xff, 93, 0, 0, 0]);
}

#[test]
fn connection_takes_note_of_what_was_agreed() {
    let mut server = ServerInstance::new(small());
    assert_eq!(server.msize(), None);
    assert_eq!(server.version(), None);
    let version = |v: &str| {
        let mut frame = Vec::new();
        write_msg(
            &mut frame,
            &request(0xffff, Fcall::Tversion { msize: 4096, version: v.to_owned() }),
        )
        .unwrap();
        frame
    };
    assert!(server.dispatch(version("9P2000.L")).is_ok());
    assert_eq!(server.msize(), Some(4096));
    assert_eq!(server.version(), Some("9P2000.L"));
    // any other request leaves it
    let mut frame = Vec::new();
    write_msg(&mut frame, &request(1, Fcall::Tflush { oldtag: 0 })).unwrap();
    assert!(server.dispatch(frame).is_ok());
    assert_eq!(server.msize(), Some(4096));
    // a version that is refused ends what was agreed
    assert_eq!(
        server.dispatch(version("9P2000")),
        Ok(vec![11, 0, 0, 0, 7, 0xff, 0xff, 93, 0, 0, 0])
    );
    assert_eq!(server.msize(), None);
    assert_eq!(server.version(), None);
}

#[test]
fn default_version_callback() {
    assert_eq!(
        accept_version(4096, "9P2000.L"),
        Ok(Fcall::Rversion { msize: 4096, version: "9P2000.L".to_owned() })
    );
    assert_eq!(accept_version(4096, "9P2000.u"), Err(Error::No(Errno::EPROTONOSUPPORT)));
    assert_eq!(accept_version(4096, ""), Err(Error::No(Errno::EPROTONOSUPPORT)));
    assert_eq!(accept_version(4096, "9P2000.LL"), Err(Error::No(Errno::EPROTONOSUPPORT)));
    assert_eq!(unsupported(), Err(Error::No(Errno::EOPNOTSUPP)));
    assert!(str_eq("abc", "abc"));
    assert!(!str_eq("abc", "abd"));
    assert!(!str_eq("abc", "ab"));
    assert!(str_eq("", ""));
}

#[test]
fn attach_on_noop_backend() {
    let mut table = FidTable::new();
    let reply = ask(
        &mut Noop,
        &mut table,
        1,
        Fcall::Tattach {
            fid: 0,
            afid: NOFID,
            uname: "u".to_owned(),
            aname: "/".to_owned(),
            n_uname: 0,
        },
    );
    assert_eq!(reply, Fcall::Rlerror { ecode: 95 });
    assert!(!table.contains(0));
    assert!(!table.contains(NOFID));
}

#[test]
fn every_callback_of_a_noop_backend_is_unsupported() {
    let mut fs = Small { clunk_fails: false, names: Vec::new() };
    let mut table: FidTable<String> = FidTable::new();
    attach(&mut fs, &mut table, 0);
    walk(&mut fs, &mut table, 0, 1, &[]);
    // put the fids of the small file system under a file system without callbacks
    let mut noop: FidTable<()> = FidTable::new();
    for fid in [0, 1] {
        let mut f = FidTable::new_fid(fid);
        f.aux = Some(());
        noop.insert(f);
    }
    let s = |x: &str| x.to_owned();
    let requests = vec![
        Fcall::Tstatfs { fid: 0 },
        Fcall::Tlopen { fid: 0, flags: 0 },
        Fcall::Tlcreate { fid: 0, name: s("n"), flags: 0, mode: 0, gid: 0 },
        Fcall::Tsymlink { fid: 0, name: s("n"), symtgt: s("t"), gid: 0 },
        Fcall::Tmknod { dfid: 0, name: s("n"), mode: 0, major: 0, minor: 0, gid: 0 },
        Fcall::Trename { fid: 0, dfid: 1, name: s("n") },
        Fcall::Treadlink { fid: 0 },
        Fcall::Tgetattr { fid: 0, req_mask: 0 },
        Fcall::Txattrwalk { fid: 0, newfid: 5, name: s("n") },
        Fcall::Txattrcreate { fid: 0, name: s("n"), attr_size: 0, flags: 0 },
        Fcall::Treaddir { fid: 0, offset: 0, count: 0 },
        Fcall::Tfsync { fid: 0 },
        Fcall::Tlink { dfid: 0, fid: 1, name: s("n") },
        Fcall::Tmkdir { dfid: 0, name: s("n"), mode: 0, gid: 0 },
        Fcall::Trenameat { olddirfid: 0, oldname: s("a"), newdirfid: 1, newname: s("b") },
        Fcall::Tunlinkat { dirfd: 0, name: s("n"), flags: 0 },
        Fcall::Tauth { afid: 5, uname: s("u"), aname: s("a"), n_uname: 0 },
        Fcall::Tflush { oldtag: 0 },
        Fcall::Twalk { fid: 0, newfid: 5, wnames: Vec::new() },
        Fcall::Tread { fid: 0, offset: 0, count: 0 },
        Fcall::Twrite { fid: 0, offset: 0, data: Data::new(Vec::new()) },
        Fcall::Tclunk { fid: 0 },
        Fcall::Tremove { fid: 0 },
    ];
    for body in requests {
        let reply = ask(&mut Noop, &mut noop, 3, body);
        assert_eq!(reply, Fcall::Rlerror { ecode: 95 });
        assert!(noop.contains(0));
        assert!(noop.contains(1));
        assert!(!noop.contains(5));
    }
}

#[test]
fn walk_clone() {
    let mut fs = small();
    let mut table = FidTable::new();
    attach(&mut fs, &mut table, 0);
    assert_eq!(walk(&mut fs, &mut table, 0, 1, &[]), Fcall::Rwalk { wqids: Vec::new() });
    assert!(table.contains(0));
    assert!(table.contains(1));
    assert_eq!(state(&mut table, 0), Some("/".to_owned()));
    assert_eq!(state(&mut table, 1), Some("/".to_owned()));
}

#[test]
fn walk_onto_the_same_fid_leaves_one_entry() {
    let mut fs = small();
    let mut table = FidTable::new();
    attach(&mut fs, &mut table, 0);
    assert_eq!(walk(&mut fs, &mut table, 0, 0, &["file"]), Fcall::Rwalk { wqids: vec![qid(2)] });
    assert!(table.contains(0));
    assert_eq!(state(&mut table, 0), Some("/file".to_owned()));
    assert!(table.take(0).is_ok());
    assert!(!table.contains(0));
}

#[test]
fn walk_that_fails_installs_no_new_fid() {
    let mut fs = small();
    let mut table = FidTable::new();
    attach(&mut fs, &mut table, 0);
    assert_eq!(walk(&mut fs, &mut table, 0, 1, &["missing"]), enoent());
    assert!(table.contains(0));
    assert!(!table.contains(1));
    // a walk that stops partway succeeds with what it resolved
    assert_eq!(
        walk(&mut fs, &mut table, 0, 1, &["file", "missing"]),
        Fcall::Rwalk { wqids: vec![qid(2)] }
    );
    assert_eq!(state(&mut table, 1), Some("/file".to_owned()));
}

#[test]
fn read_eof() {
    let mut fs = small();
    let mut table = FidTable::new();
    attach(&mut fs, &mut table, 0);
    walk(&mut fs, &mut table, 0, 1, &["file"]);
    let reply = ask(&mut fs, &mut table, 3, Fcall::Tread { fid: 1, offset: 0, count: 4096 });
    assert_eq!(reply, Fcall::Rread { data: Data::new(vec![10, 20, 30]) });
    let reply = ask(&mut fs, &mut table, 4, Fcall::Tread { fid: 1, offset: 3, count: 4096 });
    assert_eq!(reply, Fcall::Rread { data: Data::new(Vec::new()) });
    assert!(table.contains(1));
}

#[test]
fn readdir_budget() {
    let mut fs = small();
    let mut table = FidTable::new();
    attach(&mut fs, &mut table, 0);
    // the first entry takes 24 + 16 = 40 bytes
    let reply = ask(&mut fs, &mut table, 3, Fcall::Treaddir { fid: 0, offset: 0, count: 32 });
    assert_eq!(reply, Fcall::Rreaddir { data: DirEntryData::new(Vec::new()) });
    let reply = ask(&mut fs, &mut table, 3, Fcall::Treaddir { fid: 0, offset: 0, count: 40 });
    match reply {
        Fcall::Rreaddir { data } => {
            assert_eq!(data.data().len(), 1);
            assert_eq!(data.size(), 40);
        }
        _ => panic!("no Rreaddir"),
    }
    let reply = ask(&mut fs, &mut table, 3, Fcall::Treaddir { fid: 0, offset: 0, count: 65 });
    match reply {
        Fcall::Rreaddir { data } => {
            assert_eq!(data.data().len(), 2);
            assert_eq!(data.size(), 65);
        }
        _ => panic!("no Rreaddir"),
    }
    let reply = ask(&mut fs, &mut table, 3, Fcall::Treaddir { fid: 0, offset: 1, count: 32 });
    match reply {
        Fcall::Rreaddir { data } => assert_eq!(data.data().len(), 1),
        _ => panic!("no Rreaddir"),
    }
}

#[test]
fn push_within_counts_what_is_there() {
    let entry = |name: &str| DirEntry { qid: qid(0), offset: 0, typ: 0, name: name.to_owned() };
    let mut data = DirEntryData::new(Vec::new());
    assert!(!data.push_within(entry(""), 23));
    assert!(data.push_within(entry(""), 24));
    assert!(!data.push_within(entry("ab"), 49));
    assert!(data.push_within(entry("ab"), 50));
    assert_eq!(data.size(), 50);
    assert!(!data.push_within(entry("c"), 0));
    assert!(data.push_within(entry("c"), u32::MAX));
    assert_eq!(data.data().len(), 3);
    assert_eq!(entry("abc").size(), 27);
    data.push(entry("abc"));
    assert_eq!(data.size(), 102);
}

#[test]
fn unknown_fid() {
    let mut fs = small();
    let mut table = FidTable::new();
    attach(&mut fs, &mut table, 0);
    assert_eq!(ask(&mut fs, &mut table, 3, Fcall::Tclunk { fid: 0 }), Fcall::Rclunk);
    assert!(!table.contains(0));
    let reply = ask(&mut fs, &mut table, 4, Fcall::Tread { fid: 0, offset: 0, count: 10 });
    assert_eq!(reply, enoent());
    assert_eq!(reply, Fcall::Rlerror { ecode: Errno::ENOENT.code() });
    assert!(!table.contains(0));
}

#[test]
fn clunk_that_fails_keeps_the_fid() {
    let mut fs = small();
    fs.clunk_fails = true;
    let mut table = FidTable::new();
    attach(&mut fs, &mut table, 0);
    assert_eq!(ask(&mut fs, &mut table, 3, Fcall::Tclunk { fid: 0 }), Fcall::Rlerror { ecode: 16 });
    assert!(table.contains(0));
    assert_eq!(state(&mut table, 0), Some("/".to_owned()));
    fs.clunk_fails = false;
    assert_eq!(ask(&mut fs, &mut table, 3, Fcall::Tclunk { fid: 0 }), Fcall::Rclunk);
    assert!(!table.contains(0));
}

#[test]
fn remove_discards_the_fid_and_no_other() {
    let mut fs = small();
    let mut table = FidTable::new();
    attach(&mut fs, &mut table, 0);
    walk(&mut fs, &mut table, 0, 1, &["file"]);
    assert_eq!(ask(&mut fs, &mut table, 3, Fcall::Tremove { fid: 1 }), Fcall::Rremove);
    assert!(table.contains(0));
    assert!(!table.contains(1));
    assert_eq!(ask(&mut fs, &mut table, 3, Fcall::Tremove { fid: 1 }), enoent());
}

#[test]
fn auth_and_xattrwalk_introduce_their_new_fid() {
    let mut fs = small();
    let mut table = FidTable::new();
    let reply = ask(
        &mut fs,
        &mut table,
        1,
        Fcall::Tauth { afid: 7, uname: "u".to_owned(), aname: "/".to_owned(), n_uname: 0 },
    );
    assert_eq!(reply, Fcall::Rauth { aqid: Qid { typ: 0x08, version: 0, path: 9 } });
    assert_eq!(state(&mut table, 7), Some("auth".to_owned()));
    attach(&mut fs, &mut table, 0);
    let reply = ask(
        &mut fs,
        &mut table,
        2,
        Fcall::Txattrwalk { fid: 0, newfid: 3, name: "user.x".to_owned() },
    );
    assert_eq!(reply, Fcall::Rxattrwalk { size: 0 });
    assert_eq!(state(&mut table, 3), Some("/#user.x".to_owned()));
    assert_eq!(state(&mut table, 0), Some("/".to_owned()));
}

fn live(table: &FidTable<String>) -> Vec<u32> {
    (0..16).filter(|fid| table.contains(*fid)).collect()
}

#[test]
fn live_fids_are_those_introduced_less_those_discarded() {
    let mut fs = small();
    let mut table = FidTable::new();
    assert_eq!(live(&table), Vec::<u32>::new());
    attach(&mut fs, &mut table, 0);
    assert_eq!(live(&table), vec![0]);
    walk(&mut fs, &mut table, 0, 1, &[]);
    walk(&mut fs, &mut table, 1, 2, &["file"]);
    assert_eq!(live(&table), vec![0, 1, 2]);
    ask(
        &mut fs,
        &mut table,
        1,
        Fcall::Tauth { afid: 5, uname: "u".to_owned(), aname: "/".to_owned(), n_uname: 0 },
    );
    ask(&mut fs, &mut table, 1, Fcall::Txattrwalk { fid: 2, newfid: 7, name: "x".to_owned() });
    assert_eq!(live(&table), vec![0, 1, 2, 5, 7]);
    // requests that introduce and discard nothing
    ask(&mut fs, &mut table, 1, Fcall::Tread { fid: 2, offset: 0, count: 1 });
    ask(&mut fs, &mut table, 1, Fcall::Tflush { oldtag: 1 });
    ask(&mut fs, &mut table, 1, Fcall::Treaddir { fid: 0, offset: 0, count: 100 });
    assert_eq!(live(&table), vec![0, 1, 2, 5, 7]);
    assert_eq!(ask(&mut fs, &mut table, 1, Fcall::Tclunk { fid: 1 }), Fcall::Rclunk);
    assert_eq!(ask(&mut fs, &mut table, 1, Fcall::Tremove { fid: 2 }), Fcall::Rremove);
    assert_eq!(live(&table), vec![0, 5, 7]);
    // requests that fail change nothing
    assert_eq!(ask(&mut fs, &mut table, 1, Fcall::Tclunk { fid: 1 }), enoent());
    assert_eq!(walk(&mut fs, &mut table, 0, 9, &["missing"]), enoent());
    assert_eq!(live(&table), vec![0, 5, 7]);
    // a fid that was discarded may be introduced again
    walk(&mut fs, &mut table, 0, 1, &[]);
    assert_eq!(live(&table), vec![0, 1, 5, 7]);
}

#[test]
fn version_resets_the_fid_table() {
    let mut fs = small();
    let mut table = FidTable::new();
    attach(&mut fs, &mut table, 0);
    walk(&mut fs, &mut table, 0, 1, &[]);
    let reply = ask(
        &mut fs,
        &mut table,
        0xffff,
        Fcall::Tversion { msize: 8192, version: "9P2000.L".to_owned() },
    );
    assert_eq!(reply, Fcall::Rversion { msize: 8192, version: "9P2000.L".to_owned() });
    assert!(!table.contains(0));
    assert!(!table.contains(1));
}

#[test]
fn fids_stay_under_their_numbers_whatever_the_file_system_does() {
    let mut fs = small();
    let mut table = FidTable::new();
    attach(&mut fs, &mut table, 1);
    walk(&mut fs, &mut table, 1, 2, &["file"]);
    let rename = Fcall::Trename { fid: 1, dfid: 2, name: "n".to_owned() };
    let reply = ask(&mut fs, &mut table, 3, rename);
    assert_eq!(reply, Fcall::Rrename);
    let one = table.take(1).unwrap();
    let two = table.take(2).unwrap();
    assert_eq!(one.fid(), 1);
    assert_eq!(two.fid(), 2);
    assert_eq!(one.aux, Some("/file".to_owned()));
    assert_eq!(two.aux, Some("/".to_owned()));
}

#[test]
fn request_that_names_a_fid_twice_is_refused() {
    let mut fs = small();
    let mut table = FidTable::new();
    attach(&mut fs, &mut table, 1);
    let rename = Fcall::Trename { fid: 1, dfid: 1, name: "n".to_owned() };
    let reply = ask(&mut fs, &mut table, 3, rename);
    assert_eq!(reply, enoent());
    assert_eq!(state(&mut table, 1), Some("/".to_owned()));
    // one fid of two is missing: the other is put back
    let reply = ask(&mut fs, &mut table, 3, Fcall::Tlink { dfid: 1, fid: 2, name: "n".to_owned() });
    assert_eq!(reply, enoent());
    assert_eq!(state(&mut table, 1), Some("/".to_owned()));
    assert!(!table.contains(2));
}

#[test]
fn error_of_the_file_system_becomes_rlerror() {
    let mut fs = small();
    let mut table = FidTable::new();
    attach(&mut fs, &mut table, 0);
    // an I/O error by its kind
    assert_eq!(
        ask(&mut fs, &mut table, 3, Fcall::Tlopen { fid: 0, flags: 0 }),
        Fcall::Rlerror { ecode: 1 }
    );
    // what the callback did to the fid before it failed stays
    assert_eq!(state(&mut table, 0), Some("/+open".to_owned()));
    // an I/O error by its raw number
    let reply = ask(&mut fs, &mut table, 3, Fcall::Tstatfs { fid: 0 });
    assert_eq!(reply, Fcall::Rlerror { ecode: 28 });
}

#[test]
fn message_that_is_no_request_is_refused() {
    let mut fs = small();
    let mut table = FidTable::new();
    attach(&mut fs, &mut table, 0);
    let protocol = Error::Io(IoError { kind: IoErrorKind::Other, raw_os_error: None });
    for body in [Fcall::Rclunk, Fcall::Rlerror { ecode: 1 }, Fcall::Rwalk { wqids: Vec::new() }] {
        assert_eq!(dispatch_once(&request(1, body), &mut fs, &mut table), Err(protocol));
        assert!(table.contains(0));
    }
}

#[test]
fn respond_wraps_replies_only() {
    assert_eq!(
        respond(9, Fcall::Rclunk),
        Ok(Msg { typ: MsgType::Rclunk, tag: 9, body: Fcall::Rclunk })
    );
    assert_eq!(
        respond(10, Fcall::Rlerror { ecode: 2 }),
        Ok(Msg { typ: MsgType::Rlerror, tag: 10, body: Fcall::Rlerror { ecode: 2 } })
    );
    assert_eq!(
        respond(9, Fcall::Tclunk { fid: 1 }),
        Err(Error::Io(IoError { kind: IoErrorKind::Other, raw_os_error: None }))
    );
}

#[test]
fn reply_carries_the_tag_of_its_request() {
    let mut fs = small();
    let mut table = FidTable::new();
    for tag in [0u16, 1, 0x1234, 0xfffe, 0xffff] {
        let mut frame = Vec::new();
        write_msg(&mut frame, &request(tag, Fcall::Tflush { oldtag: 3 })).unwrap();
        let reply = serve(frame, &mut fs, &mut table).unwrap();
        let mut reader = Decoder::new(reply);
        let flushed = Msg { typ: MsgType::Rflush, tag, body: Fcall::Rflush };
        assert_eq!(read_msg(&mut reader), Ok(flushed));
        // and so does an error reply
        let mut frame = Vec::new();
        write_msg(&mut frame, &request(tag, Fcall::Tclunk { fid: 77 })).unwrap();
        let reply = serve(frame, &mut fs, &mut table).unwrap();
        let mut reader = Decoder::new(reply);
        assert_eq!(read_msg(&mut reader), Ok(Msg { typ: MsgType::Rlerror, tag, body: enoent() }));
    }
}

#[test]
fn serve_fails_where_the_connection_must_close() {
    let mut server = ServerInstance::new(small());
    let io = |kind| Error::Io(IoError { kind, raw_os_error: None });
    // a frame that holds no message
    assert_eq!(server.dispatch(vec![7, 0, 0]), Err(io(IoErrorKind::UnexpectedEof)));
    assert_eq!(server.dispatch(vec![7, 0, 0, 0, 99, 0, 0]), Err(io(IoErrorKind::Other)));
    // a message that is no request
    assert_eq!(server.dispatch(vec![7, 0, 0, 0, 121, 0, 0]), Err(io(IoErrorKind::Other)));

    let mut frame = Vec::new();
    let attach = Fcall::Tattach {
        fid: 0,
        afid: NOFID,
        uname: "u".to_owned(),
        aname: "/".to_owned(),
        n_uname: 0,
    };
    write_msg(&mut frame, &request(1, attach)).unwrap();
    assert!(server.dispatch(frame).is_ok());
    assert!(server.has_fid(0));
    // a reply of the file system that has no wire form
    let mut frame = Vec::new();
    write_msg(&mut frame, &request(1, Fcall::Treadlink { fid: 0 })).unwrap();
    assert_eq!(server.dispatch(frame), Err(io(IoErrorKind::InvalidInput)));
    // a reply of the file system that is no reply
    let mut frame = Vec::new();
    write_msg(&mut frame, &request(1, Fcall::Tfsync { fid: 0 })).unwrap();
    assert_eq!(server.dispatch(frame), Err(io(IoErrorKind::Other)));
    assert!(server.has_fid(0));
    let _ = server.into_inner();
}

#[test]
fn fid_table_take_and_insert() {
    let mut table: FidTable<u8> = FidTable::new();
    assert_eq!(table.take(1).unwrap_err(), Error::No(Errno::ENOENT));
    let mut f = FidTable::new_fid(1);
    assert_eq!(f.fid(), 1);
    assert_eq!(f.aux, None);
    f.aux = Some(5);
    assert_eq!(*f.aux(), 5);
    *f.aux_mut() = 6;
    table.insert(f);
    assert!(table.contains(1));
    let f = table.take(1).unwrap();
    assert_eq!((f.fid(), f.aux), (1, Some(6)));
    assert!(!table.contains(1));
    assert!(table.remove(1).is_none());
    table.insert(FidTable::new_fid(2));
    assert_eq!(table.remove(2).unwrap().fid(), 2);
    table.insert(FidTable::new_fid(3));
    table.clear();
    assert!(!table.contains(3));
}

#[test]
fn fid_table_take_many() {
    let mut table: FidTable<u32> = FidTable::new();
    for fid in [1, 2, 3] {
        let mut f = FidTable::new_fid(fid);
        f.aux = Some(fid * 10);
        table.insert(f);
    }
    let taken = table.take_many(&[3, 1]).unwrap();
    assert_eq!(taken.len(), 2);
    assert_eq!((taken[0].fid(), taken[0].aux), (3, Some(30)));
    assert_eq!((taken[1].fid(), taken[1].aux), (1, Some(10)));
    assert!(!table.contains(1));
    assert!(table.contains(2));
    assert!(!table.contains(3));
    for f in taken {
        table.insert(f);
    }
    // a miss puts back what was taken
    assert_eq!(table.take_many(&[1, 2, 9]).unwrap_err(), Error::No(Errno::ENOENT));
    assert_eq!(table.take_many(&[2, 2]).unwrap_err(), Error::No(Errno::ENOENT));
    for fid in [1, 2, 3] {
        let f = table.take(fid).unwrap();
        assert_eq!(f.aux, Some(fid * 10));
    }
    assert_eq!(table.take_many(&[]).unwrap().len(), 0);
}

#[test]
fn settle_for_each_answer() {
    let fid = |raw: u32, aux: &str| {
        let mut f: Fid<String> = FidTable::new_fid(raw);
        f.aux = Some(aux.to_owned());
        f
    };
    let walk = Fcall::Twalk { fid: 1, newfid: 2, wnames: Vec::new() };
    // success: both are installed
    let mut table = FidTable::new();
    let reply = settle(
        &mut table,
        &walk,
        vec![fid(1, "a")],
        vec![fid(2, "b")],
        Ok(Fcall::Rwalk { wqids: Vec::new() }),
    );
    assert_eq!(reply, Fcall::Rwalk { wqids: Vec::new() });
    assert_eq!(state(&mut table, 1), Some("a".to_owned()));
    assert_eq!(state(&mut table, 2), Some("b".to_owned()));
    // error: only the fid of the request
    let mut table = FidTable::new();
    let reply = settle(
        &mut table,
        &walk,
        vec![fid(1, "a")],
        vec![fid(2, "b")],
        Err(Error::No(Errno::EACCES)),
    );
    assert_eq!(reply, Fcall::Rlerror { ecode: 13 });
    assert!(table.contains(1));
    assert!(!table.contains(2));
    // the entries stand under the fids of the request, whatever they say
    let mut table = FidTable::new();
    settle(&mut table, &walk, vec![fid(8, "a")], vec![fid(9, "b")], Ok(Fcall::Rflush));
    assert_eq!(state(&mut table, 1), Some("a".to_owned()));
    assert_eq!(state(&mut table, 2), Some("b".to_owned()));
    assert!(!table.contains(8));
    // clunk: discarded on success, kept on error
    let clunk = Fcall::Tclunk { fid: 1 };
    let mut table = FidTable::new();
    settle(&mut table, &clunk, vec![fid(1, "a")], Vec::new(), Ok(Fcall::Rclunk));
    assert!(!table.contains(1));
    settle(&mut table, &clunk, vec![fid(1, "a")], Vec::new(), Err(Error::No(Errno::EIO)));
    assert!(table.contains(1));
}
