//! Dispatch of one request: fid lookup, callback, fid bookkeeping, reply

use crate::error::Errno;
use crate::error::Error;
use crate::error::IoError;
use crate::error::IoErrorKind;
use crate::fcall::Fcall;
use crate::fcall::FcallView;
use crate::fcall::Msg;
use crate::fcall::MsgView;
use crate::serialize::protocol_error;
use crate::serialize::read_msg;
use crate::serialize::unencodable;
use crate::serialize::write_msg;
use crate::serialize::Decodable;
use crate::serialize::Decoder;
use crate::serialize::Encodable;
use crate::srv::filesystem::Filesystem;
use crate::srv::takeable;
use crate::srv::Fid;
use crate::srv::FidTable;
use vstd::prelude::*;

verus! {

impl FcallView {
    /// Whether this is the body of a request.
    pub open spec fn is_request(self) -> bool {
        self.msg_type().is_request()
    }

    /// Whether this is the body of a reply.
    pub open spec fn is_reply(self) -> bool {
        !self.msg_type().is_request()
    }

    /// Whether this request discards its fid where it succeeds.
    pub open spec fn drops_fid(self) -> bool {
        self is Tclunk || self is Tremove
    }
}

/// What the file system keeps with each of `fids`, in order.
pub open spec fn states<A>(fids: Seq<Fid<A>>) -> Seq<Option<A>> {
    Seq::new(fids.len(), |i: int| fids[i].state())
}

/// The mapping `m` after `states[i]` has been installed under `keys[i]`, for
/// each `i` in turn.
pub open spec fn put_all<A>(m: Map<u32, Option<A>>, keys: Seq<u32>, states: Seq<Option<A>>) -> Map<
    u32,
    Option<A>,
>
    decreases keys.len(),
{
    if keys.len() == 0 {
        m
    } else {
        put_all(m.insert(keys[0], states[0]), keys.skip(1), states.skip(1))
    }
}

/// The fids of a connection behind a request whose fids were taken out of
/// `rest` and handed to the file system. `taken` and `fresh` are what the
/// file system left with the fids of the request and with its new fids, and
/// `ok` says whether it replied without an error.
///
/// A `Tversion` discards every fid. After an error the fids of the request
/// are live as before and its new fids are not. A clunk or remove that
/// succeeds discards its fid. Any other success installs the fids of the
/// request again, and then its new fids.
pub open spec fn settled<A>(
    rest: Map<u32, Option<A>>,
    req: FcallView,
    taken: Seq<Option<A>>,
    fresh: Seq<Option<A>>,
    ok: bool,
) -> Map<u32, Option<A>> {
    if req is Tversion {
        Map::empty()
    } else if !ok {
        put_all(rest, req.fids(), taken)
    } else if req.drops_fid() {
        rest
    } else {
        put_all(put_all(rest, req.fids(), taken), req.newfids(), fresh)
    }
}

/// The reply to a request that the file system has answered with `result`:
/// its own reply, or `Rlerror` with the error number of its error.
pub open spec fn reply_of(result: Result<Fcall, Error>) -> FcallView {
    match result {
        Ok(f) => f@,
        Err(e) => FcallView::Rlerror { ecode: e.spec_errno().number() as u32 },
    }
}

/// Whether `body` is a request.
pub fn is_request(body: &Fcall) -> (r: bool)
    ensures
        r == body@.is_request(),
{
    body.msg_type().code() % 2 == 0
}

/// Installs `fids[i]` under `keys[i]`, for each `i` in turn.
fn install<A>(table: &mut FidTable<A>, keys: &[u32], fids: Vec<Fid<A>>)
    requires
        old(table).wf(),
        keys@.len() == fids@.len(),
    ensures
        final(table).wf(),
        final(table)@ == put_all(old(table)@, keys@, states(fids@)),
{
    let ghost whole = states(fids@);
    let mut fids = fids;
    let mut i: usize = 0;
    assert(keys@.skip(0) =~= keys@);
    while i < keys.len()
        invariant
            i <= keys.len(),
            table.wf(),
            fids@.len() == keys@.len() - i,
            put_all(table@, keys@.skip(i as int), states(fids@)) == put_all(
                old(table)@,
                keys@,
                whole,
            ),
        decreases keys.len() - i,
    {
        let ghost before = fids@;
        let f = fids.remove(0);
        let entry = Fid { fid: keys[i], aux: f.aux };
        table.insert(entry);
        proof {
            assert(keys@.skip(i as int).skip(1) =~= keys@.skip(i + 1));
            assert(states(before).skip(1) =~= states(fids@));
            assert(keys@.skip(i as int)[0] == keys@[i as int]);
            assert(states(before)[0] == f.state());
        }
        i = i + 1;
    }
}

/// Brings the fid table up to date behind a request that the file system
/// has answered, and gives the reply: the file system's own reply, or
/// `Rlerror` with the error number of its error.
///
/// `taken` holds the fids of the request, which were taken out of the table,
/// and `fresh` its new fids, both as the file system left them.
pub fn settle<A>(
    table: &mut FidTable<A>,
    body: &Fcall,
    taken: Vec<Fid<A>>,
    fresh: Vec<Fid<A>>,
    result: Result<Fcall, Error>,
) -> (reply: Fcall)
    requires
        old(table).wf(),
        taken@.len() == body@.fids().len(),
        fresh@.len() == body@.newfids().len(),
    ensures
        final(table).wf(),
        final(table)@ == settled(
            old(table)@,
            body@,
            states(taken@),
            states(fresh@),
            result is Ok,
        ),
        reply@ == reply_of(result),
        result is Ok ==> reply == result->Ok_0,
{
    let fids = body.fid();
    let newfids = body.newfid();
    match body {
        Fcall::Tversion { .. } => {
            table.clear();
        },
        _ => {
            match &result {
                Ok(_) => {
                    match body {
                        Fcall::Tclunk { .. } | Fcall::Tremove { .. } => {},
                        _ => {
                            install(table, fids.as_slice(), taken);
                            install(table, newfids.as_slice(), fresh);
                        },
                    }
                },
                Err(_) => {
                    install(table, fids.as_slice(), taken);
                },
            }
        },
    }
    match result {
        Ok(reply) => reply,
        Err(e) => Fcall::Rlerror { ecode: e.errno().code() },
    }
}

/// Hands a request to the callback of the file system that belongs to it,
/// with the fids of the request and its new fids, and gives what the
/// callback answered. A body that is no request has no callback: the
/// result is `None`, and the fids are left as they were.
fn call_backend<Fs: Filesystem>(
    fs: &mut Fs,
    body: &Fcall,
    taken: &mut Vec<Fid<Fs::Fid>>,
    fresh: &mut Vec<Fid<Fs::Fid>>,
) -> (result: Option<Result<Fcall, Error>>)
    requires
        old(taken)@.len() == body@.fids().len(),
        old(fresh)@.len() == body@.newfids().len(),
        forall|i: int| 0 <= i < old(fresh)@.len() ==> (#[trigger] old(fresh)@[i]).state() is None,
    ensures
        final(taken)@.len() == old(taken)@.len(),
        final(fresh)@.len() == old(fresh)@.len(),
        result is Some <==> body@.is_request(),
        result is None ==> final(taken)@ == old(taken)@ && final(fresh)@ == old(fresh)@,
{
    match body {
        Fcall::Tstatfs { .. } => {
            let mut first = taken.pop().unwrap();
            let result = fs.rstatfs(&mut first);
            taken.push(first);
            Some(result)
        },
        Fcall::Tlopen { flags, .. } => {
            let mut first = taken.pop().unwrap();
            let result = fs.rlopen(&mut first, *flags);
            taken.push(first);
            Some(result)
        },
        Fcall::Tlcreate { name, flags, mode, gid, .. } => {
            let mut first = taken.pop().unwrap();
            let result = fs.rlcreate(&mut first, name.as_str(), *flags, *mode, *gid);
            taken.push(first);
            Some(result)
        },
        Fcall::Tsymlink { name, symtgt, gid, .. } => {
            let mut first = taken.pop().unwrap();
            let result = fs.rsymlink(&mut first, name.as_str(), symtgt.as_str(), *gid);
            taken.push(first);
            Some(result)
        },
        Fcall::Tmknod { name, mode, major, minor, gid, .. } => {
            let mut first = taken.pop().unwrap();
            let result = fs.rmknod(&mut first, name.as_str(), *mode, *major, *minor, *gid);
            taken.push(first);
            Some(result)
        },
        Fcall::Trename { name, .. } => {
            let mut second = taken.pop().unwrap();
            let mut first = taken.pop().unwrap();
            let result = fs.rrename(&mut first, &mut second, name.as_str());
            taken.push(first);
            taken.push(second);
            Some(result)
        },
        Fcall::Treadlink { .. } => {
            let mut first = taken.pop().unwrap();
            let result = fs.rreadlink(&mut first);
            taken.push(first);
            Some(result)
        },
        Fcall::Tgetattr { req_mask, .. } => {
            let mut first = taken.pop().unwrap();
            let result = fs.rgetattr(&mut first, *req_mask);
            taken.push(first);
            Some(result)
        },
        Fcall::Tsetattr { valid, stat, .. } => {
            let mut first = taken.pop().unwrap();
            let result = fs.rsetattr(&mut first, *valid, stat);
            taken.push(first);
            Some(result)
        },
        Fcall::Txattrwalk { name, .. } => {
            let mut first = taken.pop().unwrap();
            let mut new = fresh.pop().unwrap();
            let result = fs.rxattrwalk(&mut first, &mut new, name.as_str());
            taken.push(first);
            fresh.push(new);
            Some(result)
        },
        Fcall::Txattrcreate { name, attr_size, flags, .. } => {
            let mut first = taken.pop().unwrap();
            let result = fs.rxattrcreate(&mut first, name.as_str(), *attr_size, *flags);
            taken.push(first);
            Some(result)
        },
        Fcall::Treaddir { offset, count, .. } => {
            let mut first = taken.pop().unwrap();
            let result = fs.rreaddir(&mut first, *offset, *count);
            taken.push(first);
            Some(result)
        },
        Fcall::Tfsync { .. } => {
            let mut first = taken.pop().unwrap();
            let result = fs.rfsync(&mut first);
            taken.push(first);
            Some(result)
        },
        Fcall::Tlock { flock, .. } => {
            let mut first = taken.pop().unwrap();
            let result = fs.rlock(&mut first, flock);
            taken.push(first);
            Some(result)
        },
        Fcall::Tgetlock { flock, .. } => {
            let mut first = taken.pop().unwrap();
            let result = fs.rgetlock(&mut first, flock);
            taken.push(first);
            Some(result)
        },
        Fcall::Tlink { name, .. } => {
            let mut second = taken.pop().unwrap();
            let mut first = taken.pop().unwrap();
            let result = fs.rlink(&mut first, &mut second, name.as_str());
            taken.push(first);
            taken.push(second);
            Some(result)
        },
        Fcall::Tmkdir { name, mode, gid, .. } => {
            let mut first = taken.pop().unwrap();
            let result = fs.rmkdir(&mut first, name.as_str(), *mode, *gid);
            taken.push(first);
            Some(result)
        },
        Fcall::Trenameat { oldname, newname, .. } => {
            let mut second = taken.pop().unwrap();
            let mut first = taken.pop().unwrap();
            let result = fs.rrenameat(&mut first, oldname.as_str(), &mut second, newname.as_str());
            taken.push(first);
            taken.push(second);
            Some(result)
        },
        Fcall::Tunlinkat { name, flags, .. } => {
            let mut first = taken.pop().unwrap();
            let result = fs.runlinkat(&mut first, name.as_str(), *flags);
            taken.push(first);
            Some(result)
        },
        Fcall::Tauth { uname, aname, n_uname, .. } => {
            let mut new = fresh.pop().unwrap();
            let result = fs.rauth(&mut new, uname.as_str(), aname.as_str(), *n_uname);
            fresh.push(new);
            Some(result)
        },
        Fcall::Tattach { uname, aname, n_uname, .. } => {
            let mut new = fresh.pop().unwrap();
            let result = fs.rattach(&mut new, None, uname.as_str(), aname.as_str(), *n_uname);
            fresh.push(new);
            Some(result)
        },
        Fcall::Tversion { msize, version, .. } => {
            let result = fs.rversion(*msize, version.as_str());
            Some(result)
        },
        Fcall::Tflush { .. } => {
            let result = fs.rflush(None);
            Some(result)
        },
        Fcall::Twalk { wnames, .. } => {
            let mut first = taken.pop().unwrap();
            let mut new = fresh.pop().unwrap();
            let result = fs.rwalk(&mut first, &mut new, wnames.as_slice());
            taken.push(first);
            fresh.push(new);
            Some(result)
        },
        Fcall::Tread { offset, count, .. } => {
            let mut first = taken.pop().unwrap();
            let result = fs.rread(&mut first, *offset, *count);
            taken.push(first);
            Some(result)
        },
        Fcall::Twrite { offset, data, .. } => {
            let mut first = taken.pop().unwrap();
            let result = fs.rwrite(&mut first, *offset, data);
            taken.push(first);
            Some(result)
        },
        Fcall::Tclunk { .. } => {
            let mut first = taken.pop().unwrap();
            let result = fs.rclunk(&mut first);
            taken.push(first);
            Some(result)
        },
        Fcall::Tremove { .. } => {
            let mut first = taken.pop().unwrap();
            let result = fs.rremove(&mut first);
            taken.push(first);
            Some(result)
        },
        _ => None,
    }
}

/// Constructs the new fids of a request, each without aux.
fn fresh_fids<A>(newfids: &[u32]) -> (fresh: Vec<Fid<A>>)
    ensures
        fresh@.len() == newfids@.len(),
        forall|i: int|
            0 <= i < fresh@.len() ==> (#[trigger] fresh@[i]).raw() == newfids@[i]
                && fresh@[i].state() is None,
{
    let mut fresh: Vec<Fid<A>> = Vec::new();
    let mut i: usize = 0;
    while i < newfids.len()
        invariant
            i <= newfids.len(),
            fresh@.len() == i,
            forall|j: int|
                0 <= j < i ==> (#[trigger] fresh@[j]).raw() == newfids@[j] && fresh@[j].state()
                    is None,
        decreases newfids.len() - i,
    {
        fresh.push(FidTable::new_fid(newfids[i]));
        i = i + 1;
    }
    fresh
}

/// What `dispatch_once` has made of the fid table `before` of a connection
/// when it leaves `after`, for request `req` with reply `reply`.
///
/// Where a fid of the request is not live, or stands twice in it, the reply
/// is `Rlerror` with `ENOENT` and the table is as before. Else the table is
/// settled behind the file system's answer, whatever that was; an answer
/// that is an error shows as `Rlerror`.
pub open spec fn dispatched<A>(
    before: Map<u32, Option<A>>,
    req: FcallView,
    reply: FcallView,
    after: Map<u32, Option<A>>,
) -> bool {
    if !takeable(before.dom(), req.fids()) {
        reply == (FcallView::Rlerror { ecode: Errno::ENOENT.number() as u32 }) && after == before
    } else {
        exists|taken: Seq<Option<A>>, fresh: Seq<Option<A>>, ok: bool|
            {
                &&& taken.len() == req.fids().len()
                &&& fresh.len() == req.newfids().len()
                &&& !ok ==> reply is Rlerror
                &&& after == #[trigger] settled(
                    before.remove_keys(req.fids().to_set()),
                    req,
                    taken,
                    fresh,
                    ok,
                )
            }
    }
}

/// Dispatches one request: takes its fids out of the table, asks the file
/// system, brings the table up to date and gives the reply with the tag of
/// the request. A message that is no request is refused with a protocol
/// error, and the table is left as it was.
pub fn dispatch_once<Fs: Filesystem>(
    msg: &Msg,
    fs: &mut Fs,
    table: &mut FidTable<Fs::Fid>,
) -> (res: Result<(Fcall, u16), Error>)
    requires
        old(table).wf(),
    ensures
        final(table).wf(),
        match res {
            Ok((reply, tag)) => {
                &&& msg@.body.is_request()
                &&& tag == msg.tag
                &&& dispatched(old(table)@, msg@.body, reply@, final(table)@)
            },
            Err(e) => !msg@.body.is_request() && e == protocol_error() && final(table)@ == old(
                table,
            )@,
        },
{
    let fids = msg.body.fid();
    let newfids = msg.body.newfid();
    let mut taken = match table.take_many(fids.as_slice()) {
        Ok(taken) => taken,
        Err(e) => {
            assert(msg@.body.is_request()) by {
                if !msg@.body.is_request() {
                    assert(fids@ =~= Seq::<u32>::empty());
                }
            }
            return Ok((Fcall::Rlerror { ecode: e.errno().code() }, msg.tag));
        },
    };
    let mut fresh = fresh_fids::<Fs::Fid>(newfids.as_slice());
    let result = match call_backend(fs, &msg.body, &mut taken, &mut fresh) {
        Some(result) => result,
        None => {
            proof {
                assert(fids@.to_set() =~= Set::<u32>::empty());
                assert(table@ =~= old(table)@);
            }
            return Err(Error::Io(IoError::new(IoErrorKind::Other)));
        },
    };
    let ghost rest = table@;
    let ghost ok = result is Ok;
    let ghost left = states(taken@);
    let ghost made = states(fresh@);
    let reply = settle(table, &msg.body, taken, fresh, result);
    proof {
        assert(table@ == settled(rest, msg@.body, left, made, ok));
    }
    Ok((reply, msg.tag))
}

/// Wraps a reply and the tag of its request into a message. A body that is
/// no reply is refused with a protocol error.
pub fn respond(tag: u16, body: Fcall) -> (res: Result<Msg, Error>)
    ensures
        match res {
            Ok(msg) => body@.is_reply() && msg@ == (MsgView {
                typ: body@.msg_type(),
                tag,
                body: body@,
            }),
            Err(e) => !body@.is_reply() && e == protocol_error(),
        },
{
    if is_request(&body) {
        return Err(Error::Io(IoError::new(IoErrorKind::Other)));
    }
    let typ = body.msg_type();
    Ok(Msg { typ, tag, body })
}

/// What `serve` owes for the reply `reply` to a request with tag `tag`: the
/// wire form of the message that carries the reply under that tag. A reply
/// that is no reply is a protocol error, and one without a wire form cannot
/// be encoded.
pub open spec fn replied(res: Result<Vec<u8>, Error>, tag: u16, reply: FcallView) -> bool {
    let msg = MsgView { typ: reply.msg_type(), tag, body: reply };
    if !reply.is_reply() {
        res is Err && res->Err_0 == protocol_error()
    } else if !Msg::fits(msg) {
        res is Err && res->Err_0 == unencodable()
    } else {
        res is Ok && res->Ok_0@ == Msg::wire(msg)
    }
}

/// What `serve` has made of a frame and of the fid table `before` of a
/// connection when it leaves `after`.
///
/// A frame that holds no message, or one that is no request, gives the
/// error and leaves the table as it was. Else the request is dispatched, and
/// the result is the wire form of the reply under the tag of the request.
pub open spec fn served<A>(
    before: Map<u32, Option<A>>,
    frame: Seq<u8>,
    res: Result<Vec<u8>, Error>,
    after: Map<u32, Option<A>>,
) -> bool {
    match Msg::take(frame) {
        Err(e) => res is Err && res->Err_0 == e && after == before,
        Ok((req, _)) => if !req.body.is_request() {
            res is Err && res->Err_0 == protocol_error() && after == before
        } else {
            exists|reply: FcallView| #[trigger]
                dispatched(before, req.body, reply, after) && replied(res, req.tag, reply)
        },
    }
}

/// Serves one request of a connection: decodes the message that stands at
/// the head of `frame`, dispatches it, and encodes the reply under the tag
/// of the request.
pub fn serve<Fs: Filesystem>(frame: Vec<u8>, fs: &mut Fs, table: &mut FidTable<Fs::Fid>) -> (res:
    Result<Vec<u8>, Error>)
    requires
        old(table).wf(),
    ensures
        final(table).wf(),
        served(old(table)@, frame@, res, final(table)@),
{
    let mut reader = Decoder::new(frame);
    let msg = read_msg(&mut reader)?;
    let (reply, tag) = dispatch_once(&msg, fs, table)?;
    let ghost body = reply@;
    let out = respond(tag, reply)?;
    let mut bytes: Vec<u8> = Vec::new();
    write_msg(&mut bytes, &out)?;
    assert(bytes@ =~= Msg::wire(out@));
    Ok(bytes)
}

/// What a connection has agreed on behind a request with reply `reply`: the
/// `msize` and the version of the `Rversion` that answered a `Tversion`,
/// nothing where a `Tversion` was answered otherwise, and what was agreed on
/// before behind any other request.
pub open spec fn negotiated(
    before: Option<(u32, Seq<char>)>,
    req: FcallView,
    reply: FcallView,
) -> Option<(u32, Seq<char>)> {
    if req is Tversion {
        match reply {
            FcallView::Rversion { msize, version } => Some((msize, version)),
            _ => None,
        }
    } else {
        before
    }
}

/// What `ServerInstance::dispatch` has made of a frame, of the fids `fids`
/// of a connection and of what the connection had agreed on, when it leaves
/// `fids_after` and `agreed_after`.
///
/// A frame that holds no message, or one that is no request, gives the
/// error and leaves the connection as it was. Else the request is
/// dispatched, the result is the wire form of the reply under the tag of the
/// request, and an answer to a `Tversion` is taken note of.
pub open spec fn answered<A>(
    fids: Map<u32, Option<A>>,
    agreed: Option<(u32, Seq<char>)>,
    frame: Seq<u8>,
    res: Result<Vec<u8>, Error>,
    fids_after: Map<u32, Option<A>>,
    agreed_after: Option<(u32, Seq<char>)>,
) -> bool {
    match Msg::take(frame) {
        Err(e) => res is Err && res->Err_0 == e && fids_after == fids && agreed_after == agreed,
        Ok((req, _)) => if !req.body.is_request() {
            res is Err && res->Err_0 == protocol_error() && fids_after == fids && agreed_after
                == agreed
        } else {
            exists|reply: FcallView| #[trigger]
                dispatched(fids, req.body, reply, fids_after) && replied(res, req.tag, reply)
                    && agreed_after == negotiated(agreed, req.body, reply)
        },
    }
}

/// The state of one connection: the file system, the fids of the client, and
/// the maximum message size and the version that were agreed on, if any.
pub struct ServerInstance<Fs: Filesystem> {
    fs: Fs,
    fids: FidTable<Fs::Fid>,
    agreed: Option<(u32, String)>,
}

impl<Fs: Filesystem> ServerInstance<Fs> {
    /// The fid table is well formed.
    pub closed spec fn wf(&self) -> bool {
        self.fids.wf()
    }

    /// The fids of the connection.
    pub closed spec fn fids(&self) -> Map<u32, Option<Fs::Fid>> {
        self.fids@
    }

    /// The maximum message size and the version that the connection has
    /// agreed on, if any.
    pub closed spec fn agreed(&self) -> Option<(u32, Seq<char>)> {
        match self.agreed {
            Some((msize, version)) => Some((msize, version@)),
            None => None,
        }
    }

    /// The state of a connection that has not seen a request.
    pub fn new(fs: Fs) -> (server: ServerInstance<Fs>)
        ensures
            server.wf(),
            server.filesystem() == fs,
            server.fids() == Map::<u32, Option<Fs::Fid>>::empty(),
            server.agreed() is None,
    {
        ServerInstance { fs, fids: FidTable::new(), agreed: None }
    }

    /// Serves one request: takes the bytes of its frame and gives the bytes
    /// of the reply.
    pub fn dispatch(&mut self, frame: Vec<u8>) -> (res: Result<Vec<u8>, Error>)
        requires
            old(self).wf(),
        ensures
            final(self).wf(),
            answered(
                old(self).fids(),
                old(self).agreed(),
                frame@,
                res,
                final(self).fids(),
                final(self).agreed(),
            ),
    {
        let mut reader = Decoder::new(frame);
        let msg = read_msg(&mut reader)?;
        let (reply, tag) = dispatch_once(&msg, &mut self.fs, &mut self.fids)?;
        match &msg.body {
            Fcall::Tversion { .. } => {
                match &reply {
                    Fcall::Rversion { msize, version } => {
                        self.agreed = Some((*msize, version.clone()));
                    },
                    _ => {
                        self.agreed = None;
                    },
                }
            },
            _ => {},
        }
        let ghost body = reply@;
        assert(self.agreed() == negotiated(old(self).agreed(), msg@.body, body));
        let out = respond(tag, reply)?;
        let mut bytes: Vec<u8> = Vec::new();
        write_msg(&mut bytes, &out)?;
        assert(bytes@ =~= Msg::wire(out@));
        Ok(bytes)
    }

    /// Whether `fid` is live.
    pub fn has_fid(&self, fid: u32) -> (r: bool)
        ensures
            r == self.fids().contains_key(fid),
    {
        self.fids.contains(fid)
    }

    /// The maximum message size that the connection has agreed on, if any.
    pub fn msize(&self) -> (r: Option<u32>)
        ensures
            match (r, self.agreed()) {
                (Some(msize), Some(agreed)) => agreed.0 == msize,
                (None, None) => true,
                _ => false,
            },
    {
        match &self.agreed {
            Some(agreed) => Some(agreed.0),
            None => None,
        }
    }

    /// The version that the connection has agreed on, if any.
    pub fn version(&self) -> (r: Option<&str>)
        ensures
            match (r, self.agreed()) {
                (Some(version), Some(agreed)) => agreed.1 == version@,
                (None, None) => true,
                _ => false,
            },
    {
        match &self.agreed {
            Some(agreed) => Some(agreed.1.as_str()),
            None => None,
        }
    }

    /// Ends the connection and gives the file system back.
    pub fn into_inner(self) -> (fs: Fs)
        ensures
            fs == self.filesystem(),
    {
        self.fs
    }

    /// The file system of the connection.
    pub closed spec fn filesystem(&self) -> Fs {
        self.fs
    }
}

} // verus!
