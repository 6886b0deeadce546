//! Addresses of the form `proto!address!port`

use vstd::prelude::*;
use vstd::string::StrSliceExecFns;
use vstd::string::StringExecFns;
use vstd::string::StringSliceAdditionalSpecFns;
use vstd::utf8::encode_utf8_decode_utf8;

verus! {

/// The place of the first `!` of `s`, or the length of `s` where it has none.
pub open spec fn bang(s: Seq<char>) -> int
    decreases s.len(),
{
    if s.len() == 0 || s[0] == '!' {
        0
    } else {
        1 + bang(s.skip(1))
    }
}

/// What stands before the first `!` of `s`: all of `s` where it has none.
pub open spec fn head(s: Seq<char>) -> Seq<char> {
    s.take(bang(s))
}

/// What stands behind the first `!` of `s`, where it has one.
pub open spec fn tail(s: Seq<char>) -> Option<Seq<char>> {
    if bang(s) < s.len() {
        Some(s.skip(bang(s) + 1))
    } else {
        None
    }
}

/// The first `!` of `s` stands where no `!` stands before it.
pub proof fn lemma_bang(s: Seq<char>, i: int)
    requires
        0 <= i <= s.len(),
        forall|j: int| 0 <= j < i ==> s[j] != '!',
        i < s.len() ==> s[i] == '!',
    ensures
        bang(s) == i,
    decreases s.len(),
{
    if s.len() > 0 && s[0] != '!' {
        let t = s.skip(1);
        assert forall|j: int| 0 <= j < i - 1 implies t[j] != '!' by {
            assert(t[j] == s[j + 1]);
        }
        lemma_bang(t, i - 1);
    }
}

/// Cuts `s` at its first `!`.
pub fn split_bang<'a>(s: &'a str) -> (r: (&'a str, Option<&'a str>))
    ensures
        r.0@ == head(s@),
        match r.1 {
            Some(t) => tail(s@) == Some(t@),
            None => tail(s@) is None,
        },
{
    let n = s.unicode_len();
    let mut i: usize = 0;
    while i < n
        invariant
            i <= n,
            n == s@.len(),
            forall|j: int| 0 <= j < i ==> s@[j] != '!',
        decreases n - i,
    {
        if s.get_char(i) == '!' {
            proof {
                lemma_bang(s@, i as int);
            }
            return (s.substring_char(0, i), Some(s.substring_char(i + 1, n)));
        }
        i = i + 1;
    }
    proof {
        lemma_bang(s@, n as int);
        assert(s@.take(n as int) =~= s@);
    }
    (s, None)
}

/// What `str::parse` makes of `s` where it is asked for an `i32`: the number
/// that `s` spells, or the words of the error with which it refuses `s`.
pub uninterp spec fn parsed_i32(s: Seq<char>) -> Result<i32, Seq<char>>;

/// `str::parse::<i32>` of std: the number that `s` spells, or the words of
/// the error with which std refuses it. The result depends on `s` alone.
#[verifier::external_body]
fn parse_i32(s: &str) -> (r: Result<i32, String>)
    ensures
        match r {
            Ok(v) => parsed_i32(s@) == Ok::<i32, Seq<char>>(v),
            Err(m) => parsed_i32(s@) == Err::<i32, Seq<char>>(m@),
        },
{
    match s.parse::<i32>() {
        Ok(v) => Ok(v),
        Err(e) => Err(e.to_string()),
    }
}

/// The reason why a string is no address.
#[derive(Debug)]
pub struct AddrSpecParseError {
    message: String,
}

impl View for AddrSpecParseError {
    type V = Seq<char>;

    closed spec fn view(&self) -> Seq<char> {
        self.message@
    }
}

impl AddrSpecParseError {
    pub fn new(message: String) -> (e: AddrSpecParseError)
        ensures
            e@ == message@,
    {
        AddrSpecParseError { message }
    }

    /// The reason, in words.
    pub fn message(&self) -> (m: &str)
        ensures
            m@ == self@,
    {
        self.message.as_str()
    }
}

/// Where a server listens.
pub enum AddrSpec {
    /// A TCP socket, as `address:port`.
    Tcp(String),
    /// A Unix-domain socket, as `path:port`.
    Unix(String),
    /// A pair of file descriptors: one to read from, one to write to.
    Fd(i32, i32),
}

/// What an `AddrSpec` holds.
pub enum AddrSpecView {
    Tcp(Seq<char>),
    Unix(Seq<char>),
    Fd(i32, i32),
}

impl View for AddrSpec {
    type V = AddrSpecView;

    open spec fn view(&self) -> AddrSpecView {
        match *self {
            AddrSpec::Tcp(s) => AddrSpecView::Tcp(s@),
            AddrSpec::Unix(s) => AddrSpecView::Unix(s@),
            AddrSpec::Fd(r, w) => AddrSpecView::Fd(r, w),
        }
    }
}

/// The second and third field of `s`, joined by a colon; the words of the
/// error where the second field is missing are `no_addr`, and `no_port`
/// where the third is.
pub open spec fn socket_of(s: Seq<char>, no_addr: Seq<char>, no_port: Seq<char>) -> Result<
    Seq<char>,
    Seq<char>,
> {
    match tail(s) {
        None => Err(no_addr),
        Some(rest) => match tail(rest) {
            None => Err(no_port),
            Some(last) => Ok(head(rest) + ":"@ + head(last)),
        },
    }
}

/// The file descriptor that field `field` spells; the words of the error
/// where it spells none begin with `invalid`.
pub open spec fn fd_of(field: Seq<char>, invalid: Seq<char>) -> Result<i32, Seq<char>> {
    match parsed_i32(field) {
        Ok(fd) => Ok(fd),
        Err(words) => Err(invalid + words),
    }
}

/// The address that `s` spells, or the words of the error where it spells
/// none.
pub open spec fn addr_of(s: Seq<char>) -> Result<AddrSpecView, Seq<char>> {
    let proto = head(s);
    if proto == "tcp"@ {
        match socket_of(s, "No listen address specified"@, "No listen port specified"@) {
            Ok(a) => Ok(AddrSpecView::Tcp(a)),
            Err(e) => Err(e),
        }
    } else if proto == "unix"@ {
        match socket_of(
            s,
            "No listen socket path specified"@,
            "No listen socket port specified"@,
        ) {
            Ok(a) => Ok(AddrSpecView::Unix(a)),
            Err(e) => Err(e),
        }
    } else if proto == "fd"@ {
        match tail(s) {
            None => Err("No read file descriptor specified"@),
            Some(rest) => match fd_of(head(rest), "Invalid read file descriptor: "@) {
                Err(e) => Err(e),
                Ok(readfd) => match tail(rest) {
                    None => Err("No file descriptor specified"@),
                    Some(last) => match fd_of(head(last), "Invalid write file descriptor: "@) {
                        Err(e) => Err(e),
                        Ok(writefd) => Ok(AddrSpecView::Fd(readfd, writefd)),
                    },
                },
            },
        }
    } else {
        Err("Unsupported protocol "@ + proto)
    }
}

/// Whether two strings are the same.
pub fn str_eq(a: &str, b: &str) -> (r: bool)
    ensures
        r == (a@ == b@),
{
    let x = a.as_bytes();
    let y = b.as_bytes();
    proof {
        encode_utf8_decode_utf8(a@);
        encode_utf8_decode_utf8(b@);
    }
    if x.len() != y.len() {
        return false;
    }
    let mut i: usize = 0;
    while i < x.len()
        invariant
            i <= x.len(),
            x.len() == y.len(),
            x@ == a.spec_bytes(),
            y@ == b.spec_bytes(),
            forall|j: int| 0 <= j < i ==> x@[j] == y@[j],
        decreases x.len() - i,
    {
        if x[i] != y[i] {
            return false;
        }
        i = i + 1;
    }
    assert(x@ =~= y@);
    true
}

/// Joins the second and third field of an address by a colon.
fn socket(rest: Option<&str>, no_addr: &str, no_port: &str) -> (r: Result<
    String,
    AddrSpecParseError,
>)
    ensures
        match r {
            Ok(a) => match rest {
                Some(rest) => tail(rest@) is Some && a@ == head(rest@) + ":"@ + head(
                    tail(rest@)->0,
                ),
                None => false,
            },
            Err(e) => match rest {
                None => e@ == no_addr@,
                Some(rest) => tail(rest@) is None && e@ == no_port@,
            },
        },
{
    let rest = match rest {
        Some(rest) => rest,
        None => {
            return Err(AddrSpecParseError::new(no_addr.to_owned()));
        },
    };
    let (addr, last) = split_bang(rest);
    let last = match last {
        Some(last) => last,
        None => {
            return Err(AddrSpecParseError::new(no_port.to_owned()));
        },
    };
    let (port, _) = split_bang(last);
    Ok(addr.to_owned().concat(":").concat(port))
}

/// Reads a field of an address as a file descriptor, from what `str::parse`
/// made of it.
pub fn fd_from(parsed: Result<i32, String>, invalid: &str) -> (r: Result<i32, AddrSpecParseError>)
    ensures
        match parsed {
            Ok(fd) => r is Ok && r->Ok_0 == fd,
            Err(m) => r is Err && r->Err_0@ == invalid@ + m@,
        },
{
    match parsed {
        Ok(fd) => Ok(fd),
        Err(m) => Err(AddrSpecParseError::new(invalid.to_owned().concat(m.as_str()))),
    }
}

impl AddrSpec {
    /// Reads an address: `tcp!address!port`, `unix!path!port` or
    /// `fd!readfd!writefd`. Fields behind the third are passed over.
    pub fn parse(arg: &str) -> (r: Result<AddrSpec, AddrSpecParseError>)
        ensures
            match r {
                Ok(a) => addr_of(arg@) == Ok::<AddrSpecView, Seq<char>>(a@),
                Err(e) => addr_of(arg@) == Err::<AddrSpecView, Seq<char>>(e@),
            },
    {
        let (proto, rest) = split_bang(arg);
        if str_eq(proto, "tcp") {
            match socket(rest, "No listen address specified", "No listen port specified") {
                Ok(a) => Ok(AddrSpec::Tcp(a)),
                Err(e) => Err(e),
            }
        } else if str_eq(proto, "unix") {
            match socket(
                rest,
                "No listen socket path specified",
                "No listen socket port specified",
            ) {
                Ok(a) => Ok(AddrSpec::Unix(a)),
                Err(e) => Err(e),
            }
        } else if str_eq(proto, "fd") {
            let rest = match rest {
                Some(rest) => rest,
                None => {
                    return Err(
                        AddrSpecParseError::new(
                            "No read file descriptor specified".to_owned(),
                        ),
                    );
                },
            };
            let (field, last) = split_bang(rest);
            let readfd = fd_from(parse_i32(field), "Invalid read file descriptor: ")?;
            let last = match last {
                Some(last) => last,
                None => {
                    return Err(
                        AddrSpecParseError::new("No file descriptor specified".to_owned()),
                    );
                },
            };
            let (field, _) = split_bang(last);
            let writefd = fd_from(parse_i32(field), "Invalid write file descriptor: ")?;
            Ok(AddrSpec::Fd(readfd, writefd))
        } else {
            Err(AddrSpecParseError::new("Unsupported protocol ".to_owned().concat(proto)))
        }
    }
}

impl std::str::FromStr for AddrSpec {
    type Err = AddrSpecParseError;

    fn from_str(arg: &str) -> (r: Result<AddrSpec, AddrSpecParseError>)
        ensures
            match r {
                Ok(a) => addr_of(arg@) == Ok::<AddrSpecView, Seq<char>>(a@),
                Err(e) => addr_of(arg@) == Err::<AddrSpecView, Seq<char>>(e@),
            },
    {
        AddrSpec::parse(arg)
    }
}

/// The protocol of an address and its socket, as `address:port`; `None`
/// where the address has less than three fields.
pub open spec fn proto_of(s: Seq<char>) -> Option<(Seq<char>, Seq<char>)> {
    match tail(s) {
        None => None,
        Some(rest) => match tail(rest) {
            None => None,
            Some(last) => Some((head(s), head(rest) + ":"@ + head(last))),
        },
    }
}

/// Cuts an address of the form `proto!address!port` into the protocol and
/// `address:port`.
pub fn parse_proto<'a>(arg: &'a str) -> (r: Option<(&'a str, String)>)
    ensures
        match r {
            Some((proto, addr)) => proto_of(arg@) == Some((proto@, addr@)),
            None => proto_of(arg@) is None,
        },
{
    let (proto, rest) = split_bang(arg);
    let rest = match rest {
        Some(rest) => rest,
        None => {
            return None;
        },
    };
    let (addr, last) = split_bang(rest);
    let last = match last {
        Some(last) => last,
        None => {
            return None;
        },
    };
    let (port, _) = split_bang(last);
    Some((proto, addr.to_owned().concat(":").concat(port)))
}

} // verus!
