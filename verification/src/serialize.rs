//! Serialize/deserialize 9P messages into/from binary

use crate::error::Error;
use crate::error::IoError;
use crate::error::IoErrorKind;
use byteorder::ByteOrder;
use byteorder::LittleEndian;
use vstd::prelude::*;
use vstd::slice::slice_subrange;
use vstd::slice::slice_to_vec;
use vstd::utf8::decode_utf8;
use vstd::utf8::encode_utf8;
use vstd::utf8::valid_utf8;

pub mod laws;
pub mod message;
pub mod message_laws;
pub mod types;

pub use message::frame_rest;
pub use message::read_msg;
pub use message::write_msg;

verus! {

/// The error of a decoder that runs out of bytes.
pub open spec fn unexpected_eof() -> Error {
    Error::Io(IoError { kind: IoErrorKind::UnexpectedEof, raw_os_error: None })
}

/// The error of a decoder that meets bytes which are no part of the protocol.
pub open spec fn protocol_error() -> Error {
    Error::Io(IoError { kind: IoErrorKind::Other, raw_os_error: None })
}

/// The error of an encoder whose value has no wire form.
pub open spec fn unencodable() -> Error {
    Error::Io(IoError { kind: IoErrorKind::InvalidInput, raw_os_error: None })
}

/// The two bytes of `v`, least significant first.
#[verifier::opaque]
pub open spec fn le_bytes_u16(v: u16) -> Seq<u8> {
    seq![(v % 256) as u8, (v / 256) as u8]
}

/// The four bytes of `v`, least significant first.
#[verifier::opaque]
pub open spec fn le_bytes_u32(v: u32) -> Seq<u8> {
    seq![
        (v % 256) as u8,
        (v / 0x100 % 256) as u8,
        (v / 0x1_0000 % 256) as u8,
        (v / 0x100_0000) as u8,
    ]
}

/// The eight bytes of `v`, least significant first.
#[verifier::opaque]
pub open spec fn le_bytes_u64(v: u64) -> Seq<u8> {
    seq![
        (v % 256) as u8,
        (v / 0x100 % 256) as u8,
        (v / 0x1_0000 % 256) as u8,
        (v / 0x100_0000 % 256) as u8,
        (v / 0x1_0000_0000 % 256) as u8,
        (v / 0x100_0000_0000 % 256) as u8,
        (v / 0x1_0000_0000_0000 % 256) as u8,
        (v / 0x100_0000_0000_0000) as u8,
    ]
}

/// The integer whose bytes, least significant first, are the first two of `b`.
#[verifier::opaque]
pub open spec fn le_value_u16(b: Seq<u8>) -> int {
    b[0] + 0x100 * b[1]
}

/// The integer whose bytes, least significant first, are the first four of `b`.
#[verifier::opaque]
pub open spec fn le_value_u32(b: Seq<u8>) -> int {
    b[0] + 0x100 * b[1] + 0x1_0000 * b[2] + 0x100_0000 * b[3]
}

/// The integer whose bytes, least significant first, are the first eight of `b`.
#[verifier::opaque]
pub open spec fn le_value_u64(b: Seq<u8>) -> int {
    b[0] + 0x100 * b[1] + 0x1_0000 * b[2] + 0x100_0000 * b[3] + 0x1_0000_0000 * b[4]
        + 0x100_0000_0000 * b[5] + 0x1_0000_0000_0000 * b[6] + 0x100_0000_0000_0000 * b[7]
}

/// `byteorder::LittleEndian::read_u16`: reads the first two bytes of `buf`
/// as an integer, least significant byte first. It panics on a shorter slice.
#[verifier::external_body]
fn read_le_u16(buf: &[u8]) -> (v: u16)
    requires
        buf@.len() >= 2,
    ensures
        v == le_value_u16(buf@),
{
    LittleEndian::read_u16(buf)
}

/// `byteorder::LittleEndian::read_u32`: reads the first four bytes of `buf`
/// as an integer, least significant byte first. It panics on a shorter slice.
#[verifier::external_body]
fn read_le_u32(buf: &[u8]) -> (v: u32)
    requires
        buf@.len() >= 4,
    ensures
        v == le_value_u32(buf@),
{
    LittleEndian::read_u32(buf)
}

/// `byteorder::LittleEndian::read_u64`: reads the first eight bytes of `buf`
/// as an integer, least significant byte first. It panics on a shorter slice.
#[verifier::external_body]
fn read_le_u64(buf: &[u8]) -> (v: u64)
    requires
        buf@.len() >= 8,
    ensures
        v == le_value_u64(buf@),
{
    LittleEndian::read_u64(buf)
}

/// `byteorder::LittleEndian::write_u16`: fills two bytes with `v`, least
/// significant byte first.
#[verifier::external_body]
fn write_le_u16(v: u16) -> (b: [u8; 2])
    ensures
        b@ == le_bytes_u16(v),
{
    let mut b = [0u8; 2];
    LittleEndian::write_u16(&mut b, v);
    b
}

/// `byteorder::LittleEndian::write_u32`: fills four bytes with `v`, least
/// significant byte first.
#[verifier::external_body]
fn write_le_u32(v: u32) -> (b: [u8; 4])
    ensures
        b@ == le_bytes_u32(v),
{
    let mut b = [0u8; 4];
    LittleEndian::write_u32(&mut b, v);
    b
}

/// `byteorder::LittleEndian::write_u64`: fills eight bytes with `v`, least
/// significant byte first.
#[verifier::external_body]
fn write_le_u64(v: u64) -> (b: [u8; 8])
    ensures
        b@ == le_bytes_u64(v),
{
    let mut b = [0u8; 8];
    LittleEndian::write_u64(&mut b, v);
    b
}

/// A reader over a buffer of bytes that hands out values of the protocol,
/// first to last.
#[derive(Debug)]
pub struct Decoder {
    reader: Vec<u8>,
    pos: usize,
}

impl Decoder {
    #[verifier::type_invariant]
    spec fn inv(self) -> bool {
        self.pos <= self.reader@.len()
    }

    /// The bytes that have not been read yet.
    pub closed spec fn remaining(&self) -> Seq<u8> {
        self.reader@.skip(self.pos as int)
    }

    /// All the bytes of the buffer, read or not.
    pub closed spec fn buffer(&self) -> Seq<u8> {
        self.reader@
    }

    /// A decoder that has read nothing of `reader` yet.
    pub fn new(reader: Vec<u8>) -> (d: Decoder)
        ensures
            d.remaining() == reader@,
            d.buffer() == reader@,
    {
        Decoder { reader, pos: 0 }
    }

    /// Decode the next value.
    pub fn decode<T: Decodable>(&mut self) -> (res: Result<T, Error>)
        ensures
            final(self).buffer() == old(self).buffer(),
            decoded::<T>(old(self).remaining(), res, final(self).remaining()),
    {
        T::decode(self)
    }

    /// Get inner reader
    pub fn into_inner(self) -> (reader: Vec<u8>)
        ensures
            reader@ == self.buffer(),
    {
        self.reader
    }

    /// The number of bytes that have not been read yet.
    pub fn len(&self) -> (n: usize)
        ensures
            n == self.remaining().len(),
    {
        proof {
            use_type_invariant(self);
        }
        self.reader.len() - self.pos
    }

    /// Takes the next `n` bytes, or fails at the end of the buffer and then
    /// takes nothing.
    pub fn take(&mut self, n: usize) -> (res: Result<Vec<u8>, Error>)
        ensures
            final(self).buffer() == old(self).buffer(),
            match res {
                Ok(bytes) => {
                    &&& n <= old(self).remaining().len()
                    &&& bytes@ == old(self).remaining().take(n as int)
                    &&& final(self).remaining() == old(self).remaining().skip(n as int)
                },
                Err(e) => {
                    &&& n > old(self).remaining().len()
                    &&& e == unexpected_eof()
                    &&& final(self).remaining() == old(self).remaining()
                },
            },
    {
        proof {
            use_type_invariant(&*self);
        }
        if n > self.reader.len() - self.pos {
            return Err(Error::Io(IoError::new(IoErrorKind::UnexpectedEof)));
        }
        let bytes = slice_to_vec(slice_subrange(self.reader.as_slice(), self.pos, self.pos + n));
        self.pos = self.pos + n;
        assert(bytes@ =~= old(self).remaining().take(n as int));
        assert(self.remaining() =~= old(self).remaining().skip(n as int));
        Ok(bytes)
    }
}

impl Clone for Decoder {
    fn clone(&self) -> (d: Decoder)
        ensures
            d.buffer() == self.buffer(),
            d.remaining() == self.remaining(),
    {
        proof {
            use_type_invariant(self);
        }
        let reader = self.reader.clone();
        assert(reader@ =~= self.reader@);
        Decoder { reader, pos: self.pos }
    }
}

/// What `decode` promises of its result: it is what `T::take` makes of the
/// bytes that were left, and on success the bytes behind the value are left.
pub open spec fn decoded<T: Decodable>(
    before: Seq<u8>,
    res: Result<T, Error>,
    after: Seq<u8>,
) -> bool {
    match res {
        Ok(v) => T::take(before) == Ok::<(T::V, Seq<u8>), Error>((v.deep_view(), after)),
        Err(e) => T::take(before) == Err::<(T::V, Seq<u8>), Error>(e),
    }
}

/// Trait representing a type which can be deserialized from binary
pub trait Decodable: DeepView + Sized {
    /// The value that stands at the head of `b`, with the bytes behind it,
    /// or the reason why none stands there.
    spec fn take(b: Seq<u8>) -> Result<(Self::V, Seq<u8>), Error>;

    fn decode(r: &mut Decoder) -> (res: Result<Self, Error>)
        ensures
            final(r).buffer() == old(r).buffer(),
            match res {
                Ok(v) => Self::take(old(r).remaining()) == Ok::<(Self::V, Seq<u8>), Error>(
                    (v.deep_view(), final(r).remaining()),
                ),
                Err(e) => Self::take(old(r).remaining()) == Err::<(Self::V, Seq<u8>), Error>(e),
            },
    ;
}

impl Decodable for u8 {
    open spec fn take(b: Seq<u8>) -> Result<(u8, Seq<u8>), Error> {
        if b.len() >= 1 {
            Ok((b[0], b.skip(1)))
        } else {
            Err(unexpected_eof())
        }
    }

    fn decode(r: &mut Decoder) -> (res: Result<u8, Error>) {
        let bytes = r.take(1)?;
        Ok(bytes[0])
    }
}

impl Decodable for u16 {
    open spec fn take(b: Seq<u8>) -> Result<(u16, Seq<u8>), Error> {
        if b.len() >= 2 {
            Ok((le_value_u16(b) as u16, b.skip(2)))
        } else {
            Err(unexpected_eof())
        }
    }

    fn decode(r: &mut Decoder) -> (res: Result<u16, Error>) {
        let bytes = r.take(2)?;
        proof {
            reveal(le_value_u16);
        }
        Ok(read_le_u16(bytes.as_slice()))
    }
}


impl Decodable for u32 {
    open spec fn take(b: Seq<u8>) -> Result<(u32, Seq<u8>), Error> {
        if b.len() >= 4 {
            Ok((le_value_u32(b) as u32, b.skip(4)))
        } else {
            Err(unexpected_eof())
        }
    }

    fn decode(r: &mut Decoder) -> (res: Result<u32, Error>) {
        let bytes = r.take(4)?;
        proof {
            reveal(le_value_u32);
        }
        Ok(read_le_u32(bytes.as_slice()))
    }
}

impl Decodable for u64 {
    open spec fn take(b: Seq<u8>) -> Result<(u64, Seq<u8>), Error> {
        if b.len() >= 8 {
            Ok((le_value_u64(b) as u64, b.skip(8)))
        } else {
            Err(unexpected_eof())
        }
    }

    fn decode(r: &mut Decoder) -> (res: Result<u64, Error>) {
        let bytes = r.take(8)?;
        proof {
            reveal(le_value_u64);
        }
        Ok(read_le_u64(bytes.as_slice()))
    }
}

/// `String::from_utf8` of std: the string that the bytes spell in UTF-8, or
/// `None` where they spell none.
#[verifier::external_body]
fn string_from_utf8(bytes: Vec<u8>) -> (s: Option<String>)
    ensures
        s is Some <==> valid_utf8(bytes@),
        s is Some ==> s->0@ == decode_utf8(bytes@),
{
    String::from_utf8(bytes).ok()
}

impl Decodable for String {
    open spec fn take(b: Seq<u8>) -> Result<(Seq<char>, Seq<u8>), Error> {
        match u16::take(b) {
            Ok((len, rest)) => if rest.len() < len {
                Err(unexpected_eof())
            } else if !valid_utf8(rest.take(len as int)) {
                Err(protocol_error())
            } else {
                Ok((decode_utf8(rest.take(len as int)), rest.skip(len as int)))
            },
            Err(e) => Err(e),
        }
    }

    fn decode(r: &mut Decoder) -> (res: Result<String, Error>) {
        let len = u16::decode(r)?;
        let bytes = r.take(len as usize)?;
        match string_from_utf8(bytes) {
            Some(s) => Ok(s),
            None => Err(Error::Io(IoError::new(IoErrorKind::Other))),
        }
    }
}

/// The first `n` values that stand at the head of `b`, one behind the
/// other, with the bytes behind them; the first failure among them otherwise.
pub open spec fn take_n<T: Decodable>(n: nat, b: Seq<u8>) -> Result<(Seq<T::V>, Seq<u8>), Error>
    decreases n,
{
    if n == 0 {
        Ok((Seq::empty(), b))
    } else {
        match take_n::<T>((n - 1) as nat, b) {
            Ok((front, rest)) => match T::take(rest) {
                Ok((last, rest)) => Ok((front.push(last), rest)),
                Err(e) => Err(e),
            },
            Err(e) => Err(e),
        }
    }
}

/// A failure among the first values is the failure of every longer run.
pub proof fn lemma_take_n_fails<T: Decodable>(m: nat, n: nat, b: Seq<u8>)
    requires
        m <= n,
        take_n::<T>(m, b) is Err,
    ensures
        take_n::<T>(n, b) == take_n::<T>(m, b),
    decreases n,
{
    if m < n {
        lemma_take_n_fails::<T>(m, (n - 1) as nat, b);
    }
}

/// Decodes `n` values, one behind the other.
pub(crate) fn decode_n<T: Decodable>(r: &mut Decoder, n: usize) -> (res: Result<Vec<T>, Error>)
    ensures
        final(r).buffer() == old(r).buffer(),
        match res {
            Ok(v) => take_n::<T>(n as nat, old(r).remaining()) == Ok::<(Seq<T::V>, Seq<u8>), Error>(
                (v.deep_view(), final(r).remaining()),
            ),
            Err(e) => take_n::<T>(n as nat, old(r).remaining()) == Err::<
                (Seq<T::V>, Seq<u8>),
                Error,
            >(e),
        },
{
    let mut buf: Vec<T> = Vec::new();
    let mut i: usize = 0;
    assert(buf.deep_view() =~= Seq::<T::V>::empty());
    while i < n
        invariant
            i <= n,
            r.buffer() == old(r).buffer(),
            take_n::<T>(i as nat, old(r).remaining()) == Ok::<(Seq<T::V>, Seq<u8>), Error>(
                (buf.deep_view(), r.remaining()),
            ),
        decreases n - i,
    {
        let ghost front = buf.deep_view();
        match T::decode(r) {
            Ok(v) => {
                buf.push(v);
                assert(buf.deep_view() =~= front.push(v.deep_view()));
            },
            Err(e) => {
                proof {
                    lemma_take_n_fails::<T>((i + 1) as nat, n as nat, old(r).remaining());
                }
                return Err(e);
            },
        }
        i = i + 1;
    }
    Ok(buf)
}

impl<T: Decodable> Decodable for Vec<T> {
    open spec fn take(b: Seq<u8>) -> Result<(Seq<T::V>, Seq<u8>), Error> {
        match u16::take(b) {
            Ok((len, rest)) => take_n::<T>(len as nat, rest),
            Err(e) => Err(e),
        }
    }

    fn decode(r: &mut Decoder) -> (res: Result<Vec<T>, Error>) {
        let len = u16::decode(r)?;
        decode_n::<T>(r, len as usize)
    }
}

/// A wrapper of a buffer of bytes that serializes values of the protocol
/// into it and counts what it wrote.
#[derive(Clone, Debug)]
pub struct Encoder {
    writer: Vec<u8>,
    bytes: usize,
}

impl Encoder {
    /// The count never exceeds what the buffer holds.
    pub closed spec fn wf(&self) -> bool {
        self.bytes <= self.writer@.len()
    }

    /// The bytes of the buffer.
    pub closed spec fn written(&self) -> Seq<u8> {
        self.writer@
    }

    /// The number of bytes that this encoder has put into the buffer.
    pub closed spec fn count(&self) -> nat {
        self.bytes as nat
    }

    /// An encoder that writes behind what `writer` holds.
    pub fn new(writer: Vec<u8>) -> (e: Encoder)
        ensures
            e.wf(),
            e.written() == writer@,
            e.count() == 0,
    {
        Encoder { writer, bytes: 0 }
    }

    /// Return total bytes written
    pub fn bytes_written(&self) -> (n: usize)
        ensures
            n == self.count(),
    {
        self.bytes
    }

    /// Encode data behind what the buffer holds
    pub fn encode<T: Encodable>(&mut self, data: &T) -> (res: Result<usize, Error>)
        requires
            old(self).wf(),
        ensures
            final(self).wf(),
            match res {
                Ok(n) => T::fits(data.deep_view()) && final(self).written() == old(self).written()
                    + T::wire(data.deep_view()) && n == T::wire(data.deep_view()).len()
                    && final(self).count() == old(self).count() + n,
                Err(e) => !T::fits(data.deep_view()) && e == unencodable() && final(self).written()
                    == old(self).written() && final(self).count() == old(self).count(),
            },
    {
        let bytes = data.encode(&mut self.writer)?;
        assert(self.bytes + bytes <= self.writer.len());
        self.bytes = self.bytes + bytes;
        Ok(bytes)
    }

    /// Get inner writer
    pub fn into_inner(self) -> (writer: Vec<u8>)
        ensures
            writer@ == self.written(),
    {
        self.writer
    }
}

/// Trait representing a type which can be serialized into binary
pub trait Encodable: DeepView {
    /// The bytes that stand for `v` on the wire.
    spec fn wire(v: Self::V) -> Seq<u8>;

    /// Whether `v` has a wire form: its strings and lists are short enough
    /// for their length prefixes.
    spec fn fits(v: Self::V) -> bool;

    /// Encode self to w and returns the number of bytes encoded
    fn encode(&self, w: &mut Vec<u8>) -> (res: Result<usize, Error>)
        ensures
            match res {
                Ok(n) => Self::fits(self.deep_view()) && final(w)@ == old(w)@ + Self::wire(
                    self.deep_view(),
                ) && n == Self::wire(self.deep_view()).len(),
                Err(e) => !Self::fits(self.deep_view()) && e == unencodable() && final(w)@ == old(
                    w,
                )@,
            },
    ;
}

/// Appends `bytes` to `w`.
pub(crate) fn append(w: &mut Vec<u8>, bytes: &[u8])
    ensures
        final(w)@ == old(w)@ + bytes@,
{
    w.extend_from_slice(bytes);
    assert(w@ =~= old(w)@ + bytes@);
}

impl Encodable for u8 {
    open spec fn wire(v: u8) -> Seq<u8> {
        seq![v]
    }

    open spec fn fits(v: u8) -> bool {
        true
    }

    fn encode(&self, w: &mut Vec<u8>) -> (res: Result<usize, Error>) {
        w.push(*self);
        assert(w@ =~= old(w)@ + seq![*self]);
        Ok(1)
    }
}

impl Encodable for u16 {
    open spec fn wire(v: u16) -> Seq<u8> {
        le_bytes_u16(v)
    }

    open spec fn fits(v: u16) -> bool {
        true
    }

    fn encode(&self, w: &mut Vec<u8>) -> (res: Result<usize, Error>) {
        let b = write_le_u16(*self);
        append(w, b.as_slice());
        Ok(2)
    }
}

impl Encodable for u32 {
    open spec fn wire(v: u32) -> Seq<u8> {
        le_bytes_u32(v)
    }

    open spec fn fits(v: u32) -> bool {
        true
    }

    fn encode(&self, w: &mut Vec<u8>) -> (res: Result<usize, Error>) {
        let b = write_le_u32(*self);
        append(w, b.as_slice());
        Ok(4)
    }
}

impl Encodable for u64 {
    open spec fn wire(v: u64) -> Seq<u8> {
        le_bytes_u64(v)
    }

    open spec fn fits(v: u64) -> bool {
        true
    }

    fn encode(&self, w: &mut Vec<u8>) -> (res: Result<usize, Error>) {
        let b = write_le_u64(*self);
        append(w, b.as_slice());
        Ok(8)
    }
}

impl Encodable for String {
    open spec fn wire(v: Seq<char>) -> Seq<u8> {
        le_bytes_u16(encode_utf8(v).len() as u16) + encode_utf8(v)
    }

    open spec fn fits(v: Seq<char>) -> bool {
        encode_utf8(v).len() <= 0xffff
    }

    fn encode(&self, w: &mut Vec<u8>) -> (res: Result<usize, Error>) {
        let bytes = self.as_str().as_bytes();
        let len = bytes.len();
        if len > 0xffff {
            return Err(Error::Io(IoError::new(IoErrorKind::InvalidInput)));
        }
        let b = write_le_u16(len as u16);
        append(w, b.as_slice());
        append(w, bytes);
        assert(w@ =~= old(w)@ + String::wire(self@));
        Ok(2 + len)
    }
}

/// The wire forms of the values of `s`, one behind the other.
pub open spec fn wire_all<T: Encodable>(s: Seq<T::V>) -> Seq<u8>
    decreases s.len(),
{
    if s.len() == 0 {
        Seq::empty()
    } else {
        wire_all::<T>(s.drop_last()) + T::wire(s.last())
    }
}

/// Whether every value of `s` has a wire form.
pub open spec fn fits_all<T: Encodable>(s: Seq<T::V>) -> bool {
    forall|i: int| 0 <= i < s.len() ==> T::fits(#[trigger] s[i])
}

/// Encodes the values of `items`, one behind the other. Where one of them
/// has no wire form, `w` is left as it was.
pub(crate) fn encode_all<T: Encodable>(items: &[T], w: &mut Vec<u8>) -> (res: Result<usize, Error>)
    ensures
        match res {
            Ok(n) => fits_all::<T>(items.deep_view()) && final(w)@ == old(w)@ + wire_all::<T>(
                items.deep_view(),
            ) && n == wire_all::<T>(items.deep_view()).len(),
            Err(e) => !fits_all::<T>(items.deep_view()) && e == unencodable() && final(w)@ == old(
                w,
            )@,
        },
{
    let start = w.len();
    let mut i: usize = 0;
    while i < items.len()
        invariant
            i <= items.len(),
            start == old(w)@.len(),
            fits_all::<T>(items.deep_view().take(i as int)),
            w@ == old(w)@ + wire_all::<T>(items.deep_view().take(i as int)),
        decreases items.len() - i,
    {
        let ghost before = w@;
        match items[i].encode(w) {
            Ok(_) => {
                proof {
                    let s = items.deep_view().take(i + 1);
                    assert(s.drop_last() =~= items.deep_view().take(i as int));
                    assert(s.last() == items[i as int].deep_view());
                    assert(w@ =~= old(w)@ + wire_all::<T>(s));
                }
            },
            Err(e) => {
                w.truncate(start);
                assert(w@ =~= old(w)@);
                assert(items.deep_view()[i as int] == items[i as int].deep_view());
                return Err(e);
            },
        }
        i = i + 1;
    }
    assert(items.deep_view().take(i as int) =~= items.deep_view());
    Ok(w.len() - start)
}

impl<T: Encodable> Encodable for Vec<T> {
    open spec fn wire(v: Seq<T::V>) -> Seq<u8> {
        le_bytes_u16(v.len() as u16) + wire_all::<T>(v)
    }

    open spec fn fits(v: Seq<T::V>) -> bool {
        v.len() <= 0xffff && fits_all::<T>(v)
    }

    fn encode(&self, w: &mut Vec<u8>) -> (res: Result<usize, Error>) {
        let len = self.len();
        if len > 0xffff {
            return Err(Error::Io(IoError::new(IoErrorKind::InvalidInput)));
        }
        let start = w.len();
        let b = write_le_u16(len as u16);
        append(w, b.as_slice());
        let items = self.as_slice();
        assert(items.deep_view() =~= self.deep_view());
        match encode_all::<T>(items, w) {
            Ok(n) => {
                assert(w@ =~= old(w)@ + Self::wire(self.deep_view()));
                Ok(w.len() - start)
            },
            Err(e) => {
                w.truncate(start);
                assert(w@ =~= old(w)@);
                Err(e)
            },
        }
    }
}

} // verus!
