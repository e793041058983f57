use vstd::prelude::*;
use vstd::utf8::{decode_utf8, encode_utf8, encode_utf8_decode_utf8, encode_utf8_valid_utf8, valid_utf8};
use bytes::BytesMut;
use byteorder::{BigEndian, ByteOrder};

verus! {

/// `bytes::BytesMut`, a growable byte buffer, held and passed here as it is;
/// what it holds is known only through `bytes_mut_contents`.
#[verifier::external_type_specification]
#[verifier::external_body]
pub struct ExBytesMut(BytesMut);

/// The bytes that a `BytesMut` holds, in order.
pub uninterp spec fn bytes_mut_contents(b: BytesMut) -> Seq<u8>;

/// The two bytes of `n`, most significant first.
pub open spec fn be_u16_bytes(n: u16) -> Seq<u8> {
    seq![(n >> 8u16) as u8, n as u8]
}

/// The eight bytes of `n`, most significant first.
pub open spec fn be_u64_bytes(n: u64) -> Seq<u8> {
    seq![
        (n >> 56u64) as u8, (n >> 48u64) as u8, (n >> 40u64) as u8, (n >> 32u64) as u8,
        (n >> 24u64) as u8, (n >> 16u64) as u8, (n >> 8u64) as u8, n as u8,
    ]
}

/// The number whose big-endian encoding starts `b` (two bytes).
pub open spec fn be_u16_value(b: Seq<u8>) -> u16 {
    ((b[0] as u16) << 8u16) | (b[1] as u16)
}

/// The number whose big-endian encoding starts `b` (eight bytes).
pub open spec fn be_u64_value(b: Seq<u8>) -> u64 {
    ((b[0] as u64) << 56u64) | ((b[1] as u64) << 48u64) | ((b[2] as u64) << 40u64)
        | ((b[3] as u64) << 32u64) | ((b[4] as u64) << 24u64) | ((b[5] as u64) << 16u64)
        | ((b[6] as u64) << 8u64) | (b[7] as u64)
}

/// The largest frame that a message may take: the write buffer is given room
/// for this many bytes, and writing past that room fails.
pub const MAX_FRAME_LEN: usize = 512;

/// A frame on the wire: the sender's id, the timestamp in seconds, the body's
/// length (all big-endian, truncated to their widths) and the body itself.
pub open spec fn frame_bytes(id: u16, timestamp: i64, body: Seq<u8>) -> Seq<u8> {
    be_u16_bytes(id) + be_u64_bytes(timestamp as u64) + be_u16_bytes(body.len() as u16) + body
}

/// `BigEndian::write_u16` into a fresh two-byte buffer.
#[verifier::external_body]
fn write_be_u16(n: u16) -> (res: [u8; 2])
    ensures
        res@ == be_u16_bytes(n),
{
    let mut buf = [0u8; 2];
    BigEndian::write_u16(&mut buf, n);
    buf
}

/// `BigEndian::write_i64` into a fresh eight-byte buffer; it writes the bytes
/// of `n` taken as a `u64`.
#[verifier::external_body]
fn write_be_i64(n: i64) -> (res: [u8; 8])
    ensures
        res@ == be_u64_bytes(n as u64),
{
    let mut buf = [0u8; 8];
    BigEndian::write_i64(&mut buf, n);
    buf
}

/// `BytesMut::from(Vec<u8>)`: a buffer holding the bytes of `v`.
#[verifier::external_body]
fn bytes_mut_from_vec(v: Vec<u8>) -> (res: BytesMut)
    ensures
        bytes_mut_contents(res) == v@,
{
    BytesMut::from(v)
}

/// The frame that carries `msg` from sprinkler `from`, stamped with
/// `timestamp`.
pub fn compose_message_at(from: usize, timestamp: i64, msg: String) -> (res: BytesMut)
    requires
        12 + encode_utf8(msg@).len() <= MAX_FRAME_LEN,
    ensures
        bytes_mut_contents(res) == frame_bytes(from as u16, timestamp, encode_utf8(msg@)),
{
    let body: &[u8] = msg.as_str().as_bytes();
    let mut frame: Vec<u8> = Vec::new();
    let id = write_be_u16(from as u16);
    frame.extend_from_slice(&id);
    let ts = write_be_i64(timestamp);
    frame.extend_from_slice(&ts);
    let len = write_be_u16(body.len() as u16);
    frame.extend_from_slice(&len);
    frame.extend_from_slice(body);
    assert(frame@ =~= frame_bytes(from as u16, timestamp, encode_utf8(msg@)));
    bytes_mut_from_vec(frame)
}

/// `chrono::Local::now().timestamp()`: the current time in seconds since the
/// Unix epoch. Which time depends on the clock; `Utc::now` unwraps the date
/// and time it builds from those seconds, so every value returned names a
/// representable date and time.
#[verifier::external_body]
fn local_timestamp() -> (res: i64)
    ensures
        timestamp_in_range(res),
{
    chrono::Local::now().timestamp()
}

/// Encodes a message from sprinkler `from` and places it in a write buffer,
/// stamped with the current time.
pub fn compose_message(from: usize, msg: String) -> (res: BytesMut)
    requires
        12 + encode_utf8(msg@).len() <= MAX_FRAME_LEN,
    ensures
        exists|timestamp: i64|
            timestamp_in_range(timestamp) && bytes_mut_contents(res) == #[trigger] frame_bytes(
                from as u16,
                timestamp,
                encode_utf8(msg@),
            ),
{
    let timestamp = local_timestamp();
    let res = compose_message_at(from, timestamp, msg);
    assert(bytes_mut_contents(res) == frame_bytes(from as u16, timestamp, encode_utf8(msg@)));
    res
}

/// `BytesMut::new`: an empty buffer.
#[verifier::external_body]
fn new_bytes_mut() -> (res: BytesMut)
    ensures
        bytes_mut_contents(res) == Seq::<u8>::empty(),
{
    BytesMut::new()
}

/// `BytesMut::len`: the number of bytes held.
#[verifier::external_body]
fn bytes_mut_len(b: &BytesMut) -> (res: usize)
    ensures
        res == bytes_mut_contents(*b).len(),
{
    b.len()
}

/// `BytesMut::split_to`: takes the first `at` bytes out of `b` and returns
/// them; `b` keeps the rest. It panics where `at` exceeds the length.
#[verifier::external_body]
fn bytes_mut_split_to(b: &mut BytesMut, at: usize) -> (res: BytesMut)
    requires
        at <= bytes_mut_contents(*old(b)).len(),
    ensures
        bytes_mut_contents(res) == bytes_mut_contents(*old(b)).take(at as int),
        bytes_mut_contents(*final(b)) == bytes_mut_contents(*old(b)).skip(at as int),
{
    b.split_to(at)
}

/// `to_vec` on the bytes that `b` holds.
#[verifier::external_body]
fn bytes_mut_to_vec(b: &BytesMut) -> (res: Vec<u8>)
    ensures
        res@ == bytes_mut_contents(*b),
{
    b.to_vec()
}

/// `BigEndian::read_u16` on the bytes that `b` holds. It panics where fewer
/// than two bytes are held.
#[verifier::external_body]
fn read_be_u16(b: &BytesMut) -> (res: u16)
    requires
        bytes_mut_contents(*b).len() >= 2,
    ensures
        res == be_u16_value(bytes_mut_contents(*b)),
{
    BigEndian::read_u16(b)
}

/// `BigEndian::read_u64` on the bytes that `b` holds. It panics where fewer
/// than eight bytes are held.
#[verifier::external_body]
fn read_be_u64(b: &BytesMut) -> (res: u64)
    requires
        bytes_mut_contents(*b).len() >= 8,
    ensures
        res == be_u64_value(bytes_mut_contents(*b)),
{
    BigEndian::read_u64(b)
}

/// The earliest timestamp that names a representable date and time:
/// January 1 of the year -262143, 00:00:00 UTC.
pub const MIN_TIMESTAMP: i64 = -8_334_601_228_800;

/// The latest timestamp that names a representable date and time:
/// December 31 of the year 262142, 23:59:59 UTC.
pub const MAX_TIMESTAMP: i64 = 8_210_266_876_799;

/// Whether `secs` seconds from the Unix epoch name a date and time that chrono
/// can represent: the day must lie between its first and last dates.
pub open spec fn timestamp_in_range(secs: i64) -> bool {
    MIN_TIMESTAMP <= secs <= MAX_TIMESTAMP
}

/// `chrono::NaiveDateTime::from_timestamp_opt(secs, 0)`, telling only whether
/// it gives a date and time: it does exactly where the day of `secs` lies
/// between `NaiveDate::MIN` and `NaiveDate::MAX`.
/// `NaiveDateTime::from_timestamp(secs, 0)` panics exactly where it gives none.
#[verifier::external_body]
#[allow(deprecated)]
fn timestamp_representable(secs: i64) -> (res: bool)
    ensures
        res == timestamp_in_range(secs),
{
    chrono::NaiveDateTime::from_timestamp_opt(secs, 0).is_some()
}

/// `String::from_utf8`: the string that `bytes` encode, where they are valid
/// UTF-8.
#[verifier::external_body]
fn string_from_utf8(bytes: Vec<u8>) -> (res: Option<String>)
    ensures
        res is Some <==> valid_utf8(bytes@),
        res matches Some(s) ==> s@ == decode_utf8(bytes@),
{
    String::from_utf8(bytes).ok()
}

/// The header that precedes a message body on the wire.
#[derive(Clone, Copy, Debug, PartialEq, Eq, Structural)]
pub struct SprinklerProtoHeader {
    pub id: u16,
    pub timestamp: i64,
    pub len: u16,
}

/// The header that the first twelve bytes of `b` encode.
pub open spec fn header_of(b: Seq<u8>) -> SprinklerProtoHeader {
    SprinklerProtoHeader {
        id: be_u16_value(b),
        timestamp: be_u64_value(b.subrange(2, 10)) as i64,
        len: be_u16_value(b.subrange(10, 12)),
    }
}

/// What polling a connection for its next header gives.
#[derive(Clone, Copy, Debug, PartialEq, Eq, Structural)]
pub enum HeaderPoll {
    /// A header was read (`Some`), or the connection closed before one
    /// arrived (`None`).
    Ready(Option<SprinklerProtoHeader>),
    /// More bytes are needed.
    NotReady,
}

/// What the relay does with the bytes read after a header.
#[derive(Debug)]
pub enum RelayAction {
    /// Hand the message to the master thread of sprinkler `id`.
    Deliver { id: usize, timestamp: i64, body: String },
    /// The body is not valid UTF-8; the message is dropped.
    Undecodable,
    /// The timestamp names no date and time that can be represented; the
    /// message is dropped.
    OutOfRange,
    /// The connection closed before the whole body arrived.
    Lost,
    /// More bytes are needed.
    NotReady,
}

/// A stream adapter that turns the bytes read from a socket into headers and
/// message bodies. The socket is carried along; reading from it is left to
/// the caller, which appends what it reads to `read_buffer`.
pub struct SprinklerProto<S> {
    pub socket: S,
    pub read_buffer: BytesMut,
}

impl<S> SprinklerProto<S> {
    /// A protocol adapter over `socket`, with nothing read yet.
    pub fn new(socket: S) -> (res: Self)
        ensures
            res.socket == socket,
            bytes_mut_contents(res.read_buffer) == Seq::<u8>::empty(),
    {
        SprinklerProto { socket, read_buffer: new_bytes_mut() }
    }

    /// The decision of a poll for the next header, once the socket has been
    /// read (`sock_closed` tells whether it reached its end). A header is taken
    /// out of the buffer only where more than its twelve bytes are held.
    pub fn next_header(&mut self, sock_closed: bool) -> (res: HeaderPoll)
        ensures
            final(self).socket == old(self).socket,
            bytes_mut_contents(old(self).read_buffer).len() > 12 ==> {
                &&& res == HeaderPoll::Ready(Some(header_of(bytes_mut_contents(old(self).read_buffer))))
                &&& bytes_mut_contents(final(self).read_buffer)
                    == bytes_mut_contents(old(self).read_buffer).skip(12)
            },
            bytes_mut_contents(old(self).read_buffer).len() <= 12 ==> {
                &&& res == (if sock_closed { HeaderPoll::Ready(None) } else { HeaderPoll::NotReady })
                &&& bytes_mut_contents(final(self).read_buffer)
                    == bytes_mut_contents(old(self).read_buffer)
            },
    {
        let ghost before = bytes_mut_contents(self.read_buffer);
        if bytes_mut_len(&self.read_buffer) > 12 {
            let id_bytes = bytes_mut_split_to(&mut self.read_buffer, 2);
            let id = read_be_u16(&id_bytes);
            let ts_bytes = bytes_mut_split_to(&mut self.read_buffer, 8);
            let timestamp = read_be_u64(&ts_bytes) as i64;
            let len_bytes = bytes_mut_split_to(&mut self.read_buffer, 2);
            let len = read_be_u16(&len_bytes);
            assert(bytes_mut_contents(self.read_buffer) =~= before.skip(12));
            assert(bytes_mut_contents(ts_bytes) =~= before.subrange(2, 10));
            assert(bytes_mut_contents(len_bytes) =~= before.subrange(10, 12));
            HeaderPoll::Ready(Some(SprinklerProtoHeader { id, timestamp, len }))
        } else if sock_closed {
            HeaderPoll::Ready(None)
        } else {
            HeaderPoll::NotReady
        }
    }

    /// The decision of the relay once the socket has been read: where at least
    /// `header.len` bytes are held, everything held is decoded as the body and
    /// addressed to sprinkler `header.id`, provided its timestamp names a date
    /// and time that can be represented.
    pub fn relay_action(&self, header: &SprinklerProtoHeader, sock_closed: bool) -> (res: RelayAction)
        ensures
            bytes_mut_contents(self.read_buffer).len() < header.len ==> (res is NotReady
                <==> !sock_closed) && (res is Lost <==> sock_closed),
            (res is Deliver) <==> (bytes_mut_contents(self.read_buffer).len() >= header.len
                && valid_utf8(bytes_mut_contents(self.read_buffer)) && MIN_TIMESTAMP
                <= header.timestamp <= MAX_TIMESTAMP),
            relay_outcome(
                bytes_mut_contents(self.read_buffer),
                *header,
                sock_closed,
                timestamp_in_range(header.timestamp),
                res,
            ),
    {
        if bytes_mut_len(&self.read_buffer) >= header.len as usize {
            match string_from_utf8(bytes_mut_to_vec(&self.read_buffer)) {
                Some(body) => if timestamp_representable(header.timestamp) {
                    RelayAction::Deliver {
                        id: header.id as usize,
                        timestamp: header.timestamp,
                        body,
                    }
                } else {
                    RelayAction::OutOfRange
                },
                None => RelayAction::Undecodable,
            }
        } else if sock_closed {
            RelayAction::Lost
        } else {
            RelayAction::NotReady
        }
    }
}

/// The relay's answer `res` to the bytes `held` after `header`: once at least
/// `header.len` bytes are held, all of them are the body, which must be valid
/// UTF-8 and carry a representable timestamp (`timestamp_ok`) to be delivered;
/// before that, the message is lost if the socket closed, else more is awaited.
pub open spec fn relay_outcome(
    held: Seq<u8>,
    header: SprinklerProtoHeader,
    sock_closed: bool,
    timestamp_ok: bool,
    res: RelayAction,
) -> bool {
    if held.len() >= header.len {
        if !valid_utf8(held) {
            res is Undecodable
        } else if !timestamp_ok {
            res is OutOfRange
        } else {
            res matches RelayAction::Deliver { id, timestamp, body } && id == header.id
                && timestamp == header.timestamp && body@ == decode_utf8(held)
        }
    } else if sock_closed {
        res is Lost
    } else {
        res is NotReady
    }
}

/// Reading back the two big-endian bytes of `n` gives `n`.
proof fn lemma_be_u16_roundtrip(n: u16)
    ensures
        be_u16_value(be_u16_bytes(n)) == n,
{
    assert(((((n >> 8u16) as u8) as u16) << 8u16) | ((n as u8) as u16) == n) by (bit_vector);
}

/// Reading back the eight big-endian bytes of `n` gives `n`.
proof fn lemma_be_u64_roundtrip(n: u64)
    ensures
        be_u64_value(be_u64_bytes(n)) == n,
{
    assert(((((n >> 56u64) as u8) as u64) << 56u64) | ((((n >> 48u64) as u8) as u64) << 48u64)
        | ((((n >> 40u64) as u8) as u64) << 40u64) | ((((n >> 32u64) as u8) as u64) << 32u64)
        | ((((n >> 24u64) as u8) as u64) << 24u64) | ((((n >> 16u64) as u8) as u64) << 16u64)
        | ((((n >> 8u64) as u8) as u64) << 8u64) | ((n as u8) as u64) == n) by (bit_vector);
}

/// What a master reads back is what an agent wrote: the frame of a non-empty
/// body that `compose_message_at` accepts yields, through `next_header`, the
/// sender's id, the timestamp and the body's length, and leaves exactly the
/// body, which is long enough for `relay_action` and decodes to the message.
pub proof fn lemma_frame_roundtrip(id: u16, timestamp: i64, body: Seq<char>)
    requires
        0 < encode_utf8(body).len(),
        12 + encode_utf8(body).len() <= MAX_FRAME_LEN,
    ensures
        frame_bytes(id, timestamp, encode_utf8(body)).len() > 12,
        header_of(frame_bytes(id, timestamp, encode_utf8(body))) == (SprinklerProtoHeader {
            id,
            timestamp,
            len: encode_utf8(body).len() as u16,
        }),
        frame_bytes(id, timestamp, encode_utf8(body)).skip(12) == encode_utf8(body),
        encode_utf8(body).len() == encode_utf8(body).len() as u16,
        valid_utf8(encode_utf8(body)),
        decode_utf8(encode_utf8(body)) == body,
{
    let bytes = encode_utf8(body);
    let f = frame_bytes(id, timestamp, bytes);
    lemma_be_u16_roundtrip(id);
    lemma_be_u16_roundtrip(bytes.len() as u16);
    lemma_be_u64_roundtrip(timestamp as u64);
    assert(f.subrange(0, 2) =~= be_u16_bytes(id));
    assert(f.subrange(2, 10) =~= be_u64_bytes(timestamp as u64));
    assert(f.subrange(10, 12) =~= be_u16_bytes(bytes.len() as u16));
    assert(f.skip(12) =~= bytes);
    assert(((timestamp as u64) as i64) == timestamp) by (bit_vector);
    encode_utf8_valid_utf8(body);
    encode_utf8_decode_utf8(body);
}

/// A message that an agent composes is delivered: for a frame of a non-empty
/// body that `compose_message_at` accepts, with a representable timestamp (as
/// every timestamp of `compose_message` is), the relay's answer to the bytes
/// after the header is to deliver the body to the sender's id, whether or not
/// the socket has closed.
pub proof fn lemma_composed_message_delivered(id: u16, timestamp: i64, body: Seq<char>, sock_closed: bool, res: RelayAction)
    requires
        0 < encode_utf8(body).len(),
        12 + encode_utf8(body).len() <= MAX_FRAME_LEN,
        timestamp_in_range(timestamp),
        relay_outcome(
            frame_bytes(id, timestamp, encode_utf8(body)).skip(12),
            header_of(frame_bytes(id, timestamp, encode_utf8(body))),
            sock_closed,
            timestamp_in_range(header_of(frame_bytes(id, timestamp, encode_utf8(body))).timestamp),
            res,
        ),
    ensures
        res matches RelayAction::Deliver { id: to, timestamp: at, body: text } && to == id && at
            == timestamp && text@ == body,
{
    lemma_frame_roundtrip(id, timestamp, body);
}

/// The header fields are read at fixed places, whatever follows them: the id
/// from bytes 0 and 1, the timestamp from bytes 2 to 9 and the body length
/// from bytes 10 and 11, each most significant byte first; in particular the
/// length is the one written on the wire, however much of the body has been
/// read.
pub proof fn lemma_header_fields(b: Seq<u8>)
    requires
        b.len() >= 12,
    ensures
        header_of(b).id == ((b[0] as u16) << 8u16) | (b[1] as u16),
        header_of(b).timestamp == (((b[2] as u64) << 56u64) | ((b[3] as u64) << 48u64) | ((b[4] as u64)
            << 40u64) | ((b[5] as u64) << 32u64) | ((b[6] as u64) << 24u64) | ((b[7] as u64) << 16u64)
            | ((b[8] as u64) << 8u64) | (b[9] as u64)) as i64,
        header_of(b).len == ((b[10] as u16) << 8u16) | (b[11] as u16),
        header_of(b) == header_of(b.subrange(0, 12)),
{
    let c = b.subrange(0, 12);
    assert(b.subrange(2, 10) =~= c.subrange(2, 10));
    assert(b.subrange(10, 12) =~= c.subrange(10, 12));
}

/// What the relay answers: while fewer than `header.len` bytes are held it
/// waits if the socket is open and reports the message lost only once the
/// socket has closed; once enough bytes are held it never waits nor reports a
/// loss, and it delivers exactly when all the bytes held are valid UTF-8 and
/// the timestamp can be represented, to `header.id`, with `header.timestamp`
/// and the decoded bytes as the body.
pub proof fn lemma_relay_answers(
    held: Seq<u8>,
    header: SprinklerProtoHeader,
    sock_closed: bool,
    timestamp_ok: bool,
    res: RelayAction,
)
    requires
        relay_outcome(held, header, sock_closed, timestamp_ok, res),
    ensures
        held.len() < header.len ==> ((res is NotReady) <==> !sock_closed) && ((res is Lost) <==> sock_closed),
        held.len() >= header.len ==> !(res is NotReady) && !(res is Lost),
        (res is Deliver) <==> (held.len() >= header.len && valid_utf8(held) && timestamp_ok),
        (res is Undecodable) <==> (held.len() >= header.len && !valid_utf8(held)),
        (res is OutOfRange) <==> (held.len() >= header.len && valid_utf8(held) && !timestamp_ok),
        res matches RelayAction::Deliver { id, timestamp, body } ==> id == header.id && timestamp
            == header.timestamp && body@ == decode_utf8(held),
{
}

} // verus!
