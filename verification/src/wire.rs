//! The wire format shared by requests and responses: a 16-byte header
//! followed by the body.

use byteorder::{ByteOrder, LittleEndian};
use crate::error::RequestError;
use vstd::prelude::*;

verus! {

/// Length of the fixed header in bytes.
pub const HEADER_LEN: usize = 16;

/// Largest body that a header can declare.
pub const MAX_BODY_LEN: usize = 65535;

/// The two bytes that encode `n` in little-endian order.
pub open spec fn le_bytes_u16(n: u16) -> Seq<u8> {
    seq![(n % 256) as u8, (n / 256) as u8]
}

/// The four bytes that encode `n` in little-endian order.
pub open spec fn le_bytes_u32(n: u32) -> Seq<u8> {
    seq![
        (n % 256) as u8,
        ((n / 256) % 256) as u8,
        ((n / 65536) % 256) as u8,
        (n / 16777216) as u8,
    ]
}

/// The number that the first two bytes of `s` encode in little-endian order.
pub open spec fn le_value_u16(s: Seq<u8>) -> int
    recommends
        s.len() >= 2,
{
    s[0] as int + 256 * (s[1] as int)
}

/// The number that the first four bytes of `s` encode in little-endian order.
pub open spec fn le_value_u32(s: Seq<u8>) -> int
    recommends
        s.len() >= 4,
{
    s[0] as int + 256 * (s[1] as int) + 65536 * (s[2] as int) + 16777216 * (s[3] as int)
}

/// `byteorder::LittleEndian::read_u16` on the bytes of `buf` from `at` on.
/// It decodes the first two of them, least significant byte first, and
/// panics on fewer than two, which the precondition rules out.
#[verifier::external_body]
fn read_u16_at(buf: &Vec<u8>, at: usize) -> (n: u16)
    requires
        at + 2 <= buf@.len(),
    ensures
        n as int == le_value_u16(buf@.subrange(at as int, buf@.len() as int)),
{
    LittleEndian::read_u16(&buf[at..])
}

/// `byteorder::LittleEndian::read_u32` on the bytes of `buf` from `at` on.
/// It decodes the first four of them, least significant byte first, and
/// panics on fewer than four, which the precondition rules out.
#[verifier::external_body]
fn read_u32_at(buf: &Vec<u8>, at: usize) -> (n: u32)
    requires
        at + 4 <= buf@.len(),
    ensures
        n as int == le_value_u32(buf@.subrange(at as int, buf@.len() as int)),
{
    LittleEndian::read_u32(&buf[at..])
}

/// `byteorder::LittleEndian::write_u16` on the bytes of `buf` from `at` on.
/// It overwrites the first two of them with the little-endian encoding of
/// `n` and leaves every other byte as it was.
#[verifier::external_body]
fn write_u16_at(buf: &mut Vec<u8>, at: usize, n: u16)
    requires
        at + 2 <= old(buf)@.len(),
    ensures
        final(buf)@ == old(buf)@.subrange(0, at as int) + le_bytes_u16(n) + old(buf)@.subrange(
            at + 2,
            old(buf)@.len() as int,
        ),
{
    LittleEndian::write_u16(&mut buf[at..], n)
}

/// `byteorder::LittleEndian::write_u32` on the bytes of `buf` from `at` on.
/// It overwrites the first four of them with the little-endian encoding of
/// `n` and leaves every other byte as it was.
#[verifier::external_body]
fn write_u32_at(buf: &mut Vec<u8>, at: usize, n: u32)
    requires
        at + 4 <= old(buf)@.len(),
    ensures
        final(buf)@ == old(buf)@.subrange(0, at as int) + le_bytes_u32(n) + old(buf)@.subrange(
            at + 4,
            old(buf)@.len() as int,
        ),
{
    LittleEndian::write_u32(&mut buf[at..], n)
}

/// Identifier of a device operation: a fixed 32-bit number. What the
/// operation means is the device's business; the protocol only tells the
/// sequence reset apart from all others.
#[derive(Clone, Copy, Debug, PartialEq, Eq, Structural)]
pub struct CommandId {
    id: u32,
}

/// Numeric identifier of the command that resets the sequence counter.
pub const RESET_SEQUENCE_ID: u32 = 0;

impl CommandId {
    /// The numeric identifier.
    pub closed spec fn view(&self) -> u32 {
        self.id
    }

    /// Whether this is the command that resets the sequence counter.
    pub open spec fn spec_is_reset(&self) -> bool {
        self@ == RESET_SEQUENCE_ID
    }

    /// The command with the given numeric identifier.
    pub fn from_id(id: u32) -> (cmd: CommandId)
        ensures
            cmd@ == id,
    {
        CommandId { id }
    }

    /// The command that resets the sequence counter.
    pub fn reset_sequence() -> (cmd: CommandId)
        ensures
            cmd@ == RESET_SEQUENCE_ID,
            cmd.spec_is_reset(),
    {
        CommandId { id: RESET_SEQUENCE_ID }
    }

    /// The numeric identifier that goes on the wire.
    pub fn command_id(&self) -> (id: u32)
        ensures
            id == self@,
    {
        self.id
    }

    /// Whether this is the command that resets the sequence counter.
    #[verifier::when_used_as_spec(spec_is_reset)]
    pub fn is_reset(&self) -> (b: bool)
        ensures
            b == self.spec_is_reset(),
    {
        self.id == RESET_SEQUENCE_ID
    }
}

/// The header that announces command `id`, sequence number `seq` and a body
/// of `len` bytes: identifier, length and sequence number in little-endian
/// order, then eight reserved zero bytes.
pub open spec fn spec_header(id: u32, len: u16, seq: u16) -> Seq<u8> {
    le_bytes_u32(id) + le_bytes_u16(len) + le_bytes_u16(seq) + Seq::new(8, |i: int| 0u8)
}

/// The frame for command `id` with sequence number `seq` and `body`.
pub open spec fn spec_frame(id: u32, seq: u16, body: Seq<u8>) -> Seq<u8>
    recommends
        body.len() <= MAX_BODY_LEN,
{
    spec_header(id, body.len() as u16, seq) + body
}

/// Serialises a command into its frame: the 16-byte header, then `body`.
/// A body of more than 65535 bytes is refused.
pub fn frame(cmd: CommandId, seq: u16, body: &[u8]) -> (out: Result<Vec<u8>, RequestError>)
    ensures
        body@.len() <= MAX_BODY_LEN ==> out.is_ok() && out.unwrap()@ == spec_frame(
            cmd@,
            seq,
            body@,
        ),
        body@.len() > MAX_BODY_LEN ==> out == Err::<Vec<u8>, RequestError>(
            RequestError::BodyTooLarge,
        ),
{
    if body.len() > MAX_BODY_LEN {
        return Err(RequestError::BodyTooLarge);
    }
    let mut full_request: Vec<u8> = vec![0u8; 16];
    write_u32_at(&mut full_request, 0, cmd.command_id());
    write_u16_at(&mut full_request, 4, body.len() as u16);
    write_u16_at(&mut full_request, 6, seq);
    assert(full_request@ =~= spec_header(cmd@, body@.len() as u16, seq));
    full_request.extend_from_slice(body);
    assert(full_request@ =~= spec_frame(cmd@, seq, body@));
    Ok(full_request)
}

/// The command identifier that the header at the start of `bytes` holds.
pub open spec fn declared_command(bytes: Seq<u8>) -> int
    recommends
        bytes.len() >= HEADER_LEN,
{
    le_value_u32(bytes.subrange(0, bytes.len() as int))
}

/// The body length that the header at the start of `bytes` declares.
pub open spec fn declared_len(bytes: Seq<u8>) -> int
    recommends
        bytes.len() >= HEADER_LEN,
{
    le_value_u16(bytes.subrange(4, bytes.len() as int))
}

/// The sequence number that the header at the start of `bytes` holds.
pub open spec fn declared_sequence(bytes: Seq<u8>) -> int
    recommends
        bytes.len() >= HEADER_LEN,
{
    le_value_u16(bytes.subrange(6, bytes.len() as int))
}

/// What follows the header in `bytes`.
pub open spec fn trailing_body(bytes: Seq<u8>) -> Seq<u8>
    recommends
        bytes.len() >= HEADER_LEN,
{
    bytes.subrange(HEADER_LEN as int, bytes.len() as int)
}

/// Whether `bytes` hold a whole header and exactly as many body bytes as
/// that header declares.
pub open spec fn well_framed(bytes: Seq<u8>) -> bool {
    bytes.len() >= HEADER_LEN && declared_len(bytes) == bytes.len() - HEADER_LEN
}

/// The three fields of a header.
#[derive(Clone, Copy, Debug, PartialEq, Eq, Structural)]
pub struct Header {
    /// The command that the frame carries or answers.
    pub command: CommandId,
    /// The number of body bytes that the header announces.
    pub length: u16,
    /// The sequence number of the exchange.
    pub sequence: u16,
}

/// A decoded frame: what the header says and the body that follows it.
#[derive(Debug)]
pub struct Frame {
    /// The command that the frame carries or answers.
    pub command: CommandId,
    /// The sequence number of the exchange.
    pub sequence: u16,
    /// The bytes after the header.
    pub body: Vec<u8>,
}

/// Reads the header at the start of `bytes`. There is none when `bytes` are
/// fewer than 16. The reserved bytes are not looked at.
pub fn decode_header(bytes: &Vec<u8>) -> (header: Option<Header>)
    ensures
        header.is_some() == (bytes@.len() >= HEADER_LEN),
        header.is_some() ==> {
            &&& header.unwrap().command@ == declared_command(bytes@)
            &&& header.unwrap().length == declared_len(bytes@)
            &&& header.unwrap().sequence == declared_sequence(bytes@)
        },
{
    if bytes.len() < HEADER_LEN {
        return None;
    }
    let id: u32 = read_u32_at(bytes, 0);
    let length: u16 = read_u16_at(bytes, 4);
    let sequence: u16 = read_u16_at(bytes, 6);
    Some(Header { command: CommandId::from_id(id), length, sequence })
}

/// Splits `bytes` into header and body. Fails with `MalformedResponse`
/// unless `bytes` hold a header followed by exactly the declared number of
/// body bytes.
pub fn decode_frame(bytes: Vec<u8>) -> (out: Result<Frame, RequestError>)
    ensures
        well_framed(bytes@) ==> out.is_ok() && {
            &&& out.unwrap().command@ == declared_command(bytes@)
            &&& out.unwrap().sequence == declared_sequence(bytes@)
            &&& out.unwrap().body@ == trailing_body(bytes@)
        },
        !well_framed(bytes@) ==> out.is_err() && out.unwrap_err()
            == RequestError::MalformedResponse,
{
    let mut bytes = bytes;
    match decode_header(&bytes) {
        None => Err(RequestError::MalformedResponse),
        Some(header) => {
            let body = bytes.split_off(HEADER_LEN);
            if body.len() != header.length as usize {
                return Err(RequestError::MalformedResponse);
            }
            Ok(Frame { command: header.command, sequence: header.sequence, body })
        },
    }
}

/// The little-endian encoding of a 16-bit number decodes to that number.
pub proof fn lemma_le_u16_round_trip(n: u16)
    ensures
        le_bytes_u16(n).len() == 2,
        le_value_u16(le_bytes_u16(n)) == n,
{
}

/// The little-endian encoding of a 32-bit number decodes to that number.
pub proof fn lemma_le_u32_round_trip(n: u32)
    ensures
        le_bytes_u32(n).len() == 4,
        le_value_u32(le_bytes_u32(n)) == n,
{
}

/// Framing then decoding gives back what was framed: for every command,
/// sequence number and body of at most 65535 bytes the frame is well formed
/// and its header and trailing bytes are the command, the sequence number
/// and the body.
pub proof fn lemma_frame_round_trip(id: u32, seq: u16, body: Seq<u8>)
    requires
        body.len() <= MAX_BODY_LEN,
    ensures
        spec_frame(id, seq, body).len() == HEADER_LEN + body.len(),
        well_framed(spec_frame(id, seq, body)),
        declared_command(spec_frame(id, seq, body)) == id,
        declared_len(spec_frame(id, seq, body)) == body.len(),
        declared_sequence(spec_frame(id, seq, body)) == seq,
        trailing_body(spec_frame(id, seq, body)) == body,
{
    let f = spec_frame(id, seq, body);
    lemma_le_u32_round_trip(id);
    lemma_le_u16_round_trip(body.len() as u16);
    lemma_le_u16_round_trip(seq);
    assert(trailing_body(f) =~= body);
}

} // verus!
