//! Wire packets: a two-byte preamble, the frame body and a two-byte
//! little-endian checksum over the body.
use vstd::prelude::*;
use vstd::arithmetic::div_mod::{lemma_add_mod_noop, lemma_small_mod, lemma_fundamental_div_mod};
use crate::commands::{ScooterCommand, body_of, direction_code, operation_code, attribute_code, MAX_PAYLOAD_LEN};

verus! {

pub const PREAMBLE_0: u8 = 0x55;
pub const PREAMBLE_1: u8 = 0xAA;

/// Why a command could not be encoded.
#[derive(Clone, Copy, Debug, PartialEq, Eq, Structural)]
pub enum EncodingError {
    PayloadTooLarge,
}

/// Why bytes could not be decoded as a packet.
#[derive(Clone, Copy, Debug, PartialEq, Eq, Structural)]
pub enum DecodeError {
    /// The first two bytes are not the preamble.
    BadPreamble,
    /// Fewer bytes than the declared length requires.
    Truncated,
    /// The declared length leaves no room for the operation and attribute.
    LengthTooShort,
    /// The trailing checksum disagrees with the body.
    ChecksumMismatch,
}

/// The sum of some bytes.
pub open spec fn byte_sum(s: Seq<u8>) -> nat
    decreases s.len(),
{
    if s.len() == 0 {
        0
    } else {
        byte_sum(s.drop_last()) + s.last() as nat
    }
}

/// `(sum XOR 0xFFFF) & 0xFFFF`: the complement of the low sixteen bits of
/// the byte sum.
pub open spec fn checksum_of(s: Seq<u8>) -> u16 {
    (0xFFFFnat - byte_sum(s) % 0x10000) as u16
}

/// A body wrapped for the wire: preamble, body, checksum low byte first.
pub open spec fn wrap(body: Seq<u8>) -> Seq<u8> {
    seq![PREAMBLE_0, PREAMBLE_1] + body + seq![
        (checksum_of(body) % 256) as u8,
        (checksum_of(body) / 256) as u8,
    ]
}

/// Bytes that already start with the preamble.
pub open spec fn has_preamble(b: Seq<u8>) -> bool {
    b.len() >= 2 && b[0] == PREAMBLE_0 && b[1] == PREAMBLE_1
}

/// What goes on the wire for some bytes: a pre-built packet as it is,
/// anything else wrapped.
pub open spec fn framed(b: Seq<u8>) -> Seq<u8> {
    if has_preamble(b) {
        b
    } else {
        wrap(b)
    }
}

/// What goes on the wire for raw bytes, or why nothing does: a pre-built
/// packet as it is; any other body wrapped, unless its payload (what
/// follows the length, direction, operation and attribute bytes) is over
/// the frame's limit.
pub open spec fn frame_spec(b: Seq<u8>) -> Result<Seq<u8>, EncodingError> {
    if has_preamble(b) {
        Ok(b)
    } else if b.len() > MAX_PAYLOAD_LEN + 4 {
        Err(EncodingError::PayloadTooLarge)
    } else {
        Ok(wrap(b))
    }
}

/// The packet of a command.
pub open spec fn packet_of(c: ScooterCommand) -> Seq<u8> {
    wrap(body_of(c))
}

/// The checksum stored after a body of declared length `len`.
pub open spec fn stored_checksum(b: Seq<u8>, len: int) -> int {
    b[4 + len] + 256 * b[5 + len]
}

/// Direction, operation and attribute codes and payload of a decoded packet.
pub type PacketFields = (u8, u8, u8, Seq<u8>);

/// What decoding some bytes gives.
pub open spec fn decode_spec(b: Seq<u8>) -> Result<PacketFields, DecodeError> {
    if b.len() < 2 {
        Err(DecodeError::Truncated)
    } else if !has_preamble(b) {
        Err(DecodeError::BadPreamble)
    } else if b.len() < 3 {
        Err(DecodeError::Truncated)
    } else if b[2] < 2 {
        Err(DecodeError::LengthTooShort)
    } else if b.len() < b[2] + 6 {
        Err(DecodeError::Truncated)
    } else if stored_checksum(b, b[2] as int) != checksum_of(b.subrange(2, 4 + b[2])) as int {
        Err(DecodeError::ChecksumMismatch)
    } else {
        Ok((b[3], b[4], b[5], b.subrange(6, 4 + b[2])))
    }
}

/// A decoded packet.
#[derive(Clone, Debug)]
pub struct WirePacket {
    pub direction: u8,
    pub operation: u8,
    pub attribute: u8,
    pub payload: Vec<u8>,
}

impl View for WirePacket {
    type V = PacketFields;

    open spec fn view(&self) -> PacketFields {
        (self.direction, self.operation, self.attribute, self.payload@)
    }
}

proof fn lemma_byte_sum_push(s: Seq<u8>, b: u8)
    ensures
        byte_sum(s.push(b)) == byte_sum(s) + b,
{
    assert(s.push(b).drop_last() =~= s);
}

/// The checksum of `data[start..end]`.
fn checksum_range(data: &[u8], start: usize, end: usize) -> (r: u16)
    requires
        start <= end <= data@.len(),
    ensures
        r == checksum_of(data@.subrange(start as int, end as int)),
{
    let mut acc: u32 = 0;
    let mut i: usize = start;
    while i < end
        invariant
            start <= i <= end <= data@.len(),
            acc as nat == byte_sum(data@.subrange(start as int, i as int)) % 0x10000,
        decreases end - i,
    {
        let ghost prev = data@.subrange(start as int, i as int);
        proof {
            assert(data@.subrange(start as int, i + 1) =~= prev.push(data@[i as int]));
            lemma_byte_sum_push(prev, data@[i as int]);
            lemma_small_mod(data@[i as int] as nat, 0x10000);
            lemma_add_mod_noop(byte_sum(prev) as int, data@[i as int] as int, 0x10000);
            lemma_small_mod(acc as nat, 0x10000);
        }
        acc = (acc + data[i] as u32) % 0x10000;
        i = i + 1;
    }
    (0xFFFFu32 - acc) as u16
}

/// The checksum of a frame body.
pub fn calculate_checksum(data: &[u8]) -> (r: u16)
    ensures
        r == checksum_of(data@),
{
    proof {
        assert(data@.subrange(0, data@.len() as int) =~= data@);
    }
    checksum_range(data, 0, data.len())
}

/// The bytes to put on the wire for `payload`: a payload that already starts
/// with the preamble is a complete packet and goes out unchanged; anything
/// else is wrapped in the preamble and its checksum.
pub fn build_packet(payload: &[u8]) -> (r: Vec<u8>)
    ensures
        r@ == framed(payload@),
{
    if payload.len() >= 2 && payload[0] == PREAMBLE_0 && payload[1] == PREAMBLE_1 {
        return vstd::slice::slice_to_vec(payload);
    }
    let mut packet: Vec<u8> = vec![PREAMBLE_0, PREAMBLE_1];
    let mut i: usize = 0;
    while i < payload.len()
        invariant
            i <= payload@.len(),
            packet@ == seq![PREAMBLE_0, PREAMBLE_1] + payload@.subrange(0, i as int),
        decreases payload@.len() - i,
    {
        packet.push(payload[i]);
        i = i + 1;
        assert(packet@ =~= seq![PREAMBLE_0, PREAMBLE_1] + payload@.subrange(0, i as int));
    }
    let checksum = calculate_checksum(payload);
    packet.push((checksum % 256) as u8);
    packet.push((checksum / 256) as u8);
    assert(packet@ =~= wrap(payload@));
    packet
}

/// The bytes to put on the wire for a raw body: a pre-built packet goes
/// out unchanged, a body whose payload is over the frame's limit is refused
/// and nothing is produced, anything else is wrapped.
pub fn frame_body(body: &[u8]) -> (r: Result<Vec<u8>, EncodingError>)
    ensures
        match r {
            Ok(p) => frame_spec(body@) == Ok::<Seq<u8>, EncodingError>(p@),
            Err(e) => frame_spec(body@) == Err::<Seq<u8>, EncodingError>(e),
        },
{
    let prebuilt = body.len() >= 2 && body[0] == PREAMBLE_0 && body[1] == PREAMBLE_1;
    if !prebuilt && body.len() > MAX_PAYLOAD_LEN + 4 {
        return Err(EncodingError::PayloadTooLarge);
    }
    Ok(build_packet(body))
}

/// The packet of a command. A payload over the frame's limit is refused and
/// nothing is produced.
pub fn encode(command: &ScooterCommand) -> (r: Result<Vec<u8>, EncodingError>)
    ensures
        command.payload@.len() > MAX_PAYLOAD_LEN ==> r == Err::<Vec<u8>, EncodingError>(
            EncodingError::PayloadTooLarge,
        ),
        command.payload@.len() <= MAX_PAYLOAD_LEN ==> r.is_ok() && r.unwrap()@ == packet_of(
            *command,
        ),
{
    if command.payload.len() > MAX_PAYLOAD_LEN {
        return Err(EncodingError::PayloadTooLarge);
    }
    let body = command.as_bytes();
    let packet = build_packet(body.as_slice());
    Ok(packet)
}

/// Decodes a packet: checks preamble, declared length and checksum, and
/// splits the body into its fields.
pub fn decode(bytes: &[u8]) -> (r: Result<WirePacket, DecodeError>)
    ensures
        match r {
            Ok(p) => decode_spec(bytes@) == Ok::<PacketFields, DecodeError>(p@),
            Err(e) => decode_spec(bytes@) == Err::<PacketFields, DecodeError>(e),
        },
{
    if bytes.len() < 2 {
        return Err(DecodeError::Truncated);
    }
    if bytes[0] != PREAMBLE_0 || bytes[1] != PREAMBLE_1 {
        return Err(DecodeError::BadPreamble);
    }
    if bytes.len() < 3 {
        return Err(DecodeError::Truncated);
    }
    let len = bytes[2] as usize;
    if len < 2 {
        return Err(DecodeError::LengthTooShort);
    }
    if bytes.len() < len + 6 {
        return Err(DecodeError::Truncated);
    }
    let computed = checksum_range(bytes, 2, 4 + len);
    let stored: u32 = bytes[4 + len] as u32 + 256 * bytes[5 + len] as u32;
    if stored != computed as u32 {
        return Err(DecodeError::ChecksumMismatch);
    }
    let mut payload: Vec<u8> = Vec::new();
    let end: usize = 4 + len;
    let mut i: usize = 6;
    while i < end
        invariant
            end == 4 + len,
            6 <= i <= end <= bytes@.len(),
            payload@ == bytes@.subrange(6, i as int),
        decreases end - i,
    {
        payload.push(bytes[i]);
        i = i + 1;
        assert(payload@ =~= bytes@.subrange(6, i as int));
    }
    Ok(WirePacket { direction: bytes[3], operation: bytes[4], attribute: bytes[5], payload })
}

proof fn lemma_byte_sum_update(s: Seq<u8>, j: int, v: u8)
    requires
        0 <= j < s.len(),
    ensures
        byte_sum(s.update(j, v)) + s[j] == byte_sum(s) + v,
    decreases s.len(),
{
    let t = s.update(j, v);
    if j == s.len() - 1 {
        assert(t.drop_last() =~= s.drop_last());
    } else {
        assert(t.drop_last() =~= s.drop_last().update(j, v));
        lemma_byte_sum_update(s.drop_last(), j, v);
    }
}

proof fn lemma_distinct_mod(a: int, b: int, m: int)
    requires
        m > 0,
        a >= 0,
        b >= 0,
        a != b,
        a - b < m,
        b - a < m,
    ensures
        a % m != b % m,
{
    lemma_fundamental_div_mod(a, m);
    lemma_fundamental_div_mod(b, m);
    if a % m == b % m {
        assert(a - b == m * (a / m - b / m)) by (nonlinear_arith)
            requires
                a == m * (a / m) + a % m,
                b == m * (b / m) + b % m,
                a % m == b % m,
        ;
        assert(false) by (nonlinear_arith)
            requires
                a - b == m * (a / m - b / m),
                a != b,
                a - b < m,
                b - a < m,
                m > 0,
        ;
    }
}

/// Decoding the packet of a command gives back the command's direction,
/// operation and attribute codes and its payload; the checksum is computed
/// afresh, not carried over.
pub proof fn lemma_decode_encode(c: ScooterCommand)
    requires
        c.payload@.len() <= MAX_PAYLOAD_LEN,
    ensures
        decode_spec(packet_of(c)) == Ok::<PacketFields, DecodeError>(
            (
                direction_code(c.direction),
                operation_code(c.read_write),
                attribute_code(c.attribute),
                c.payload@,
            ),
        ),
{
    let body = body_of(c);
    let p = packet_of(c);
    let len = c.payload@.len() + 2int;
    assert(p[2] == len);
    assert(p.len() == len + 6);
    assert(p.subrange(2, 4 + len) =~= body);
    assert(p.subrange(6, 4 + len) =~= c.payload@);
    let cs = checksum_of(body) as int;
    lemma_fundamental_div_mod(cs, 256);
    assert(stored_checksum(p, len) == cs);
}

/// A packet that decodes, with one bit flipped anywhere in its body after
/// the length byte, is refused with a checksum mismatch.
pub proof fn lemma_flipped_bit_detected(p: Seq<u8>, i: int, bit: u8)
    requires
        decode_spec(p) is Ok,
        3 <= i < 4 + p[2],
        bit < 8,
    ensures
        decode_spec(p.update(i, p[i] ^ (1u8 << bit))) == Err::<PacketFields, DecodeError>(
            DecodeError::ChecksumMismatch,
        ),
{
    let x = p[i];
    let y = x ^ (1u8 << bit);
    assert(y != x) by (bit_vector)
        requires
            y == x ^ (1u8 << bit),
            bit < 8,
    ;
    let q = p.update(i, y);
    let len = p[2] as int;
    let body = p.subrange(2, 4 + len);
    assert(q.subrange(2, 4 + len) =~= body.update(i - 2, y));
    lemma_byte_sum_update(body, i - 2, y);
    lemma_distinct_mod(byte_sum(body) as int, byte_sum(body.update(i - 2, y)) as int, 0x10000);
    assert(stored_checksum(q, len) == stored_checksum(p, len));
}

} // verus!
