//! The local-IPC wire framing: an 8-byte little-endian header (a signed
//! 32-bit opcode, then a signed 32-bit payload length) and the payload.

use crate::bytes::{
    le_bytes, le_read, le_seq, le_value, lemma_le_round_trip, lemma_le_seq_len,
    lemma_le_value_bound, pow256,
};
use vstd::prelude::*;

verus! {

/// Opens a session: the payload names the application.
pub const OPCODE_HANDSHAKE: i32 = 0;

/// Carries a command or its reply.
pub const OPCODE_FRAME: i32 = 1;

/// Why bytes could not be read as a frame.
#[derive(Debug, Clone, Copy, PartialEq, Eq, Structural)]
pub enum FrameError {
    /// Fewer bytes than the header, or than the length it declares.
    Truncated,
    /// The header declares a negative payload length.
    NegativeLength,
}

/// One decoded frame.
#[derive(Debug, Clone)]
pub struct Frame {
    pub opcode: i32,
    pub payload: Vec<u8>,
}

/// The unsigned 32-bit pattern of `x`.
pub open spec fn u32_bits(x: int) -> nat {
    if x >= 0 {
        x as nat
    } else {
        (x + 0x1_0000_0000) as nat
    }
}

/// The signed 32-bit number with bit pattern `v`.
pub open spec fn i32_of_bits(v: nat) -> int {
    if v < 0x8000_0000 {
        v as int
    } else {
        v - 0x1_0000_0000
    }
}

/// The bytes of a frame.
pub open spec fn frame_bytes(opcode: i32, payload: Seq<u8>) -> Seq<u8> {
    le_seq(u32_bits(opcode as int), 4) + le_seq(payload.len(), 4) + payload
}

/// The opcode a header declares.
pub open spec fn header_opcode(b: Seq<u8>) -> int {
    i32_of_bits(le_value(b.subrange(0, 4)))
}

/// The payload length a header declares.
pub open spec fn header_length(b: Seq<u8>) -> int {
    i32_of_bits(le_value(b.subrange(4, 8)))
}

/// The frame at the start of `b`: its opcode, its payload and the number of
/// bytes it takes.
pub open spec fn decode_spec(b: Seq<u8>) -> Result<(i32, Seq<u8>, nat), FrameError> {
    if b.len() < 8 {
        Err(FrameError::Truncated)
    } else if header_length(b) < 0 {
        Err(FrameError::NegativeLength)
    } else if b.len() < 8 + header_length(b) {
        Err(FrameError::Truncated)
    } else {
        Ok(
            (
                header_opcode(b) as i32,
                b.subrange(8, 8 + header_length(b)),
                (8 + header_length(b)) as nat,
            ),
        )
    }
}

proof fn lemma_bits_round_trip(x: i32)
    ensures
        u32_bits(x as int) < 0x1_0000_0000,
        i32_of_bits(u32_bits(x as int)) == x,
{
}

proof fn lemma_pow256_4()
    ensures
        pow256(4) == 0x1_0000_0000,
{
    reveal_with_fuel(pow256, 5);
}

/// Encodes a frame.
pub fn encode_frame(opcode: i32, payload: &[u8]) -> (r: Vec<u8>)
    requires
        payload@.len() <= i32::MAX,
    ensures
        r@ == frame_bytes(opcode, payload@),
{
    let bits: u64 = if opcode >= 0 {
        opcode as u64
    } else {
        (opcode as i64 + 0x1_0000_0000i64) as u64
    };
    let mut frame = le_bytes(bits, 4);
    let mut len_bytes = le_bytes(payload.len() as u64, 4);
    frame.append(&mut len_bytes);
    let ghost head = frame@;
    let mut i: usize = 0;
    while i < payload.len()
        invariant
            i <= payload@.len(),
            frame@ == head + payload@.subrange(0, i as int),
        decreases payload@.len() - i,
    {
        frame.push(payload[i]);
        assert(frame@ =~= head + payload@.subrange(0, i + 1));
        i = i + 1;
    }
    assert(payload@.subrange(0, payload@.len() as int) =~= payload@);
    frame
}

/// Reads a signed 32-bit number stored little-endian at `b[start..start + 4]`.
fn read_i32(b: &[u8], start: usize) -> (r: i32)
    requires
        start + 4 <= b@.len(),
    ensures
        r as int == i32_of_bits(le_value(b@.subrange(start as int, start + 4))),
{
    let v = le_read(b, start, 4);
    proof {
        lemma_le_value_bound(b@.subrange(start as int, start + 4));
        lemma_pow256_4();
    }
    if v < 0x8000_0000 {
        v as i32
    } else {
        (v as i64 - 0x1_0000_0000i64) as i32
    }
}

/// Decodes the frame at the start of `b`. A negative declared length is
/// rejected; so are bytes that end before the header or the payload does.
pub fn decode_frame(b: &[u8]) -> (r: Result<(Frame, usize), FrameError>)
    ensures
        match r {
            Ok((f, n)) => decode_spec(b@) == Ok::<(i32, Seq<u8>, nat), FrameError>(
                (f.opcode, f.payload@, n as nat),
            ),
            Err(e) => decode_spec(b@) == Err::<(i32, Seq<u8>, nat), FrameError>(e),
        },
{
    if b.len() < 8 {
        return Err(FrameError::Truncated);
    }
    let opcode = read_i32(b, 0);
    let length = read_i32(b, 4);
    if length < 0 {
        return Err(FrameError::NegativeLength);
    }
    let len = length as usize;
    if b.len() - 8 < len {
        return Err(FrameError::Truncated);
    }
    let total = b.len();
    let mut payload: Vec<u8> = Vec::new();
    let mut i: usize = 0;
    while i < len
        invariant
            i <= len,
            total == b@.len(),
            8 + len <= b@.len(),
            payload@ == b@.subrange(8, 8 + i),
        decreases len - i,
    {
        payload.push(b[8 + i]);
        assert(payload@ =~= b@.subrange(8, 8 + i + 1));
        i = i + 1;
    }
    Ok((Frame { opcode, payload }, 8 + len))
}

/// Decodes the 8-byte header at the start of `b` into opcode and length.
pub fn decode_header(b: &[u8]) -> (r: Result<(i32, usize), FrameError>)
    ensures
        b@.len() < 8 ==> r == Err::<(i32, usize), FrameError>(FrameError::Truncated),
        b@.len() >= 8 && header_length(b@) < 0 ==> r == Err::<(i32, usize), FrameError>(
            FrameError::NegativeLength,
        ),
        b@.len() >= 8 && header_length(b@) >= 0 ==> (r matches Ok((op, len)) && op == header_opcode(
            b@,
        ) && len == header_length(b@)),
{
    if b.len() < 8 {
        return Err(FrameError::Truncated);
    }
    let opcode = read_i32(b, 0);
    let length = read_i32(b, 4);
    if length < 0 {
        return Err(FrameError::NegativeLength);
    }
    Ok((opcode, length as usize))
}

proof fn lemma_decode_own_frame(opcode: i32, payload: Seq<u8>, rest: Seq<u8>)
    requires
        payload.len() <= i32::MAX,
    ensures
        decode_spec(frame_bytes(opcode, payload) + rest) == Ok::<(i32, Seq<u8>, nat), FrameError>(
            (opcode, payload, 8 + payload.len()),
        ),
{
    let b = frame_bytes(opcode, payload) + rest;
    let op_bytes = le_seq(u32_bits(opcode as int), 4);
    let len_bytes = le_seq(payload.len(), 4);
    lemma_le_seq_len(u32_bits(opcode as int), 4);
    lemma_le_seq_len(payload.len(), 4);
    lemma_pow256_4();
    lemma_bits_round_trip(opcode);
    lemma_le_round_trip(u32_bits(opcode as int), 4);
    lemma_le_round_trip(payload.len(), 4);
    assert(b.subrange(0, 4) =~= op_bytes);
    assert(b.subrange(4, 8) =~= len_bytes);
    assert(header_length(b) == payload.len());
    assert(b.subrange(8, 8 + payload.len() as int) =~= payload);
}

/// A handshake frame followed by a command frame decodes back to both, in
/// order, with their opcodes, lengths and payloads.
pub proof fn lemma_frames_round_trip(
    opcode1: i32,
    payload1: Seq<u8>,
    opcode2: i32,
    payload2: Seq<u8>,
)
    requires
        payload1.len() <= i32::MAX,
        payload2.len() <= i32::MAX,
    ensures
        ({
            let stream = frame_bytes(opcode1, payload1) + frame_bytes(opcode2, payload2);
            &&& decode_spec(stream) == Ok::<(i32, Seq<u8>, nat), FrameError>(
                (opcode1, payload1, 8 + payload1.len()),
            )
            &&& decode_spec(stream.subrange(8 + payload1.len() as int, stream.len() as int)) == Ok::<
                (i32, Seq<u8>, nat),
                FrameError,
            >((opcode2, payload2, 8 + payload2.len()))
        }),
{
    let first = frame_bytes(opcode1, payload1);
    let second = frame_bytes(opcode2, payload2);
    let stream = first + second;
    lemma_le_seq_len(u32_bits(opcode1 as int), 4);
    lemma_le_seq_len(payload1.len(), 4);
    lemma_decode_own_frame(opcode1, payload1, second);
    assert(stream.subrange(8 + payload1.len() as int, stream.len() as int) =~= second + Seq::empty());
    lemma_decode_own_frame(opcode2, payload2, Seq::empty());
}

/// A header that declares length -1 is rejected, whatever follows it.
pub proof fn lemma_negative_length_rejected(opcode: i32, rest: Seq<u8>)
    ensures
        decode_spec(le_seq(u32_bits(opcode as int), 4) + le_seq(u32_bits(-1), 4) + rest)
            == Err::<(i32, Seq<u8>, nat), FrameError>(FrameError::NegativeLength),
{
    let b = le_seq(u32_bits(opcode as int), 4) + le_seq(u32_bits(-1), 4) + rest;
    lemma_le_seq_len(u32_bits(opcode as int), 4);
    lemma_le_seq_len(u32_bits(-1), 4);
    lemma_pow256_4();
    lemma_le_round_trip(u32_bits(-1), 4);
    assert(b.subrange(4, 8) =~= le_seq(u32_bits(-1), 4));
}

} // verus!
