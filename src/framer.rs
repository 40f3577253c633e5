//! The fixed eight-byte frame header: opcode and payload length, each a
//! little-endian `u32`.
use vstd::prelude::*;

verus! {

/// The four little-endian bytes of `v`.
pub open spec fn le_bytes(v: u32) -> Seq<u8> {
    seq![
        (v % 0x100) as u8,
        (v / 0x100 % 0x100) as u8,
        (v / 0x10000 % 0x100) as u8,
        (v / 0x1000000) as u8,
    ]
}

/// The number that four little-endian bytes stand for.
pub open spec fn le_value(b: Seq<u8>) -> int {
    b[0] + b[1] * 0x100 + b[2] * 0x10000 + b[3] * 0x1000000
}

/// The header of a frame: the opcode's bytes, then the length's bytes.
pub open spec fn header_bytes(opcode: u32, length: u32) -> Seq<u8> {
    le_bytes(opcode) + le_bytes(length)
}

/// What a header of eight bytes reads as: the opcode and the payload length.
pub open spec fn header_value(h: Seq<u8>) -> (int, int) {
    (le_value(h.subrange(0, 4)), le_value(h.subrange(4, 8)))
}

/// A whole frame: its header, then the payload.
pub open spec fn frame_bytes(opcode: u32, payload: Seq<u8>) -> Seq<u8> {
    header_bytes(opcode, payload.len() as u32) + payload
}

proof fn lemma_le_round_trip(v: u32)
    ensures
        le_value(le_bytes(v)) == v,
{
    let b = le_bytes(v);
    assert(b[0] == v % 0x100);
    assert(b[1] == v / 0x100 % 0x100);
    assert(b[2] == v / 0x10000 % 0x100);
    assert(b[3] == v / 0x1000000);
    assert((v % 0x100) + (v / 0x100 % 0x100) * 0x100 + (v / 0x10000 % 0x100) * 0x10000 + (v
        / 0x1000000) * 0x1000000 == v) by (nonlinear_arith);
}

/// Decoding the header that `encode` writes gives back the opcode and the length,
/// for every pair of values.
pub proof fn lemma_header_round_trip(opcode: u32, length: u32)
    ensures
        header_value(header_bytes(opcode, length)) == (opcode as int, length as int),
{
    let h = header_bytes(opcode, length);
    assert(h.subrange(0, 4) =~= le_bytes(opcode));
    assert(h.subrange(4, 8) =~= le_bytes(length));
    lemma_le_round_trip(opcode);
    lemma_le_round_trip(length);
}

fn push_le(out: &mut Vec<u8>, v: u32)
    ensures
        final(out)@ == old(out)@ + le_bytes(v),
{
    out.push((v % 0x100) as u8);
    out.push((v / 0x100 % 0x100) as u8);
    out.push((v / 0x10000 % 0x100) as u8);
    out.push((v / 0x1000000) as u8);
    assert(final(out)@ =~= old(out)@ + le_bytes(v));
}

fn read_le(b: &[u8], at: usize) -> (r: u32)
    requires
        at + 4 <= b@.len(),
    ensures
        r == le_value(b@.subrange(at as int, at + 4)),
{
    let ghost s = b@.subrange(at as int, at + 4);
    assert(s[0] == b@[at as int] && s[1] == b@[at + 1] && s[2] == b@[at + 2] && s[3] == b@[at
        + 3]);
    b[at] as u32 + b[at + 1] as u32 * 0x100 + b[at + 2] as u32 * 0x10000 + b[at + 3] as u32
        * 0x1000000
}

/// The eight header bytes for a frame with this opcode and payload length.
pub fn encode(opcode: u32, length: u32) -> (r: Vec<u8>)
    ensures
        r@ == header_bytes(opcode, length),
        r@.len() == 8,
{
    let mut out: Vec<u8> = Vec::with_capacity(8);
    push_le(&mut out, opcode);
    push_le(&mut out, length);
    assert(out@ =~= header_bytes(opcode, length));
    out
}

/// The opcode and payload length that an eight-byte header holds.
pub fn decode(header: &[u8]) -> (r: (u32, u32))
    requires
        header@.len() == 8,
    ensures
        (r.0 as int, r.1 as int) == header_value(header@),
{
    (read_le(header, 0), read_le(header, 4))
}

/// A whole frame on the wire: the header for `opcode` and the payload's length,
/// then the payload.
pub fn encode_frame(opcode: u32, payload: &[u8]) -> (r: Vec<u8>)
    requires
        payload@.len() <= u32::MAX,
    ensures
        r@ == frame_bytes(opcode, payload@),
{
    let mut out = encode(opcode, payload.len() as u32);
    let mut i: usize = 0;
    while i < payload.len()
        invariant
            i <= payload@.len(),
            out@ == header_bytes(opcode, payload@.len() as u32) + payload@.subrange(0, i as int),
        decreases payload@.len() - i,
    {
        out.push(payload[i]);
        i = i + 1;
        assert(out@ =~= header_bytes(opcode, payload@.len() as u32) + payload@.subrange(0, i as int));
    }
    assert(payload@.subrange(0, i as int) =~= payload@);
    out
}

} // verus!
