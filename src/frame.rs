//! Message framing: a 4-byte little-endian length, then the payload.

use vstd::prelude::*;

verus! {

/// The four little-endian bytes of `n`.
pub open spec fn le_bytes(n: nat) -> Seq<u8> {
    seq![(n % 256) as u8, ((n / 256) % 256) as u8, ((n / 65536) % 256) as u8, ((n / 16777216) % 256) as u8]
}

/// The number that four little-endian bytes hold.
pub open spec fn le_value(b: Seq<u8>) -> nat {
    (b[0] as nat) + (b[1] as nat) * 256 + (b[2] as nat) * 65536 + (b[3] as nat) * 16777216
}

/// The length prefix of a payload of `n` bytes.
pub fn length_prefix(n: u32) -> (r: Vec<u8>)
    ensures
        r@ == le_bytes(n as nat),
{
    let mut r: Vec<u8> = Vec::new();
    r.push((n % 256) as u8);
    r.push(((n / 256) % 256) as u8);
    r.push(((n / 65536) % 256) as u8);
    r.push(((n / 16777216) % 256) as u8);
    assert(r@ =~= le_bytes(n as nat));
    r
}

/// The frame of `payload`: its length in four little-endian bytes, then
/// the payload. `None` when the length does not fit in 32 bits.
pub fn encode_frame(payload: &Vec<u8>) -> (r: Option<Vec<u8>>)
    ensures
        r.is_some() == (payload@.len() <= u32::MAX),
        r.is_some() ==> r.unwrap()@ == le_bytes(payload@.len()) + payload@,
{
    if payload.len() > u32::MAX as usize {
        return None;
    }
    let mut frame: Vec<u8> = length_prefix(payload.len() as u32);
    let mut i: usize = 0;
    while i < payload.len()
        invariant
            i <= payload@.len(),
            frame@ == le_bytes(payload@.len()) + payload@.subrange(0, i as int),
        decreases payload@.len() - i,
    {
        frame.push(payload[i]);
        assert(payload@.subrange(0, i + 1) =~= payload@.subrange(0, i as int).push(payload@[i as int]));
        i += 1;
    }
    assert(payload@.subrange(0, payload@.len() as int) =~= payload@);
    Some(frame)
}

/// The payload length that a frame header announces; `None` unless the
/// header is four bytes.
pub fn decode_frame_length(header: &[u8]) -> (r: Option<u32>)
    ensures
        r.is_some() == (header@.len() == 4),
        r.is_some() ==> r.unwrap() as nat == le_value(header@),
{
    if header.len() != 4 {
        return None;
    }
    let v: u32 = header[0] as u32 + (header[1] as u32) * 256 + (header[2] as u32) * 65536 + (
    header[3] as u32) * 16777216;
    Some(v)
}

/// Reading back a length prefix gives the length.
pub proof fn lemma_length_prefix_round_trip(n: u32)
    ensures
        le_value(le_bytes(n as nat)) == n,
{
    let b = le_bytes(n as nat);
    assert(b[0] as nat == n % 256);
    assert(b[1] as nat == (n / 256) % 256);
    assert(b[2] as nat == (n / 65536) % 256);
    assert(b[3] as nat == (n / 16777216) % 256);
}

} // verus!
