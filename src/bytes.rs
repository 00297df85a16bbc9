use vstd::prelude::*;

verus! {

/// The eight little-endian bytes of `v`.
pub open spec fn le_bytes_spec(v: u64) -> Seq<u8> {
    seq![
        (v & 0xFFu64) as u8,
        ((v >> 8u64) & 0xFFu64) as u8,
        ((v >> 16u64) & 0xFFu64) as u8,
        ((v >> 24u64) & 0xFFu64) as u8,
        ((v >> 32u64) & 0xFFu64) as u8,
        ((v >> 40u64) & 0xFFu64) as u8,
        ((v >> 48u64) & 0xFFu64) as u8,
        ((v >> 56u64) & 0xFFu64) as u8,
    ]
}

/// The integer whose little-endian bytes are `b[0..8]`.
pub open spec fn from_le_spec(b: Seq<u8>) -> u64
    recommends
        b.len() >= 8,
{
    (b[0] as u64) | ((b[1] as u64) << 8u64) | ((b[2] as u64) << 16u64) | ((b[3] as u64) << 24u64)
        | ((b[4] as u64) << 32u64) | ((b[5] as u64) << 40u64) | ((b[6] as u64) << 48u64) | ((
    b[7] as u64) << 56u64)
}

/// Reading back the little-endian bytes of an integer gives the integer.
pub proof fn lemma_le_round_trip(v: u64)
    ensures
        from_le_spec(le_bytes_spec(v)) == v,
{
    let b = le_bytes_spec(v);
    let b0 = b[0];
    let b1 = b[1];
    let b2 = b[2];
    let b3 = b[3];
    let b4 = b[4];
    let b5 = b[5];
    let b6 = b[6];
    let b7 = b[7];
    assert(b0 == (v & 0xFFu64) as u8);
    assert(b7 == ((v >> 56u64) & 0xFFu64) as u8);
    assert((((v & 0xFFu64) as u8) as u64) | ((((v >> 8u64) & 0xFFu64) as u8) as u64) << 8u64 | ((((
    v >> 16u64) & 0xFFu64) as u8) as u64) << 16u64 | ((((v >> 24u64) & 0xFFu64) as u8) as u64)
        << 24u64 | ((((v >> 32u64) & 0xFFu64) as u8) as u64) << 32u64 | ((((v >> 40u64) & 0xFFu64)
        as u8) as u64) << 40u64 | ((((v >> 48u64) & 0xFFu64) as u8) as u64) << 48u64 | ((((v
        >> 56u64) & 0xFFu64) as u8) as u64) << 56u64 == v) by (bit_vector);
}

pub fn u64_to_le_bytes(v: u64) -> (r: [u8; 8])
    ensures
        r@ == le_bytes_spec(v),
{
    let r = [
        (v & 0xFFu64) as u8,
        ((v >> 8u64) & 0xFFu64) as u8,
        ((v >> 16u64) & 0xFFu64) as u8,
        ((v >> 24u64) & 0xFFu64) as u8,
        ((v >> 32u64) & 0xFFu64) as u8,
        ((v >> 40u64) & 0xFFu64) as u8,
        ((v >> 48u64) & 0xFFu64) as u8,
        ((v >> 56u64) & 0xFFu64) as u8,
    ];
    assert(r@ =~= le_bytes_spec(v));
    r
}

pub fn u64_from_le_bytes(b: &[u8; 8]) -> (r: u64)
    ensures
        r == from_le_spec(b@),
{
    (b[0] as u64) | ((b[1] as u64) << 8u64) | ((b[2] as u64) << 16u64) | ((b[3] as u64) << 24u64)
        | ((b[4] as u64) << 32u64) | ((b[5] as u64) << 40u64) | ((b[6] as u64) << 48u64) | ((
    b[7] as u64) << 56u64)
}

} // verus!
