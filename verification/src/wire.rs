//! Big-endian integers as they stand on the wire.

use vstd::prelude::*;

verus! {

/// The 16-bit value whose big-endian representation is `hi`, `lo`.
pub open spec fn be16(hi: u8, lo: u8) -> u16 {
    (hi as int * 256 + lo as int) as u16
}

/// The two bytes of `u`, most significant first.
pub open spec fn be16_bytes(u: u16) -> Seq<u8> {
    seq![(u / 256) as u8, (u % 256) as u8]
}

/// The 32-bit value whose big-endian representation is `b0`, `b1`, `b2`, `b3`.
pub open spec fn be32(b0: u8, b1: u8, b2: u8, b3: u8) -> u32 {
    (b0 as int * 16777216 + b1 as int * 65536 + b2 as int * 256 + b3 as int) as u32
}

/// The four bytes of `u`, most significant first.
pub open spec fn be32_bytes(u: u32) -> Seq<u8> {
    seq![
        (u / 16777216) as u8,
        ((u / 65536) % 256) as u8,
        ((u / 256) % 256) as u8,
        (u % 256) as u8,
    ]
}

pub fn u16_from_be(bytes: [u8; 2]) -> (u: u16)
    ensures
        u == be16(bytes[0], bytes[1]),
{
    (bytes[0] as u16) * 256 + (bytes[1] as u16)
}

pub fn u16_to_be(u: u16) -> (bytes: [u8; 2])
    ensures
        bytes@ == be16_bytes(u),
{
    let bytes = [(u / 256) as u8, (u % 256) as u8];
    assert(bytes@ =~= be16_bytes(u));
    bytes
}

pub fn u32_from_be(bytes: [u8; 4]) -> (u: u32)
    ensures
        u == be32(bytes[0], bytes[1], bytes[2], bytes[3]),
{
    (bytes[0] as u32) * 16777216 + (bytes[1] as u32) * 65536 + (bytes[2] as u32) * 256 + (
    bytes[3] as u32)
}

pub fn u32_to_be(u: u32) -> (bytes: [u8; 4])
    ensures
        bytes@ == be32_bytes(u),
{
    let bytes = [
        (u / 16777216) as u8,
        ((u / 65536) % 256) as u8,
        ((u / 256) % 256) as u8,
        (u % 256) as u8,
    ];
    assert(bytes@ =~= be32_bytes(u));
    bytes
}

/// Reading back the bytes of a 16-bit value gives the value.
pub proof fn lemma_be16_round_trip(u: u16)
    ensures
        be16_bytes(u).len() == 2,
        be16(be16_bytes(u)[0], be16_bytes(u)[1]) == u,
{
}

/// Reading back the bytes of a 32-bit value gives the value.
pub proof fn lemma_be32_round_trip(u: u32)
    ensures
        be32_bytes(u).len() == 4,
        be32(be32_bytes(u)[0], be32_bytes(u)[1], be32_bytes(u)[2], be32_bytes(u)[3]) == u,
{
}

} // verus!
