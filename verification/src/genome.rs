//! Genome derivation and combination.
//!
//! A genome is a 16-byte fingerprint. A fresh genome is derived by hashing
//! the SCALE encoding of a 32-byte random seed together with the current
//! block height; two genomes are bred by a fixed bitwise formula driven by
//! a mask derived the same way.

use vstd::prelude::*;

verus! {

/// The four little-endian bytes of a 32-bit integer.
pub open spec fn u32_le_bytes(x: u32) -> Seq<u8> {
    seq![
        (x & 0xff) as u8,
        ((x >> 8) & 0xff) as u8,
        ((x >> 16) & 0xff) as u8,
        ((x >> 24) & 0xff) as u8,
    ]
}

/// The bytes that seed a genome: the random seed followed by the
/// little-endian block height (the SCALE encoding of the pair).
pub open spec fn seed_payload(seed: Seq<u8>, height: u32) -> Seq<u8> {
    seed + u32_le_bytes(height)
}

/// The 16-byte Blake2b-128 digest of a byte string, determined by the
/// input alone.
pub uninterp spec fn blake2_128_of(data: Seq<u8>) -> Seq<u8>;

/// Relies on `parity_scale_codec::Encode` for `([u8; 32], u32)`: a fixed
/// array encodes as its raw bytes, a `u32` as its four little-endian bytes,
/// and a tuple as the concatenation of its parts' encodings.
#[verifier::external_body]
fn encode_payload(seed: &[u8; 32], height: u32) -> (r: Vec<u8>)
    ensures
        r@ == seed_payload(seed@, height),
{
    parity_scale_codec::Encode::encode(&(*seed, height))
}

/// Relies on `sp_io::hashing::blake2_128`: the 16-byte Blake2b-128 digest
/// of the input bytes, a function of those bytes alone.
#[verifier::external_body]
fn blake2_128(data: &Vec<u8>) -> (r: [u8; 16])
    ensures
        r@ == blake2_128_of(data@),
{
    sp_io::hashing::blake2_128(data.as_slice())
}

/// Derive a fresh genome from a random seed and the current block height.
pub fn gen_dna(seed: &[u8; 32], height: u32) -> (r: [u8; 16])
    ensures
        r@ == blake2_128_of(seed_payload(seed@, height)),
{
    let payload = encode_payload(seed, height);
    blake2_128(&payload)
}

/// The breeding formula: byte `i` of the child is
/// `(mask[i] & a[i]) | (mask[i] & b[i])`.
pub open spec fn combine(a: Seq<u8>, b: Seq<u8>, mask: Seq<u8>) -> Seq<u8> {
    Seq::new(mask.len(), |i: int| (mask[i] & a[i]) | (mask[i] & b[i]))
}

/// Combine two parent genomes under a mask, byte by byte.
pub fn combine_dna(a: &[u8; 16], b: &[u8; 16], mask: &[u8; 16]) -> (r: [u8; 16])
    ensures
        r@ == combine(a@, b@, mask@),
{
    let mut out: [u8; 16] = [0u8; 16];
    let mut i: usize = 0;
    while i < 16
        invariant
            i <= 16,
            forall|j: int| 0 <= j < i ==> out@[j] == (mask@[j] & a@[j]) | (mask@[j] & b@[j]),
        decreases 16 - i,
    {
        out[i] = (mask[i] & a[i]) | (mask[i] & b[i]);
        i = i + 1;
    }
    proof {
        assert(out@ =~= combine(a@, b@, mask@));
    }
    out
}

} // verus!
