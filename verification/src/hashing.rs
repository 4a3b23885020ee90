//! The two outside computations behind a fingerprint: the SCALE encoding of the
//! inputs and their Blake2b digest.

use vstd::bytes::{spec_u32_to_le_bytes, spec_u64_to_le_bytes};
use vstd::prelude::*;

verus! {

/// The 128-bit Blake2b digest of `data`, as `sp_io::hashing::blake2_128` computes it.
pub uninterp spec fn blake2_128_of(data: Seq<u8>) -> Seq<u8>;

/// The bytes that are hashed into a fingerprint: the seed as it stands, then the
/// extrinsic index and the block number, each in little-endian order.
pub open spec fn dna_payload(seed: [u8; 32], extrinsic_index: u32, block_number: u64) -> Seq<u8> {
    seed@ + spec_u32_to_le_bytes(extrinsic_index) + spec_u64_to_le_bytes(block_number)
}

/// Calls `sp_io::hashing::blake2_128`. Trusted: the digest is a function of the
/// bytes alone, named [`blake2_128_of`]; nothing else is claimed of it.
#[verifier::external_body]
pub(crate) fn blake2_128(data: &Vec<u8>) -> (digest: [u8; 16])
    ensures
        digest@ == blake2_128_of(data@),
{
    sp_io::hashing::blake2_128(data.as_slice())
}

/// Calls `parity_scale_codec::Encode::encode` on the tuple of the three inputs.
/// Trusted: a tuple is encoded as its fields one after the other, a byte array
/// as its bytes without a length, and a fixed-width integer in little-endian order.
#[verifier::external_body]
pub(crate) fn encode_payload(seed: &[u8; 32], extrinsic_index: u32, block_number: u64) -> (bytes:
    Vec<u8>)
    ensures
        bytes@ == dna_payload(*seed, extrinsic_index, block_number),
{
    parity_scale_codec::Encode::encode(&(*seed, extrinsic_index, block_number))
}

} // verus!
