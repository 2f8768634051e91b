//! Genome derivation: a 128-bit BLAKE2 digest over the call's seed, the
//! caller and the call's position in its block.

use crate::types::{genome_of, AccountId};
use parity_scale_codec::Encode;
use vstd::prelude::*;

verus! {

/// The four bytes of `x`, least significant first.
pub open spec fn le_bytes_u32(x: u32) -> Seq<u8> {
    seq![
        (x & 0xff) as u8,
        ((x >> 8) & 0xff) as u8,
        ((x >> 16) & 0xff) as u8,
        ((x >> 24) & 0xff) as u8,
    ]
}

/// The eight bytes of `x`, least significant first.
pub open spec fn le_bytes_u64(x: u64) -> Seq<u8> {
    seq![
        (x & 0xff) as u8,
        ((x >> 8) & 0xff) as u8,
        ((x >> 16) & 0xff) as u8,
        ((x >> 24) & 0xff) as u8,
        ((x >> 32) & 0xff) as u8,
        ((x >> 40) & 0xff) as u8,
        ((x >> 48) & 0xff) as u8,
        ((x >> 56) & 0xff) as u8,
    ]
}

/// SCALE encoding of an optional extrinsic index: the byte 0 for `None`,
/// the byte 1 and the index in little-endian order for `Some`.
pub open spec fn scale_extrinsic_index(extrinsic_index: Option<u32>) -> Seq<u8> {
    match extrinsic_index {
        None => seq![0u8],
        Some(index) => seq![1u8] + le_bytes_u32(index),
    }
}

/// SCALE encoding of the pair `(sender, extrinsic_index)`: the encodings of
/// its two fields, one after the other.
pub open spec fn scale_sender_and_index(sender: AccountId, extrinsic_index: Option<u32>) -> Seq<
    u8,
> {
    le_bytes_u64(sender) + scale_extrinsic_index(extrinsic_index)
}

/// The bytes that are hashed for a call: the seed as it was handed in, then
/// the encoded sender and extrinsic index.
pub open spec fn random_payload(
    seed: Seq<u8>,
    sender: AccountId,
    extrinsic_index: Option<u32>,
) -> Seq<u8> {
    seed + scale_sender_and_index(sender, extrinsic_index)
}

/// The 128-bit BLAKE2b digest of `data`.
pub uninterp spec fn blake2_128_digest(data: Seq<u8>) -> Seq<u8>;

/// The genome derived for a call.
pub open spec fn derive_genome(
    seed: Seq<u8>,
    sender: AccountId,
    extrinsic_index: Option<u32>,
) -> [u8; 16] {
    genome_of(blake2_128_digest(random_payload(seed, sender, extrinsic_index)))
}

/// Calls `parity_scale_codec::Encode::encode` on the pair
/// `(sender, extrinsic_index)`. Trusted: the codec writes a `u64` and a `u32`
/// as their little-endian bytes, an `Option` as the byte 0, or the byte 1
/// followed by its value, and a tuple as its fields in order.
#[verifier::external_body]
fn encode_sender_and_index(sender: AccountId, extrinsic_index: Option<u32>) -> (bytes: Vec<u8>)
    ensures
        bytes@ == scale_sender_and_index(sender, extrinsic_index),
{
    (sender, extrinsic_index).encode()
}

/// Calls `sp_io::hashing::blake2_128`. Trusted: the result is a function of
/// the bytes of `data` alone, named `blake2_128_digest`; nothing is said of
/// its value.
#[verifier::external_body]
fn blake2_128(data: &[u8]) -> (digest: [u8; 16])
    ensures
        digest@ == blake2_128_digest(data@),
{
    sp_io::hashing::blake2_128(data)
}

/// Builds the bytes that `random_value` hashes.
pub fn encode_payload(seed: &[u8], sender: AccountId, extrinsic_index: Option<u32>) -> (payload:
    Vec<u8>)
    ensures
        payload@ == random_payload(seed@, sender, extrinsic_index),
{
    let mut payload: Vec<u8> = Vec::new();
    payload.extend_from_slice(seed);
    let mut tail = encode_sender_and_index(sender, extrinsic_index);
    payload.append(&mut tail);
    assert(payload@ =~= random_payload(seed@, sender, extrinsic_index));
    payload
}

/// Derives sixteen bytes for a call from the seed that the randomness source
/// gave for it, the calling account and the call's position in its block.
/// The same three inputs always give the same bytes.
pub fn random_value(seed: &[u8], sender: AccountId, extrinsic_index: Option<u32>) -> (value: [u8;
    16])
    ensures
        value == derive_genome(seed@, sender, extrinsic_index),
{
    let payload = encode_payload(seed, sender, extrinsic_index);
    let value = blake2_128(payload.as_slice());
    assert(value =~= derive_genome(seed@, sender, extrinsic_index));
    value
}

} // verus!
