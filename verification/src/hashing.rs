use vstd::prelude::*;

verus! {

/// The identifier of a sent message: a 256-bit hash.
pub type XcmHash = [u8; 32];

/// The 256-bit Blake2 digest of `data`.
pub uninterp spec fn blake2_256_digest(data: Seq<u8>) -> Seq<u8>;

/// Calls `sp_io::hashing::blake2_256`, the 256-bit Blake2 hash. Trusted to
/// return the digest named `blake2_256_digest` of the bytes given, which depends
/// on them alone; the digest itself is not stated.
#[verifier::external_body]
fn blake2_256(data: &[u8]) -> (r: [u8; 32])
    ensures
        r@ == blake2_256_digest(data@),
{
    sp_io::hashing::blake2_256(data)
}

/// The hash by which a sent message is known: the Blake2-256 digest of its
/// SCALE encoding `encoded`.
pub fn fake_message_hash(encoded: &[u8]) -> (r: XcmHash)
    ensures
        r@ == blake2_256_digest(encoded@),
{
    blake2_256(encoded)
}

} // verus!
