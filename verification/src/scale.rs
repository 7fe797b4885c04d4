use vstd::prelude::*;

use parity_scale_codec::{Decode, Encode, Error as ScaleError};

verus! {

#[verifier::external_type_specification]
#[verifier::external_body]
pub struct ExScaleError(ScaleError);

/// Calls `Encode::encode` on a 32-byte array. SCALE writes a fixed-size byte
/// array as its bytes in order, with no length prefix, so the encoding is the
/// 32 bytes themselves.
#[verifier::external_body]
pub(crate) fn encode_account_id(who: &[u8; 32]) -> (r: Vec<u8>)
    ensures
        r@ == who@,
{
    who.encode()
}

/// Calls `Decode::decode` for a 32-byte array on a byte slice. It reads the
/// first 32 bytes, and fails when fewer than 32 are there.
#[verifier::external_body]
pub(crate) fn decode_account_id(input: &[u8]) -> (r: Result<[u8; 32], ScaleError>)
    ensures
        r is Ok <==> input@.len() >= 32,
        r matches Ok(id) ==> id@ == input@.subrange(0, 32),
{
    let mut data = input;
    <[u8; 32]>::decode(&mut data)
}

} // verus!
