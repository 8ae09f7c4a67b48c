//! The one cryptographic dependence of the decoder: the hash that time
//! lock scripts memoise over their own encoding.

use vstd::prelude::*;

verus! {

/// The 256-bit blake2b digest of a byte string, named but not defined:
/// it is a function of the input alone, computed by the outside hasher.
pub uninterp spec fn blake2b256_of(b: Seq<u8>) -> Seq<u8>;

/// Relies on pallas_crypto's `Hasher::<256>`: a 32-byte blake2b digest
/// that depends on the input bytes alone.
#[verifier::external_body]
pub fn blake2b_256(b: &[u8]) -> (r: Vec<u8>)
    ensures
        r@ == blake2b256_of(b@),
        r@.len() == 32,
{
    pallas_crypto::hash::Hasher::<256>::hash(b).as_ref().to_vec()
}

} // verus!
