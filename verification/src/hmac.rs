//! The keyed hash under the codes.

use vstd::prelude::*;

use crate::cli::Algorithm;

verus! {

/// The HMAC (RFC 2104) of `message` under `key`, with the hash function of
/// `algorithm`.
pub uninterp spec fn hmac_tag(algorithm: Algorithm, key: Seq<u8>, message: Seq<u8>) -> Seq<u8>;

/// The number of bytes from which on the hash functions turn an input down:
/// its length in bits must fit 64 bits.
pub const HASH_INPUT_LIMIT: u64 = 0x2000_0000_0000_0000;

/// `ring::hmac::sign` with a key made by `ring::hmac::Key::new`. The tag is
/// a function of the algorithm, the key bytes and the message, and is as
/// long as the digests of the algorithm's hash function. Both calls panic
/// on an input whose length in bits does not fit 64 bits: a key of that
/// length, or a message that reaches it together with one hash block (at
/// most 128 bytes); such inputs are left out.
#[verifier::external_body]
pub(crate) fn hmac_sign(algorithm: Algorithm, key: &[u8], message: &[u8]) -> (tag: Vec<u8>)
    requires
        key@.len() < HASH_INPUT_LIMIT,
        message@.len() + 128 < HASH_INPUT_LIMIT,
    ensures
        tag@ == hmac_tag(algorithm, key@, message@),
        tag@.len() == algorithm.digest_len(),
{
    let hash = match algorithm {
        Algorithm::Sha1 => ring::hmac::HMAC_SHA1_FOR_LEGACY_USE_ONLY,
        Algorithm::Sha256 => ring::hmac::HMAC_SHA256,
        Algorithm::Sha512 => ring::hmac::HMAC_SHA512,
    };
    let key = ring::hmac::Key::new(hash, key);
    ring::hmac::sign(&key, message).as_ref().to_vec()
}

} // verus!
