//! Message authentication with HMAC-SHA256.

use hmac::{Hmac, Mac};
use sha2::Sha256;
use vstd::prelude::*;

verus! {

/// The HMAC-SHA256 tag (RFC 2104 over SHA-256) of `msg` under `key`, as the
/// `hmac` crate computes it with `sha2::Sha256`.
pub uninterp spec fn hmac_sha256(key: Seq<u8>, msg: Seq<u8>) -> Seq<u8>;

/// Computes the HMAC-SHA256 tag of `msg` under `key` with the `hmac` crate:
/// `Hmac::<Sha256>::new_from_slice(key)`, `update(msg)`, `finalize()`.
/// `new_from_slice` accepts a key of any length (its source hashes long keys
/// and never returns an error). The contract claims that the tag is the named
/// HMAC of the two byte strings and that it is 32 bytes long, the output size
/// of SHA-256.
#[verifier::external_body]
pub(crate) fn hmac_sha256_tag(key: &[u8], msg: &[u8]) -> (tag: Vec<u8>)
    ensures
        tag@ == hmac_sha256(key@, msg@),
        tag@.len() == 32,
{
    let mut mac = <Hmac<Sha256> as Mac>::new_from_slice(key).expect("HMAC can take key of any size");
    mac.update(msg);
    mac.finalize().into_bytes().to_vec()
}

} // verus!
