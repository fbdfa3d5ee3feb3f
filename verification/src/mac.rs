//! Message authentication: the tag that binds a message to the signing key.

use hmac::{Hmac, Mac};
use sha2::Sha256;
use vstd::prelude::*;

verus! {

/// The HMAC-SHA256 tag of a message under a key, as the `hmac` and `sha2`
/// crates compute it. It depends on the key and the message alone.
pub uninterp spec fn hmac_sha256(key: Seq<u8>, message: Seq<u8>) -> Seq<u8>;

/// `Hmac::<Sha256>` of the `hmac` crate: keyed with `new_from_slice`, which
/// takes a key of any length, fed the message with `update`, and read out with
/// `finalize`. The contract claims only that the bytes handed back are the tag
/// of this key and message.
#[verifier::external_body]
pub(crate) fn hmac_sha256_tag(key: &[u8], message: &[u8]) -> (tag: Vec<u8>)
    ensures
        tag@ == hmac_sha256(key@, message@),
{
    let mut mac = Hmac::<Sha256>::new_from_slice(key).expect("HMAC takes a key of any length");
    mac.update(message);
    mac.finalize().into_bytes().to_vec()
}

/// `Mac::verify_slice` of the `digest` crate on `Hmac::<Sha256>`, keyed and
/// fed as in `hmac_sha256_tag`: the crate's own comparison of a tag with the
/// tag it computes, made in constant time. The contract claims what the
/// source shows: the answer is yes exactly where the given bytes have the
/// length of a tag and are the tag of this key and message.
#[verifier::external_body]
pub(crate) fn hmac_sha256_verify(key: &[u8], message: &[u8], tag: &[u8]) -> (genuine: bool)
    ensures
        genuine == (tag@ == hmac_sha256(key@, message@)),
{
    let mut mac = Hmac::<Sha256>::new_from_slice(key).expect("HMAC takes a key of any length");
    mac.update(message);
    mac.verify_slice(tag).is_ok()
}

} // verus!
