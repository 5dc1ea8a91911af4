//! Content digests.
use vstd::prelude::*;

verus! {

/// The SHA-256 digest of `bytes`, in lower-case hexadecimal.
pub uninterp spec fn sha256_hex_of(bytes: Seq<u8>) -> Seq<char>;

/// `sha2::Sha256::digest`, printed in lower-case hexadecimal. Nothing is
/// claimed of the digest but that it depends on the bytes alone.
#[verifier::external_body]
pub(crate) fn sha256_hex(bytes: &[u8]) -> (r: String)
    ensures
        r@ == sha256_hex_of(bytes@),
{
    format!("{:x}", <sha2::Sha256 as sha2::Digest>::digest(bytes))
}

} // verus!
