use vstd::prelude::*;
use sha2::Digest;

verus! {

/// The SHA-256 digest of a character string (hashed as its UTF-8 bytes).
/// The digest is left unstated: contracts downstream speak of it only
/// through this name.
pub uninterp spec fn sha256_of(s: Seq<char>) -> Seq<u8>;

/// Relies on sha2::Sha256: the digest is a function of the input bytes
/// alone (identical across calls, processes and machines) and is exactly
/// 32 bytes long.
#[verifier::external_body]
pub(crate) fn sha256(s: &str) -> (r: Vec<u8>)
    ensures
        r@ == sha256_of(s@),
        r@.len() == 32,
{
    let mut hasher = sha2::Sha256::new();
    hasher.update(s.as_bytes());
    hasher.finalize().to_vec()
}

} // verus!
