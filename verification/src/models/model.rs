use vstd::prelude::*;
use vstd::utf8::{encode_utf8, encode_utf8_valid_utf8, valid_utf8};

use sha2::Digest;

use crate::models::error::Error;
use crate::models::text::same_bytes;

verus! {

/// The SHA-256 digest of a byte string.
pub uninterp spec fn sha256(data: Seq<u8>) -> Seq<u8>;

/// Calls sha2's `Sha256::digest` (the `Digest` trait of the `digest` crate:
/// a fresh hasher, fed `data`, finalized) and copies the 32-byte output into
/// a `Vec`. Claimed: the result is `sha256` of the input bytes and is 32 bytes
/// long (the output size of `Sha256`). What the digest of given bytes is, is
/// left to the name `sha256`.
#[verifier::external_body]
fn sha256_digest(data: &[u8]) -> (r: Vec<u8>)
    ensures
        r@ == sha256(data@),
        r@.len() == 32,
{
    sha2::Sha256::digest(data).to_vec()
}

/// Whether a password, taken as its UTF-8 bytes, equals the given digest.
pub open spec fn pass_matches(pass: Seq<char>, digest: Seq<u8>) -> bool {
    encode_utf8(pass) == digest
}

/// A password matches only a digest that is valid UTF-8: the carried password
/// is text, so a digest whose bytes are not UTF-8 is never matched.
pub proof fn lemma_match_needs_utf8_digest(pass: Seq<char>, digest: Seq<u8>)
    requires
        pass_matches(pass, digest),
    ensures
        valid_utf8(digest),
{
    encode_utf8_valid_utf8(pass);
}

/// A value that may only be used by an administrator: it comes with the
/// password that the request carried.
#[derive(Debug, Clone)]
pub struct Protected<T> {
    pub inner: T,
    pub pass: String,
}

impl<T> Protected<T> {
    /// Wraps a value with the password that came with it.
    pub fn new(inner: T, pass: String) -> (r: Self)
        ensures
            r.inner == inner,
            r.pass@ == pass@,
    {
        Protected { inner, pass }
    }

    /// Hands the value out when the UTF-8 bytes of the carried password equal
    /// `digest`, and fails with `Unauthorized` otherwise.
    pub fn check_pass(self, digest: &[u8]) -> (r: Result<T, Error>)
        ensures
            r is Ok <==> pass_matches(self.pass@, digest@),
            r matches Ok(v) ==> v == self.inner,
            r matches Err(e) ==> e == Error::Unauthorized,
    {
        let matches = same_bytes(self.pass.as_str().as_bytes(), digest);
        if matches {
            Ok(self.inner)
        } else {
            Err(Error::Unauthorized)
        }
    }

    /// Hands the value out when the carried password is the SHA-256 digest of
    /// the administrator password; `admin_pass` is that password, or the
    /// message of the failure to read it, which makes an `Internal` error.
    pub fn validate(self, admin_pass: std::result::Result<String, String>) -> (r: Result<T, Error>)
        ensures
            admin_pass matches Err(m) ==> r == Err::<T, Error>(Error::Internal(m)),
            admin_pass matches Ok(p) ==> {
                &&& sha256(encode_utf8(p@)).len() == 32
                &&& r is Ok <==> pass_matches(self.pass@, sha256(encode_utf8(p@)))
                &&& r matches Ok(v) ==> v == self.inner
                &&& r matches Err(e) ==> e == Error::Unauthorized
            },
    {
        match admin_pass {
            Err(m) => Err(Error::Internal(m)),
            Ok(p) => {
                let digest = sha256_digest(p.as_str().as_bytes());
                self.check_pass(digest.as_slice())
            },
        }
    }
}

} // verus!
