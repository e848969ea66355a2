//! Version compatibility, the password digest, and session-id minting.

use vstd::prelude::*;
use sha2::{Digest, Sha256};

verus! {

/// The one protocol version this server speaks.
pub open spec fn version_compatible(v: Seq<char>) -> bool {
    v == "2.0.8.4"@
}

/// A client version string is accepted exactly when it equals the server's
/// protocol version.
pub fn is_version_compatible(version: &str) -> (r: bool)
    ensures
        r == version_compatible(version@),
{
    let v: String = version.to_owned();
    let w: String = String::from_str("2.0.8.4");
    v == w
}

/// The version string this server stamps on every reply it sends.
pub fn server_version() -> (v: String)
    ensures
        version_compatible(v@),
{
    String::from_str("2.0.8.4")
}

/// The lowercase hexadecimal SHA-256 digest of a string's bytes.  The digest
/// depends on the input alone, so it is left as a name; `get_sha256_hash` is
/// the only function that produces it.
pub uninterp spec fn sha256_hex_of(data: Seq<char>) -> Seq<char>;

/// A lowercase hexadecimal digit.
pub open spec fn lower_hex_char(c: char) -> bool {
    ('0' <= c && c <= '9') || ('a' <= c && c <= 'f')
}

/// Relies on sha2::Sha256 (RustCrypto) and generic-array's LowerHex: the
/// SHA-256 digest of the input bytes is 32 bytes, printed as two lowercase
/// hex digits each from the digit table `0123456789abcdef`, hence 64
/// characters, and depends on the input alone.
#[verifier::external_body]
pub fn get_sha256_hash(data: &str) -> (r: String)
    ensures
        r@ == sha256_hex_of(data@),
        r@.len() == 64,
        forall|i: int| 0 <= i < r@.len() ==> lower_hex_char(#[trigger] r@[i]),
{
    let mut hasher = Sha256::new();
    hasher.update(data.as_bytes());
    format!("{:x}", hasher.finalize())
}

/// Relies on uuid::Uuid::new_v4 and its hyphenated Display form, which is
/// always 36 ASCII characters.  The value is drawn from the operating
/// system's randomness, so nothing else is promised of it.
#[verifier::external_body]
pub(crate) fn mint_session_id() -> (r: String)
    ensures
        r@.len() == 36,
{
    uuid::Uuid::new_v4().to_string()
}

} // verus!
