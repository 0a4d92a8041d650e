//! The calls into `sha2` and `uuid`, each with what this library relies on.

use vstd::prelude::*;

use crate::canonical::{has_rfc_variant, hyphenated, version_of};

verus! {

/// The SHA-256 digest of a byte sequence.
pub uninterp spec fn sha256_of(bytes: Seq<u8>) -> Seq<u8>;

/// The bytes of the version-5 UUID that `uuid` derives from a name in the
/// OID namespace (SHA-1 of namespace and name, with version and variant set).
pub uninterp spec fn oid_v5_of(name: Seq<u8>) -> Seq<u8>;

/// Relies on `sha2::Sha256::digest` (through `digest::Digest`): its output
/// is 32 bytes and depends on the input bytes alone.
#[verifier::external_body]
pub(crate) fn sha256(bytes: &[u8]) -> (r: Vec<u8>)
    ensures
        r@ == sha256_of(bytes@),
        r@.len() == 32,
{
    <sha2::Sha256 as sha2::Digest>::digest(bytes).to_vec()
}

/// Relies on `uuid::Uuid::new_v5` with `uuid::Uuid::NAMESPACE_OID`: the
/// result depends on the name alone, and `Builder::from_sha1_bytes` sets the
/// version nibble to 5 and the top bits of byte 8 to `10`.
#[verifier::external_body]
pub(crate) fn v5_in_oid_namespace(name: &[u8]) -> (r: [u8; 16])
    ensures
        r@ == oid_v5_of(name@),
        version_of(r@) == 5,
        has_rfc_variant(r@),
{
    uuid::Uuid::new_v5(&uuid::Uuid::NAMESPACE_OID, name).into_bytes()
}

/// Relies on `uuid::Uuid::new_v4`: random bytes from the operating system,
/// masked so that the version nibble is 4 and the top bits of byte 8 are
/// `10`. It panics only where the operating system gives no random bytes.
#[verifier::external_body]
pub(crate) fn random_v4() -> (r: [u8; 16])
    ensures
        version_of(r@) == 4,
        has_rfc_variant(r@),
{
    uuid::Uuid::new_v4().into_bytes()
}

/// Relies on `uuid::Uuid::from_bytes` and `Uuid`'s `Display`, which writes
/// the lowercase hyphenated form (`fmt::format_hyphenated`).
#[verifier::external_body]
pub(crate) fn hyphenated_text(bytes: [u8; 16]) -> (r: String)
    ensures
        r@ == hyphenated(bytes@),
{
    uuid::Uuid::from_bytes(bytes).to_string()
}

} // verus!
