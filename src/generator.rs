//! The identifier generator: random without input, derived from the text
//! otherwise.

use vstd::prelude::*;

use vstd::utf8::encode_utf8;

use crate::canonical::{
    has_rfc_variant, hyphenated, is_canonical_uuid, lemma_hyphenated_is_canonical,
    lemma_hyphenated_version_variant, shows_rfc_variant, version_of,
};
use crate::primitives::{
    hyphenated_text, oid_v5_of, random_v4, sha256, sha256_of, v5_in_oid_namespace,
};

verus! {

/// The identifier for a text: the hyphenated version-5 UUID in the OID
/// namespace whose name is the SHA-256 digest of the text's UTF-8 bytes.
pub open spec fn uuid_for_text(s: Seq<char>) -> Seq<char> {
    hyphenated(oid_v5_of(sha256_of(encode_utf8(s))))
}

/// The text of some version-4 UUID: sixteen bytes with version nibble 4 and
/// the RFC variant, hyphenated.
pub open spec fn is_random_uuid_text(s: Seq<char>) -> bool {
    exists|b: Seq<u8>|
        b.len() == 16 && version_of(b) == 4 && has_rfc_variant(b) && s == #[trigger] hyphenated(b)
}

/// A version-5 identifier derived from the text.
pub fn generate_uuid_with_input(s: String) -> (r: String)
    ensures
        r@ == uuid_for_text(s@),
        is_canonical_uuid(r@),
        r@[14] == '5',
        shows_rfc_variant(r@),
{
    let digest = sha256(s.as_str().as_bytes());
    let bytes = v5_in_oid_namespace(digest.as_slice());
    proof {
        lemma_hyphenated_is_canonical(bytes@);
        lemma_hyphenated_version_variant(bytes@);
    }
    hyphenated_text(bytes)
}

/// A random version-4 identifier.
pub fn generate_uuid_without_input() -> (r: String)
    ensures
        is_random_uuid_text(r@),
        is_canonical_uuid(r@),
        r@[14] == '4',
        shows_rfc_variant(r@),
{
    let bytes = random_v4();
    proof {
        lemma_hyphenated_is_canonical(bytes@);
        lemma_hyphenated_version_variant(bytes@);
    }
    hyphenated_text(bytes)
}

/// A random identifier when no text is given, the identifier derived from
/// the text otherwise.
pub fn uuid(s: Option<String>) -> (r: String)
    ensures
        match s {
            Some(t) => r@ == uuid_for_text(t@) && r@[14] == '5',
            None => is_random_uuid_text(r@) && r@[14] == '4',
        },
        is_canonical_uuid(r@),
        shows_rfc_variant(r@),
{
    match s {
        Some(t) => generate_uuid_with_input(t),
        None => generate_uuid_without_input(),
    }
}

/// Determinism: equal texts give equal identifiers, since the identifier
/// for a text depends on its characters alone.
pub proof fn law_equal_texts_equal_uuids(a: Seq<char>, b: Seq<char>)
    requires
        a == b,
    ensures
        uuid_for_text(a) == uuid_for_text(b),
{
}

} // verus!
