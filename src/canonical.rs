//! The canonical text form of a UUID and the facts about it that callers use.

use vstd::prelude::*;

verus! {

/// The lowercase hexadecimal digit for a nibble value.
pub open spec fn hex_char(n: u8) -> char
    recommends
        0 <= n < 16,
{
    seq!['0', '1', '2', '3', '4', '5', '6', '7', '8', '9', 'a', 'b', 'c', 'd', 'e', 'f'][n as int]
}

/// Two lowercase hex digits per byte, high nibble first.
pub open spec fn hex_of(bytes: Seq<u8>) -> Seq<char>
    decreases bytes.len(),
{
    if bytes.len() == 0 {
        Seq::empty()
    } else {
        seq![hex_char(bytes[0] / 16), hex_char(bytes[0] % 16)] + hex_of(bytes.drop_first())
    }
}

/// The hyphenated text of sixteen bytes: groups of 4, 2, 2, 2 and 6 bytes in
/// hex, joined by `-`.
pub open spec fn hyphenated(bytes: Seq<u8>) -> Seq<char> {
    hex_of(bytes.subrange(0, 4)) + seq!['-'] + hex_of(bytes.subrange(4, 6)) + seq!['-']
        + hex_of(bytes.subrange(6, 8)) + seq!['-'] + hex_of(bytes.subrange(8, 10)) + seq!['-']
        + hex_of(bytes.subrange(10, 16))
}

pub open spec fn is_hyphen_position(i: int) -> bool {
    i == 8 || i == 13 || i == 18 || i == 23
}

pub open spec fn is_lower_hex_digit(c: char) -> bool {
    ('0' <= c && c <= '9') || ('a' <= c && c <= 'f')
}

/// 36 characters: `-` at positions 8, 13, 18 and 23, a lowercase hex digit
/// everywhere else.
pub open spec fn is_canonical_uuid(s: Seq<char>) -> bool {
    &&& s.len() == 36
    &&& forall|i: int|
        0 <= i < 36 ==> if is_hyphen_position(i) {
            s[i] == '-'
        } else {
            is_lower_hex_digit(#[trigger] s[i])
        }
}

/// The version number held in the high nibble of byte 6.
pub open spec fn version_of(bytes: Seq<u8>) -> u8 {
    bytes[6] / 16
}

/// The RFC 4122 / RFC 9562 variant: the two top bits of byte 8 are `10`.
pub open spec fn has_rfc_variant(bytes: Seq<u8>) -> bool {
    bytes[8] / 64 == 2
}

/// The variant as it reads in text: the first digit of the fourth group is
/// one of `8`, `9`, `a`, `b`.
pub open spec fn shows_rfc_variant(s: Seq<char>) -> bool {
    s[19] == '8' || s[19] == '9' || s[19] == 'a' || s[19] == 'b'
}

proof fn lemma_hex_char(n: u8)
    requires
        0 <= n < 16,
    ensures
        is_lower_hex_digit(hex_char(n)),
        n < 10 ==> hex_char(n) as int == '0' as int + n,
        n >= 10 ==> hex_char(n) as int == 'a' as int + n - 10,
{
}

/// Each byte of the input gives the two digits at positions `2 * k` and
/// `2 * k + 1`.
pub proof fn lemma_hex_of(bytes: Seq<u8>)
    ensures
        hex_of(bytes).len() == 2 * bytes.len(),
        forall|k: int|
            0 <= k < bytes.len() ==> {
                &&& #[trigger] hex_of(bytes)[2 * k] == hex_char(bytes[k] / 16)
                &&& hex_of(bytes)[2 * k + 1] == hex_char(bytes[k] % 16)
            },
        forall|i: int| 0 <= i < hex_of(bytes).len() ==> is_lower_hex_digit(#[trigger] hex_of(bytes)[i]),
    decreases bytes.len(),
{
    if bytes.len() > 0 {
        let rest = bytes.drop_first();
        lemma_hex_of(rest);
        lemma_hex_char(bytes[0] / 16);
        lemma_hex_char(bytes[0] % 16);
        let head = seq![hex_char(bytes[0] / 16), hex_char(bytes[0] % 16)];
        assert(hex_of(bytes) == head + hex_of(rest));
        assert forall|k: int| 0 < k < bytes.len() implies {
            &&& #[trigger] hex_of(bytes)[2 * k] == hex_char(bytes[k] / 16)
            &&& hex_of(bytes)[2 * k + 1] == hex_char(bytes[k] % 16)
        } by {
            assert(rest[k - 1] == bytes[k]);
            assert(hex_of(rest)[2 * (k - 1)] == hex_char(rest[k - 1] / 16));
        }
        assert forall|i: int| 0 <= i < hex_of(bytes).len() implies is_lower_hex_digit(
            #[trigger] hex_of(bytes)[i],
        ) by {
            if i >= 2 {
                assert(hex_of(bytes)[i] == hex_of(rest)[i - 2]);
            }
        }
    }
}

/// The hyphenated text of any sixteen bytes is in canonical form.
pub proof fn lemma_hyphenated_is_canonical(bytes: Seq<u8>)
    requires
        bytes.len() == 16,
    ensures
        is_canonical_uuid(hyphenated(bytes)),
{
    let g0 = bytes.subrange(0, 4);
    let g1 = bytes.subrange(4, 6);
    let g2 = bytes.subrange(6, 8);
    let g3 = bytes.subrange(8, 10);
    let g4 = bytes.subrange(10, 16);
    lemma_hex_of(g0);
    lemma_hex_of(g1);
    lemma_hex_of(g2);
    lemma_hex_of(g3);
    lemma_hex_of(g4);
    let s = hyphenated(bytes);
    assert(s.len() == 36);
    assert forall|i: int| 0 <= i < 36 implies if is_hyphen_position(i) {
        s[i] == '-'
    } else {
        is_lower_hex_digit(#[trigger] s[i])
    } by {
        if i < 8 {
            assert(s[i] == hex_of(g0)[i]);
        } else if i == 8 {
        } else if i < 13 {
            assert(s[i] == hex_of(g1)[i - 9]);
        } else if i == 13 {
        } else if i < 18 {
            assert(s[i] == hex_of(g2)[i - 14]);
        } else if i == 18 {
        } else if i < 23 {
            assert(s[i] == hex_of(g3)[i - 19]);
        } else if i == 23 {
        } else {
            assert(s[i] == hex_of(g4)[i - 24]);
        }
    }
}

/// In the hyphenated text, position 14 shows the version nibble and position
/// 19 the high nibble of byte 8, which carries the variant.
pub proof fn lemma_hyphenated_version_variant(bytes: Seq<u8>)
    requires
        bytes.len() == 16,
    ensures
        hyphenated(bytes)[14] == hex_char(version_of(bytes)),
        has_rfc_variant(bytes) ==> shows_rfc_variant(hyphenated(bytes)),
{
    let g2 = bytes.subrange(6, 8);
    let g3 = bytes.subrange(8, 10);
    lemma_hex_of(bytes.subrange(0, 4));
    lemma_hex_of(bytes.subrange(4, 6));
    lemma_hex_of(g2);
    lemma_hex_of(g3);
    let s = hyphenated(bytes);
    assert(s[14] == hex_of(g2)[0]);
    assert(s[19] == hex_of(g3)[0]);
    assert(g2[0] == bytes[6]);
    assert(g3[0] == bytes[8]);
}

} // verus!
