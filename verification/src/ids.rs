//! Textual form of the 128-bit identifiers (UUIDs) that name every record.
use vstd::prelude::*;
use vstd::arithmetic::power::{pow, lemma_pow_adds, lemma_pow1, lemma_pow0, lemma_pow_positive};
use vstd::arithmetic::div_mod::{lemma_div_denominator, lemma_fundamental_div_mod, lemma_div_pos_is_pos};
use vstd::utf8::{encode_utf8, is_ascii_chars, is_ascii_chars_encode_utf8};
use crate::signature::{hex_value, lemma_hex_digit_byte};
use crate::text::hex_lower_digit;

verus! {

/// The 32 lower-case hex digits of an identifier, most significant first.
pub open spec fn uuid_simple(id: u128) -> Seq<char> {
    Seq::new(32, |k: int| hex_lower_digit(((id as int) / pow(16, (31 - k) as nat)) % 16))
}

/// The hyphenated 8-4-4-4-12 lower-case form of an identifier.
pub open spec fn uuid_hyphenated(id: u128) -> Seq<char> {
    let s = uuid_simple(id);
    s.subrange(0, 8) + seq!['-'] + s.subrange(8, 12) + seq!['-'] + s.subrange(12, 16) + seq!['-']
        + s.subrange(16, 20) + seq!['-'] + s.subrange(20, 32)
}

/// The value of a sequence of hex digit bytes, most significant first.
pub open spec fn hex_number(h: Seq<u8>) -> nat
    decreases h.len(),
{
    if h.len() == 0 {
        0
    } else {
        hex_number(h.drop_last()) * 16 + hex_value(h.last())->0 as nat
    }
}

/// Whether every byte is a hex digit (either case).
pub open spec fn all_hex(h: Seq<u8>) -> bool {
    forall|i: int| 0 <= i < h.len() ==> (#[trigger] hex_value(h[i])) is Some
}

/// Thirty-two hex digits as a 128-bit value.
pub open spec fn spec_hex32(h: Seq<u8>) -> Option<u128> {
    if h.len() == 32 && all_hex(h) {
        Some(hex_number(h) as u128)
    } else {
        None
    }
}

/// The 8-4-4-4-12 hyphenated form: 36 bytes with `-` at 8, 13, 18 and 23.
pub open spec fn spec_parse_hyphenated(s: Seq<u8>) -> Option<u128> {
    if s.len() == 36 && s[8] == 45 && s[13] == 45 && s[18] == 45 && s[23] == 45 {
        spec_hex32(
            s.subrange(0, 8) + s.subrange(9, 13) + s.subrange(14, 18) + s.subrange(19, 23)
                + s.subrange(24, 36),
        )
    } else {
        None
    }
}

/// ASCII lower case of a byte.
pub open spec fn ascii_lower_byte(b: u8) -> u8 {
    if 65 <= b <= 90 {
        (b + 32) as u8
    } else {
        b
    }
}

/// The bytes of `urn:uuid:`.
pub open spec fn urn_prefix() -> Seq<u8> {
    seq![117u8, 114u8, 110u8, 58u8, 117u8, 117u8, 105u8, 100u8, 58u8]
}

/// What `uuid::Uuid::parse_str` reads from the bytes of a text: 32 hex digits, the
/// hyphenated form, the hyphenated form in braces, or the hyphenated form after a
/// `urn:uuid:` prefix in any letter case; the value is big-endian.
pub open spec fn spec_uuid_parse(b: Seq<u8>) -> Option<u128> {
    if b.len() == 32 {
        spec_hex32(b)
    } else if b.len() == 36 {
        spec_parse_hyphenated(b)
    } else if b.len() == 38 && b[0] == 123 && b[37] == 125 {
        spec_parse_hyphenated(b.subrange(1, 37))
    } else if b.len() == 45 && (forall|i: int| 0 <= i < 9 ==> #[trigger] ascii_lower_byte(b[i]) == urn_prefix()[i]) {
        spec_parse_hyphenated(b.subrange(9, 45))
    } else {
        None
    }
}

/// Renders an identifier with `uuid::Uuid`'s `Display`: the hyphenated lower-case form of
/// the big-endian value (`Uuid::from_u128`).
#[verifier::external_body]
pub(crate) fn uuid_to_string(id: u128) -> (res: String)
    ensures
        res@ == uuid_hyphenated(id),
{
    uuid::Uuid::from_u128(id).to_string()
}

/// Parses an identifier with `uuid::Uuid::parse_str` (the value of its bytes as
/// `spec_uuid_parse` reads them); `None` where the crate reports an error.
#[verifier::external_body]
pub(crate) fn parse_uuid(text: &str) -> (res: Option<u128>)
    ensures
        res == spec_uuid_parse(encode_utf8(text@)),
{
    match uuid::Uuid::parse_str(text) {
        Ok(u) => Some(u.as_u128()),
        Err(_) => None,
    }
}

/// The digit of place `k` (0 most significant) of an identifier.
pub open spec fn id_digit(id: u128, k: int) -> int {
    ((id as int) / pow(16, (31 - k) as nat)) % 16
}

proof fn lemma_id_digit_range(id: u128, k: int)
    requires
        0 <= k < 32,
    ensures
        0 <= id_digit(id, k) < 16,
{
    lemma_pow_positive(16, (31 - k) as nat);
    lemma_div_pos_is_pos(id as int, pow(16, (31 - k) as nat));
}

/// The digits of the first `n` places read back as the identifier's leading part.
proof fn lemma_hex_number_prefix(id: u128, d: Seq<u8>, n: int)
    requires
        d.len() == 32,
        forall|k: int| 0 <= k < 32 ==> #[trigger] hex_value(d[k]) == Some(id_digit(id, k) as u8),
        0 <= n <= 32,
    ensures
        hex_number(d.take(n)) == (id as int) / pow(16, (32 - n) as nat),
    decreases n,
{
    if n == 0 {
        assert(pow(16, 32) == 0x1_0000_0000_0000_0000_0000_0000_0000_0000int) by {
            reveal_with_fuel(pow, 33);
        }
        assert(d.take(0) =~= Seq::<u8>::empty());
    } else {
        lemma_hex_number_prefix(id, d, n - 1);
        assert(d.take(n).drop_last() =~= d.take(n - 1));
        let e = (32 - n) as nat;
        lemma_pow_positive(16, e);
        lemma_pow_adds(16, e, 1);
        lemma_pow1(16);
        assert(pow(16, (32 - (n - 1)) as nat) == pow(16, e) * 16);
        lemma_div_denominator(id as int, pow(16, e), 16);
        let x = (id as int) / pow(16, e);
        lemma_fundamental_div_mod(x, 16);
        lemma_id_digit_range(id, n - 1);
        assert(hex_value(d[n - 1]) == Some(id_digit(id, n - 1) as u8));
        assert(d.take(n).last() == d[n - 1]);
    }
}

/// The text an identifier is rendered as parses back to the identifier.
pub proof fn law_id_text_round_trip(id: u128)
    ensures
        spec_uuid_parse(encode_utf8(uuid_hyphenated(id))) == Some(id),
{
    let s = uuid_simple(id);
    let h = uuid_hyphenated(id);
    assert forall|k: int| 0 <= k < 32 implies '\0' <= #[trigger] s[k] <= '\u{7f}'
        && (s[k] as u8) as int == (if id_digit(id, k) < 10 { id_digit(id, k) + 48 } else { id_digit(id, k) + 87 })
        && hex_value(s[k] as u8) == Some(id_digit(id, k) as u8) by {
        lemma_id_digit_range(id, k);
        lemma_hex_digit_byte(id_digit(id, k));
    }
    assert(h.len() == 36);
    assert forall|i: int| 0 <= i < 36 implies '\0' <= #[trigger] h[i] <= '\u{7f}' by {
        if i < 8 {
            assert(h[i] == s[i]);
        } else if i == 8 || i == 13 || i == 18 || i == 23 {
        } else if i < 13 {
            assert(h[i] == s[i - 1]);
        } else if i < 18 {
            assert(h[i] == s[i - 2]);
        } else if i < 23 {
            assert(h[i] == s[i - 3]);
        } else {
            assert(h[i] == s[i - 4]);
        }
    }
    assert(is_ascii_chars(h));
    is_ascii_chars_encode_utf8(h);
    let b = encode_utf8(h);
    assert(b.len() == 36);
    assert(b[8] == h[8] as u8 && b[13] == h[13] as u8 && b[18] == h[18] as u8 && b[23] == h[23] as u8);
    let d = b.subrange(0, 8) + b.subrange(9, 13) + b.subrange(14, 18) + b.subrange(19, 23) + b.subrange(24, 36);
    assert(d.len() == 32);
    assert forall|k: int| 0 <= k < 32 implies #[trigger] d[k] == s[k] as u8 by {
        if k < 8 {
            assert(d[k] == b[k] && b[k] == h[k] as u8 && h[k] == s[k]);
        } else if k < 12 {
            assert(d[k] == b[k + 1] && b[k + 1] == h[k + 1] as u8 && h[k + 1] == s[k]);
        } else if k < 16 {
            assert(d[k] == b[k + 2] && b[k + 2] == h[k + 2] as u8 && h[k + 2] == s[k]);
        } else if k < 20 {
            assert(d[k] == b[k + 3] && b[k + 3] == h[k + 3] as u8 && h[k + 3] == s[k]);
        } else {
            assert(d[k] == b[k + 4] && b[k + 4] == h[k + 4] as u8 && h[k + 4] == s[k]);
        }
    }
    assert forall|k: int| 0 <= k < 32 implies #[trigger] hex_value(d[k]) == Some(id_digit(id, k) as u8) by {
        assert(d[k] == s[k] as u8);
    }
    assert(all_hex(d));
    lemma_hex_number_prefix(id, d, 32);
    assert(d.take(32) =~= d);
    lemma_pow0(16);
}

} // verus!
