//! HMAC-SHA256 webhook signatures in the `sha256=<hex>` form.
use vstd::prelude::*;
use vstd::utf8::{encode_utf8, is_ascii_chars, is_ascii_chars_encode_utf8};
use hmac::{Hmac, Mac};
use sha2::Sha256;
use subtle::ConstantTimeEq;
use crate::error::AppError;
use crate::text::{hex_lower_digit, spec_strip_prefix, string_from_chars, strip_prefix};

verus! {

/// Lower-case hexadecimal text of a byte sequence, two digits per byte, high nibble first.
pub open spec fn spec_hex_encode(data: Seq<u8>) -> Seq<char> {
    Seq::new(
        2 * data.len(),
        |i: int|
            if i % 2 == 0 {
                hex_lower_digit((data[i / 2] / 16) as int)
            } else {
                hex_lower_digit((data[i / 2] % 16) as int)
            },
    )
}

/// The value of one hex digit byte; upper and lower case are both accepted.
pub open spec fn hex_value(b: u8) -> Option<u8> {
    if 65 <= b <= 70 {
        Some((b - 55) as u8)
    } else if 97 <= b <= 102 {
        Some((b - 87) as u8)
    } else if 48 <= b <= 57 {
        Some((b - 48) as u8)
    } else {
        None
    }
}

/// Decoding of hex text: `None` for an odd length or any byte that is no hex digit.
pub open spec fn spec_hex_decode(text: Seq<u8>) -> Option<Seq<u8>> {
    if text.len() % 2 != 0 {
        None
    } else if forall|i: int| 0 <= i < text.len() ==> (#[trigger] hex_value(text[i])) is Some {
        Some(
            Seq::new(
                text.len() / 2,
                |k: int| (hex_value(text[2 * k])->0 * 16 + hex_value(text[2 * k + 1])->0) as u8,
            ),
        )
    } else {
        None
    }
}

/// The HMAC-SHA256 tag of `message` under `key`.
pub uninterp spec fn hmac_sha256_tag(key: Seq<u8>, message: Seq<u8>) -> Seq<u8>;

/// The hex part of a signature header: what follows `sha256=`, or the whole value.
pub open spec fn signature_hex_part(signature: Seq<char>) -> Seq<char> {
    match spec_strip_prefix(signature, "sha256="@) {
        Some(rest) => rest,
        None => signature,
    }
}

/// Whether a signature header carries the HMAC-SHA256 tag of `body` under the UTF-8 bytes
/// of `secret`.
pub open spec fn signature_matches(body: Seq<u8>, signature: Seq<char>, secret: Seq<char>) -> bool {
    spec_hex_decode(encode_utf8(signature_hex_part(signature))) == Some(
        hmac_sha256_tag(encode_utf8(secret), body),
    )
}

/// A signature header value for a payload: `sha256=` and the lower-case hex tag.
pub open spec fn spec_signature(payload: Seq<u8>, secret: Seq<char>) -> Seq<char> {
    "sha256="@ + spec_hex_encode(hmac_sha256_tag(encode_utf8(secret), payload))
}

fn hex_digit(n: u8) -> (c: char)
    requires
        n < 16,
    ensures
        c == hex_lower_digit(n as int),
{
    if n < 10 {
        (48u8 + n) as char
    } else {
        (87u8 + n) as char
    }
}

/// Lower-case hex text of bytes, two digits per byte, high nibble first (the form of
/// `hex::encode`).
pub fn hex_encode(data: &[u8]) -> (res: String)
    ensures
        res@ == spec_hex_encode(data@),
{
    let mut out: Vec<char> = Vec::new();
    let mut i: usize = 0;
    while i < data.len()
        invariant
            0 <= i <= data@.len(),
            out@ == spec_hex_encode(data@.take(i as int)),
        decreases data@.len() - i,
    {
        let b = data[i];
        out.push(hex_digit(b / 16));
        out.push(hex_digit(b % 16));
        proof {
            let t = data@.take(i + 1);
            assert forall|k: int| 0 <= k < 2 * t.len() implies #[trigger] out@[k] == spec_hex_encode(t)[k] by {
                if k < 2 * i {
                    assert(t[k / 2] == data@.take(i as int)[k / 2]);
                }
            }
            assert(out@ =~= spec_hex_encode(t));
        }
        i = i + 1;
    }
    proof {
        assert(data@.take(data@.len() as int) =~= data@);
    }
    string_from_chars(out.as_slice())
}

/// `hex::decode`: `None` where the crate reports `OddLength` or `InvalidHexCharacter`.
#[verifier::external_body]
pub(crate) fn hex_decode(text: &[u8]) -> (res: Option<Vec<u8>>)
    ensures
        match spec_hex_decode(text@) {
            Some(bytes) => res is Some && res->0@ == bytes,
            None => res is None,
        },
{
    match hex::decode(text) {
        Ok(v) => Some(v),
        Err(_) => None,
    }
}

/// `Hmac::<Sha256>::new_from_slice`, `update` and `finalize`: the 32-byte tag. The key may
/// have any length (the crate's `new_from_slice` for this digest never reports an error),
/// so the result is always `Some`.
#[verifier::external_body]
fn hmac_sha256(key: &[u8], message: &[u8]) -> (res: Option<Vec<u8>>)
    ensures
        res is Some,
        res->0@ == hmac_sha256_tag(key@, message@),
        res->0@.len() == 32,
{
    match <Hmac<Sha256> as Mac>::new_from_slice(key) {
        Ok(mut mac) => {
            mac.update(message);
            Some(mac.finalize().into_bytes().to_vec())
        },
        Err(_) => None,
    }
}

/// `subtle::ConstantTimeEq::ct_eq` on byte slices: true exactly when lengths and all bytes
/// agree.
#[verifier::external_body]
fn constant_time_eq(a: &[u8], b: &[u8]) -> (res: bool)
    ensures
        res == (a@ == b@),
{
    bool::from(a.ct_eq(b))
}

/// The byte value of a lower-case hex digit.
pub(crate) proof fn lemma_hex_digit_byte(n: int)
    requires
        0 <= n < 16,
    ensures
        (hex_lower_digit(n) as u8) as int == (if n < 10 { n + 48 } else { n + 87 }),
        '\0' <= hex_lower_digit(n) <= '\u{7f}',
        hex_value(hex_lower_digit(n) as u8) == Some(n as u8),
{
}

/// Hex text decodes back to the bytes it encodes.
pub proof fn lemma_hex_round_trip(data: Seq<u8>)
    ensures
        is_ascii_chars(spec_hex_encode(data)),
        spec_hex_decode(encode_utf8(spec_hex_encode(data))) == Some(data),
{
    let e = spec_hex_encode(data);
    assert forall|i: int| 0 <= i < e.len() implies '\0' <= #[trigger] e[i] <= '\u{7f}' by {
        if i % 2 == 0 {
            lemma_hex_digit_byte((data[i / 2] / 16) as int);
        } else {
            lemma_hex_digit_byte((data[i / 2] % 16) as int);
        }
    }
    is_ascii_chars_encode_utf8(e);
    let b = encode_utf8(e);
    assert(b.len() == 2 * data.len());
    assert forall|i: int| 0 <= i < b.len() implies (#[trigger] hex_value(b[i])) is Some
        && hex_value(b[i])->0 == (if i % 2 == 0 { data[i / 2] / 16 } else { data[i / 2] % 16 }) by {
        assert(b[i] == e[i] as u8);
        if i % 2 == 0 {
            lemma_hex_digit_byte((data[i / 2] / 16) as int);
        } else {
            lemma_hex_digit_byte((data[i / 2] % 16) as int);
        }
    }
    let decoded = spec_hex_decode(b)->0;
    assert forall|k: int| 0 <= k < data.len() implies decoded[k] == data[k] by {
        assert(hex_value(b[2 * k])->0 == data[k] / 16);
        assert(hex_value(b[2 * k + 1])->0 == data[k] % 16);
    }
    assert(decoded =~= data);
}

/// Verifies an `X-Signature-256` header against the raw request body; the comparison of tags
/// runs in constant time. An undecodable signature and a wrong tag both give
/// `InvalidSignature`.
pub fn verify_hmac_signature(body: &[u8], signature: &str, secret: &str) -> (res: Result<(), AppError>)
    ensures
        res is Ok <==> signature_matches(body@, signature@, secret@),
        res is Err ==> res == Err::<(), AppError>(AppError::InvalidSignature),
{
    let hex_sig: String = match strip_prefix(signature, "sha256=") {
        Some(rest) => rest,
        None => signature.to_owned(),
    };
    let expected = match hex_decode(hex_sig.as_str().as_bytes()) {
        Some(v) => v,
        None => {
            return Err(AppError::InvalidSignature);
        },
    };
    let computed = match hmac_sha256(secret.as_bytes(), body) {
        Some(v) => v,
        None => {
            return Err(AppError::Internal("HMAC 初期化エラー".to_owned()));
        },
    };
    if constant_time_eq(computed.as_slice(), expected.as_slice()) {
        Ok(())
    } else {
        Err(AppError::InvalidSignature)
    }
}

/// A header made of `sha256=` and the lower-case hex tag of the body verifies under the same
/// secret.
pub proof fn law_signed_payload_verifies(payload: Seq<u8>, secret: Seq<char>)
    ensures
        signature_matches(payload, spec_signature(payload, secret), secret),
{
    let tag = hmac_sha256_tag(encode_utf8(secret), payload);
    let sig = spec_signature(payload, secret);
    let hex = spec_hex_encode(tag);
    assert(sig.subrange(0, "sha256="@.len() as int) =~= "sha256="@);
    assert(sig.subrange("sha256="@.len() as int, sig.len() as int) =~= hex);
    assert(signature_hex_part(sig) == hex);
    lemma_hex_round_trip(tag);
}

/// Largest accepted push body in bytes (10 MiB).
pub const MAX_PUSH_BODY_BYTES: usize = 10485760;

/// Receipt of a work-assignment push.
#[derive(Debug, Clone, Copy, PartialEq, Eq)]
pub struct WorkAssignmentPushResponse {
    /// Internal identifier of the assignment.
    pub assignment_id: u128,
    /// The idempotency key received.
    pub idempotency_key: u128,
    /// True when the key was seen before and nothing was stored.
    pub is_duplicate: bool,
    /// Server reception time (Unix milliseconds).
    pub server_received_at: i64,
}

/// The receipt of a push and its HTTP status: 200 for a repeated idempotency key (the
/// existing assignment), 201 for a newly stored one.
pub fn push_receipt(existing_id: Option<u128>, new_id: u128, idempotency_key: u128, server_received_at: i64) -> (res: (u16, WorkAssignmentPushResponse))
    ensures
        match existing_id {
            Some(id) => res.0 == 200 && res.1.assignment_id == id && res.1.is_duplicate,
            None => res.0 == 201 && res.1.assignment_id == new_id && !res.1.is_duplicate,
        },
        res.1.idempotency_key == idempotency_key,
        res.1.server_received_at == server_received_at,
{
    match existing_id {
        Some(id) => (200, WorkAssignmentPushResponse { assignment_id: id, idempotency_key, is_duplicate: true, server_received_at }),
        None => (201, WorkAssignmentPushResponse { assignment_id: new_id, idempotency_key, is_duplicate: false, server_received_at }),
    }
}

} // verus!
