use wnav_core::error::AppError;
use wnav_core::signature::{push_receipt, verify_hmac_signature, MAX_PUSH_BODY_BYTES};

/// HMAC-SHA256 of "what do ya want for nothing?" under "Jefe" (RFC 4231, test case 2).
const RFC4231_TAG: &str = "5bdcc146bf60754e6a042426089575c75a003f089d2739839dec58b964ec3843";
/// HMAC-SHA256 of `{"a":1}` under "secret".
const JSON_TAG: &str = "aa9e2e3575f5d7098b6caccd790888c36d5fdb63342a73bada2d6a51747a8494";

#[test]
fn verify_accepts_rfc4231_vector() {
    let sig = format!("sha256={}", RFC4231_TAG);
    assert_eq!(verify_hmac_signature(b"what do ya want for nothing?", &sig, "Jefe"), Ok(()));
}

#[test]
fn verify_accepts_json_body_signature() {
    let sig = format!("sha256={}", JSON_TAG);
    assert_eq!(verify_hmac_signature(b"{\"a\":1}", &sig, "secret"), Ok(()));
}

#[test]
fn verify_accepts_bare_and_upper_case_hex() {
    let body = b"what do ya want for nothing?";
    assert_eq!(verify_hmac_signature(body, RFC4231_TAG, "Jefe"), Ok(()));
    let upper = format!("sha256={}", RFC4231_TAG.to_uppercase());
    assert_eq!(verify_hmac_signature(body, &upper, "Jefe"), Ok(()));
}

#[test]
fn verify_rejects_wrong_secret_or_body() {
    let body = b"what do ya want for nothing?";
    let sig = format!("sha256={}", RFC4231_TAG);
    assert_eq!(verify_hmac_signature(body, &sig, "jefe"), Err(AppError::InvalidSignature));
    assert_eq!(verify_hmac_signature(b"what do ya want for something?", &sig, "Jefe"), Err(AppError::InvalidSignature));
}

#[test]
fn verify_rejects_malformed_hex() {
    let body = b"x";
    assert_eq!(verify_hmac_signature(body, "sha256=abc", "k"), Err(AppError::InvalidSignature));
    assert_eq!(verify_hmac_signature(body, "sha256=zz", "k"), Err(AppError::InvalidSignature));
    assert_eq!(verify_hmac_signature(body, "sha256=", "k"), Err(AppError::InvalidSignature));
    // a truncated tag has the wrong length
    let truncated = format!("sha256={}", &RFC4231_TAG[..62]);
    assert_eq!(
        verify_hmac_signature(b"what do ya want for nothing?", &truncated, "Jefe"),
        Err(AppError::InvalidSignature)
    );
}

#[test]
fn push_receipt_distinguishes_duplicates() {
    let (status, r) = push_receipt(Some(7), 9, 42, 1_700_000_000_000);
    assert_eq!(status, 200);
    assert_eq!(r.assignment_id, 7);
    assert!(r.is_duplicate);
    let (status, r) = push_receipt(None, 9, 42, 1_700_000_000_000);
    assert_eq!(status, 201);
    assert_eq!(r.assignment_id, 9);
    assert!(!r.is_duplicate);
    assert_eq!(r.idempotency_key, 42);
    assert_eq!(MAX_PUSH_BODY_BYTES, 10 * 1024 * 1024);
}

#[test]
fn hex_text_of_bytes() {
    assert_eq!(wnav_core::signature::hex_encode(&[]), "");
    assert_eq!(wnav_core::signature::hex_encode(&[0x00, 0x0f, 0xa5, 0xff]), "000fa5ff");
    let bytes: Vec<u8> = (0..=255).collect();
    let want: String = bytes.iter().map(|b| format!("{b:02x}")).collect();
    assert_eq!(wnav_core::signature::hex_encode(&bytes), want);
}
