use wnav_core::access::{access_step, AccessStep};
use wnav_core::error::AppError;
use wnav_core::access::{extract_bearer_token, is_public_path, paginate, rate_limit_key, Pagination};

#[test]
fn public_paths() {
    assert!(is_public_path("/healthz"));
    assert!(is_public_path("/api/v1/auth/login"));
    assert!(is_public_path("/api/v1/public/config"));
    assert!(!is_public_path("/api/v1/auth/refresh"));
    assert!(!is_public_path("/healthz/"));
    assert!(!is_public_path(""));
}

#[test]
fn bearer_tokens() {
    assert_eq!(extract_bearer_token(Some("Bearer abc.def")), Some("abc.def".to_string()));
    assert_eq!(extract_bearer_token(Some("Bearer ")), Some(String::new()));
    assert_eq!(extract_bearer_token(Some("bearer abc")), None);
    assert_eq!(extract_bearer_token(Some("Basic xyz")), None);
    assert_eq!(extract_bearer_token(None), None);
}

#[test]
fn rate_limit_keys() {
    assert_eq!(rate_limit_key(Some("Bearer 0123456789abcdefXYZ"), Some("1.2.3.4")), "0123456789abcdef");
    assert_eq!(rate_limit_key(Some("Bearer short"), None), "short");
    assert_eq!(rate_limit_key(Some("Basic x"), Some(" 10.0.0.1 , 10.0.0.2")), "10.0.0.1");
    assert_eq!(rate_limit_key(None, Some("10.0.0.9")), "10.0.0.9");
    assert_eq!(rate_limit_key(None, Some("")), "");
    assert_eq!(rate_limit_key(None, None), "anonymous");
}

#[test]
fn pagination() {
    assert_eq!(paginate(None, None, 50), Pagination { page: 1, per_page: 50, offset: 0 });
    assert_eq!(paginate(Some(3), Some(20), 50), Pagination { page: 3, per_page: 20, offset: 40 });
    assert_eq!(paginate(Some(0), Some(0), 50), Pagination { page: 1, per_page: 1, offset: 0 });
    assert_eq!(paginate(Some(-4), Some(1000), 50), Pagination { page: 1, per_page: 200, offset: 0 });
    assert_eq!(paginate(Some(2), None, 500), Pagination { page: 2, per_page: 200, offset: 200 });
}

#[test]
fn rate_limit_keys_cut_by_bytes() {
    let h = format!("Bearer {}", "é".repeat(9));
    assert_eq!(rate_limit_key(Some(&h), None), "é".repeat(8));
    let h = format!("Bearer a{}", "é".repeat(9));
    assert_eq!(rate_limit_key(Some(&h), None), format!("a{}", "é".repeat(9)));
    assert_eq!(rate_limit_key(Some("Bearer 0123456789abcdef"), None), "0123456789abcdef");
    assert_eq!(rate_limit_key(Some("Bearer 0123456789abcde"), None), "0123456789abcde");
    assert_eq!(rate_limit_key(None, Some("\u{3000}ab\u{a0}, c")), "ab");
}

#[test]
fn access_steps() {
    assert_eq!(access_step("/healthz", None), Ok(AccessStep::Pass));
    assert_eq!(access_step("/api/v1/auth/login", Some("Bearer x")), Ok(AccessStep::Pass));
    assert_eq!(access_step("/api/v1/capas", Some("Bearer tok")), Ok(AccessStep::Verify("tok".to_string())));
    assert_eq!(access_step("/api/v1/capas", Some("Basic tok")), Err(AppError::Unauthorized));
    assert_eq!(access_step("/api/v1/capas", None), Err(AppError::Unauthorized));
}
