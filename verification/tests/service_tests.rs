use wnav_core::auth::{check_account_active, check_password, check_refresh_token, old_key_expiry, parse_logout_token, parse_refresh_token, KeyRotateResponse, LoginResponse, RefreshResponse, ACCESS_TOKEN_TTL_SECS};
use wnav_core::error::AppError;
use wnav_core::health::{liveness_report, readiness_report, ComponentStatus};
use wnav_core::reports::report_file_name;
use wnav_core::ops::metrics_response;
use wnav_core::text::{i64_to_string, strip_prefix, u64_to_string};

#[test]
fn token_responses() {
    let r = LoginResponse::bearer("a".to_string(), "r".to_string());
    assert_eq!((r.access_token.as_str(), r.refresh_token.as_str(), r.expires_in, r.token_type.as_str()), ("a", "r", 28800, "Bearer"));
    let r = RefreshResponse::bearer("b".to_string());
    assert_eq!((r.access_token.as_str(), r.expires_in, r.token_type.as_str()), ("b", ACCESS_TOKEN_TTL_SECS, "Bearer"));
}

#[test]
fn account_and_password_checks() {
    assert_eq!(check_account_active(Some(true)), Ok(()));
    assert_eq!(check_account_active(Some(false)), Err(AppError::Unauthorized));
    assert_eq!(check_account_active(None), Err(AppError::Unauthorized));
    assert_eq!(check_password(Some(true)), Ok(()));
    assert_eq!(check_password(Some(false)), Err(AppError::Unauthorized));
    assert_eq!(check_password(None), Err(AppError::Unauthorized));
}

#[test]
fn refresh_token_checks() {
    assert_eq!(check_refresh_token(true, 10, 5), Err(AppError::Unauthorized));
    assert_eq!(check_refresh_token(false, 4, 5), Err(AppError::JwtExpired));
    assert_eq!(check_refresh_token(false, 5, 5), Ok(()));
    assert_eq!(check_refresh_token(false, 6, 5), Ok(()));
}

#[test]
fn refresh_token_parsing() {
    let id = 0x123e4567e89b12d3a456426614174000u128;
    assert_eq!(parse_refresh_token("123e4567-e89b-12d3-a456-426614174000"), Ok(id));
    assert_eq!(parse_refresh_token("123e4567e89b12d3a456426614174000"), Ok(id));
    assert_eq!(parse_refresh_token("not-a-uuid"), Err(AppError::Unauthorized));
    assert_eq!(parse_logout_token("123E4567-E89B-12D3-A456-426614174000"), Ok(id));
    assert_eq!(parse_logout_token("x"), Err(AppError::Validation("refresh_token の形式が不正です".to_string())));
}

#[test]
fn key_rotation() {
    assert_eq!(old_key_expiry(1_700_000_000, 3600), 1_700_003_600);
    let r = KeyRotateResponse::rotated("k2".to_string(), 42);
    assert_eq!(r.new_kid, "k2");
    assert_eq!(r.old_key_expires_at, 42);
    assert_eq!(r.message, "JWT key rotation completed. Old key will expire after grace period.");
}

#[test]
fn health_reports() {
    let l = liveness_report("1.2.3", "2024-01-01T00:00:00Z".to_string());
    assert_eq!(l.status, "ok");
    assert_eq!(l.service, "wnav_master_api");
    assert_eq!(l.version, "1.2.3");
    assert_eq!(l.components.write_db.status, "unknown");
    assert_eq!(l.components.jwt_keys.status, "ok");

    let (r, code) = readiness_report("1", "t".to_string(), ComponentStatus::from_probe(Some(3)), ComponentStatus::from_probe(Some(4)));
    assert_eq!((r.status.as_str(), code), ("ok", 200));
    assert_eq!(r.components.read_db.latency_ms, Some(4));

    let (r, code) = readiness_report("1", "t".to_string(), ComponentStatus::from_probe(Some(3)), ComponentStatus::from_probe(None));
    assert_eq!((r.status.as_str(), code), ("degraded", 503));
    assert_eq!(r.components.read_db.status, "error");
    assert_eq!(r.components.read_db.error.as_deref(), Some("DB connection failed"));
}

#[test]
fn metrics_text() {
    let m = metrics_response(10, 7);
    assert_eq!(
        m.metrics_text,
        "# HELP wnav_master_api_db_write_pool_size write connection pool size\n# TYPE wnav_master_api_db_write_pool_size gauge\nwnav_master_api_db_write_pool_size 10\n\n# HELP wnav_master_api_db_read_pool_size read connection pool size\n# TYPE wnav_master_api_db_read_pool_size gauge\nwnav_master_api_db_read_pool_size 7\n\n# HELP wnav_master_api_up master API uptime indicator\n# TYPE wnav_master_api_up gauge\nwnav_master_api_up 1\n"
    );
}

#[test]
fn numbers_and_ids_as_text() {
    assert_eq!(u64_to_string(0), "0");
    assert_eq!(u64_to_string(u64::MAX), u64::MAX.to_string());
    assert_eq!(i64_to_string(i64::MIN), i64::MIN.to_string());
    assert_eq!(i64_to_string(-12), "-12");
    assert_eq!(report_file_name(0), "report_00000000-0000-0000-0000-000000000000.pdf");
    assert_eq!(report_file_name(u128::MAX), "report_ffffffff-ffff-ffff-ffff-ffffffffffff.pdf");
    assert_eq!(parse_refresh_token("ffffffff-ffff-ffff-ffff-ffffffffffff"), Ok(u128::MAX));
    assert_eq!(parse_refresh_token(""), Err(AppError::Unauthorized));
    assert_eq!(strip_prefix("sha256=ab", "sha256="), Some("ab".to_string()));
    assert_eq!(strip_prefix("ab", "sha256="), None);
}

#[test]
fn backup_indicator() {
    assert_eq!(wnav_core::ops::backup_status(3), "yellow");
    assert_eq!(wnav_core::ops::backup_status(0), "green");
    assert_eq!(wnav_core::ops::backup_status(-1), "green");
}

#[test]
fn identifier_text_forms() {
    let id = 0x123e4567e89b12d3a456426614174000u128;
    assert_eq!(parse_refresh_token("{123e4567-e89b-12d3-a456-426614174000}"), Ok(id));
    assert_eq!(parse_refresh_token("urn:uuid:123e4567-e89b-12d3-a456-426614174000"), Ok(id));
    assert_eq!(parse_refresh_token("URN:UUID:123E4567-E89B-12D3-A456-426614174000"), Ok(id));
    assert_eq!(parse_refresh_token("123E4567E89B12D3A456426614174000"), Ok(id));
    assert_eq!(parse_refresh_token("123e4567e-89b-12d3-a456-426614174000"), Err(AppError::Unauthorized));
    assert_eq!(parse_refresh_token("urn:uuix:123e4567-e89b-12d3-a456-426614174000"), Err(AppError::Unauthorized));
    assert_eq!(parse_refresh_token("(123e4567-e89b-12d3-a456-426614174000)"), Err(AppError::Unauthorized));
    assert_eq!(parse_refresh_token("123e4567-e89b-12d3-a456-42661417400g"), Err(AppError::Unauthorized));
    // what an identifier renders as parses back
    let name = report_file_name(id);
    assert_eq!(parse_refresh_token(&name["report_".len()..name.len() - ".pdf".len()]), Ok(id));
}
