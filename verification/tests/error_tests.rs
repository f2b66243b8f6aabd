use wnav_core::error::{AppError, AuthFailure};

fn all_errors() -> Vec<AppError> {
    vec![
        AppError::Unauthorized,
        AppError::JwtExpired,
        AppError::Forbidden,
        AppError::NotFound("user".to_string()),
        AppError::Conflict("dup".to_string()),
        AppError::Validation("bad".to_string()),
        AppError::InvalidSignature,
        AppError::TwoPersonIntegrityViolation,
        AppError::InvalidStateTransition("no".to_string()),
        AppError::RateLimited,
        AppError::AlreadyJudged,
        AppError::ParentSystemUnavailable,
        AppError::LdapUnavailable,
        AppError::ReportGenerationFailed,
        AppError::TemplateIntegrityError,
        AppError::Database("secret sql".to_string()),
        AppError::Internal("stack trace".to_string()),
    ]
}

#[test]
fn status_codes() {
    let got: Vec<u16> = all_errors().iter().map(|e| e.status_code()).collect();
    assert_eq!(got, vec![401, 401, 403, 404, 409, 422, 422, 422, 422, 429, 409, 503, 503, 500, 500, 500, 500]);
}

#[test]
fn every_status_is_an_error_status() {
    for e in all_errors() {
        let s = e.status_code();
        assert!((400..600).contains(&s));
    }
}

#[test]
fn problem_types_and_titles() {
    assert_eq!(AppError::Unauthorized.problem_type(), "https://errors.wnav.example.com/auth/unauthorized");
    assert_eq!(AppError::AlreadyJudged.problem_type(), "https://errors.wnav.example.com/ERR-BIZ-017");
    assert_eq!(AppError::Database(String::new()).problem_type(), "https://errors.wnav.example.com/server/database-error");
    assert_eq!(AppError::JwtExpired.title(), "Token Expired");
    assert_eq!(AppError::RateLimited.title(), "Rate Limit Exceeded");
    assert_eq!(AppError::Internal(String::new()).title(), "Internal Server Error");
}

#[test]
fn user_details() {
    assert_eq!(AppError::NotFound("user:1".to_string()).user_detail(), "user:1 was not found.");
    assert_eq!(AppError::Conflict("dup".to_string()).user_detail(), "dup");
    assert_eq!(AppError::Validation("bad".to_string()).user_detail(), "bad");
    assert_eq!(AppError::InvalidStateTransition("no".to_string()).user_detail(), "no");
    assert_eq!(AppError::InvalidSignature.user_detail(), "HMAC-SHA256 signature verification failed.");
}

#[test]
fn server_details_hide_internal_text() {
    let d = AppError::Database("password=hunter2".to_string()).user_detail();
    assert_eq!(d, "A database error occurred. Please try again later.");
    assert!(!d.contains("hunter2"));
    let i = AppError::Internal("panic at x.rs".to_string()).user_detail();
    assert_eq!(i, "An internal server error occurred. Please try again later.");
}

#[test]
fn messages() {
    assert_eq!(AppError::NotFound("x".to_string()).message(), "Resource not found: x");
    assert_eq!(AppError::Database("boom".to_string()).message(), "Database error: boom");
    assert_eq!(AppError::Unauthorized.message(), "Authorization token is missing");
    assert_eq!(AppError::TwoPersonIntegrityViolation.message(), "Two-Person Integrity violation: approver and submitter must be different users");
}

#[test]
fn auth_failures_map() {
    assert_eq!(AppError::from_auth_failure(AuthFailure::TokenExpired), AppError::JwtExpired);
    assert_eq!(AppError::from_auth_failure(AuthFailure::JwtExpired), AppError::JwtExpired);
    assert_eq!(AppError::from_auth_failure(AuthFailure::InsufficientRole), AppError::Forbidden);
    assert_eq!(AppError::from_auth_failure(AuthFailure::Unauthorized), AppError::Unauthorized);
    assert_eq!(AppError::from_auth_failure(AuthFailure::Other), AppError::Unauthorized);
}

#[test]
fn record_errors() {
    assert_eq!(AppError::database_failure(), AppError::Database("database operation failed".to_string()));
    assert_eq!(
        AppError::not_found_record("capa", 0x123e4567e89b12d3a456426614174000),
        AppError::NotFound("capa:123e4567-e89b-12d3-a456-426614174000".to_string())
    );
}

#[test]
fn problem_types_are_distinct_per_kind() {
    let all = all_errors();
    for (i, a) in all.iter().enumerate() {
        assert!(a.problem_type().starts_with("https://errors.wnav.example.com/"));
        for (j, b) in all.iter().enumerate() {
            assert_eq!(a.problem_type() == b.problem_type(), i == j);
        }
    }
    assert_eq!(AppError::NotFound("a".into()).problem_type(), AppError::NotFound("b".into()).problem_type());
}
