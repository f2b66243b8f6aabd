//! The API's common error type and its RFC 7807 problem-details rendering.
use vstd::prelude::*;
use crate::ids::{uuid_hyphenated, uuid_to_string};

verus! {

/// The error every handler returns; rendered as an RFC 7807 problem document.
#[derive(Debug, Clone, PartialEq, Eq)]
pub enum AppError {
    /// The Authorization header or Bearer token is missing.
    Unauthorized,
    /// The JWT has expired.
    JwtExpired,
    /// The user lacks the required role.
    Forbidden,
    /// The requested resource does not exist.
    NotFound(String),
    /// The request conflicts with an existing resource.
    Conflict(String),
    /// The request body failed validation.
    Validation(String),
    /// A webhook signature did not verify.
    InvalidSignature,
    /// Submitter and approver are the same user.
    TwoPersonIntegrityViolation,
    /// The requested state transition is not allowed.
    InvalidStateTransition(String),
    /// Too many requests.
    RateLimited,
    /// The incoming inspection was already judged.
    AlreadyJudged,
    /// The parent system does not answer.
    ParentSystemUnavailable,
    /// The directory service does not answer.
    LdapUnavailable,
    /// A report could not be generated.
    ReportGenerationFailed,
    /// A report template failed its integrity check.
    TemplateIntegrityError,
    /// A database operation failed.
    Database(String),
    /// Any other internal failure.
    Internal(String),
}

/// How the authentication layer reports a rejected token.
#[derive(Debug, Clone, Copy, PartialEq, Eq)]
pub enum AuthFailure {
    TokenExpired,
    JwtExpired,
    InsufficientRole,
    Unauthorized,
    Other,
}

/// The HTTP status that answers an error.
pub open spec fn spec_status_code(e: AppError) -> u16 {
    match e {
        AppError::Unauthorized | AppError::JwtExpired => 401,
        AppError::Forbidden => 403,
        AppError::NotFound(_) => 404,
        AppError::Conflict(_) => 409,
        AppError::Validation(_) | AppError::InvalidSignature => 422,
        AppError::TwoPersonIntegrityViolation | AppError::InvalidStateTransition(_) => 422,
        AppError::AlreadyJudged => 409,
        AppError::RateLimited => 429,
        AppError::ParentSystemUnavailable | AppError::LdapUnavailable => 503,
        AppError::ReportGenerationFailed | AppError::TemplateIntegrityError
        | AppError::Database(_) | AppError::Internal(_) => 500,
    }
}

/// The RFC 7807 `type` URI of an error.
pub open spec fn spec_problem_type(e: AppError) -> Seq<char> {
    match e {
        AppError::Unauthorized => "https://errors.wnav.example.com/auth/unauthorized"@,
        AppError::JwtExpired => "https://errors.wnav.example.com/auth/token-expired"@,
        AppError::Forbidden => "https://errors.wnav.example.com/auth/insufficient-role"@,
        AppError::NotFound(_) => "https://errors.wnav.example.com/resource/not-found"@,
        AppError::Conflict(_) => "https://errors.wnav.example.com/resource/conflict"@,
        AppError::Validation(_) => "https://errors.wnav.example.com/validation/invalid-input"@,
        AppError::InvalidSignature => "https://errors.wnav.example.com/webhook/invalid-signature"@,
        AppError::TwoPersonIntegrityViolation => "https://errors.wnav.example.com/business/two-person-integrity"@,
        AppError::InvalidStateTransition(_) => "https://errors.wnav.example.com/business/invalid-state-transition"@,
        AppError::AlreadyJudged => "https://errors.wnav.example.com/ERR-BIZ-017"@,
        AppError::RateLimited => "https://errors.wnav.example.com/rate-limit/exceeded"@,
        AppError::ParentSystemUnavailable => "https://errors.wnav.example.com/ERR-EXT-001"@,
        AppError::LdapUnavailable => "https://errors.wnav.example.com/ERR-EXT-002"@,
        AppError::ReportGenerationFailed => "https://errors.wnav.example.com/ERR-SYS-003"@,
        AppError::TemplateIntegrityError => "https://errors.wnav.example.com/ERR-SYS-004"@,
        AppError::Database(_) => "https://errors.wnav.example.com/server/database-error"@,
        AppError::Internal(_) => "https://errors.wnav.example.com/server/internal-error"@,
    }
}

/// The short human-readable title of an error.
pub open spec fn spec_title(e: AppError) -> Seq<char> {
    match e {
        AppError::Unauthorized => "Unauthorized"@,
        AppError::JwtExpired => "Token Expired"@,
        AppError::Forbidden => "Insufficient Role"@,
        AppError::NotFound(_) => "Not Found"@,
        AppError::Conflict(_) => "Conflict"@,
        AppError::Validation(_) => "Validation Failed"@,
        AppError::InvalidSignature => "Invalid Signature"@,
        AppError::TwoPersonIntegrityViolation => "Two-Person Integrity Violation"@,
        AppError::InvalidStateTransition(_) => "Invalid State Transition"@,
        AppError::AlreadyJudged => "Already Judged"@,
        AppError::RateLimited => "Rate Limit Exceeded"@,
        AppError::ParentSystemUnavailable => "Parent System Unavailable"@,
        AppError::LdapUnavailable => "LDAP Unavailable"@,
        AppError::ReportGenerationFailed => "Report Generation Failed"@,
        AppError::TemplateIntegrityError => "Template Integrity Error"@,
        AppError::Database(_) => "Database Error"@,
        AppError::Internal(_) => "Internal Server Error"@,
    }
}

/// The detail shown to clients; it never carries the internal text of server errors.
pub open spec fn spec_user_detail(e: AppError) -> Seq<char> {
    match e {
        AppError::Unauthorized => "Authentication is required to access this resource."@,
        AppError::JwtExpired => "The JWT token has expired. Please log in again."@,
        AppError::Forbidden => "Your role does not have permission to perform this operation."@,
        AppError::NotFound(resource) => resource@ + " was not found."@,
        AppError::Conflict(msg) => msg@,
        AppError::Validation(msg) => msg@,
        AppError::InvalidSignature => "HMAC-SHA256 signature verification failed."@,
        AppError::TwoPersonIntegrityViolation => "The submitter and approver must be different users (FR-AU-007)."@,
        AppError::InvalidStateTransition(msg) => msg@,
        AppError::AlreadyJudged => "IQC inspection has already been judged."@,
        AppError::RateLimited => "Too many requests. Please wait before retrying."@,
        AppError::ParentSystemUnavailable => "The parent system is currently unavailable. Retry later."@,
        AppError::LdapUnavailable => "LDAP authentication is unavailable. Local authentication fallback applied."@,
        AppError::ReportGenerationFailed => "Report generation failed. The operation will be retried automatically."@,
        AppError::TemplateIntegrityError => "Report template integrity check failed. Contact system administrator."@,
        AppError::Database(_) => "A database error occurred. Please try again later."@,
        AppError::Internal(_) => "An internal server error occurred. Please try again later."@,
    }
}

/// The internal message of an error (what the logs record).
pub open spec fn spec_message(e: AppError) -> Seq<char> {
    match e {
        AppError::Unauthorized => "Authorization token is missing"@,
        AppError::JwtExpired => "JWT token has expired"@,
        AppError::Forbidden => "Insufficient role"@,
        AppError::NotFound(r) => "Resource not found: "@ + r@,
        AppError::Conflict(m) => "Conflict: "@ + m@,
        AppError::Validation(m) => "Validation failed: "@ + m@,
        AppError::InvalidSignature => "HMAC signature verification failed"@,
        AppError::TwoPersonIntegrityViolation => "Two-Person Integrity violation: approver and submitter must be different users"@,
        AppError::InvalidStateTransition(m) => "Invalid state transition: "@ + m@,
        AppError::RateLimited => "Rate limit exceeded"@,
        AppError::AlreadyJudged => "IQC inspection already judged"@,
        AppError::ParentSystemUnavailable => "Parent system unavailable"@,
        AppError::LdapUnavailable => "LDAP unavailable"@,
        AppError::ReportGenerationFailed => "Report generation failed"@,
        AppError::TemplateIntegrityError => "Template integrity error"@,
        AppError::Database(m) => "Database error: "@ + m@,
        AppError::Internal(m) => "Internal server error: "@ + m@,
    }
}

/// The error an authentication failure becomes.
pub open spec fn spec_from_auth_failure(f: AuthFailure) -> AppError {
    match f {
        AuthFailure::TokenExpired | AuthFailure::JwtExpired => AppError::JwtExpired,
        AuthFailure::InsufficientRole => AppError::Forbidden,
        AuthFailure::Unauthorized | AuthFailure::Other => AppError::Unauthorized,
    }
}

fn owned(s: &str) -> (res: String)
    ensures
        res@ == s@,
{
    s.to_owned()
}

fn joined(a: &str, b: &str) -> (res: String)
    ensures
        res@ == a@ + b@,
{
    let mut s = a.to_owned();
    s.append(b);
    s
}

impl AppError {
    /// The HTTP status code of this error.
    pub fn status_code(&self) -> (res: u16)
        ensures
            res == spec_status_code(*self),
    {
        match self {
            AppError::Unauthorized | AppError::JwtExpired => 401,
            AppError::Forbidden => 403,
            AppError::NotFound(_) => 404,
            AppError::Conflict(_) => 409,
            AppError::Validation(_) | AppError::InvalidSignature => 422,
            AppError::TwoPersonIntegrityViolation | AppError::InvalidStateTransition(_) => 422,
            AppError::AlreadyJudged => 409,
            AppError::RateLimited => 429,
            AppError::ParentSystemUnavailable | AppError::LdapUnavailable => 503,
            AppError::ReportGenerationFailed | AppError::TemplateIntegrityError
            | AppError::Database(_) | AppError::Internal(_) => 500,
        }
    }

    /// The RFC 7807 type URI of this error.
    pub fn problem_type(&self) -> (res: &'static str)
        ensures
            res@ == spec_problem_type(*self),
    {
        match self {
            AppError::Unauthorized => "https://errors.wnav.example.com/auth/unauthorized",
            AppError::JwtExpired => "https://errors.wnav.example.com/auth/token-expired",
            AppError::Forbidden => "https://errors.wnav.example.com/auth/insufficient-role",
            AppError::NotFound(_) => "https://errors.wnav.example.com/resource/not-found",
            AppError::Conflict(_) => "https://errors.wnav.example.com/resource/conflict",
            AppError::Validation(_) => "https://errors.wnav.example.com/validation/invalid-input",
            AppError::InvalidSignature => "https://errors.wnav.example.com/webhook/invalid-signature",
            AppError::TwoPersonIntegrityViolation => "https://errors.wnav.example.com/business/two-person-integrity",
            AppError::InvalidStateTransition(_) => "https://errors.wnav.example.com/business/invalid-state-transition",
            AppError::AlreadyJudged => "https://errors.wnav.example.com/ERR-BIZ-017",
            AppError::RateLimited => "https://errors.wnav.example.com/rate-limit/exceeded",
            AppError::ParentSystemUnavailable => "https://errors.wnav.example.com/ERR-EXT-001",
            AppError::LdapUnavailable => "https://errors.wnav.example.com/ERR-EXT-002",
            AppError::ReportGenerationFailed => "https://errors.wnav.example.com/ERR-SYS-003",
            AppError::TemplateIntegrityError => "https://errors.wnav.example.com/ERR-SYS-004",
            AppError::Database(_) => "https://errors.wnav.example.com/server/database-error",
            AppError::Internal(_) => "https://errors.wnav.example.com/server/internal-error",
        }
    }

    /// The title of this error.
    pub fn title(&self) -> (res: &'static str)
        ensures
            res@ == spec_title(*self),
    {
        match self {
            AppError::Unauthorized => "Unauthorized",
            AppError::JwtExpired => "Token Expired",
            AppError::Forbidden => "Insufficient Role",
            AppError::NotFound(_) => "Not Found",
            AppError::Conflict(_) => "Conflict",
            AppError::Validation(_) => "Validation Failed",
            AppError::InvalidSignature => "Invalid Signature",
            AppError::TwoPersonIntegrityViolation => "Two-Person Integrity Violation",
            AppError::InvalidStateTransition(_) => "Invalid State Transition",
            AppError::AlreadyJudged => "Already Judged",
            AppError::RateLimited => "Rate Limit Exceeded",
            AppError::ParentSystemUnavailable => "Parent System Unavailable",
            AppError::LdapUnavailable => "LDAP Unavailable",
            AppError::ReportGenerationFailed => "Report Generation Failed",
            AppError::TemplateIntegrityError => "Template Integrity Error",
            AppError::Database(_) => "Database Error",
            AppError::Internal(_) => "Internal Server Error",
        }
    }

    /// The client-safe detail of this error.
    pub fn user_detail(&self) -> (res: String)
        ensures
            res@ == spec_user_detail(*self),
    {
        match self {
            AppError::Unauthorized => owned("Authentication is required to access this resource."),
            AppError::JwtExpired => owned("The JWT token has expired. Please log in again."),
            AppError::Forbidden => owned("Your role does not have permission to perform this operation."),
            AppError::NotFound(resource) => joined(resource.as_str(), " was not found."),
            AppError::Conflict(msg) => msg.clone(),
            AppError::Validation(msg) => msg.clone(),
            AppError::InvalidSignature => owned("HMAC-SHA256 signature verification failed."),
            AppError::TwoPersonIntegrityViolation => owned("The submitter and approver must be different users (FR-AU-007)."),
            AppError::InvalidStateTransition(msg) => msg.clone(),
            AppError::AlreadyJudged => owned("IQC inspection has already been judged."),
            AppError::RateLimited => owned("Too many requests. Please wait before retrying."),
            AppError::ParentSystemUnavailable => owned("The parent system is currently unavailable. Retry later."),
            AppError::LdapUnavailable => owned("LDAP authentication is unavailable. Local authentication fallback applied."),
            AppError::ReportGenerationFailed => owned("Report generation failed. The operation will be retried automatically."),
            AppError::TemplateIntegrityError => owned("Report template integrity check failed. Contact system administrator."),
            AppError::Database(_) => owned("A database error occurred. Please try again later."),
            AppError::Internal(_) => owned("An internal server error occurred. Please try again later."),
        }
    }

    /// The internal message of this error, as its `Display` renders it.
    pub fn message(&self) -> (res: String)
        ensures
            res@ == spec_message(*self),
    {
        match self {
            AppError::Unauthorized => owned("Authorization token is missing"),
            AppError::JwtExpired => owned("JWT token has expired"),
            AppError::Forbidden => owned("Insufficient role"),
            AppError::NotFound(r) => joined("Resource not found: ", r.as_str()),
            AppError::Conflict(m) => joined("Conflict: ", m.as_str()),
            AppError::Validation(m) => joined("Validation failed: ", m.as_str()),
            AppError::InvalidSignature => owned("HMAC signature verification failed"),
            AppError::TwoPersonIntegrityViolation => owned("Two-Person Integrity violation: approver and submitter must be different users"),
            AppError::InvalidStateTransition(m) => joined("Invalid state transition: ", m.as_str()),
            AppError::RateLimited => owned("Rate limit exceeded"),
            AppError::AlreadyJudged => owned("IQC inspection already judged"),
            AppError::ParentSystemUnavailable => owned("Parent system unavailable"),
            AppError::LdapUnavailable => owned("LDAP unavailable"),
            AppError::ReportGenerationFailed => owned("Report generation failed"),
            AppError::TemplateIntegrityError => owned("Template integrity error"),
            AppError::Database(m) => joined("Database error: ", m.as_str()),
            AppError::Internal(m) => joined("Internal server error: ", m.as_str()),
        }
    }

    /// The error an authentication failure maps to.
    pub fn from_auth_failure(f: AuthFailure) -> (res: AppError)
        ensures
            res == spec_from_auth_failure(f),
    {
        match f {
            AuthFailure::TokenExpired | AuthFailure::JwtExpired => AppError::JwtExpired,
            AuthFailure::InsufficientRole => AppError::Forbidden,
            AuthFailure::Unauthorized | AuthFailure::Other => AppError::Unauthorized,
        }
    }

    /// The error any failed database operation maps to; its text never reaches clients.
    pub fn database_failure() -> (res: AppError)
        ensures
            res matches AppError::Database(m) && m@ == "database operation failed"@,
    {
        AppError::Database(owned("database operation failed"))
    }

    /// A not-found error naming a record kind and its identifier (`"{kind}:{id}"`).
    pub fn not_found_record(kind: &str, id: u128) -> (res: AppError)
        ensures
            res matches AppError::NotFound(r) && r@ == kind@ + ":"@ + uuid_hyphenated(id),
    {
        let mut text = joined(kind, ":");
        let idtext = uuid_to_string(id);
        text.append(idtext.as_str());
        AppError::NotFound(text)
    }
}

/// Every error answers with a client (4xx) or server (5xx) status.
pub proof fn law_status_is_an_error_status(e: AppError)
    ensures
        400 <= spec_status_code(e) < 600,
        (spec_status_code(e) >= 500) <==> (e is ReportGenerationFailed || e is TemplateIntegrityError
            || e is Database || e is Internal || e is ParentSystemUnavailable || e is LdapUnavailable),
{
}

/// The detail shown to clients for database and internal failures does not depend on the
/// internal message they carry.
pub proof fn law_server_details_hide_internals(a: String, b: String)
    ensures
        spec_user_detail(AppError::Database(a)) == spec_user_detail(AppError::Database(b)),
        spec_user_detail(AppError::Internal(a)) == spec_user_detail(AppError::Internal(b)),
        spec_title(AppError::Database(a)) == spec_title(AppError::Database(b)),
{
}


/// The kind of an error: its variant, whatever it carries.
pub open spec fn error_kind(e: AppError) -> int {
    match e {
        AppError::Unauthorized => 0,
        AppError::JwtExpired => 1,
        AppError::Forbidden => 2,
        AppError::NotFound(_) => 3,
        AppError::Conflict(_) => 4,
        AppError::Validation(_) => 5,
        AppError::InvalidSignature => 6,
        AppError::TwoPersonIntegrityViolation => 7,
        AppError::InvalidStateTransition(_) => 8,
        AppError::AlreadyJudged => 9,
        AppError::RateLimited => 10,
        AppError::ParentSystemUnavailable => 11,
        AppError::LdapUnavailable => 12,
        AppError::ReportGenerationFailed => 13,
        AppError::TemplateIntegrityError => 14,
        AppError::Database(_) => 15,
        AppError::Internal(_) => 16,
    }
}

/// The problem type URIs share the base `https://errors.wnav.example.com/`, and two errors
/// have the same URI exactly when they are of the same kind.
pub proof fn law_problem_types_distinct(a: AppError, b: AppError)
    ensures
        spec_problem_type(a).len() > 32,
        spec_problem_type(a).subrange(0, 32) == "https://errors.wnav.example.com/"@,
        (spec_problem_type(a) == spec_problem_type(b)) <==> (error_kind(a) == error_kind(b)),
{
    reveal_strlit("https://errors.wnav.example.com/");
    reveal_strlit("https://errors.wnav.example.com/auth/unauthorized");
    reveal_strlit("https://errors.wnav.example.com/auth/token-expired");
    reveal_strlit("https://errors.wnav.example.com/auth/insufficient-role");
    reveal_strlit("https://errors.wnav.example.com/resource/not-found");
    reveal_strlit("https://errors.wnav.example.com/resource/conflict");
    reveal_strlit("https://errors.wnav.example.com/validation/invalid-input");
    reveal_strlit("https://errors.wnav.example.com/webhook/invalid-signature");
    reveal_strlit("https://errors.wnav.example.com/business/two-person-integrity");
    reveal_strlit("https://errors.wnav.example.com/business/invalid-state-transition");
    reveal_strlit("https://errors.wnav.example.com/ERR-BIZ-017");
    reveal_strlit("https://errors.wnav.example.com/rate-limit/exceeded");
    reveal_strlit("https://errors.wnav.example.com/ERR-EXT-001");
    reveal_strlit("https://errors.wnav.example.com/ERR-EXT-002");
    reveal_strlit("https://errors.wnav.example.com/ERR-SYS-003");
    reveal_strlit("https://errors.wnav.example.com/ERR-SYS-004");
    reveal_strlit("https://errors.wnav.example.com/server/database-error");
    reveal_strlit("https://errors.wnav.example.com/server/internal-error");
    assert("https://errors.wnav.example.com/"@.len() == 32);
    assert("https://errors.wnav.example.com/auth/unauthorized"@.len() == 49 && "https://errors.wnav.example.com/auth/unauthorized"@[32] == 'a' && "https://errors.wnav.example.com/auth/unauthorized"@[39] == 'a' && "https://errors.wnav.example.com/auth/unauthorized"@[42] == 'h');
    assert("https://errors.wnav.example.com/auth/token-expired"@.len() == 50 && "https://errors.wnav.example.com/auth/token-expired"@[32] == 'a' && "https://errors.wnav.example.com/auth/token-expired"@[39] == 'k' && "https://errors.wnav.example.com/auth/token-expired"@[42] == '-');
    assert("https://errors.wnav.example.com/auth/insufficient-role"@.len() == 54 && "https://errors.wnav.example.com/auth/insufficient-role"@[32] == 'a' && "https://errors.wnav.example.com/auth/insufficient-role"@[39] == 's' && "https://errors.wnav.example.com/auth/insufficient-role"@[42] == 'f');
    assert("https://errors.wnav.example.com/resource/not-found"@.len() == 50 && "https://errors.wnav.example.com/resource/not-found"@[32] == 'r' && "https://errors.wnav.example.com/resource/not-found"@[39] == 'e' && "https://errors.wnav.example.com/resource/not-found"@[42] == 'o');
    assert("https://errors.wnav.example.com/resource/conflict"@.len() == 49 && "https://errors.wnav.example.com/resource/conflict"@[32] == 'r' && "https://errors.wnav.example.com/resource/conflict"@[39] == 'e' && "https://errors.wnav.example.com/resource/conflict"@[42] == 'o');
    assert("https://errors.wnav.example.com/validation/invalid-input"@.len() == 56 && "https://errors.wnav.example.com/validation/invalid-input"@[32] == 'v' && "https://errors.wnav.example.com/validation/invalid-input"@[39] == 'i' && "https://errors.wnav.example.com/validation/invalid-input"@[42] == '/');
    assert("https://errors.wnav.example.com/webhook/invalid-signature"@.len() == 57 && "https://errors.wnav.example.com/webhook/invalid-signature"@[32] == 'w' && "https://errors.wnav.example.com/webhook/invalid-signature"@[39] == '/' && "https://errors.wnav.example.com/webhook/invalid-signature"@[42] == 'v');
    assert("https://errors.wnav.example.com/business/two-person-integrity"@.len() == 61 && "https://errors.wnav.example.com/business/two-person-integrity"@[32] == 'b' && "https://errors.wnav.example.com/business/two-person-integrity"@[39] == 's' && "https://errors.wnav.example.com/business/two-person-integrity"@[42] == 'w');
    assert("https://errors.wnav.example.com/business/invalid-state-transition"@.len() == 65 && "https://errors.wnav.example.com/business/invalid-state-transition"@[32] == 'b' && "https://errors.wnav.example.com/business/invalid-state-transition"@[39] == 's' && "https://errors.wnav.example.com/business/invalid-state-transition"@[42] == 'n');
    assert("https://errors.wnav.example.com/ERR-BIZ-017"@.len() == 43 && "https://errors.wnav.example.com/ERR-BIZ-017"@[32] == 'E' && "https://errors.wnav.example.com/ERR-BIZ-017"@[39] == '-' && "https://errors.wnav.example.com/ERR-BIZ-017"@[42] == '7');
    assert("https://errors.wnav.example.com/rate-limit/exceeded"@.len() == 51 && "https://errors.wnav.example.com/rate-limit/exceeded"@[32] == 'r' && "https://errors.wnav.example.com/rate-limit/exceeded"@[39] == 'm' && "https://errors.wnav.example.com/rate-limit/exceeded"@[42] == '/');
    assert("https://errors.wnav.example.com/ERR-EXT-001"@.len() == 43 && "https://errors.wnav.example.com/ERR-EXT-001"@[32] == 'E' && "https://errors.wnav.example.com/ERR-EXT-001"@[39] == '-' && "https://errors.wnav.example.com/ERR-EXT-001"@[42] == '1');
    assert("https://errors.wnav.example.com/ERR-EXT-002"@.len() == 43 && "https://errors.wnav.example.com/ERR-EXT-002"@[32] == 'E' && "https://errors.wnav.example.com/ERR-EXT-002"@[39] == '-' && "https://errors.wnav.example.com/ERR-EXT-002"@[42] == '2');
    assert("https://errors.wnav.example.com/ERR-SYS-003"@.len() == 43 && "https://errors.wnav.example.com/ERR-SYS-003"@[32] == 'E' && "https://errors.wnav.example.com/ERR-SYS-003"@[39] == '-' && "https://errors.wnav.example.com/ERR-SYS-003"@[42] == '3');
    assert("https://errors.wnav.example.com/ERR-SYS-004"@.len() == 43 && "https://errors.wnav.example.com/ERR-SYS-004"@[32] == 'E' && "https://errors.wnav.example.com/ERR-SYS-004"@[39] == '-' && "https://errors.wnav.example.com/ERR-SYS-004"@[42] == '4');
    assert("https://errors.wnav.example.com/server/database-error"@.len() == 53 && "https://errors.wnav.example.com/server/database-error"@[32] == 's' && "https://errors.wnav.example.com/server/database-error"@[39] == 'd' && "https://errors.wnav.example.com/server/database-error"@[42] == 'a');
    assert("https://errors.wnav.example.com/server/internal-error"@.len() == 53 && "https://errors.wnav.example.com/server/internal-error"@[32] == 's' && "https://errors.wnav.example.com/server/internal-error"@[39] == 'i' && "https://errors.wnav.example.com/server/internal-error"@[42] == 'e');
    assert("https://errors.wnav.example.com/auth/unauthorized"@.subrange(0, 32) =~= "https://errors.wnav.example.com/"@);
    assert("https://errors.wnav.example.com/auth/token-expired"@.subrange(0, 32) =~= "https://errors.wnav.example.com/"@);
    assert("https://errors.wnav.example.com/auth/insufficient-role"@.subrange(0, 32) =~= "https://errors.wnav.example.com/"@);
    assert("https://errors.wnav.example.com/resource/not-found"@.subrange(0, 32) =~= "https://errors.wnav.example.com/"@);
    assert("https://errors.wnav.example.com/resource/conflict"@.subrange(0, 32) =~= "https://errors.wnav.example.com/"@);
    assert("https://errors.wnav.example.com/validation/invalid-input"@.subrange(0, 32) =~= "https://errors.wnav.example.com/"@);
    assert("https://errors.wnav.example.com/webhook/invalid-signature"@.subrange(0, 32) =~= "https://errors.wnav.example.com/"@);
    assert("https://errors.wnav.example.com/business/two-person-integrity"@.subrange(0, 32) =~= "https://errors.wnav.example.com/"@);
    assert("https://errors.wnav.example.com/business/invalid-state-transition"@.subrange(0, 32) =~= "https://errors.wnav.example.com/"@);
    assert("https://errors.wnav.example.com/ERR-BIZ-017"@.subrange(0, 32) =~= "https://errors.wnav.example.com/"@);
    assert("https://errors.wnav.example.com/rate-limit/exceeded"@.subrange(0, 32) =~= "https://errors.wnav.example.com/"@);
    assert("https://errors.wnav.example.com/ERR-EXT-001"@.subrange(0, 32) =~= "https://errors.wnav.example.com/"@);
    assert("https://errors.wnav.example.com/ERR-EXT-002"@.subrange(0, 32) =~= "https://errors.wnav.example.com/"@);
    assert("https://errors.wnav.example.com/ERR-SYS-003"@.subrange(0, 32) =~= "https://errors.wnav.example.com/"@);
    assert("https://errors.wnav.example.com/ERR-SYS-004"@.subrange(0, 32) =~= "https://errors.wnav.example.com/"@);
    assert("https://errors.wnav.example.com/server/database-error"@.subrange(0, 32) =~= "https://errors.wnav.example.com/"@);
    assert("https://errors.wnav.example.com/server/internal-error"@.subrange(0, 32) =~= "https://errors.wnav.example.com/"@);
}


/// Each kind of error answers with the type URI that names it (auth/token-expired for an
/// expired token, auth/insufficient-role for a missing role, ERR-BIZ-017 for a repeated
/// judgment, and so on).
pub proof fn law_problem_type_of_each_kind()
    ensures
        spec_problem_type(AppError::Unauthorized) == "https://errors.wnav.example.com/auth/unauthorized"@,
        spec_problem_type(AppError::JwtExpired) == "https://errors.wnav.example.com/auth/token-expired"@,
        spec_problem_type(AppError::Forbidden) == "https://errors.wnav.example.com/auth/insufficient-role"@,
        forall|m: String| #[trigger] spec_problem_type(AppError::NotFound(m)) == "https://errors.wnav.example.com/resource/not-found"@,
        forall|m: String| #[trigger] spec_problem_type(AppError::Conflict(m)) == "https://errors.wnav.example.com/resource/conflict"@,
        forall|m: String| #[trigger] spec_problem_type(AppError::Validation(m)) == "https://errors.wnav.example.com/validation/invalid-input"@,
        spec_problem_type(AppError::InvalidSignature) == "https://errors.wnav.example.com/webhook/invalid-signature"@,
        spec_problem_type(AppError::TwoPersonIntegrityViolation) == "https://errors.wnav.example.com/business/two-person-integrity"@,
        forall|m: String| #[trigger] spec_problem_type(AppError::InvalidStateTransition(m)) == "https://errors.wnav.example.com/business/invalid-state-transition"@,
        spec_problem_type(AppError::AlreadyJudged) == "https://errors.wnav.example.com/ERR-BIZ-017"@,
        spec_problem_type(AppError::RateLimited) == "https://errors.wnav.example.com/rate-limit/exceeded"@,
        spec_problem_type(AppError::ParentSystemUnavailable) == "https://errors.wnav.example.com/ERR-EXT-001"@,
        spec_problem_type(AppError::LdapUnavailable) == "https://errors.wnav.example.com/ERR-EXT-002"@,
        spec_problem_type(AppError::ReportGenerationFailed) == "https://errors.wnav.example.com/ERR-SYS-003"@,
        spec_problem_type(AppError::TemplateIntegrityError) == "https://errors.wnav.example.com/ERR-SYS-004"@,
        forall|m: String| #[trigger] spec_problem_type(AppError::Database(m)) == "https://errors.wnav.example.com/server/database-error"@,
        forall|m: String| #[trigger] spec_problem_type(AppError::Internal(m)) == "https://errors.wnav.example.com/server/internal-error"@,
{
}

/// Each kind of error answers with its HTTP status: 401 for a missing or expired token,
/// 403 for a missing role, 404, 409 for conflicts and repeated judgments, 422 for refused
/// input and transitions, 429, 503 for unavailable services and 500 for internal failures.
pub proof fn law_status_of_each_kind()
    ensures
        spec_status_code(AppError::Unauthorized) == 401,
        spec_status_code(AppError::JwtExpired) == 401,
        spec_status_code(AppError::Forbidden) == 403,
        forall|m: String| #[trigger] spec_status_code(AppError::NotFound(m)) == 404,
        forall|m: String| #[trigger] spec_status_code(AppError::Conflict(m)) == 409,
        forall|m: String| #[trigger] spec_status_code(AppError::Validation(m)) == 422,
        spec_status_code(AppError::InvalidSignature) == 422,
        spec_status_code(AppError::TwoPersonIntegrityViolation) == 422,
        forall|m: String| #[trigger] spec_status_code(AppError::InvalidStateTransition(m)) == 422,
        spec_status_code(AppError::AlreadyJudged) == 409,
        spec_status_code(AppError::RateLimited) == 429,
        spec_status_code(AppError::ParentSystemUnavailable) == 503,
        spec_status_code(AppError::LdapUnavailable) == 503,
        spec_status_code(AppError::ReportGenerationFailed) == 500,
        spec_status_code(AppError::TemplateIntegrityError) == 500,
        forall|m: String| #[trigger] spec_status_code(AppError::Database(m)) == 500,
        forall|m: String| #[trigger] spec_status_code(AppError::Internal(m)) == 500,
{
}

/// Each kind of error carries its own title.
pub proof fn law_title_of_each_kind()
    ensures
        spec_title(AppError::Unauthorized) == "Unauthorized"@,
        spec_title(AppError::JwtExpired) == "Token Expired"@,
        spec_title(AppError::Forbidden) == "Insufficient Role"@,
        forall|m: String| #[trigger] spec_title(AppError::NotFound(m)) == "Not Found"@,
        forall|m: String| #[trigger] spec_title(AppError::Conflict(m)) == "Conflict"@,
        forall|m: String| #[trigger] spec_title(AppError::Validation(m)) == "Validation Failed"@,
        spec_title(AppError::InvalidSignature) == "Invalid Signature"@,
        spec_title(AppError::TwoPersonIntegrityViolation) == "Two-Person Integrity Violation"@,
        forall|m: String| #[trigger] spec_title(AppError::InvalidStateTransition(m)) == "Invalid State Transition"@,
        spec_title(AppError::AlreadyJudged) == "Already Judged"@,
        spec_title(AppError::RateLimited) == "Rate Limit Exceeded"@,
        spec_title(AppError::ParentSystemUnavailable) == "Parent System Unavailable"@,
        spec_title(AppError::LdapUnavailable) == "LDAP Unavailable"@,
        spec_title(AppError::ReportGenerationFailed) == "Report Generation Failed"@,
        spec_title(AppError::TemplateIntegrityError) == "Template Integrity Error"@,
        forall|m: String| #[trigger] spec_title(AppError::Database(m)) == "Database Error"@,
        forall|m: String| #[trigger] spec_title(AppError::Internal(m)) == "Internal Server Error"@,
{
}

} // verus!
