//! Sign-in, token refresh, sign-out and signing-key rotation.
use vstd::prelude::*;
use crate::error::AppError;
use vstd::utf8::encode_utf8;
use crate::ids::{parse_uuid, spec_uuid_parse};

verus! {

/// Lifetime of an access token in seconds (eight hours).
pub const ACCESS_TOKEN_TTL_SECS: u64 = 28800;

/// Request to sign in.
#[derive(Debug, Clone, PartialEq, Eq)]
pub struct LoginRequest {
    /// Login identifier (mail address or staff number).
    pub login_id: String,
    /// Password in clear (sent over TLS only).
    pub password: String,
}

/// Tokens issued at sign-in.
#[derive(Debug, Clone, PartialEq, Eq)]
pub struct LoginResponse {
    /// The JWT access token.
    pub access_token: String,
    /// The refresh token.
    pub refresh_token: String,
    /// Lifetime of the access token in seconds.
    pub expires_in: u64,
    /// Always `Bearer`.
    pub token_type: String,
}

/// Request for a new access token.
#[derive(Debug, Clone, PartialEq, Eq)]
pub struct RefreshRequest {
    pub refresh_token: String,
}

/// A new access token.
#[derive(Debug, Clone, PartialEq, Eq)]
pub struct RefreshResponse {
    pub access_token: String,
    pub expires_in: u64,
    pub token_type: String,
}

/// Request to sign out (revoke a refresh token).
#[derive(Debug, Clone, PartialEq, Eq)]
pub struct LogoutRequest {
    pub refresh_token: String,
}

/// Request to rotate the JWT signing key.
#[derive(Debug, Clone, PartialEq, Eq)]
pub struct KeyRotateRequest {
    /// New private key (PEM).
    pub new_private_key_pem: String,
    /// New public key (PEM).
    pub new_public_key_pem: String,
    /// Identifier of the new key.
    pub new_kid: String,
    /// Seconds during which the old key stays accepted.
    pub grace_period_sec: u64,
}

/// Outcome of a key rotation.
#[derive(Debug, Clone, PartialEq, Eq)]
pub struct KeyRotateResponse {
    pub new_kid: String,
    pub message: String,
    /// When the old key stops being accepted (Unix seconds).
    pub old_key_expires_at: i64,
}

impl LoginResponse {
    /// The answer to a successful sign-in.
    pub fn bearer(access_token: String, refresh_token: String) -> (res: Self)
        ensures
            res.access_token == access_token,
            res.refresh_token == refresh_token,
            res.expires_in == ACCESS_TOKEN_TTL_SECS,
            res.token_type@ == "Bearer"@,
    {
        LoginResponse { access_token, refresh_token, expires_in: ACCESS_TOKEN_TTL_SECS, token_type: "Bearer".to_owned() }
    }
}

impl RefreshResponse {
    /// The answer to a successful refresh.
    pub fn bearer(access_token: String) -> (res: Self)
        ensures
            res.access_token == access_token,
            res.expires_in == ACCESS_TOKEN_TTL_SECS,
            res.token_type@ == "Bearer"@,
    {
        RefreshResponse { access_token, expires_in: ACCESS_TOKEN_TTL_SECS, token_type: "Bearer".to_owned() }
    }
}

/// An account may sign in or refresh only when it exists and is active; `found_active` is
/// `None` for an unknown account.
pub fn check_account_active(found_active: Option<bool>) -> (res: Result<(), AppError>)
    ensures
        found_active == Some(true) ==> res is Ok,
        found_active != Some(true) ==> res == Err::<(), AppError>(AppError::Unauthorized),
{
    match found_active {
        Some(true) => Ok(()),
        _ => Err(AppError::Unauthorized),
    }
}

/// The password check passes only when the verification ran and matched; `None` when the
/// verification itself failed.
pub fn check_password(verified: Option<bool>) -> (res: Result<(), AppError>)
    ensures
        verified == Some(true) ==> res is Ok,
        verified != Some(true) ==> res == Err::<(), AppError>(AppError::Unauthorized),
{
    match verified {
        Some(true) => Ok(()),
        _ => Err(AppError::Unauthorized),
    }
}

/// The outcome of presenting a refresh token (times in microseconds since the epoch): a
/// revoked token is unauthorized, an expired one has expired, any other is usable.
pub open spec fn spec_refresh_check(is_revoked: bool, expires_at_us: i64, now_us: i64) -> Result<(), AppError> {
    if is_revoked {
        Err(AppError::Unauthorized)
    } else if expires_at_us < now_us {
        Err(AppError::JwtExpired)
    } else {
        Ok(())
    }
}

/// A refresh token is usable when it is not revoked and not expired.
pub fn check_refresh_token(is_revoked: bool, expires_at_us: i64, now_us: i64) -> (res: Result<(), AppError>)
    ensures
        res == spec_refresh_check(is_revoked, expires_at_us, now_us),
{
    if is_revoked {
        return Err(AppError::Unauthorized);
    }
    if expires_at_us < now_us {
        return Err(AppError::JwtExpired);
    }
    Ok(())
}

/// A revoked refresh token (one that sign-out marked) never yields an access token again,
/// whatever its expiry and whenever it is presented.
pub proof fn law_revoked_token_never_refreshes(expires_at_us: i64, now_us: i64)
    ensures
        spec_refresh_check(true, expires_at_us, now_us) == Err::<(), AppError>(AppError::Unauthorized),
{
}

/// The identifier of a refresh token presented for a refresh; an unreadable token is
/// unauthorized.
pub fn parse_refresh_token(token: &str) -> (res: Result<u128, AppError>)
    ensures
        res == match spec_uuid_parse(encode_utf8(token@)) {
            Some(id) => Ok::<u128, AppError>(id),
            None => Err(AppError::Unauthorized),
        },
{
    match parse_uuid(token) {
        Some(id) => Ok(id),
        None => Err(AppError::Unauthorized),
    }
}

/// The identifier of a refresh token presented for sign-out; an unreadable token is a
/// validation error.
pub fn parse_logout_token(token: &str) -> (res: Result<u128, AppError>)
    ensures
        match spec_uuid_parse(encode_utf8(token@)) {
            Some(id) => res == Ok::<u128, AppError>(id),
            None => res matches Err(AppError::Validation(m)) && m@ == "refresh_token の形式が不正です"@,
        },
{
    match parse_uuid(token) {
        Some(id) => Ok(id),
        None => Err(AppError::Validation("refresh_token の形式が不正です".to_owned())),
    }
}

/// When the old key expires: `now` plus the grace period (the period read as an `i64`).
pub fn old_key_expiry(now_secs: i64, grace_period_sec: u64) -> (res: i64)
    requires
        i64::MIN <= now_secs + (grace_period_sec as i64) <= i64::MAX,
    ensures
        res == now_secs + (grace_period_sec as i64),
{
    now_secs + grace_period_sec as i64
}

impl KeyRotateResponse {
    /// The answer to a key rotation.
    pub fn rotated(new_kid: String, old_key_expires_at: i64) -> (res: Self)
        ensures
            res.new_kid == new_kid,
            res.old_key_expires_at == old_key_expires_at,
            res.message@ == "JWT key rotation completed. Old key will expire after grace period."@,
    {
        KeyRotateResponse {
            new_kid,
            message: "JWT key rotation completed. Old key will expire after grace period.".to_owned(),
            old_key_expires_at,
        }
    }
}

} // verus!
