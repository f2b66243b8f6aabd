//! Request gatekeeping: public paths, bearer tokens, rate-limit keys and pagination.
use vstd::prelude::*;
use vstd::utf8::{decode_utf8, encode_utf8, encode_utf8_decode_utf8, encode_utf8_valid_utf8, is_char_boundary};
use crate::error::AppError;
use crate::schedule::is_white_space;
use crate::text::{spec_strip_prefix, str_chars, str_eq, string_from_chars, strip_prefix};

verus! {

/// The endpoints served without authentication.
pub open spec fn spec_is_public_path(path: Seq<char>) -> bool {
    path == "/healthz"@ || path == "/api/v1/auth/login"@ || path == "/api/v1/public/config"@
}

/// Whether a request path skips authentication: the health check, the login and the
/// public configuration.
pub fn is_public_path(path: &str) -> (res: bool)
    ensures
        res == spec_is_public_path(path@),
{
    str_eq(path, "/healthz") || str_eq(path, "/api/v1/auth/login") || str_eq(path, "/api/v1/public/config")
}

/// The token of an `Authorization: Bearer <token>` header value.
pub open spec fn spec_bearer_token(authorization: Option<Seq<char>>) -> Option<Seq<char>> {
    match authorization {
        Some(h) => spec_strip_prefix(h, "Bearer "@),
        None => None,
    }
}

/// Extracts the bearer token of an Authorization header value, if any.
pub fn extract_bearer_token(authorization: Option<&str>) -> (res: Option<String>)
    ensures
        match spec_bearer_token(opt_chars(authorization)) {
            Some(t) => res is Some && res->0@ == t,
            None => res is None,
        },
{
    match authorization {
        Some(h) => strip_prefix(h, "Bearer "),
        None => None,
    }
}

/// What the authentication layer does with a request.
#[derive(Debug, Clone, PartialEq, Eq)]
pub enum AccessStep {
    /// A public path: served without a token.
    Pass,
    /// The bearer token to verify before serving.
    Verify(String),
}

/// Decides how a request is authenticated: public paths pass, others need a bearer token
/// (its absence is unauthorized).
pub fn access_step(path: &str, authorization: Option<&str>) -> (res: Result<AccessStep, AppError>)
    ensures
        spec_is_public_path(path@) ==> res == Ok::<AccessStep, AppError>(AccessStep::Pass),
        !spec_is_public_path(path@) ==> match spec_bearer_token(opt_chars(authorization)) {
            Some(t) => res matches Ok(AccessStep::Verify(x)) && x@ == t,
            None => res == Err::<AccessStep, AppError>(AppError::Unauthorized),
        },
{
    if is_public_path(path) {
        return Ok(AccessStep::Pass);
    }
    match extract_bearer_token(authorization) {
        Some(t) => Ok(AccessStep::Verify(t)),
        None => Err(AppError::Unauthorized),
    }
}

/// The text before the first comma.
pub open spec fn first_segment(s: Seq<char>) -> Seq<char>
    decreases s.len(),
{
    if s.len() == 0 || s[0] == ',' {
        seq![]
    } else {
        seq![s[0]] + first_segment(s.drop_first())
    }
}

/// The text without leading white space.
pub open spec fn trim_start(s: Seq<char>) -> Seq<char>
    decreases s.len(),
{
    if s.len() > 0 && is_white_space(s[0]) {
        trim_start(s.drop_first())
    } else {
        s
    }
}

/// The text without trailing white space.
pub open spec fn trim_end(s: Seq<char>) -> Seq<char>
    decreases s.len(),
{
    if s.len() > 0 && is_white_space(s.last()) {
        trim_end(s.drop_last())
    } else {
        s
    }
}

/// The text without leading and trailing white space (`str::trim`).
pub open spec fn trim(s: Seq<char>) -> Seq<char> {
    trim_end(trim_start(s))
}

/// The key under which a token's requests are counted: its first 16 bytes when they end on
/// a character boundary (`str::get(..16)`), else the whole token.
pub open spec fn token_key(token: Seq<char>) -> Seq<char> {
    let bytes = encode_utf8(token);
    if is_char_boundary(bytes, 16) {
        decode_utf8(bytes.subrange(0, 16))
    } else {
        token
    }
}

/// The rate-limit key of a request: the start of its bearer token, else the first address
/// of its `X-Forwarded-For` header, else `anonymous`.
pub open spec fn spec_rate_limit_key(authorization: Option<Seq<char>>, forwarded_for: Option<Seq<char>>) -> Seq<char> {
    match spec_bearer_token(authorization) {
        Some(t) => token_key(t),
        None => match forwarded_for {
            Some(x) => trim(first_segment(x)),
            None => "anonymous"@,
        },
    }
}

/// The characters of an optional header value.
pub open spec fn opt_chars(s: Option<&str>) -> Option<Seq<char>> {
    match s {
        Some(h) => Some(h@),
        None => None,
    }
}

fn first_segment_chars(s: &[char]) -> (res: Vec<char>)
    ensures
        res@ == first_segment(s@),
{
    let mut out: Vec<char> = Vec::new();
    let mut i: usize = 0;
    proof {
        assert(s@.skip(0) =~= s@);
        assert(out@ + first_segment(s@) =~= first_segment(s@));
    }
    while i < s.len() && s[i] != ','
        invariant
            0 <= i <= s@.len(),
            first_segment(s@) == out@ + first_segment(s@.skip(i as int)),
        decreases s@.len() - i,
    {
        proof {
            assert(s@.skip(i as int)[0] == s@[i as int]);
            assert(s@.skip(i as int).drop_first() =~= s@.skip(i + 1));
            assert(out@.push(s@[i as int]) + first_segment(s@.skip(i + 1)) =~= out@ + (seq![s@[i as int]]
                + first_segment(s@.skip(i + 1))));
        }
        out.push(s[i]);
        i = i + 1;
    }
    proof {
        assert(first_segment(s@.skip(i as int)) =~= Seq::<char>::empty());
        assert(out@ + Seq::<char>::empty() =~= out@);
    }
    out
}

fn white_space(c: char) -> (res: bool)
    ensures
        res == is_white_space(c),
{
    let v = c as u32;
    v == 0x20 || (0x09 <= v && v <= 0x0d) || v == 0x85 || v == 0xa0 || v == 0x1680 || (0x2000
        <= v && v <= 0x200a) || v == 0x2028 || v == 0x2029 || v == 0x202f || v == 0x205f || v
        == 0x3000
}

fn trim_chars(s: &[char]) -> (res: Vec<char>)
    ensures
        res@ == trim(s@),
{
    let mut a: usize = 0;
    proof {
        assert(s@.skip(0) =~= s@);
    }
    while a < s.len() && white_space(s[a])
        invariant
            0 <= a <= s@.len(),
            trim_start(s@) == trim_start(s@.skip(a as int)),
        decreases s@.len() - a,
    {
        proof {
            assert(s@.skip(a as int).drop_first() =~= s@.skip(a + 1));
        }
        a = a + 1;
    }
    let ghost t = s@.skip(a as int);
    proof {
        assert(trim_start(t) == t);
    }
    let mut b: usize = s.len();
    proof {
        assert(t.take((b - a) as int) =~= t);
    }
    while b > a && white_space(s[b - 1])
        invariant
            a <= b <= s@.len(),
            t == s@.skip(a as int),
            trim_end(t) == trim_end(t.take((b - a) as int)),
        decreases b - a,
    {
        proof {
            assert(t.take((b - a) as int).last() == s@[b - 1]);
            assert(t.take((b - a) as int).drop_last() =~= t.take((b - 1 - a) as int));
        }
        b = b - 1;
    }
    proof {
        if b > a {
            assert(t.take((b - a) as int).last() == s@[b - 1]);
        }
    }
    let mut out: Vec<char> = Vec::new();
    let mut k: usize = a;
    while k < b
        invariant
            a <= k <= b <= s@.len(),
            out@ == s@.subrange(a as int, k as int),
        decreases b - k,
    {
        out.push(s[k]);
        k = k + 1;
        proof {
            assert(out@ =~= s@.subrange(a as int, k as int));
        }
    }
    proof {
        assert(out@ =~= t.take((b - a) as int));
    }
    out
}

/// The key a request is rate-limited under.
pub fn rate_limit_key(authorization: Option<&str>, forwarded_for: Option<&str>) -> (res: String)
    ensures
        res@ == spec_rate_limit_key(opt_chars(authorization), opt_chars(forwarded_for)),
{
    match extract_bearer_token(authorization) {
        Some(token) => {
            let t: &str = token.as_str();
            proof {
                encode_utf8_valid_utf8(t@);
            }
            if t.is_char_boundary(16) {
                let (head, _tail) = t.split_at(16);
                proof {
                    encode_utf8_decode_utf8(head@);
                }
                head.to_owned()
            } else {
                token
            }
        },
        None => match forwarded_for {
            Some(x) => {
                let chars = str_chars(x);
                let seg = first_segment_chars(chars.as_slice());
                let trimmed = trim_chars(seg.as_slice());
                string_from_chars(trimmed.as_slice())
            },
            None => "anonymous".to_owned(),
        },
    }
}

/// Resolved pagination of a list request.
#[derive(Debug, Clone, Copy, PartialEq, Eq)]
pub struct Pagination {
    /// Page number, from 1.
    pub page: i64,
    /// Entries per page, from 1 to 200.
    pub per_page: i64,
    /// Entries skipped.
    pub offset: i64,
}

/// The page asked for: the given one, at least 1; the first by default.
pub open spec fn spec_page(page: Option<i64>) -> int {
    let p = match page {
        Some(p) => p as int,
        None => 1,
    };
    if p < 1 {
        1
    } else {
        p
    }
}

/// The page size asked for, clamped to 1..=200, with the endpoint's default.
pub open spec fn spec_per_page(per_page: Option<i64>, default_per_page: i64) -> int {
    let n = match per_page {
        Some(n) => n as int,
        None => default_per_page as int,
    };
    if n < 1 {
        1
    } else if n > 200 {
        200
    } else {
        n
    }
}

/// Resolves the page and page size of a list request and the number of entries to skip.
pub fn paginate(page: Option<i64>, per_page: Option<i64>, default_per_page: i64) -> (res: Pagination)
    requires
        (spec_page(page) - 1) * spec_per_page(per_page, default_per_page) <= i64::MAX,
    ensures
        res.page == spec_page(page),
        res.per_page == spec_per_page(per_page, default_per_page),
        1 <= res.per_page <= 200,
        res.offset == (res.page - 1) * res.per_page,
{
    let p: i64 = match page {
        Some(p) => p,
        None => 1,
    };
    let p: i64 = if p < 1 { 1 } else { p };
    let n: i64 = match per_page {
        Some(n) => n,
        None => default_per_page,
    };
    let n: i64 = if n < 1 { 1 } else if n > 200 { 200 } else { n };
    let offset = (p - 1) * n;
    Pagination { page: p, per_page: n, offset }
}

/// Paging of a list endpoint.
#[derive(Debug, Clone, Copy, PartialEq, Eq)]
pub struct PaginationQuery {
    pub page: Option<i64>,
    pub per_page: Option<i64>,
}

/// Filter and paging of the process list.
#[derive(Debug, Clone, Copy, PartialEq, Eq)]
pub struct ListProcessesQuery {
    pub is_active: Option<bool>,
    pub page: Option<i64>,
    pub per_page: Option<i64>,
}

/// Filter and paging of the user list.
#[derive(Debug, Clone, PartialEq, Eq)]
pub struct ListUsersQuery {
    pub is_active: Option<bool>,
    pub role: Option<String>,
    pub page: Option<i64>,
    pub per_page: Option<i64>,
}

/// Filter and paging of the alert list.
#[derive(Debug, Clone, PartialEq, Eq)]
pub struct AlertFilterQuery {
    pub status: Option<String>,
    pub page: Option<i64>,
    pub per_page: Option<i64>,
}

} // verus!
