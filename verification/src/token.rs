//! Bearer tokens: the claims the server signs for users and for the
//! administrator, and the checks it makes of the claims it reads back.

use vstd::prelude::*;
use crate::text::same_text;

verus! {

/// The lower-case hexadecimal digit of `d` (0-15).
pub open spec fn hex_digit(d: nat) -> char {
    if d < 10 { ((d + 48) as u8) as char } else { ((d + 87) as u8) as char }
}

/// The last `n` hexadecimal digits of `value`, most significant first.
pub open spec fn hex_digits(value: nat, n: nat) -> Seq<char>
    decreases n,
{
    if n == 0 { Seq::empty() } else { hex_digits(value / 16, (n - 1) as nat).push(hex_digit(value % 16)) }
}

/// The hyphenated lower-case text of the UUID with these 128 bits: its 32
/// hexadecimal digits, most significant first, in groups of 8, 4, 4, 4 and 12
/// joined by hyphens.
pub open spec fn uuid_text(value: u128) -> Seq<char> {
    let d = hex_digits(value as nat, 32);
    d.subrange(0, 8) + seq!['-'] + d.subrange(8, 12) + seq!['-'] + d.subrange(12, 16) + seq!['-'] + d.subrange(16, 20)
        + seq!['-'] + d.subrange(20, 32)
}

/// The 128 bits of the UUID that `text` spells, when it spells one.
pub uninterp spec fn uuid_parse(text: Seq<char>) -> Option<u128>;

/// `uuid::Uuid::from_u128` then `to_string`: as the crate documents, the UUID's
/// bytes are the integer's, most significant first, and its text is hyphenated
/// lower-case hexadecimal, 36 characters long, which `Uuid::parse_str` reads back
/// to the same UUID.
#[verifier::external_body]
pub(crate) fn uuid_to_text(value: u128) -> (r: String)
    ensures
        r@ == uuid_text(value),
        r@.len() == 36,
        uuid_parse(r@) == Some(value),
{
    uuid::Uuid::from_u128(value).to_string()
}

/// `uuid::Uuid::parse_str`, and on success `as_u128`. The result is named by `uuid_parse`.
#[verifier::external_body]
pub(crate) fn uuid_from_text(text: &str) -> (r: Option<u128>)
    ensures
        r == uuid_parse(text@),
{
    match uuid::Uuid::parse_str(text) {
        Ok(id) => Some(id.as_u128()),
        Err(_) => None,
    }
}

/// The claims of a token: its subject, and when it was issued and expires, in
/// seconds since the Unix epoch.
#[derive(Debug, Clone)]
pub struct Claims {
    pub sub: String,
    pub iat: u64,
    pub exp: u64,
}

/// Why a request's token is refused.
#[derive(Debug, Clone, Copy, PartialEq, Eq, Structural)]
pub enum TokenError {
    /// There is no `authorization` header.
    MissingHeader,
    /// The header is not visible ASCII.
    InvalidHeaderEncoding,
    /// The header does not start with `Bearer `.
    ExpectedBearer,
    /// The signature or the expiry did not check.
    InvalidOrExpired,
    /// The subject of a user token is no UUID.
    InvalidSubject,
    /// The subject of an administrator token is not the administrator.
    NotAdmin,
}

/// The `authorization` header of a request, as the transport gives it.
#[derive(Debug, Clone)]
pub enum AuthorizationHeader {
    Missing,
    Unreadable,
    Text(String),
}

/// The subject of the administrator's tokens.
pub open spec fn admin_subject() -> Seq<char> {
    seq!['a', 'd', 'm', 'i', 'n']
}

/// The prefix of a bearer header.
pub open spec fn bearer_prefix() -> Seq<char> {
    seq!['B', 'e', 'a', 'r', 'e', 'r', ' ']
}

/// How long a user token lives: thirty days, in seconds.
pub const USER_TOKEN_SECONDS: i64 = 2_592_000i64;

/// The claims of a user's token issued at `now` (seconds since the epoch): the
/// user id as hyphenated UUID text, and an expiry thirty days later.
pub fn user_claims(user_id: u128, now: i64) -> (r: Claims)
    requires
        now + USER_TOKEN_SECONDS <= i64::MAX,
    ensures
        r.sub@ == uuid_text(user_id),
        r.sub@.len() == 36,
        uuid_parse(r.sub@) == Some(user_id),
        r.iat == now as u64,
        r.exp == (now + USER_TOKEN_SECONDS) as u64,
{
    Claims { sub: uuid_to_text(user_id), iat: now as u64, exp: (now + USER_TOKEN_SECONDS) as u64 }
}

/// The claims of the administrator's token issued at `now` and expiring at
/// `expires_at` (seconds since the epoch).
pub fn admin_claims(now: i64, expires_at: i64) -> (r: Claims)
    ensures
        r.sub@ == admin_subject(),
        r.iat == now as u64,
        r.exp == expires_at as u64,
{
    let mut sub = String::new();
    crate::text::push_str(&mut sub, "admin");
    proof {
        reveal_strlit("admin");
        assert("admin"@ =~= admin_subject());
    }
    Claims { sub, iat: now as u64, exp: expires_at as u64 }
}

/// The user id that a token subject names.
pub open spec fn subject_user_id(sub: Seq<char>) -> Result<u128, TokenError> {
    match uuid_parse(sub) {
        Some(id) => Ok(id),
        None => Err(TokenError::InvalidSubject),
    }
}

/// Whether a token subject is the administrator's.
pub open spec fn subject_is_admin(sub: Seq<char>) -> bool {
    sub == admin_subject()
}

/// The user id a user token's checked claims name.
///
/// # Errors
///
/// `InvalidSubject` when the subject is no UUID text.
pub fn user_id_of_claims(claims: &Claims) -> (r: Result<u128, TokenError>)
    ensures
        r == subject_user_id(claims.sub@),
{
    match uuid_from_text(claims.sub.as_str()) {
        Some(id) => Ok(id),
        None => Err(TokenError::InvalidSubject),
    }
}

/// Accepts checked claims as the administrator's.
///
/// # Errors
///
/// `NotAdmin` when the subject is not `admin`.
pub fn check_admin_claims(claims: &Claims) -> (r: Result<(), TokenError>)
    ensures
        r is Ok <==> subject_is_admin(claims.sub@),
        r matches Err(e) ==> e == TokenError::NotAdmin,
{
    proof {
        reveal_strlit("admin");
        assert("admin"@ =~= admin_subject());
    }
    if same_text(claims.sub.as_str(), "admin") {
        Ok(())
    } else {
        Err(TokenError::NotAdmin)
    }
}

/// A user token names the user it was issued for, and only that: a subject as
/// `user_claims` makes it (36 characters that read back as the user id) gives
/// that id back, and is never taken for the administrator.
pub proof fn lemma_user_claims_round_trip(user_id: u128, sub: Seq<char>)
    requires
        sub.len() == 36,
        uuid_parse(sub) == Some(user_id),
    ensures
        subject_user_id(sub) == Ok::<u128, TokenError>(user_id),
        !subject_is_admin(sub),
{
}

/// The token of a bearer `authorization` header.
///
/// # Errors
///
/// `MissingHeader` without the header, `InvalidHeaderEncoding` when it is not
/// readable text, `ExpectedBearer` when it does not start with `Bearer `.
pub fn bearer_token(header: &AuthorizationHeader) -> (r: Result<String, TokenError>)
    ensures
        match header {
            AuthorizationHeader::Missing => r == Err::<String, TokenError>(TokenError::MissingHeader),
            AuthorizationHeader::Unreadable => r == Err::<String, TokenError>(TokenError::InvalidHeaderEncoding),
            AuthorizationHeader::Text(t) => if t@.len() >= 7 && t@.take(7) == bearer_prefix() {
                r matches Ok(token) && token@ == t@.skip(7)
            } else {
                r == Err::<String, TokenError>(TokenError::ExpectedBearer)
            },
        },
{
    match header {
        AuthorizationHeader::Missing => Err(TokenError::MissingHeader),
        AuthorizationHeader::Unreadable => Err(TokenError::InvalidHeaderEncoding),
        AuthorizationHeader::Text(t) => {
            let s = t.as_str();
            let n = s.unicode_len();
            proof {
                reveal_strlit("Bearer ");
                assert("Bearer "@ =~= bearer_prefix());
            }
            if n < 7 || !same_text(s.substring_char(0, 7), "Bearer ") {
                return Err(TokenError::ExpectedBearer);
            }
            let rest = s.substring_char(7, n);
            assert(s@.subrange(7, n as int) =~= s@.skip(7));
            assert(s@.subrange(0, 7) =~= s@.take(7));
            Ok(rest.to_owned())
        },
    }
}

/// The interceptor that checks the bearer token of each request with the server's secret.
#[derive(Clone)]
pub struct AuthInterceptor {
    jwt_secret: String,
}

impl AuthInterceptor {
    /// The secret the interceptor checks tokens with.
    pub closed spec fn secret(&self) -> Seq<char> {
        self.jwt_secret@
    }

    /// An interceptor checking tokens with `jwt_secret`.
    pub fn new(jwt_secret: String) -> (r: AuthInterceptor)
        ensures
            r.secret() == jwt_secret@,
    {
        AuthInterceptor { jwt_secret }
    }

    /// The secret the interceptor checks tokens with.
    pub fn jwt_secret(&self) -> (r: &str)
        ensures
            r@ == self.secret(),
    {
        self.jwt_secret.as_str()
    }
}

} // verus!
