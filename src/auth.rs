//! Bearer credentials: signed, stateless tokens that name their subject and
//! carry their own expiry.
//!
//! Signing and checking a token's signature serialise its claims through
//! serde and are done by the server around this library with the keys held
//! here. The library decides what a token claims when issued, and whether
//! decoded claims are accepted at a given time: expiry is enforced here,
//! strictly, whatever leeway the decoder allowed. A stateless token cannot
//! be revoked before it expires.

use crate::clock::{secs_of_millis, unix_time_millis};
use crate::error::AppError;
use crate::text::owned;
use jsonwebtoken::{DecodingKey, EncodingKey};
use vstd::prelude::*;

verus! {

#[verifier::external_type_specification]
#[verifier::external_body]
pub struct ExEncodingKey(jsonwebtoken::EncodingKey);

#[verifier::external_type_specification]
#[verifier::external_body]
pub struct ExDecodingKey(jsonwebtoken::DecodingKey);

/// Relies on `jsonwebtoken::EncodingKey::from_secret`: an HMAC signing key
/// made of the bytes of `secret`.
#[verifier::external_body]
fn hmac_encoding_key(secret: &str) -> EncodingKey {
    EncodingKey::from_secret(secret.as_bytes())
}

/// Relies on `jsonwebtoken::DecodingKey::from_secret`: an HMAC checking key
/// made of the bytes of `secret`.
#[verifier::external_body]
fn hmac_decoding_key(secret: &str) -> DecodingKey {
    DecodingKey::from_secret(secret.as_bytes())
}

/// How long an issued token stays valid: one week, in seconds.
pub const TOKEN_DURATION_SECS: i64 = 604_800;

/// What a token states: its subject, when it expires and when it was
/// issued (seconds since the Unix epoch), and the username.
#[derive(Clone, Debug)]
pub struct Claims {
    pub sub: String,
    pub exp: i64,
    pub iat: i64,
    pub username: String,
}

/// Why a token could not be decoded.
#[derive(Clone, Copy, Debug, PartialEq, Eq, Structural)]
pub enum TokenRejection {
    /// The decoder found the token expired.
    Expired,
    /// Malformed, forged, or signed with another key or algorithm.
    Invalid,
    /// The server's own key or algorithm settings are unusable.
    KeyMisconfigured,
}

/// The body answered to a successful login.
#[derive(Clone, Debug)]
pub struct LoginResponse {
    pub token: String,
    pub message: String,
    pub expires_at: i64,
}

/// The body answered to a question about the current credential.
#[derive(Clone, Debug)]
pub struct AuthCheckResponse {
    pub authenticated: bool,
    pub username: String,
    pub expires_at: i64,
}

/// When a token issued at `now` expires (the largest time, where that
/// would overflow).
pub open spec fn expiry_of(now: i64) -> i64 {
    if now + TOKEN_DURATION_SECS > i64::MAX {
        i64::MAX
    } else {
        (now + TOKEN_DURATION_SECS) as i64
    }
}

/// `c` is what a token issued to `username` at `now` claims.
pub open spec fn issued_claims(c: Claims, username: Seq<char>, now: i64) -> bool {
    &&& c.sub@ == username
    &&& c.username@ == username
    &&& c.iat == now
    &&& c.exp == expiry_of(now)
}

/// Whether a decoding outcome is accepted at `now`: claims that decoded and
/// have not expired.
pub open spec fn credential_accepted(decoded: Result<Claims, TokenRejection>, now: i64) -> bool {
    decoded matches Ok(c) && now < c.exp
}

/// The answer to a decoding outcome at `now`: the claims where accepted; an
/// internal error where the server's key is at fault; otherwise
/// unauthorized, without saying why.
pub open spec fn credential_answer(
    decoded: Result<Claims, TokenRejection>,
    now: i64,
    r: Result<Claims, AppError>,
) -> bool {
    match decoded {
        Ok(c) => if now < c.exp {
            r == Ok::<Claims, AppError>(c)
        } else {
            r matches Err(AppError::Unauthorized)
        },
        Err(TokenRejection::KeyMisconfigured) => r matches Err(AppError::InternalServerError(_)),
        Err(_) => r matches Err(AppError::Unauthorized),
    }
}

/// A token issued to `subject` is accepted, for `subject`, at every time
/// before its expiry, and rejected as unauthorized from its expiry on; the
/// expiry is one token lifetime after issue (unless that overflows).
pub proof fn lemma_credential_lifetime(c: Claims, subject: Seq<char>, issued_at: i64, now: i64, r: Result<Claims, AppError>)
    requires
        issued_claims(c, subject, issued_at),
        credential_answer(Ok(c), now, r),
    ensures
        credential_accepted(Ok(c), now) <==> now < c.exp,
        issued_at <= i64::MAX - TOKEN_DURATION_SECS ==> c.exp == issued_at + TOKEN_DURATION_SECS,
        now < c.exp ==> (r matches Ok(d) && d.sub@ == subject && d.username@ == subject),
        now >= c.exp ==> r matches Err(AppError::Unauthorized),
{
}

/// Issues and checks the gateway's bearer tokens.
pub struct AuthService {
    encoding_key: EncodingKey,
    decoding_key: DecodingKey,
}

impl AuthService {
    /// A service whose tokens are signed with `secret`.
    pub fn new(secret: String) -> (r: Self) {
        AuthService {
            encoding_key: hmac_encoding_key(secret.as_str()),
            decoding_key: hmac_decoding_key(secret.as_str()),
        }
    }

    /// The key that signs tokens.
    pub fn encoding_key(&self) -> &EncodingKey {
        &self.encoding_key
    }

    /// The key that checks token signatures.
    pub fn decoding_key(&self) -> &DecodingKey {
        &self.decoding_key
    }

    /// The claims of a token issued to `username` at `now`.
    pub fn issue_claims_at(&self, username: &str, now: i64) -> (r: Claims)
        ensures
            issued_claims(r, username@, now),
    {
        let exp = if now > i64::MAX - TOKEN_DURATION_SECS {
            i64::MAX
        } else {
            now + TOKEN_DURATION_SECS
        };
        Claims { sub: owned(username), exp, iat: now, username: owned(username) }
    }

    /// The claims of a token issued to `username` now.
    pub fn issue_claims(&self, username: &str) -> (r: Claims)
        ensures
            exists|now: i64| issued_claims(r, username@, now),
    {
        let now = secs_of_millis(unix_time_millis());
        self.issue_claims_at(username, now)
    }

    /// Accepts decoded claims that have not expired at `now`; a token that
    /// did not decode, or has expired, is unauthorized, unless the server's
    /// own key is at fault.
    pub fn validate_token_at(&self, decoded: Result<Claims, TokenRejection>, now: i64) -> (r: Result<
        Claims,
        AppError,
    >)
        ensures
            credential_answer(decoded, now, r),
            r is Ok <==> credential_accepted(decoded, now),
    {
        match decoded {
            Ok(c) => {
                if now < c.exp {
                    Ok(c)
                } else {
                    Err(AppError::Unauthorized)
                }
            },
            Err(TokenRejection::KeyMisconfigured) => Err(
                AppError::InternalServerError("Token key misconfigured".to_owned()),
            ),
            Err(_) => Err(AppError::Unauthorized),
        }
    }

    /// [`Self::validate_token_at`] as of now.
    pub fn validate_token(&self, decoded: Result<Claims, TokenRejection>) -> (r: Result<Claims, AppError>)
        ensures
            exists|now: i64| credential_answer(decoded, now, r),
    {
        let now = secs_of_millis(unix_time_millis());
        self.validate_token_at(decoded, now)
    }
}

impl LoginResponse {
    /// The answer to a login that was issued `token` with `claims`.
    pub fn for_login(token: String, claims: &Claims) -> (r: LoginResponse)
        ensures
            r.token == token,
            r.message@ == "Login successful"@,
            r.expires_at == claims.exp,
    {
        LoginResponse { token, message: "Login successful".to_owned(), expires_at: claims.exp }
    }
}

impl AuthCheckResponse {
    /// The answer for a request that presented a valid token with `claims`.
    pub fn for_claims(claims: &Claims) -> (r: AuthCheckResponse)
        ensures
            r.authenticated,
            r.username == claims.username,
            r.expires_at == claims.exp,
    {
        AuthCheckResponse { authenticated: true, username: claims.username.clone(), expires_at: claims.exp }
    }
}

} // verus!
