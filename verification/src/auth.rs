//! The auth gate: validates a bearer token from the `Authorization` header
//! against a shared symmetric secret and produces verified claims or a
//! rejection classification.
//!
//! Signature verification and claim decoding are delegated to the
//! `jsonwebtoken` crate behind a trusted wrapper; the scheme check and the
//! strict expiry check are verified here.

use vstd::prelude::*;

use crate::error::ErrorKind;
use crate::strutil::{parse_i32, parse_i32_spec, spec_starts_with, str_starts_with};

verus! {

/// The decoded, verified payload of a bearer token: subject id, username,
/// and expiry as seconds since the epoch.
#[derive(Debug)]
pub struct Claims {
    pub sub: String,
    pub username: String,
    pub exp: usize,
}

/// How the auth gate classifies a rejected request.
#[derive(Clone, Copy, PartialEq, Eq, Structural, Debug)]
pub enum AuthRejection {
    /// No `Authorization` header was presented.
    MissingHeader,
    /// The header does not carry the literal `Bearer ` scheme.
    MalformedHeader,
    /// The token failed signature verification, could not be decoded, or
    /// its expiry is not strictly in the future.  The three cases are
    /// deliberately indistinguishable to the client.
    InvalidOrExpiredToken,
}

/// The failure classification each rejection maps to.
pub open spec fn rejection_kind(r: AuthRejection) -> ErrorKind {
    match r {
        AuthRejection::MissingHeader => ErrorKind::MissingAuth,
        AuthRejection::MalformedHeader => ErrorKind::MalformedAuthHeader,
        AuthRejection::InvalidOrExpiredToken => ErrorKind::InvalidOrExpiredToken,
    }
}

/// The fixed client-facing message for each rejection.  Decode, signature
/// and expiry failures share one generic message so that a client cannot
/// tell which verification step refused the token.
pub open spec fn rejection_message(r: AuthRejection) -> Seq<char> {
    match r {
        AuthRejection::MissingHeader => "Authorization header missing"@,
        AuthRejection::MalformedHeader => "Invalid authorization header format"@,
        AuthRejection::InvalidOrExpiredToken => "Invalid or expired token"@,
    }
}

/// What HS256 decoding yields for a given token and secret: `None` when the
/// token is malformed or its signature does not verify under the secret,
/// and otherwise the token's subject, username and expiry claims.  The
/// result depends on the token and secret alone.
pub uninterp spec fn decoded_claims(token: Seq<char>, secret: Seq<char>) -> Option<
    (Seq<char>, Seq<char>, usize),
>;

/// Relies on `jsonwebtoken::decode` with algorithm HS256: verifies the
/// token's signature under the secret and hands back the claim set.  Expiry
/// checking is disabled here so that the result is a function of the token
/// and secret alone; the caller performs the expiry check itself.
#[verifier::external_body]
fn decode_hs256(token: &str, secret: &str) -> (r: Option<Claims>)
    ensures
        r matches Some(c) ==> decoded_claims(token@, secret@) == Some((c.sub@, c.username@, c.exp)),
        r is None ==> decoded_claims(token@, secret@) is None,
{
    let key = jsonwebtoken::DecodingKey::from_secret(secret.as_bytes());
    let mut validation = jsonwebtoken::Validation::new(jsonwebtoken::Algorithm::HS256);
    validation.validate_exp = false;
    validation.required_spec_claims = std::collections::HashSet::new();
    let data = match jsonwebtoken::decode::<serde_json::Value>(token, &key, &validation) {
        Ok(data) => data,
        Err(_) => return None,
    };
    let sub = data.claims.get("sub")?.as_str()?;
    let username = data.claims.get("username")?.as_str()?;
    let exp = data.claims.get("exp")?.as_u64()?;
    Some(Claims { sub: sub.to_string(), username: username.to_string(), exp: exp as usize })
}

/// The token carried by an `Authorization` header value: everything after
/// the literal, case-sensitive scheme `Bearer `.
pub open spec fn bearer_token(h: Seq<char>) -> Option<Seq<char>> {
    if spec_starts_with(h, "Bearer "@) {
        Some(h.skip("Bearer "@.len() as int))
    } else {
        None
    }
}

/// The view of an optional borrowed header value.
pub open spec fn header_view(h: Option<&String>) -> Option<Seq<char>> {
    match h {
        Some(s) => Some(s@),
        None => None,
    }
}

/// What the auth gate decides for a header value, secret and verification
/// time: a missing header and a malformed scheme are distinct rejections;
/// a token that fails to decode or whose expiry is not strictly in the
/// future is rejected with the single generic classification.
pub open spec fn validate_token_spec(
    header: Option<Seq<char>>,
    secret: Seq<char>,
    now: usize,
) -> Result<(Seq<char>, Seq<char>, usize), AuthRejection> {
    match header {
        None => Err(AuthRejection::MissingHeader),
        Some(h) => match bearer_token(h) {
            None => Err(AuthRejection::MalformedHeader),
            Some(tok) => match decoded_claims(tok, secret) {
                None => Err(AuthRejection::InvalidOrExpiredToken),
                Some(c) => if c.2 > now {
                    Ok(c)
                } else {
                    Err(AuthRejection::InvalidOrExpiredToken)
                },
            },
        },
    }
}

/// What extracting a numeric user id yields: the subject claim of a
/// successfully validated token, parsed as a decimal `i32`.
pub open spec fn extract_user_id_spec(
    header: Option<Seq<char>>,
    secret: Seq<char>,
    now: usize,
) -> Option<i32> {
    match validate_token_spec(header, secret, now) {
        Ok(c) => parse_i32_spec(c.0),
        Err(_) => None,
    }
}

/// The auth gate.
pub struct AuthMiddleware;

impl AuthMiddleware {
    /// Validates the bearer token carried by an `Authorization` header
    /// value against the shared secret, at verification time `now`
    /// (seconds since the epoch).
    pub fn validate_token(header: Option<&String>, secret: &str, now: usize) -> (r: Result<
        Claims,
        AuthRejection,
    >)
        ensures
            r matches Ok(c) ==> validate_token_spec(header_view(header), secret@, now) == Ok::<
                _,
                AuthRejection,
            >((c.sub@, c.username@, c.exp)),
            r matches Err(e) ==> validate_token_spec(header_view(header), secret@, now) == Err::<
                (Seq<char>, Seq<char>, usize),
                _,
            >(e),
    {
        let h = match header {
            Some(h) => h,
            None => {
                return Err(AuthRejection::MissingHeader);
            },
        };
        let hs = h.as_str();
        if !str_starts_with(hs, "Bearer ") {
            return Err(AuthRejection::MalformedHeader);
        }
        proof {
            reveal_strlit("Bearer ");
        }
        let hlen = hs.unicode_len();
        let token = hs.substring_char(7, hlen);
        proof {
            assert(token@ =~= h@.skip("Bearer "@.len() as int));
        }
        match decode_hs256(token, secret) {
            None => Err(AuthRejection::InvalidOrExpiredToken),
            Some(claims) => {
                if claims.exp > now {
                    Ok(claims)
                } else {
                    Err(AuthRejection::InvalidOrExpiredToken)
                }
            },
        }
    }

    /// The numeric user id of a validated token's subject claim, if the
    /// token validates and the subject parses as a decimal `i32`.
    pub fn extract_user_id(header: Option<&String>, secret: &str, now: usize) -> (r: Option<i32>)
        ensures
            r == extract_user_id_spec(header_view(header), secret@, now),
    {
        match Self::validate_token(header, secret, now) {
            Ok(claims) => parse_i32(claims.sub.as_str()),
            Err(_) => None,
        }
    }
}

/// Token rejection is uniform: a token whose signature does not verify
/// under the secret and a token that decodes but whose expiry has passed
/// are rejected identically, so a client cannot tell the cases apart.
pub proof fn lemma_token_rejection_uniform(
    h1: Seq<char>,
    h2: Seq<char>,
    secret: Seq<char>,
    now: usize,
)
    requires
        bearer_token(h1) matches Some(t1) && decoded_claims(t1, secret) is None,
        bearer_token(h2) matches Some(t2) && decoded_claims(t2, secret) matches Some(c) && c.2
            <= now,
    ensures
        validate_token_spec(Some(h1), secret, now) == Err::<
            (Seq<char>, Seq<char>, usize),
            AuthRejection,
        >(AuthRejection::InvalidOrExpiredToken),
        validate_token_spec(Some(h2), secret, now) == validate_token_spec(Some(h1), secret, now),
        rejection_message(AuthRejection::InvalidOrExpiredToken) == "Invalid or expired token"@,
{
}

} // verus!
