//! The token service and the identity extractor: issuing signed identity
//! tokens, and resolving a request's authorization header into an identity,
//! in a required and an optional mode.

use vstd::prelude::*;

use crate::app_error::AppError;
use crate::config::AppContext;

verus! {

/// Token validity window in seconds (seven days).
pub const JWT_EXPIRES_IN: i64 = 60 * 60 * 24 * 7;

/// A resolved identity: the subject a validated token asserts.
#[derive(Debug, Clone, Copy, PartialEq, Eq, Structural)]
pub struct AuthUser {
    pub user_id: i32,
}

/// An identity that may be absent: a missing credential is not a failure.
#[derive(Debug)]
pub struct OptionalAuthUser(pub Option<AuthUser>);

/// The compact signed token encoding the claims {user_id, exp} under
/// `secret` with HMAC-SHA256, as `jsonwebtoken::encode` produces it: a
/// function of its arguments alone.
pub uninterp spec fn jwt_token(secret: Seq<char>, user_id: i32, exp: i64) -> Seq<char>;

/// The claims `jsonwebtoken::decode` recovers from `token` under `secret`,
/// or `None` when the token is malformed, signed under another key or
/// another algorithm, or carries no integral user_id and exp claims: a
/// function of its arguments alone.
pub uninterp spec fn jwt_claims(secret: Seq<char>, token: Seq<char>) -> Option<(i32, i64)>;

/// Relies on jsonwebtoken::encode with header {alg: HS256}: the returned
/// token decodes, under the same secret, to exactly the claims given.
/// Encoding two integer claims under HS256 cannot fail.
#[verifier::external_body]
pub(crate) fn encode_token(secret: &str, user_id: i32, exp: i64) -> (r: String)
    ensures
        r@ == jwt_token(secret@, user_id, exp),
        jwt_claims(secret@, r@) == Some((user_id, exp)),
{
    let key = jsonwebtoken::EncodingKey::from_secret(secret.as_bytes());
    let mut claims = serde_json::Map::new();
    claims.insert("user_id".to_string(), serde_json::Value::from(user_id));
    claims.insert("exp".to_string(), serde_json::Value::from(exp));
    let header = jsonwebtoken::Header::default();
    jsonwebtoken::encode(&header, &serde_json::Value::Object(claims), &key).unwrap()
}

/// Relies on jsonwebtoken::decode restricted to the HS256 algorithm: checks
/// the token's format and signature under `secret` (a token under any other
/// algorithm is rejected) and hands back the user_id and exp claims. The
/// expiration is deliberately not compared to a clock here, so the result is
/// a function of the arguments alone; `token_identity` states how the caller
/// checks it.
#[verifier::external_body]
pub(crate) fn decode_token(secret: &str, token: &str) -> (r: Option<(i32, i64)>)
    ensures
        r == jwt_claims(secret@, token@),
{
    let key = jsonwebtoken::DecodingKey::from_secret(secret.as_bytes());
    let mut validation = jsonwebtoken::Validation::default();
    validation.validate_exp = false;
    validation.required_spec_claims = std::collections::HashSet::new();
    let data = match jsonwebtoken::decode::<serde_json::Value>(token, &key, &validation) {
        Ok(d) => d,
        Err(_) => return None,
    };
    let user_id = data.claims.get("user_id").and_then(|v| v.as_i64())?;
    let exp = data.claims.get("exp").and_then(|v| v.as_i64())?;
    Some((i32::try_from(user_id).ok()?, exp))
}

/// The identity a token proves at instant `now`: the subject of validly
/// signed claims whose expiration lies strictly in the future.
pub open spec fn token_identity(secret: Seq<char>, token: Seq<char>, now: i64) -> Option<i32> {
    match jwt_claims(secret, token) {
        Some((user_id, exp)) => if exp > now {
            Some(user_id)
        } else {
            None
        },
        None => None,
    }
}

/// Whether the authorization header carries the expected `Token ` scheme.
pub open spec fn header_has_scheme(header: Seq<char>) -> bool {
    header.len() >= 6 && header.subrange(0, 6) == "Token "@
}

/// The credential part of the header, after the scheme prefix.
pub open spec fn header_token(header: Seq<char>) -> Seq<char> {
    header.subrange(6, header.len() as int)
}

impl AuthUser {
    /// Issues a signed token for this identity, with expiration
    /// `now + JWT_EXPIRES_IN`. The token proves this identity at every
    /// instant before its expiration and at none from the expiration on.
    pub fn to_jwt(&self, ctx: &AppContext, now: i64) -> (r: String)
        requires
            now + JWT_EXPIRES_IN <= i64::MAX,
        ensures
            r@ == jwt_token(ctx.config.jwt.secret@, self.user_id, (now + JWT_EXPIRES_IN) as i64),
            forall|t: i64|
                token_identity(ctx.config.jwt.secret@, r@, t) == (if t < now + JWT_EXPIRES_IN {
                    Some(self.user_id)
                } else {
                    None::<i32>
                }),
    {
        let exp = now + JWT_EXPIRES_IN;
        encode_token(ctx.config.jwt.secret.as_str(), self.user_id, exp)
    }

    /// Validates an authorization header at instant `now`: the scheme must
    /// be `Token ` and the remainder must prove an identity. Every failure
    /// collapses to `Unauthorized`.
    pub fn from_authorization(ctx: &AppContext, header: &str, now: i64) -> (r: Result<
        AuthUser,
        AppError,
    >)
        ensures
            match r {
                Ok(au) => header_has_scheme(header@) && token_identity(
                    ctx.config.jwt.secret@,
                    header_token(header@),
                    now,
                ) == Some(au.user_id),
                Err(e) => e is Unauthorized && (!header_has_scheme(header@) || token_identity(
                    ctx.config.jwt.secret@,
                    header_token(header@),
                    now,
                ) is None),
            },
            (r is Ok) == (header_has_scheme(header@) && token_identity(
                ctx.config.jwt.secret@,
                header_token(header@),
                now,
            ) is Some),
    {
        let len = header.unicode_len();
        proof {
            reveal_strlit("Token ");
        }
        if len < 6 {
            return Err(AppError::Unauthorized(
                "Authorization header is using the wrong scheme".to_owned(),
            ));
        }
        let scheme_ok = header.get_char(0) == 'T' && header.get_char(1) == 'o' && header.get_char(
            2,
        ) == 'k' && header.get_char(3) == 'e' && header.get_char(4) == 'n' && header.get_char(5)
            == ' ';
        proof {
            assert(header@.subrange(0, 6)[0] == header@[0]);
            assert(header@.subrange(0, 6)[1] == header@[1]);
            assert(header@.subrange(0, 6)[2] == header@[2]);
            assert(header@.subrange(0, 6)[3] == header@[3]);
            assert(header@.subrange(0, 6)[4] == header@[4]);
            assert(header@.subrange(0, 6)[5] == header@[5]);
            if scheme_ok {
                assert(header@.subrange(0, 6) =~= "Token "@);
            }
        }
        if !scheme_ok {
            return Err(AppError::Unauthorized(
                "Authorization header is using the wrong scheme".to_owned(),
            ));
        }
        let token = header.substring_char(6, len);
        match decode_token(ctx.config.jwt.secret.as_str(), token) {
            Some((user_id, exp)) => {
                if exp > now {
                    Ok(AuthUser { user_id })
                } else {
                    Err(AppError::Unauthorized("JWT is expired".to_owned()))
                }
            },
            None => Err(AppError::Unauthorized("JWT validation failed".to_owned())),
        }
    }
}

/// Resolves the identity a request must carry: a missing header, a wrong
/// scheme and an invalid token all collapse to `Unauthorized`.
pub fn resolve_required(ctx: &AppContext, header: Option<&str>, now: i64) -> (r: Result<
    AuthUser,
    AppError,
>)
    ensures
        match r {
            Ok(au) => header matches Some(h) && header_has_scheme(h@) && token_identity(
                ctx.config.jwt.secret@,
                header_token(h@),
                now,
            ) == Some(au.user_id),
            Err(e) => e is Unauthorized,
        },
        (r is Ok) == (header matches Some(h) && header_has_scheme(h@) && token_identity(
            ctx.config.jwt.secret@,
            header_token(h@),
            now,
        ) is Some),
{
    match header {
        Some(h) => AuthUser::from_authorization(ctx, h, now),
        None => Err(AppError::Unauthorized("Missing Authorization header".to_owned())),
    }
}

/// Resolves the identity a request may carry: a missing header yields no
/// identity, but a present and invalid credential is still a failure, never
/// silently downgraded to anonymous.
pub fn resolve_optional(ctx: &AppContext, header: Option<&str>, now: i64) -> (r: Result<
    OptionalAuthUser,
    AppError,
>)
    ensures
        match r {
            Ok(o) => match header {
                None => o.0 is None,
                Some(h) => o.0 matches Some(au) && header_has_scheme(h@) && token_identity(
                    ctx.config.jwt.secret@,
                    header_token(h@),
                    now,
                ) == Some(au.user_id),
            },
            Err(e) => e is Unauthorized && (header matches Some(h) && (!header_has_scheme(h@)
                || token_identity(ctx.config.jwt.secret@, header_token(h@), now) is None)),
        },
        (r is Ok) == (header is None || (header matches Some(h) && header_has_scheme(h@)
            && token_identity(ctx.config.jwt.secret@, header_token(h@), now) is Some)),
{
    match header {
        Some(h) => match AuthUser::from_authorization(ctx, h, now) {
            Ok(au) => Ok(OptionalAuthUser(Some(au))),
            Err(e) => Err(e),
        },
        None => Ok(OptionalAuthUser(None)),
    }
}

} // verus!

