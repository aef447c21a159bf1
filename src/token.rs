use vstd::prelude::*;

use crate::claims::{claims_json, json_claims, Claims, ClaimsView};
use crate::error::AuthError;

verus! {

/// How long an issued token stays valid: 24 hours, in seconds.
pub const TOKEN_LIFETIME_SECS: u64 = 86400;

#[verifier::external_type_specification]
#[verifier::external_body]
pub struct ExJwtError(jsonwebtoken::errors::Error);

/// The token that jsonwebtoken writes for the JSON payload `payload` under the HMAC secret
/// `secret`, with the default header.
pub uninterp spec fn jwt_signed(payload: Seq<char>, secret: Seq<u8>) -> Seq<char>;

/// The JSON payload text that jsonwebtoken accepts from `token` under the HMAC secret `secret`,
/// expiry left aside; `None` where the token is rejected.
pub uninterp spec fn jwt_payload(token: Seq<char>, secret: Seq<u8>) -> Option<Seq<char>>;

/// Relies on `jsonwebtoken::encode` with `Header::default()` (HS256) and
/// `EncodingKey::from_secret`, the payload passed through as raw JSON text: HMAC signing is
/// deterministic, so the token depends on the payload and the secret alone. With an HMAC key
/// and an HS256 header `encode` cannot fail; `RawValue::from_string` fails only on text that is
/// not JSON, and claims text always is JSON.
#[verifier::external_body]
fn sign_payload(payload: String, secret: &[u8]) -> (r: Result<String, jsonwebtoken::errors::Error>)
    ensures
        r is Ok ==> r->Ok_0@ == jwt_signed(payload@, secret@),
        forall|c: ClaimsView| #[trigger] claims_json(c) == payload@ ==> r is Ok,
{
    let raw = serde_json::value::RawValue::from_string(payload)?;
    let key = jsonwebtoken::EncodingKey::from_secret(secret);
    jsonwebtoken::encode(&jsonwebtoken::Header::default(), &raw, &key)
}

/// Relies on `jsonwebtoken::decode` with `DecodingKey::from_secret` and HS256 validation whose
/// expiry check is off (expiry is decided by `claims_at`), the claims taken as raw JSON text.
/// A token that `encode` signed over a claims payload with the same secret verifies, and its
/// payload comes back as it was written.
#[verifier::external_body]
fn verify_signature(token: &str, secret: &[u8]) -> (r: Result<String, jsonwebtoken::errors::Error>)
    ensures
        r is Ok <==> jwt_payload(token@, secret@) is Some,
        r is Ok ==> r->Ok_0@ == jwt_payload(token@, secret@)->Some_0,
        forall|c: ClaimsView| #[trigger]
            jwt_signed(claims_json(c), secret@) == token@ ==> r is Ok && r->Ok_0@ == claims_json(
                c,
            ),
{
    let mut validation = jsonwebtoken::Validation::new(jsonwebtoken::Algorithm::HS256);
    validation.validate_exp = false;
    let key = jsonwebtoken::DecodingKey::from_secret(secret);
    let data = jsonwebtoken::decode::<Box<serde_json::value::RawValue>>(token, &key, &validation)?;
    Ok(data.claims.get().to_string())
}

/// Relies on `chrono::Utc::now`: the current instant, in whole seconds since the Unix epoch;
/// `Utc::now` panics on a clock set before the epoch, so the value is never negative.
#[verifier::external_body]
pub(crate) fn now_timestamp() -> (r: i64)
    ensures
        r >= 0,
{
    chrono::Utc::now().timestamp()
}

/// What a token's payload text grants at instant `now` (seconds since the Unix epoch): the
/// claims it holds, valid only while `now` is strictly before their expiry.
pub open spec fn claims_at(payload: Seq<char>, now: i64) -> Result<ClaimsView, AuthError> {
    match json_claims(payload) {
        None => Err(AuthError::InvalidToken),
        Some(c) => valid_at(c, now),
    }
}

/// Claims are granted while `now` is strictly before their expiry.
pub open spec fn valid_at(c: ClaimsView, now: i64) -> Result<ClaimsView, AuthError> {
    if (now as int) < (c.exp as int) {
        Ok(c)
    } else {
        Err(AuthError::InvalidToken)
    }
}

/// What decoding `token` under `secret` at instant `now` gives.
pub open spec fn decoded(token: Seq<char>, secret: Seq<u8>, now: i64) -> Result<
    ClaimsView,
    AuthError,
> {
    match jwt_payload(token, secret) {
        None => Err(AuthError::InvalidToken),
        Some(p) => claims_at(p, now),
    }
}

pub open spec fn claims_result_view(r: Result<Claims, AuthError>) -> Result<ClaimsView, AuthError> {
    match r {
        Ok(c) => Ok(c@),
        Err(e) => Err(e),
    }
}

/// The claims that a verified payload grants at `now`.
pub fn claims_from_payload(payload: &str, now: i64) -> (r: Result<Claims, AuthError>)
    ensures
        claims_result_view(r) == claims_at(payload@, now),
        forall|c: ClaimsView| #[trigger]
            claims_json(c) == payload@ ==> claims_result_view(r) == valid_at(c, now),
{
    match Claims::from_json(payload) {
        None => Err(AuthError::InvalidToken),
        Some(c) => {
            if (now as i128) < (c.exp as i128) {
                Ok(c)
            } else {
                Err(AuthError::InvalidToken)
            }
        },
    }
}

/// Signs `claims` under `secret` into a token.
pub fn encode(claims: &Claims, secret: &[u8]) -> (r: Result<String, AuthError>)
    ensures
        r is Ok,
        r is Ok ==> r->Ok_0@ == jwt_signed(claims_json(claims@), secret@),
{
    match sign_payload(claims.to_json(), secret) {
        Ok(token) => Ok(token),
        Err(_) => Err(AuthError::EncodingFailure),
    }
}

/// Checks `token`'s signature under `secret` and its expiry at `now`, and gives its claims.
/// A token that `encode` made for some claims under the same secret gives back exactly those
/// claims while `now` is strictly before their expiry, and `InvalidToken` from then on.
pub fn decode(token: &str, secret: &[u8], now: i64) -> (r: Result<Claims, AuthError>)
    ensures
        claims_result_view(r) == decoded(token@, secret@, now),
        r is Err ==> r->Err_0 == AuthError::InvalidToken,
        forall|c: ClaimsView| #[trigger]
            jwt_signed(claims_json(c), secret@) == token@ ==> claims_result_view(r) == valid_at(
                c,
                now,
            ),
{
    match verify_signature(token, secret) {
        Err(_) => Err(AuthError::InvalidToken),
        Ok(payload) => claims_from_payload(payload.as_str(), now),
    }
}

/// Claims are valid one second before their expiry, and invalid at that second and one second
/// after; with `decode`'s contract this fixes what a token signed over them decodes to there.
pub proof fn lemma_expiry_boundary(c: ClaimsView)
    requires
        1 <= c.exp < i64::MAX,
    ensures
        valid_at(c, (c.exp - 1) as i64) == Ok::<ClaimsView, AuthError>(c),
        valid_at(c, c.exp as i64) == Err::<ClaimsView, AuthError>(AuthError::InvalidToken),
        valid_at(c, (c.exp + 1) as i64) == Err::<ClaimsView, AuthError>(AuthError::InvalidToken),
{
}

/// The expiry of a token issued at `now`, or `None` where it falls outside the `u64` range.
pub fn expiry_after(now: i64) -> (r: Option<u64>)
    ensures
        r is Some <==> 0 <= now + TOKEN_LIFETIME_SECS <= u64::MAX,
        r is Some ==> r->Some_0 == now + TOKEN_LIFETIME_SECS,
{
    if now < -(TOKEN_LIFETIME_SECS as i64) {
        None
    } else {
        Some((now as i128 + TOKEN_LIFETIME_SECS as i128) as u64)
    }
}

} // verus!
