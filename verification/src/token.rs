//! Checking a request's token: its bearer header, its signature and its
//! expiry. What is handed on is the claims text that the token carries.
use vstd::prelude::*;
use vstd::utf8::encode_utf8;
use crate::auth::{
    claims_json_text, ascii_text, bearer_prefix, bearer_token, extract_token_from_headers, header_bytes,
    hs256_payload, is_jwt_char, is_visible_ascii, issued_claims_text, jwt_text,
    lemma_bearer_roundtrip, subject_id,
};
use crate::errors::AppError;
use crate::ids::{lemma_uuid_roundtrip, uuid_hyphenated};

verus! {

/// The JSON of claims, as `claims_json` writes them, that expire at the
/// largest `u64`, a time no clock reading passes.
pub open spec fn never_expiring_claims(c: Seq<char>) -> bool {
    exists|sub: Seq<char>, exp: usize, iat: usize|
        exp as int == 0xFFFF_FFFF_FFFF_FFFF && c == #[trigger] claims_json_text(sub, exp, iat)
}

/// `jsonwebtoken::decode` with `DecodingKey::from_secret(secret)` and
/// `Validation::default()` (HS256, `exp` required and checked against the
/// clock with 60 seconds of leeway), the claims taken as raw JSON
/// (`serde_json::value::RawValue`), which keeps their text as it was signed.
///
/// Claims that a claims text comes back only where the token's HS256
/// signature verifies with this secret, and that it is the text the token
/// carries (`verify_signature` runs before the claims are read). Where the
/// signature verifies over claims that expire at the largest `u64`, the text
/// always comes back: `validate` then finds `exp` present, no audience to
/// check, and `exp < now - leeway` false at every clock reading. For other
/// tokens whose signature verifies it does not say when nothing comes back:
/// that is where they have expired, which depends on the clock. Like
/// `jsonwebtoken`, it panics where the system clock is before the Unix epoch.
#[verifier::external_body]
fn jwt_decode_hs256(token: &str, secret: &[u8]) -> (r: Option<String>)
    ensures
        r matches Some(t) ==> hs256_payload(token@, secret@) == Some(t@),
        hs256_payload(token@, secret@) matches Some(c) ==> (never_expiring_claims(c) ==> r is Some
            && r->Some_0@ == c),
{
    let key = jsonwebtoken::DecodingKey::from_secret(secret);
    let validation = jsonwebtoken::Validation::default();
    match jsonwebtoken::decode::<Box<serde_json::value::RawValue>>(token, &key, &validation) {
        Ok(data) => Some(data.claims.get().to_string()),
        Err(_) => None,
    }
}

/// What the check of a request's credentials answers, for the bytes of its
/// `Authorization` header and the signing secret: the header's own refusal;
/// else `InvalidToken`, or the claims text of a token whose signature
/// verifies with the secret. A token whose signature does not verify (signed
/// with another secret, or altered) is refused with `InvalidToken`; one whose
/// signature verifies over claims that never expire is accepted.
pub open spec fn authenticated(
    header: Option<Seq<u8>>,
    secret: Seq<char>,
    r: Result<String, AppError>,
) -> bool {
    match bearer_token(header) {
        Err(e) => r == Err::<String, AppError>(e),
        Ok(t) => {
            &&& (r is Ok || r == Err::<String, AppError>(AppError::InvalidToken))
            &&& r matches Ok(c) ==> hs256_payload(t, encode_utf8(secret)) == Some(c@)
            &&& hs256_payload(t, encode_utf8(secret)) is None ==> r == Err::<String, AppError>(
                AppError::InvalidToken,
            )
            &&& (hs256_payload(t, encode_utf8(secret)) matches Some(c) ==> (never_expiring_claims(c)
                ==> r is Ok && r->Ok_0@ == c))
        },
    }
}

/// Checks the credentials of a request: reads the bearer token of its
/// `Authorization` header (`None` when it has none), checks its signature
/// and expiry, and hands on the claims text it carries.
pub fn authenticate(authorization: Option<&[u8]>, secret: &str) -> (r: Result<String, AppError>)
    ensures
        authenticated(header_bytes(authorization), secret@, r),
{
    let token = extract_token_from_headers(authorization)?;
    match jwt_decode_hs256(token.as_str(), secret.as_bytes()) {
        Some(text) => Ok(text),
        None => Err(AppError::InvalidToken),
    }
}

/// A token signed for a user is accepted as that user: sent as
/// `Bearer <token>`, a token whose signature verifies with the secret over
/// the claims issued for `user_id` at `now` for `hours` hours is answered with
/// those claims, whose subject names `user_id`, or refused with
/// `InvalidToken` once it has expired.
pub proof fn lemma_sign_then_accept(
    user_id: u128,
    now: int,
    hours: int,
    secret: Seq<char>,
    token: Seq<u8>,
    r: Result<String, AppError>,
)
    requires
        hs256_payload(ascii_text(token), encode_utf8(secret)) == Some(
            issued_claims_text(user_id, now, hours),
        ),
        jwt_text(ascii_text(token)),
        authenticated(Some(bearer_prefix() + token), secret, r),
    ensures
        r == Err::<String, AppError>(AppError::InvalidToken) || (r matches Ok(c) && c@
            == issued_claims_text(user_id, now, hours)),
        subject_id(uuid_hyphenated(user_id)) == Ok::<u128, AppError>(user_id),
{
    assert forall|i: int| 0 <= i < token.len() implies is_visible_ascii(#[trigger] token[i]) by {
        let c = ascii_text(token)[i];
        assert(c == ((token[i] as u32) as char));
        assert(is_jwt_char(c));
    }
    lemma_bearer_roundtrip(token);
    lemma_uuid_roundtrip(user_id);
}

/// A token is accepted exactly on its signature where expiry cannot refuse
/// it: sent as `Bearer <token>`, a token of token characters whose signature
/// verifies with the secret over claims that never expire is answered with
/// those claims, whatever the secret, the subject and the issue time.
pub proof fn lemma_valid_signature_accepted(
    secret: Seq<char>,
    token: Seq<u8>,
    claims: Seq<char>,
    r: Result<String, AppError>,
)
    requires
        jwt_text(ascii_text(token)),
        hs256_payload(ascii_text(token), encode_utf8(secret)) == Some(claims),
        never_expiring_claims(claims),
        authenticated(Some(bearer_prefix() + token), secret, r),
    ensures
        r matches Ok(x) && x@ == claims,
{
    assert forall|i: int| 0 <= i < token.len() implies is_visible_ascii(#[trigger] token[i]) by {
        let c = ascii_text(token)[i];
        assert(c == ((token[i] as u32) as char));
        assert(is_jwt_char(c));
    }
    lemma_bearer_roundtrip(token);
}

} // verus!
