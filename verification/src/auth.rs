//! Bearer tokens: reading them from the `Authorization` header, the claims
//! they carry, and signing new ones.
use vstd::prelude::*;
use vstd::utf8::encode_utf8;
use crate::config::Settings;
use crate::errors::{status_of, AppError};
use crate::ids::{hex_char, lemma_uuid_roundtrip, parse_user_id, user_id_string, uuid_from_text, uuid_hyphenated};
use crate::text::{decimal, push_char, push_decimal, push_str, string_of};

verus! {

broadcast use vstd::string::group_string_axioms;

/// The claims of a token.
#[derive(Debug, Clone, PartialEq, Eq)]
pub struct Claims {
    /// Subject: the user's id.
    pub sub: String,
    /// Expiration time (Unix timestamp).
    pub exp: usize,
    /// Issued-at time (Unix timestamp).
    pub iat: usize,
}

/// The caller of an authenticated request.
#[derive(Debug, Clone, PartialEq, Eq)]
pub struct AuthUser {
    pub user_id: u128,
    pub claims: Claims,
}

/// The user id that a token subject names, or the refusal of the token.
pub open spec fn subject_id(sub: Seq<char>) -> Result<u128, AppError> {
    match uuid_from_text(sub) {
        Some(id) => Ok(id),
        None => Err(AppError::InvalidToken),
    }
}

impl Claims {
    /// The user's id, read from the subject.
    pub fn user_id(&self) -> (r: Result<u128, AppError>)
        ensures
            r == subject_id(self.sub@),
    {
        match parse_user_id(self.sub.as_str()) {
            Some(id) => Ok(id),
            None => Err(AppError::InvalidToken),
        }
    }
}

impl AuthUser {
    /// The caller that validated claims name.
    pub fn from_claims(claims: Claims) -> (r: Result<AuthUser, AppError>)
        ensures
            match uuid_from_text(claims.sub@) {
                Some(id) => r == Ok::<AuthUser, AppError>(AuthUser { user_id: id, claims }),
                None => r == Err::<AuthUser, AppError>(AppError::InvalidToken),
            },
    {
        let user_id = claims.user_id()?;
        Ok(AuthUser { user_id, claims })
    }
}

/// A byte that `HeaderValue::to_str` accepts: visible ASCII or a tab.
pub open spec fn is_visible_ascii(b: u8) -> bool {
    (32 <= b && b < 127) || b == 9
}

/// Every byte of a header value is visible ASCII.
pub open spec fn visible_ascii(bs: Seq<u8>) -> bool {
    forall|i: int| 0 <= i < bs.len() ==> is_visible_ascii(#[trigger] bs[i])
}

/// The characters of ASCII bytes.
pub open spec fn ascii_text(bs: Seq<u8>) -> Seq<char> {
    bs.map_values(|b: u8| ((b as u32) as char))
}

/// The bytes of "Bearer ".
pub open spec fn bearer_prefix() -> Seq<u8> {
    seq![66u8, 101u8, 97u8, 114u8, 101u8, 114u8, 32u8]
}

/// The token that an `Authorization` header value carries: the text after
/// "Bearer ", or the error that the service answers.
pub open spec fn bearer_token(header: Option<Seq<u8>>) -> Result<Seq<char>, AppError> {
    match header {
        None => Err(AppError::MissingToken),
        Some(b) => if visible_ascii(b) && b.len() >= 7 && b.take(7) == bearer_prefix() {
            Ok(ascii_text(b.skip(7)))
        } else {
            Err(AppError::InvalidToken)
        },
    }
}

fn ascii_char(b: u8) -> (c: char)
    requires
        b < 128,
    ensures
        c == ((b as u32) as char),
{
    (b as u32) as u8 as char
}

/// The bytes of a header value, if there is one.
pub open spec fn header_bytes(value: Option<&[u8]>) -> Option<Seq<u8>> {
    match value {
        Some(b) => Some(b@),
        None => None,
    }
}

/// Reads the token of an `Authorization` header value (`None` when the
/// request has no such header).
pub fn extract_token_from_headers(authorization: Option<&[u8]>) -> (r: Result<String, AppError>)
    ensures
        match bearer_token(header_bytes(authorization)) {
            Ok(t) => r is Ok && r->Ok_0@ == t,
            Err(e) => r == Err::<String, AppError>(e),
        },
{
    if authorization.is_none() {
        return Err(AppError::MissingToken);
    }
    let bytes = authorization.unwrap();
    let mut i: usize = 0;
    while i < bytes.len()
        invariant
            header_bytes(authorization) == Some(bytes@),
            i <= bytes.len(),
            forall|j: int| 0 <= j < i ==> is_visible_ascii(#[trigger] bytes@[j]),
        decreases bytes.len() - i,
    {
        let b = bytes[i];
        if !((32 <= b && b < 127) || b == 9) {
            assert(!is_visible_ascii(bytes@[i as int]));
            assert(!visible_ascii(bytes@));
            return Err(AppError::InvalidToken);
        }
        i = i + 1;
    }
    if bytes.len() < 7 {
        return Err(AppError::InvalidToken);
    }
    let prefix: [u8; 7] = [66, 101, 97, 114, 101, 114, 32];
    let mut k: usize = 0;
    while k < 7
        invariant
            header_bytes(authorization) == Some(bytes@),
            k <= 7,
            bytes@.len() >= 7,
            prefix@ == bearer_prefix(),
            forall|j: int| 0 <= j < k ==> bytes@[j] == bearer_prefix()[j],
        decreases 7 - k,
    {
        if bytes[k] != prefix[k] {
            assert(bytes@.take(7)[k as int] != bearer_prefix()[k as int]);
            assert(bytes@.take(7) != bearer_prefix());
            return Err(AppError::InvalidToken);
        }
        k = k + 1;
    }
    assert(bytes@.take(7) =~= bearer_prefix());
    let mut token = String::new();
    let mut n: usize = 7;
    while n < bytes.len()
        invariant
            7 <= n <= bytes.len(),
            visible_ascii(bytes@),
            token@ == ascii_text(bytes@.subrange(7, n as int)),
        decreases bytes.len() - n,
    {
        let b = bytes[n];
        assert(is_visible_ascii(bytes@[n as int]));
        push_char(&mut token, ascii_char(b));
        assert(bytes@.subrange(7, n + 1) =~= bytes@.subrange(7, n as int).push(b));
        n = n + 1;
    }
    assert(bytes@.subrange(7, bytes@.len() as int) =~= bytes@.skip(7));
    Ok(token)
}

/// Reading the token back out of a header written as "Bearer <token>" gives
/// the token, for every token of visible ASCII characters.
pub proof fn lemma_bearer_roundtrip(token: Seq<u8>)
    requires
        visible_ascii(token),
    ensures
        bearer_token(Some(bearer_prefix() + token)) == Ok::<Seq<char>, AppError>(
            ascii_text(token),
        ),
{
    let h = bearer_prefix() + token;
    assert(h.take(7) =~= bearer_prefix());
    assert(h.skip(7) =~= token);
    assert forall|i: int| 0 <= i < h.len() implies is_visible_ascii(#[trigger] h[i]) by {
        if i >= 7 {
            assert(h[i] == token[i - 7]);
        }
    }
}

/// Every refusal of a request's credentials is answered with 401
/// Unauthorized: a missing or malformed `Authorization` header, and claims
/// whose subject is not a user id.
pub proof fn lemma_auth_refusals_unauthorized(header: Option<Seq<u8>>, sub: Seq<char>)
    ensures
        bearer_token(header) matches Err(e) ==> status_of(e) == 401,
        subject_id(sub) matches Err(e) ==> status_of(e) == 401,
{
}

/// How `serde_json` writes one character inside a string literal.
pub open spec fn json_escape(c: char) -> Seq<char> {
    if c == '"' {
        seq!['\\', '"']
    } else if c == '\\' {
        seq!['\\', '\\']
    } else if c == '\u{8}' {
        seq!['\\', 'b']
    } else if c == '\u{c}' {
        seq!['\\', 'f']
    } else if c == '\n' {
        seq!['\\', 'n']
    } else if c == '\r' {
        seq!['\\', 'r']
    } else if c == '\t' {
        seq!['\\', 't']
    } else if (c as int) < 0x20 {
        seq![
            '\\',
            'u',
            '0',
            '0',
            hex_char((c as nat) / 16),
            hex_char((c as nat) % 16),
        ]
    } else {
        seq![c]
    }
}

/// The escaped characters of a string.
pub open spec fn json_escaped(s: Seq<char>) -> Seq<char>
    decreases s.len(),
{
    if s.len() == 0 {
        Seq::<char>::empty()
    } else {
        json_escaped(s.drop_last()) + json_escape(s.last())
    }
}

/// The JSON string literal of a text.
pub open spec fn json_quoted(s: Seq<char>) -> Seq<char> {
    seq!['"'] + json_escaped(s) + seq!['"']
}

/// `serde_json::to_string` of a `str`.
///
/// Claims that it never fails and writes the text between double quotes,
/// escaping `"`, `\` and every control character below U+0020 (short forms
/// for backspace, form feed, newline, carriage return and tab, `\u00xx` with
/// lower-case digits for the rest) and leaving every other character as is.
#[verifier::external_body]
fn json_string(s: &str) -> (r: Option<String>)
    ensures
        r is Some,
        r->Some_0@ == json_quoted(s@),
{
    serde_json::to_string(s).ok()
}

/// The JSON text of claims, as `serde_json` writes the struct: its fields
/// in order, without spaces.
pub open spec fn claims_json_text(sub: Seq<char>, exp: usize, iat: usize) -> Seq<char> {
    "{\"sub\":"@ + json_quoted(sub) + ",\"exp\":"@ + decimal(exp as nat) + ",\"iat\":"@ + decimal(
        iat as nat,
    ) + "}"@
}

/// Writes the claims as JSON.
pub fn claims_json(c: &Claims) -> (r: String)
    ensures
        r@ == claims_json_text(c.sub@, c.exp, c.iat),
{
    let quoted = match json_string(c.sub.as_str()) {
        Some(q) => q,
        None => String::new(),
    };
    let mut r = string_of("{\"sub\":");
    push_str(&mut r, quoted.as_str());
    push_str(&mut r, ",\"exp\":");
    push_decimal(&mut r, c.exp as u64);
    push_str(&mut r, ",\"iat\":");
    push_decimal(&mut r, c.iat as u64);
    push_str(&mut r, "}");
    r
}

/// The text is the JSON of some claims, as `claims_json` writes them.
pub open spec fn claims_form(text: Seq<char>) -> bool {
    exists|sub: Seq<char>, exp: usize, iat: usize|
        text == #[trigger] claims_json_text(sub, exp, iat)
}

/// The token that `jsonwebtoken::encode` makes with the default header
/// (HS256) from the JSON text of the claims and the HMAC secret.
pub uninterp spec fn jwt_hs256(claims_json: Seq<char>, secret: Seq<u8>) -> Seq<char>;

/// A character of a token: the URL-safe base64 alphabet and the dots that
/// separate the three parts.
pub open spec fn is_jwt_char(c: char) -> bool {
    ('A' <= c && c <= 'Z') || ('a' <= c && c <= 'z') || ('0' <= c && c <= '9') || c == '-'
        || c == '_' || c == '.'
}

/// Every character of the text is a token character.
pub open spec fn jwt_text(t: Seq<char>) -> bool {
    forall|i: int| 0 <= i < t.len() ==> is_jwt_char(#[trigger] t[i])
}

/// The claims text that a token carries where its HS256 signature verifies
/// with the secret, as `jsonwebtoken::decode` reads it before it looks at the
/// clock: the header names HS256, the HMAC of the first two parts under the
/// secret is the third, and the second part is the URL-safe base64 of a JSON
/// value, whose text this is. `None` for every other token.
pub uninterp spec fn hs256_payload(token: Seq<char>, secret: Seq<u8>) -> Option<Seq<char>>;

/// `jsonwebtoken::encode` with `Header::default()` and
/// `EncodingKey::from_secret(secret)`, the claims handed over as raw JSON
/// (`serde_json::value::RawValue`), which is written out unchanged.
///
/// Claims that a token comes back whenever the claims text is JSON in the
/// form that `claims_json` writes (`RawValue::from_string` accepts every valid
/// JSON text and keeps one without surrounding whitespace as it is, and HS256
/// signing with a secret key cannot fail), that the token is the one named by
/// `jwt_hs256` for these arguments, that it is made of URL-safe base64
/// (without padding) and dots only, and that its signature verifies with the
/// same secret over exactly that claims text.
#[verifier::external_body]
fn jwt_encode_hs256(claims_json: &str, secret: &[u8]) -> (r: Option<String>)
    ensures
        claims_form(claims_json@) ==> r is Some,
        r matches Some(t) ==> t@ == jwt_hs256(claims_json@, secret@) && jwt_text(t@),
        claims_form(claims_json@) ==> (r matches Some(t) ==> hs256_payload(t@, secret@) == Some(
            claims_json@,
        )),
{
    let raw = serde_json::value::RawValue::from_string(claims_json.to_string()).ok()?;
    jsonwebtoken::encode(
        &jsonwebtoken::Header::default(),
        &raw,
        &jsonwebtoken::EncodingKey::from_secret(secret),
    ).ok()
}

/// The earliest Unix timestamp that `chrono::DateTime<Utc>` holds
/// (January 1st of the year -262143).
pub open spec fn min_timestamp() -> int {
    -8_334_601_315_200
}

/// The latest Unix timestamp that `chrono::DateTime<Utc>` holds (the last
/// second of the year 262142).
pub open spec fn max_timestamp() -> int {
    8_210_266_876_799
}

/// `chrono::Utc::now().timestamp()`.
///
/// Claims only what holds at every call: the time is one that `DateTime<Utc>`
/// holds (`Utc::now` panics where the system clock is before the Unix epoch
/// or beyond that range).
#[verifier::external_body]
pub(crate) fn unix_now() -> (r: i64)
    ensures
        min_timestamp() <= r <= max_timestamp(),
{
    chrono::Utc::now().timestamp()
}

/// Whether `chrono` can add `hours` to the time `now`: `TimeDelta::hours`
/// takes no more than `i64::MAX` milliseconds either way, and the sum must
/// stay within what `DateTime<Utc>` holds.
pub open spec fn expiry_in_range(now: int, hours: int) -> bool {
    &&& -9_223_372_036_854_775 <= hours * 3600 <= 9_223_372_036_854_775
    &&& min_timestamp() <= now + hours * 3600 <= max_timestamp()
}

/// The claims of a token issued at `now` for `user_id`, valid for `hours`:
/// the subject is the id's text, `iat` is `now` and `exp` is `now` plus
/// `hours` hours (both as `usize`, as `as` casts them).
pub fn issue_claims(user_id: u128, now: i64, hours: i64) -> (r: Claims)
    requires
        expiry_in_range(now as int, hours as int),
    ensures
        r.sub@ == uuid_hyphenated(user_id),
        r.iat == now as usize,
        r.exp == (now + hours * 3600) as usize,
{
    let expiration: i64 = now + hours * 3600;
    Claims { sub: user_id_string(user_id), exp: expiration as usize, iat: now as usize }
}

/// The subject of claims issued for a user names that user: reading the user
/// id back from claims whose subject is the text of `id` gives `id`, for
/// every id.
pub proof fn lemma_issued_subject(c: Claims, id: u128)
    requires
        c.sub@ == uuid_hyphenated(id),
    ensures
        subject_id(c.sub@) == Ok::<u128, AppError>(id),
{
    lemma_uuid_roundtrip(id);
}

/// The token signed with `secret` for `user_id`, issued at `now` and valid
/// for `hours` hours.
pub open spec fn token_text(user_id: u128, now: int, hours: int, secret: Seq<char>) -> Seq<char> {
    jwt_hs256(
        claims_json_text(uuid_hyphenated(user_id), (now + hours * 3600) as usize, now as usize),
        encode_utf8(secret),
    )
}

/// The JSON of the claims issued for `user_id` at `now`, valid for `hours`.
pub open spec fn issued_claims_text(user_id: u128, now: int, hours: int) -> Seq<char> {
    claims_json_text(uuid_hyphenated(user_id), (now + hours * 3600) as usize, now as usize)
}

/// Signs a token for `user_id`, issued at `now` and valid for the configured
/// number of hours.
pub fn create_token_at(user_id: u128, now: i64, settings: &Settings) -> (r: Result<
    String,
    AppError,
>)
    requires
        expiry_in_range(now as int, settings.jwt.expiration_hours as int),
    ensures
        r is Ok,
        r->Ok_0@ == token_text(
            user_id,
            now as int,
            settings.jwt.expiration_hours as int,
            settings.jwt.secret@,
        ),
        jwt_text(r->Ok_0@),
        hs256_payload(r->Ok_0@, encode_utf8(settings.jwt.secret@)) == Some(
            issued_claims_text(user_id, now as int, settings.jwt.expiration_hours as int),
        ),
{
    let claims = issue_claims(user_id, now, settings.jwt.expiration_hours);
    let text = claims_json(&claims);
    assert(claims_form(text@)) by {
        assert(text@ == claims_json_text(claims.sub@, claims.exp, claims.iat));
    }
    match jwt_encode_hs256(text.as_str(), settings.jwt.secret.as_str().as_bytes()) {
        Some(t) => Ok(t),
        None => Err(AppError::InternalServerError),
    }
}

/// The number of hours that `chrono::TimeDelta::hours` takes: no more than
/// `i64::MAX` milliseconds either way.
pub open spec fn hours_in_range(hours: int) -> bool {
    -2_562_047_788_015 <= hours <= 2_562_047_788_015
}

/// Whether `chrono::TimeDelta::hours` takes `hours` (it panics on any other).
pub fn expiry_hours_supported(hours: i64) -> (r: bool)
    ensures
        r == hours_in_range(hours as int),
{
    -2_562_047_788_015 <= hours && hours <= 2_562_047_788_015
}

/// What signing a token at `now` gives: a token where the expiry is a time
/// that `DateTime<Utc>` holds, and the claims text it carries.
pub open spec fn token_answer(
    user_id: u128,
    now: int,
    settings: Settings,
    r: Option<Result<String, AppError>>,
) -> bool {
    let hours = settings.jwt.expiration_hours as int;
    &&& (r is None <==> !expiry_in_range(now, hours))
    &&& r matches Some(x) ==> {
        &&& x is Ok
        &&& x->Ok_0@ == token_text(user_id, now, hours, settings.jwt.secret@)
        &&& jwt_text(x->Ok_0@)
        &&& hs256_payload(x->Ok_0@, encode_utf8(settings.jwt.secret@)) == Some(
            issued_claims_text(user_id, now, hours),
        )
    }
}

/// Signs a token for `user_id` as issued at the time `now`: `None` exactly
/// where `now` plus the configured hours leaves the range of `DateTime<Utc>`
/// (there the token cannot be made), otherwise the token.
pub fn token_for_time(user_id: u128, now: i64, settings: &Settings) -> (r: Option<
    Result<String, AppError>,
>)
    requires
        min_timestamp() <= now <= max_timestamp(),
        hours_in_range(settings.jwt.expiration_hours as int),
    ensures
        token_answer(user_id, now as int, *settings, r),
{
    let hours = settings.jwt.expiration_hours;
    let expiration: i64 = now + hours * 3600;
    if expiration < -8_334_601_315_200 || expiration > 8_210_266_876_799 {
        return None;
    }
    Some(create_token_at(user_id, now, settings))
}

/// Signs a token for `user_id`, issued at the time the clock reads now: the
/// answer of `token_for_time` for that time.
pub fn create_token(user_id: u128, settings: &Settings) -> (r: Option<Result<String, AppError>>)
    requires
        hours_in_range(settings.jwt.expiration_hours as int),
    ensures
        exists|now: i64|
            min_timestamp() <= now <= max_timestamp() && #[trigger] token_answer(
                user_id,
                now as int,
                *settings,
                r,
            ),
{
    let now = unix_now();
    let r = token_for_time(user_id, now, settings);
    assert(token_answer(user_id, now as int, *settings, r));
    r
}

} // verus!
