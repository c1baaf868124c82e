//! Token codec: signed, expiring session claims.
//!
//! A session token embeds the subject's id, username, token-version
//! snapshot and an absolute expiry instant, signed with a process-wide
//! secret. Encoding is deterministic in the claims and the secret, named
//! [`jwt_of`]; the claims a token carries under a secret are a function of
//! the two, named [`jwt_claims`], which is `None` when the signature or the
//! payload is bad. Only the expiry check depends on the clock, so decoding
//! is specified up to the choice between success and [`TokenError::Expired`].

use vstd::prelude::*;
use vstd::string::StrSliceExecFns;
use jsonwebtoken::{decode, encode, DecodingKey, EncodingKey, Header, Validation};
use jsonwebtoken::errors::ErrorKind;
use serde_json::Value;
use uuid::Uuid;
use crate::errors::TokenError;

verus! {

/// The session claims carried by a token: subject user id, username,
/// token-version snapshot, absolute expiry (seconds since the epoch).
pub struct Claims {
    pub sub: u128,
    pub username: String,
    pub token_version: i32,
    pub exp: i64,
}

impl Claims {
    /// The claims as plain spec values, in field order.
    pub open spec fn view(&self) -> (u128, Seq<char>, i32, i64) {
        (self.sub, self.username@, self.token_version, self.exp)
    }
}

/// What `jsonwebtoken::encode` returns for these claims under this secret:
/// deterministic, since the payload is a sorted-key JSON object and the
/// HS256 signature is a function of payload and key.
pub uninterp spec fn jwt_of(
    sub: u128,
    username: Seq<char>,
    token_version: i32,
    exp: i64,
    secret: Seq<char>,
) -> Seq<char>;

/// The claims object `token` carries under `secret`, as canonical JSON
/// text: what `jsonwebtoken::decode` recovers once its signature and
/// payload checks pass, `None` when they fail. A function of token and
/// secret alone; the expiry comparison against the clock is deliberately
/// not part of it.
pub uninterp spec fn jwt_payload(token: Seq<char>, secret: Seq<char>) -> Option<Seq<char>>;

/// The session claims a JSON claims object holds, `None` when a field is
/// missing or ill-typed: what claim extraction computes from the text.
pub uninterp spec fn claims_of_json(json: Seq<char>) -> Option<(u128, Seq<char>, i32, i64)>;

/// The claims `token` carries under `secret`: the payload's fields, when
/// both the signature check and the extraction go through.
pub open spec fn jwt_claims(token: Seq<char>, secret: Seq<char>) -> Option<
    (u128, Seq<char>, i32, i64),
> {
    match jwt_payload(token, secret) {
        Some(p) => claims_of_json(p),
        None => None,
    }
}

/// Encodes claims into a signed token.
///
/// Relies on `jsonwebtoken::encode` with an HS256 key from the secret: the
/// token is a function of claims and secret, and `jsonwebtoken::decode`
/// with the same secret recovers exactly these claims (the crate's
/// documented round trip). The subject id travels as its UUID string form.
/// Encoding with an HMAC key cannot fail. The expiry must be nonnegative:
/// the decoder reads `exp` as an unsigned number, so a negative value
/// would count as missing and the round trip would not hold of it.
#[verifier::external_body]
fn jwt_encode(sub: u128, username: &str, token_version: i32, exp: i64, secret: &str) -> (r:
    String)
    requires
        0 <= exp,
    ensures
        r@ == jwt_of(sub, username@, token_version, exp, secret@),
        jwt_claims(r@, secret@) == Some((sub, username@, token_version, exp)),
{
    let mut m = serde_json::Map::new();
    m.insert("sub".to_string(), Value::String(Uuid::from_u128(sub).to_string()));
    m.insert("username".to_string(), Value::String(username.to_string()));
    m.insert("token_version".to_string(), Value::from(token_version));
    m.insert("exp".to_string(), Value::from(exp));
    encode(&Header::default(), &Value::Object(m), &EncodingKey::from_secret(secret.as_bytes()))
        .expect("HS256 encoding of a JSON object cannot fail")
}

/// What a decode call reports: a success carries exactly the claims the
/// token holds under the secret; `Invalid` means it holds none; `Expired`
/// is reserved for a well-signed token with a readable claims object,
/// whose expiry alone the clock overtook.
pub open spec fn decode_outcome(
    token: Seq<char>,
    secret: Seq<char>,
    r: Result<Claims, TokenError>,
) -> bool {
    match r {
        Ok(c) => jwt_claims(token, secret) == Some(c@),
        Err(TokenError::Expired) => jwt_payload(token, secret) is Some,
        Err(TokenError::Invalid) => jwt_claims(token, secret) is None,
    }
}

/// A token was issued for these claims under this secret: it is the
/// encoder's output and carries exactly those claims.
pub open spec fn token_for(
    t: Seq<char>,
    secret: Seq<char>,
    sub: u128,
    username: Seq<char>,
    token_version: i32,
    exp: i64,
) -> bool {
    &&& t == jwt_of(sub, username, token_version, exp, secret)
    &&& jwt_claims(t, secret) == Some((sub, username, token_version, exp))
}

/// A token was issued for these claims at some clock reading `now`, with
/// the embedded expiry equal to that reading plus the TTL: the absolute
/// expiry a fresh token must carry.
pub open spec fn token_issued_now(
    t: Seq<char>,
    secret: Seq<char>,
    sub: u128,
    username: Seq<char>,
    token_version: i32,
    ttl: i64,
) -> bool {
    exists|now: int|
        0 <= now && #[trigger] token_for(
            t,
            secret,
            sub,
            username,
            token_version,
            expiry_at(now, ttl as int) as i64,
        )
}

/// Checks a token's signature and expiry and hands back its claims
/// object as canonical JSON text.
///
/// Relies on `jsonwebtoken::decode` validating HS256 signature, required
/// expiry (checked with leeway) and nothing else: the audience check is
/// switched off, since with it a well-signed token carrying an audience
/// claim would be rejected before its expiry but reported expired after
/// it, making the invalid verdict clock-dependent; no audience, issuer,
/// subject or not-before rule is configured, so the only clock-dependent
/// outcome is expiry. A successful decode returns the claims object the
/// token carries, printed with sorted keys, so the text is a function of
/// token and secret; every failure other than expiry (bad signature, bad
/// payload, missing expiry) is a function of the two as well; the expiry
/// comparison runs only after those checks pass, so an expiry failure
/// means the token does carry a claims object.
#[verifier::external_body]
fn jwt_decode_raw(token: &str, secret: &str) -> (r: Result<String, TokenError>)
    ensures
        match r {
            Ok(p) => jwt_payload(token@, secret@) == Some(p@),
            Err(TokenError::Expired) => jwt_payload(token@, secret@) is Some,
            Err(TokenError::Invalid) => jwt_payload(token@, secret@) is None,
        },
{
    let key = DecodingKey::from_secret(secret.as_bytes());
    let mut validation = Validation::default();
    validation.validate_aud = false;
    match decode::<Value>(token, &key, &validation) {
        Ok(d) => Ok(d.claims.to_string()),
        Err(e) => Err(match e.kind() {
            ErrorKind::ExpiredSignature => TokenError::Expired,
            _ => TokenError::Invalid,
        }),
    }
}

/// Extracts the session claims from a JSON claims object.
///
/// Relies on `serde_json::from_str` and `serde_json::Value`'s accessors,
/// with `uuid::Uuid::parse_str` for the subject: the outcome is a
/// function of the text alone, and `None` whenever a field is missing or
/// ill-typed.
#[verifier::external_body]
fn parse_claims(json: &str) -> (r: Option<Claims>)
    ensures
        claims_of_json(json@) == match r {
            Some(c) => Some(c@),
            None => None,
        },
{
    let v: Value = serde_json::from_str(json).ok()?;
    let sub = v.get("sub").and_then(|x| x.as_str()).and_then(|s| Uuid::parse_str(s).ok())?;
    let username = v.get("username").and_then(|x| x.as_str())?.to_string();
    let tv = v.get("token_version").and_then(|x| x.as_i64()).and_then(|t| i32::try_from(t).ok())?;
    let exp = v.get("exp").and_then(|x| x.as_i64())?;
    Some(Claims { sub: sub.as_u128(), username, token_version: tv, exp })
}

/// The current instant, in seconds since the epoch.
///
/// Relies on `chrono::Utc::now().timestamp()`: the current date lies after
/// the epoch, so the reading is nonnegative.
#[verifier::external_body]
pub(crate) fn now_timestamp() -> (r: i64)
    ensures
        0 <= r,
{
    chrono::Utc::now().timestamp()
}

/// The expiry instant for a token issued now: the clock reading plus the
/// TTL, saturated at the top of the representable range and clamped below
/// at the epoch, since a token's expiry claim cannot be negative.
pub fn current_expiry(expire_seconds: i64) -> (r: i64)
    ensures
        0 <= r,
        exists|now: i64| 0 <= now && r == #[trigger] expiry_at(now as int, expire_seconds as int),
{
    let now = now_timestamp();
    let s: i64 = if expire_seconds >= 0 {
        if now <= i64::MAX - expire_seconds {
            now + expire_seconds
        } else {
            i64::MAX
        }
    } else {
        if now >= i64::MIN - expire_seconds {
            now + expire_seconds
        } else {
            i64::MIN
        }
    };
    let r: i64 = if s < 0 {
        0
    } else {
        s
    };
    proof {
        assert(r == expiry_at(now as int, expire_seconds as int));
    }
    r
}

/// The expiry for a token issued at `now` with the given TTL: their sum
/// on the range of `i64`, never below zero.
pub open spec fn expiry_at(now: int, ttl: int) -> int {
    if saturating_add_i64(now, ttl) < 0 {
        0
    } else {
        saturating_add_i64(now, ttl)
    }
}

/// Saturating addition on the range of `i64`.
pub open spec fn saturating_add_i64(a: int, b: int) -> int {
    if a + b > i64::MAX {
        i64::MAX as int
    } else if a + b < i64::MIN {
        i64::MIN as int
    } else {
        a + b
    }
}

/// Issues a token for the given subject with an explicit, nonnegative
/// expiry instant.
pub fn issue_jwt(sub: u128, username: &str, token_version: i32, exp: i64, secret: &str) -> (r:
    String)
    requires
        0 <= exp,
    ensures
        r@ == jwt_of(sub, username@, token_version, exp, secret@),
        jwt_claims(r@, secret@) == Some((sub, username@, token_version, exp)),
{
    jwt_encode(sub, username, token_version, exp, secret)
}

/// Decodes a token under the secret. On success the returned claims are
/// exactly the ones the token carries; `Invalid` means the token carries
/// none under this secret; `Expired` is reported only of a well-signed
/// token whose expiry alone the clock has overtaken.
pub fn decode_jwt(token: &str, secret: &str) -> (r: Result<Claims, TokenError>)
    ensures
        decode_outcome(token@, secret@, r),
{
    let payload = match jwt_decode_raw(token, secret) {
        Ok(p) => p,
        Err(e) => {
            return Err(e);
        },
    };
    match parse_claims(payload.as_str()) {
        Some(c) => Ok(c),
        None => Err(TokenError::Invalid),
    }
}

/// Whether the value starts with the bearer scheme's `"Bearer "` prefix.
pub open spec fn has_bearer_prefix(s: Seq<char>) -> bool {
    s.len() >= 7 && s.subrange(0, 7) == "Bearer "@
}

/// The value with its leading run of `"Bearer "` prefixes removed.
pub open spec fn strip_bearer_runs(s: Seq<char>) -> Seq<char>
    decreases s.len(),
{
    if has_bearer_prefix(s) {
        strip_bearer_runs(s.skip(7))
    } else {
        s
    }
}

/// Strips the bearer scheme from an authorization header value: returns
/// what follows the leading run of `"Bearer "` prefixes (every repetition
/// of the prefix is removed), `None` when the value does not start with
/// that prefix.
pub fn extract_bearer_token(header_value: &str) -> (r: Option<String>)
    ensures
        match r {
            Some(t) => has_bearer_prefix(header_value@) && t@ == strip_bearer_runs(
                header_value@,
            ),
            None => !has_bearer_prefix(header_value@),
        },
{
    proof {
        reveal_strlit("Bearer ");
    }
    let mut n = header_value.unicode_len();
    if n < 7 || !str_eq_bearer(header_value.substring_char(0, 7)) {
        return None;
    }
    let mut rest: &str = header_value;
    let mut has_prefix: bool = true;
    while has_prefix
        invariant
            n == rest@.len(),
            has_prefix == has_bearer_prefix(rest@),
            strip_bearer_runs(rest@) == strip_bearer_runs(header_value@),
        decreases n,
    {
        let stripped = rest.substring_char(7, n);
        proof {
            assert(stripped@ =~= rest@.skip(7));
            assert(strip_bearer_runs(rest@) == strip_bearer_runs(stripped@));
        }
        rest = stripped;
        n = n - 7;
        has_prefix = n >= 7 && str_eq_bearer(rest.substring_char(0, 7));
    }
    let token = rest.to_owned();
    proof {
        assert(strip_bearer_runs(rest@) == rest@);
    }
    Some(token)
}

/// Whether a seven-character string is exactly `"Bearer "`.
fn str_eq_bearer(s: &str) -> (r: bool)
    requires
        s@.len() == 7,
    ensures
        r == (s@ == "Bearer "@),
{
    proof {
        reveal_strlit("Bearer ");
    }
    let r = s.get_char(0) == 'B' && s.get_char(1) == 'e' && s.get_char(2) == 'a' && s.get_char(3)
        == 'r' && s.get_char(4) == 'e' && s.get_char(5) == 'r' && s.get_char(6) == ' ';
    proof {
        if r {
            assert(s@ =~= "Bearer "@);
        }
    }
    r
}

/// Round trip: decoding a token issued for given claims under the same
/// secret yields exactly those claims; the only other outcome is the
/// clock's expiry verdict, never another error and never other claims.
pub proof fn lemma_token_round_trip(
    t: Seq<char>,
    secret: Seq<char>,
    sub: u128,
    username: Seq<char>,
    token_version: i32,
    exp: i64,
    r: Result<Claims, TokenError>,
)
    requires
        token_for(t, secret, sub, username, token_version, exp),
        decode_outcome(t, secret, r),
    ensures
        r matches Ok(c) ==> c@ == (sub, username, token_version, exp),
        r matches Err(e) ==> e == TokenError::Expired,
{
}

} // verus!
