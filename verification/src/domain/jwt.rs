//! Session tokens: HS256 JSON Web Tokens with a 24 h lifetime, refreshed
//! silently when less than one hour remains.

use vstd::prelude::*;

use jsonwebtoken::{Algorithm, DecodingKey, EncodingKey, Header, Validation};

use super::user::{role_name, User};
use crate::random::fill_random;
use crate::text::{concat2, string_of};

verus! {

/// Lifetime of a session token, in seconds (24 h).
pub const TOKEN_LIFETIME_SECS: u64 = 86400;

/// A token is refreshed when fewer seconds than this remain (1 h).
pub const REFRESH_WINDOW_SECS: u64 = 3600;

/// Seconds of tolerance after `exp` before a token counts as expired.
pub const EXPIRY_LEEWAY_SECS: u64 = 60;

/// The claims carried by a session token.
#[derive(Debug, Clone)]
pub struct Claims {
    pub sub: String,
    pub email: String,
    pub role: String,
    pub iat: u64,
    pub exp: u64,
}

/// Whether a token expiring at `exp` is to be refreshed at time `now`: fewer
/// than `REFRESH_WINDOW_SECS` seconds remain (or it is already past `exp`).
pub open spec fn refresh_due(exp: u64, now: u64) -> bool {
    exp - now < REFRESH_WINDOW_SECS
}

/// Whether a token expiring at `exp` is rejected as expired at time `now`.
pub open spec fn is_expired(exp: u64, now: u64) -> bool {
    exp + EXPIRY_LEEWAY_SECS < now
}

/// The fields read from the claims of a token whose signature checked out:
/// `sub`, `email` and `role` as text, `iat` and `exp` as numbers, each absent
/// when missing or of another JSON type.
pub type ClaimFields = (Option<String>, Option<String>, Option<String>, Option<u64>, Option<u64>);

/// The same fields, by their views.
pub open spec fn claim_fields_view(f: ClaimFields) -> (Option<Seq<char>>, Option<Seq<char>>, Option<Seq<char>>, Option<u64>, Option<u64>) {
    (
        match f.0 { Some(s) => Some(s@), None => None },
        match f.1 { Some(s) => Some(s@), None => None },
        match f.2 { Some(s) => Some(s@), None => None },
        f.3,
        f.4,
    )
}

/// What `hs256_encode` returns: the HS256 token (default header) of the
/// claims object `{sub, email, role, iat, exp}` signed with `secret`, or the
/// error text.
pub uninterp spec fn hs256_token(sub: Seq<char>, email: Seq<char>, role: Seq<char>, iat: u64, exp: u64, secret: Seq<u8>) -> Result<Seq<char>, Seq<char>>;

/// What `hs256_decode` returns for a token and a secret: the fields read from
/// the claims, or whether the failure was an invalid signature together with
/// the crate's error message.
pub uninterp spec fn hs256_claims(token: Seq<char>, secret: Seq<u8>) -> Result<(Option<Seq<char>>, Option<Seq<char>>, Option<Seq<char>>, Option<u64>, Option<u64>), (bool, Seq<char>)>;

/// Whether decoding `token` with `secret` gives back exactly these claims.
pub open spec fn token_carries(token: Seq<char>, secret: Seq<u8>, sub: Seq<char>, email: Seq<char>, role: Seq<char>, iat: u64, exp: u64) -> bool {
    hs256_claims(token, secret) == Ok::<(Option<Seq<char>>, Option<Seq<char>>, Option<Seq<char>>, Option<u64>, Option<u64>), (bool, Seq<char>)>(
        (Some(sub), Some(email), Some(role), Some(iat), Some(exp)),
    )
}

/// Signs the claims with `jsonwebtoken::encode` (default header, HS256,
/// `EncodingKey::from_secret`), the claims being the JSON object of the five
/// fields. The result is named `hs256_token`. A token signed this way is
/// decoded by `hs256_decode` with the same secret into the same claims (the
/// crate's documented round trip), which the second clause states. Signing
/// never fails here: the key and the default header are both of the HMAC
/// family, serialising a JSON object of strings and integers does not fail,
/// and `crypto::sign` returns `Ok` for HS256; the last clause states it.
#[verifier::external_body]
fn hs256_encode(sub: &str, email: &str, role: &str, iat: u64, exp: u64, secret: &[u8]) -> (r: Result<String, String>)
    ensures
        r is Ok,
        r is Ok ==> hs256_token(sub@, email@, role@, iat, exp, secret@) == Ok::<Seq<char>, Seq<char>>(r->Ok_0@),
        r is Ok ==> token_carries(r->Ok_0@, secret@, sub@, email@, role@, iat, exp),
        r is Err ==> hs256_token(sub@, email@, role@, iat, exp, secret@) == Err::<Seq<char>, Seq<char>>(r->Err_0@),
{
    let mut c = serde_json::Map::new();
    c.insert("sub".into(), sub.into());
    c.insert("email".into(), email.into());
    c.insert("role".into(), role.into());
    c.insert("iat".into(), iat.into());
    c.insert("exp".into(), exp.into());
    jsonwebtoken::encode(&Header::default(), &c, &EncodingKey::from_secret(secret)).map_err(|e| e.to_string())
}

/// Checks the signature of `token` with `jsonwebtoken::decode` (HS256,
/// `DecodingKey::from_secret`, `exp` claim required, expiry not checked here)
/// and reads the claims. A failure gives whether its kind is
/// `ErrorKind::InvalidSignature`, and the error's `Display` text. The result
/// is named `hs256_claims`.
#[verifier::external_body]
fn hs256_decode(token: &str, secret: &[u8]) -> (r: Result<ClaimFields, (bool, String)>)
    ensures
        r is Ok ==> hs256_claims(token@, secret@) == Ok::<(Option<Seq<char>>, Option<Seq<char>>, Option<Seq<char>>, Option<u64>, Option<u64>), (bool, Seq<char>)>(claim_fields_view(r->Ok_0)),
        r is Err ==> hs256_claims(token@, secret@) == Err::<(Option<Seq<char>>, Option<Seq<char>>, Option<Seq<char>>, Option<u64>, Option<u64>), (bool, Seq<char>)>((r->Err_0.0, r->Err_0.1@)),
{
    let mut v = Validation::new(Algorithm::HS256);
    v.validate_exp = false;
    match jsonwebtoken::decode::<serde_json::Map<String, serde_json::Value>>(token, &DecodingKey::from_secret(secret), &v) {
        Ok(d) => {
            let s = |k: &str| d.claims.get(k).and_then(|x| x.as_str()).map(String::from);
            let n = |k: &str| d.claims.get(k).and_then(|x| x.as_u64());
            Ok((s("sub"), s("email"), s("role"), n("iat"), n("exp")))
        },
        Err(e) => match e.kind() {
            jsonwebtoken::errors::ErrorKind::InvalidSignature => Err((true, e.to_string())),
            _ => Err((false, e.to_string())),
        },
    }
}

/// The text of a decoding failure: `INVALID_TOKEN` for an invalid signature,
/// otherwise `INVALID_TOKEN: ` and the crate's message.
pub open spec fn decode_failure_text(invalid_signature: bool, message: Seq<char>) -> Seq<char> {
    if invalid_signature {
        "INVALID_TOKEN"@
    } else {
        "INVALID_TOKEN: "@ + message
    }
}

/// The text of a decoding failure (see `decode_failure_text`).
pub fn decode_failure_message(invalid_signature: bool, message: &str) -> (r: String)
    ensures
        r@ == decode_failure_text(invalid_signature, message@),
{
    if invalid_signature {
        string_of("INVALID_TOKEN")
    } else {
        concat2("INVALID_TOKEN: ", message)
    }
}

/// The current Unix time in seconds (`chrono::Utc::now`, then `timestamp`).
/// It depends on the clock, so nothing is stated of it.
#[verifier::external_body]
fn unix_seconds() -> i64 {
    chrono::Utc::now().timestamp()
}

/// The current Unix time in seconds; 0 for a clock set before 1970. It is a
/// non-negative `i64` reading, so it never exceeds `i64::MAX`.
pub(crate) fn now_epoch() -> (r: u64)
    ensures
        r <= i64::MAX,
{
    let t = unix_seconds();
    if t < 0 {
        0
    } else {
        t as u64
    }
}

impl Claims {
    /// Whether the token is to be refreshed at time `now`.
    pub fn should_refresh_at(&self, now: u64) -> (r: bool)
        ensures
            r == refresh_due(self.exp, now),
    {
        self.exp < now || self.exp - now < REFRESH_WINDOW_SECS
    }

    /// Whether the token is to be refreshed now.
    pub fn should_refresh(&self) -> (r: bool)
        ensures
            exists|now: u64| r == refresh_due(self.exp, now),
    {
        self.should_refresh_at(now_epoch())
    }
}

/// The claims of a session for `user` issued at `now`.
pub fn claims_for(user: &User, now: u64) -> (r: Claims)
    requires
        now + TOKEN_LIFETIME_SECS <= u64::MAX,
    ensures
        r.sub@ == user.id@,
        r.email@ == user.email@,
        r.role@ == role_name(user.role),
        r.iat == now,
        r.exp == now + TOKEN_LIFETIME_SECS,
{
    Claims {
        sub: string_of(user.id.as_str()),
        email: string_of(user.email.as_str()),
        role: string_of(user.role.as_str()),
        iat: now,
        exp: now + TOKEN_LIFETIME_SECS,
    }
}

/// Signs `claims` with `secret`; signing always succeeds.
pub fn sign_claims(claims: &Claims, secret: &[u8]) -> (r: Result<String, String>)
    ensures
        r is Ok,
        r matches Ok(t) ==> hs256_token(claims.sub@, claims.email@, claims.role@, claims.iat, claims.exp, secret@) == Ok::<Seq<char>, Seq<char>>(t@),
        r matches Ok(t) ==> token_carries(t@, secret@, claims.sub@, claims.email@, claims.role@, claims.iat, claims.exp),
{
    match hs256_encode(claims.sub.as_str(), claims.email.as_str(), claims.role.as_str(), claims.iat, claims.exp, secret) {
        Ok(t) => Ok(t),
        Err(e) => Err(concat2("JWT encode failed: ", e.as_str())),
    }
}


/// The claims tuple of a decoded token, by views.
pub type ClaimsView = (Seq<char>, Seq<char>, Seq<char>, u64, u64);

/// What a token's checked fields give at time `now`: all five present and not
/// expired (see `is_expired`) gives the claims; a missing field gives
/// `INVALID_TOKEN: missing claims`; an expired token gives `TOKEN_EXPIRED`.
pub open spec fn claims_outcome(f: (Option<Seq<char>>, Option<Seq<char>>, Option<Seq<char>>, Option<u64>, Option<u64>), now: u64) -> Result<ClaimsView, Seq<char>> {
    match f {
        (Some(sub), Some(email), Some(role), Some(iat), Some(exp)) => if is_expired(exp, now) {
            Err("TOKEN_EXPIRED"@)
        } else {
            Ok((sub, email, role, iat, exp))
        },
        _ => Err("INVALID_TOKEN: missing claims"@),
    }
}

/// What decoding `token` with `secret` at time `now` gives: the claims of a
/// token whose signature checks out, whose claims are complete and which is
/// not expired; otherwise the failure's text (`INVALID_TOKEN` for a wrong
/// signature, `INVALID_TOKEN: ...` for another decoding failure,
/// `INVALID_TOKEN: missing claims`, or `TOKEN_EXPIRED`).
pub open spec fn token_decoding(token: Seq<char>, secret: Seq<u8>, now: u64) -> Result<ClaimsView, Seq<char>> {
    match hs256_claims(token, secret) {
        Ok(f) => claims_outcome(f, now),
        Err(e) => Err(decode_failure_text(e.0, e.1)),
    }
}

/// The view of exec claims as a tuple.
pub open spec fn claims_view(c: Claims) -> ClaimsView {
    (c.sub@, c.email@, c.role@, c.iat, c.exp)
}

/// Turns the fields read from a token with a valid signature into claims,
/// rejecting incomplete claims and tokens expired at `now`.
pub fn claims_from_fields(f: ClaimFields, now: u64) -> (r: Result<Claims, String>)
    ensures
        r matches Ok(c) ==> claims_outcome(claim_fields_view(f), now) == Ok::<ClaimsView, Seq<char>>(claims_view(c)),
        r matches Err(m) ==> claims_outcome(claim_fields_view(f), now) == Err::<ClaimsView, Seq<char>>(m@),
{
    match f {
        (Some(sub), Some(email), Some(role), Some(iat), Some(exp)) => {
            if now >= EXPIRY_LEEWAY_SECS && exp < now - EXPIRY_LEEWAY_SECS {
                Err(string_of("TOKEN_EXPIRED"))
            } else {
                Ok(Claims { sub, email, role, iat, exp })
            }
        },
        _ => Err(string_of("INVALID_TOKEN: missing claims")),
    }
}

/// Verifies `token` with `secret` and returns its claims, as at time `now`.
pub fn decode_token_at(token: &str, secret: &[u8], now: u64) -> (r: Result<Claims, String>)
    ensures
        r matches Ok(c) ==> token_decoding(token@, secret@, now) == Ok::<ClaimsView, Seq<char>>(claims_view(c)),
        r matches Err(m) ==> token_decoding(token@, secret@, now) == Err::<ClaimsView, Seq<char>>(m@),
{
    match hs256_decode(token, secret) {
        Ok(f) => claims_from_fields(f, now),
        Err((invalid_signature, message)) => Err(decode_failure_message(invalid_signature, message.as_str())),
    }
}

/// Verifies `token` with `secret` and returns its claims, as at the current time.
pub fn decode_token(token: &str, secret: &[u8]) -> (r: Result<Claims, String>)
    ensures
        r matches Ok(c) ==> exists|now: u64| token_decoding(token@, secret@, now) == Ok::<ClaimsView, Seq<char>>(claims_view(c)),
        r matches Err(m) ==> exists|now: u64| token_decoding(token@, secret@, now) == Err::<ClaimsView, Seq<char>>(m@),
{
    decode_token_at(token, secret, now_epoch())
}

/// Whether `token` carries the session claims of `user` issued at `now`.
pub open spec fn session_token_for(token: Seq<char>, secret: Seq<u8>, user: User, now: u64) -> bool {
    &&& now + TOKEN_LIFETIME_SECS <= u64::MAX
    &&& token_carries(token, secret, user.id@, user.email@, role_name(user.role), now, (now + TOKEN_LIFETIME_SECS) as u64)
}

/// A signed session token for `user`, issued at `now` and valid 24 h;
/// signing always succeeds.
pub fn encode_token_at(user: &User, secret: &[u8], now: u64) -> (r: Result<String, String>)
    requires
        now + TOKEN_LIFETIME_SECS <= u64::MAX,
    ensures
        r is Ok,
        r matches Ok(t) ==> hs256_token(user.id@, user.email@, role_name(user.role), now, (now + TOKEN_LIFETIME_SECS) as u64, secret@) == Ok::<Seq<char>, Seq<char>>(t@),
        r matches Ok(t) ==> token_carries(t@, secret@, user.id@, user.email@, role_name(user.role), now, (now + TOKEN_LIFETIME_SECS) as u64),
{
    let claims = claims_for(user, now);
    sign_claims(&claims, secret)
}

/// A signed session token for `user`, issued now and valid 24 h; signing
/// always succeeds.
pub fn encode_token(user: &User, secret: &[u8]) -> (r: Result<String, String>)
    ensures
        r is Ok,
        r matches Ok(t) ==> exists|now: u64| #[trigger] session_token_for(t@, secret@, *user, now),
{
    let now = now_epoch();
    let r = encode_token_at(user, secret, now);
    proof {
        assert(session_token_for(r->Ok_0@, secret@, *user, now));
    }
    r
}

/// Why refreshing `token` at `now` fails with the message `m`: the token does
/// not decode (its decoding error), or more than the refresh window remains
/// (`Token does not need refresh`). Signing the new token does not fail.
pub open spec fn refresh_failure(token: Seq<char>, secret: Seq<u8>, now: u64, m: Seq<char>) -> bool {
    match token_decoding(token, secret, now) {
        Err(d) => m == d,
        Ok(c) => !refresh_due(c.4, now) && m == "Token does not need refresh"@,
    }
}

/// A new token for the claims of `token`, issued at `now`, when `token` is
/// valid at `now` and fewer than `REFRESH_WINDOW_SECS` seconds of it remain.
pub fn refresh_token_at(token: &str, secret: &[u8], now: u64) -> (r: Result<String, String>)
    requires
        now + TOKEN_LIFETIME_SECS <= u64::MAX,
    ensures
        r is Ok <==> (token_decoding(token@, secret@, now) matches Ok(c) && refresh_due(c.4, now)),
        r matches Ok(t) ==> exists|c: ClaimsView|
            token_decoding(token@, secret@, now) == Ok::<ClaimsView, Seq<char>>(c) && refresh_due(c.4, now)
                && token_carries(t@, secret@, c.0, c.1, c.2, now, (now + TOKEN_LIFETIME_SECS) as u64),
        token_decoding(token@, secret@, now) matches Err(m) ==> (r matches Err(e) && e@ == m),
        token_decoding(token@, secret@, now) matches Ok(c) && !refresh_due(c.4, now) ==> (r matches Err(e) && e@ == "Token does not need refresh"@),
        r matches Err(e) ==> refresh_failure(token@, secret@, now, e@),
{
    let claims = match decode_token_at(token, secret, now) {
        Ok(c) => c,
        Err(m) => return Err(m),
    };
    if !claims.should_refresh_at(now) {
        return Err(string_of("Token does not need refresh"));
    }
    match hs256_encode(claims.sub.as_str(), claims.email.as_str(), claims.role.as_str(), now, now + TOKEN_LIFETIME_SECS, secret) {
        Ok(t) => {
            assert(token_decoding(token@, secret@, now) == Ok::<ClaimsView, Seq<char>>(claims_view(claims)));
            let ghost c = claims_view(claims);
            assert(token_decoding(token@, secret@, now) == Ok::<ClaimsView, Seq<char>>(c) && refresh_due(c.4, now)
                && token_carries(t@, secret@, c.0, c.1, c.2, now, (now + TOKEN_LIFETIME_SECS) as u64));
            Ok(t)
        },
        Err(e) => Err(concat2("JWT refresh failed: ", e.as_str())),
    }
}

/// A new token for the claims of `token`, issued now, when `token` is valid
/// and fewer than `REFRESH_WINDOW_SECS` seconds of it remain; otherwise the
/// failure that `refresh_failure` describes for the current time.
pub fn refresh_token(token: &str, secret: &[u8]) -> (r: Result<String, String>)
    ensures
        r matches Ok(t) ==> exists|now: u64, c: ClaimsView|
            token_decoding(token@, secret@, now) == Ok::<ClaimsView, Seq<char>>(c) && refresh_due(c.4, now)
                && token_carries(t@, secret@, c.0, c.1, c.2, now, (now + TOKEN_LIFETIME_SECS) as u64),
        r matches Err(m) ==> exists|now: u64| now + TOKEN_LIFETIME_SECS <= u64::MAX && #[trigger] refresh_failure(token@, secret@, now, m@),
{
    let now = now_epoch();
    let r = refresh_token_at(token, secret, now);
    proof {
        if r is Err {
            assert(now + TOKEN_LIFETIME_SECS <= u64::MAX && refresh_failure(token@, secret@, now, r->Err_0@));
        }
        if r is Ok {
            let c = choose|c: ClaimsView|
                token_decoding(token@, secret@, now) == Ok::<ClaimsView, Seq<char>>(c) && refresh_due(c.4, now)
                    && token_carries(r->Ok_0@, secret@, c.0, c.1, c.2, now, (now + TOKEN_LIFETIME_SECS) as u64);
            assert(token_decoding(token@, secret@, now) == Ok::<ClaimsView, Seq<char>>(c) && refresh_due(c.4, now)
                    && token_carries(r->Ok_0@, secret@, c.0, c.1, c.2, now, (now + TOKEN_LIFETIME_SECS) as u64));
        }
    }
    r
}

/// A random 32-byte secret for signing tokens.
pub fn generate_secret() -> (r: Vec<u8>)
    ensures
        r@.len() == 32,
{
    let mut secret: Vec<u8> = vec![0u8; 32];
    fill_random(&mut secret);
    secret
}

/// A token signed by `encode_token_at` for a user at time `issued` is decoded
/// into that user's claims at any time up to 24 h plus the leeway later, and
/// is rejected as expired afterwards.
pub proof fn lemma_issued_token_round_trip(token: Seq<char>, secret: Seq<u8>, sub: Seq<char>, email: Seq<char>, role: Seq<char>, issued: u64, now: u64)
    requires
        issued + TOKEN_LIFETIME_SECS <= u64::MAX,
        token_carries(token, secret, sub, email, role, issued, (issued + TOKEN_LIFETIME_SECS) as u64),
    ensures
        now <= issued + TOKEN_LIFETIME_SECS + EXPIRY_LEEWAY_SECS ==> token_decoding(token, secret, now)
            == Ok::<ClaimsView, Seq<char>>((sub, email, role, issued, (issued + TOKEN_LIFETIME_SECS) as u64)),
        now > issued + TOKEN_LIFETIME_SECS + EXPIRY_LEEWAY_SECS ==> token_decoding(token, secret, now)
            == Err::<ClaimsView, Seq<char>>("TOKEN_EXPIRED"@),
{
}

/// A freshly issued token is not due for refresh until its last hour.
pub proof fn lemma_refresh_only_in_last_hour(issued: u64, now: u64)
    requires
        issued + TOKEN_LIFETIME_SECS <= u64::MAX,
        issued <= now,
    ensures
        refresh_due((issued + TOKEN_LIFETIME_SECS) as u64, now) <==> now > issued + TOKEN_LIFETIME_SECS - REFRESH_WINDOW_SECS,
{
}

} // verus!
