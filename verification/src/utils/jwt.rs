use jwt_simple::prelude::{Clock, Duration, HS256Key, JWTClaims, MACLike, VerificationOptions};
use jwt_simple::JWTError::{TokenHasExpired, TokenIsTooOld};
use serde_json::Value;
use vstd::prelude::*;

use crate::env::Env;
use crate::error::InvalidTokenReason::{Expired, InvalidSignature, MaxValidityExceeded};
use crate::error::{AuthError, AuthErrorView, InvalidTokenReason};
use crate::serializers::auth::{TokenClaim, TokenClaimView};
use crate::serializers::validation::byte_len;
use crate::utils::hex;
use crate::utils::hex::hex_decoded;
use crate::utils::text::text_of;

verus! {

/// Number of bytes in a signing key.
pub const KEY_LEN: usize = 32;

/// Number of hexadecimal digits in the text of a signing key.
pub const KEY_TEXT_LEN: usize = 64;

/// A token is refused once it was issued more than this many seconds ago,
/// whatever expiry it states.
pub const MAX_VALIDITY_SECS: u64 = 3600;

/// Grace granted beyond the stated expiry, in seconds.
pub const TIME_TOLERANCE_SECS: u64 = 0;

/// The last second that a token's timestamp can tell from its successor.
pub const MAX_TIMESTAMP: u64 = 0xFFFF_FFFF;

/// Tokens longer than this many bytes are refused unread.
pub const MAX_TOKEN_LENGTH: usize = 1_000_000;

/// Keys shorter than this many bytes neither sign nor verify.
pub const MIN_KEY_LEN: usize = 12;

/// Fixed-point ticks in one second, as timestamps are compared.
pub const TICKS_PER_SECOND: u64 = 0x1_0000_0000;

/// A reading of the clock: the whole seconds that have passed since the
/// epoch, and what has passed of the next second, in nanoseconds.
#[derive(Debug, Clone, Copy, PartialEq, Eq, Structural)]
pub struct ClockReading {
    pub secs: u64,
    pub subsec_nanos: u32,
}

/// What an authenticated token says: its three timestamps, in seconds
/// since the epoch, and the identity fields, each as far as it is present
/// and of the right kind.
pub struct SignedClaims {
    pub issued_at: Option<u64>,
    pub expires_at: Option<u64>,
    pub invalid_before: Option<u64>,
    pub user_id: Option<i64>,
    pub email: Option<Seq<char>>,
    pub name: Option<Seq<char>>,
}

/// Identity fields as read from a token, each present or absent.
#[derive(Debug)]
pub struct RawClaim {
    pub user_id: Option<i64>,
    pub email: Option<String>,
    pub name: Option<String>,
}

/// What is wrong with the configured key material.
#[derive(Debug, Clone, Copy, PartialEq, Eq, Structural)]
pub enum ConfigError {
    InvalidAccessKey,
    InvalidRefreshKey,
}

/// The claims that `token` carries under `key`: `None` unless the token is
/// a well-formed HS256 token whose authentication tag was computed with
/// `key`, a key of at least [`MIN_KEY_LEN`] bytes. The identity fields are
/// the claims `user_id`, `email` and `name`.
pub uninterp spec fn authenticated_payload(key: Seq<u8>, token: Seq<char>) -> Option<SignedClaims>;

/// The token that the signer makes of `claim` under `key`, issued and valid
/// from `issued_at` and expiring at `expires_at`: `None` where the signer
/// refuses.
pub uninterp spec fn signed_token(
    key: Seq<u8>,
    claim: TokenClaimView,
    issued_at: u64,
    expires_at: u64,
) -> Option<Seq<char>>;

/// A length, in bytes, that no token for `claim` exceeds: 36 for the
/// header, 43 for the tag, two dots, and for the claims the base-64 text of
/// at most 104 bytes of names, numbers and punctuation and six bytes for
/// each character of the two texts.
pub open spec fn token_length_bound(claim: TokenClaimView) -> nat {
    256 + 8 * (claim.email.len() + claim.name.len())
}

/// A character of which tokens are made: a letter, a digit, `-`, `_`, or
/// the dot between the parts.
pub open spec fn is_token_char(c: char) -> bool {
    ('a' <= c && c <= 'z') || ('A' <= c && c <= 'Z') || ('0' <= c && c <= '9') || c == '-' || c
        == '_' || c == '.'
}

/// Every character of `token` is one of which tokens are made.
pub open spec fn is_token_text(token: Seq<char>) -> bool {
    forall|i: int| 0 <= i < token.len() ==> is_token_char(#[trigger] token[i])
}

/// A number of seconds in the fixed-point ticks in which timestamps are
/// compared; it saturates beyond [`MAX_TIMESTAMP`].
pub open spec fn ticks(secs: u64) -> int {
    if secs <= MAX_TIMESTAMP {
        secs * TICKS_PER_SECOND
    } else {
        u64::MAX as int
    }
}

/// The token was issued before `now`, and by more than the ceiling.
pub open spec fn too_old(issued_at: Option<u64>, now: u64, max_validity_secs: u64) -> bool {
    match issued_at {
        Some(at) => ticks(now) > ticks(at) && ticks(now) - ticks(at) > ticks(max_validity_secs),
        None => false,
    }
}

/// The stated expiry, stretched by the tolerance, lies before `now`.
pub open spec fn expired(expires_at: Option<u64>, now: u64, tolerance_secs: u64) -> bool {
    match expires_at {
        Some(at) => ticks(now) < ticks(tolerance_secs) || ticks(now) - ticks(tolerance_secs)
            > ticks(at),
        None => false,
    }
}

/// The time policy applied to what a token carries: age is judged before
/// expiry, and a token dated in the future is accepted.
pub open spec fn checked_payload(
    payload: Option<SignedClaims>,
    now: u64,
    tolerance_secs: u64,
    max_validity_secs: u64,
) -> Result<SignedClaims, InvalidTokenReason> {
    match payload {
        None => Err(InvalidTokenReason::InvalidSignature),
        Some(claims) => if too_old(claims.issued_at, now, max_validity_secs) {
            Err(InvalidTokenReason::MaxValidityExceeded)
        } else if expired(claims.expires_at, now, tolerance_secs) {
            Err(InvalidTokenReason::Expired)
        } else {
            Ok(claims)
        },
    }
}

/// The time policy applied to a token: one that is longer than
/// [`MAX_TOKEN_LENGTH`] bytes is refused as it stands, any other is judged
/// by what it carries.
pub open spec fn checked_token(
    token: Seq<char>,
    payload: Option<SignedClaims>,
    now: u64,
    tolerance_secs: u64,
    max_validity_secs: u64,
) -> Result<SignedClaims, InvalidTokenReason> {
    if byte_len(token) > MAX_TOKEN_LENGTH {
        Err(InvalidTokenReason::InvalidSignature)
    } else {
        checked_payload(payload, now, tolerance_secs, max_validity_secs)
    }
}

/// The identity claim among signed claims, if all of its fields are there.
pub open spec fn claim_of(
    user_id: Option<i64>,
    email: Option<Seq<char>>,
    name: Option<Seq<char>>,
) -> Option<TokenClaimView> {
    match (user_id, email, name) {
        (Some(user_id), Some(email), Some(name)) => Some(TokenClaimView { user_id, email, name }),
        _ => None,
    }
}

/// The outcome of verifying `token` under `key` at the second `now`.
pub open spec fn verdict(key: Seq<u8>, token: Seq<char>, now: u64) -> Result<
    TokenClaimView,
    InvalidTokenReason,
> {
    match checked_token(
        token,
        authenticated_payload(key, token),
        now,
        TIME_TOLERANCE_SECS,
        MAX_VALIDITY_SECS,
    ) {
        Ok(claims) => match claim_of(claims.user_id, claims.email, claims.name) {
            Some(claim) => Ok(claim),
            None => Err(InvalidTokenReason::InvalidSignature),
        },
        Err(reason) => Err(reason),
    }
}

/// The second at which a token issued at `now` for `lifetime_in_min`
/// minutes expires.
pub open spec fn expiry(now: u64, lifetime_in_min: u64) -> int {
    now + 60 * lifetime_in_min
}

/// `token` carries exactly `claim`, issued and valid from `issued_at` and
/// expiring at `expires_at`, under `key`.
pub open spec fn carries(
    key: Seq<u8>,
    token: Seq<char>,
    claim: TokenClaimView,
    issued_at: u64,
    expires_at: u64,
) -> bool {
    authenticated_payload(key, token) == Some(
        SignedClaims {
            issued_at: Some(issued_at),
            expires_at: Some(expires_at),
            invalid_before: Some(issued_at),
            user_id: Some(claim.user_id),
            email: Some(claim.email),
            name: Some(claim.name),
        },
    )
}

/// `token` is the token issued at `now` for `claim`: its expiry can be
/// written down, it is what the signer makes of the claim and the two
/// timestamps, it carries them, it is no longer than a token for the claim
/// can be, and it is made of the characters of tokens only.
pub open spec fn issued(
    key: Seq<u8>,
    lifetime_in_min: u64,
    token: Seq<char>,
    claim: TokenClaimView,
    now: u64,
) -> bool {
    &&& expiry(now, lifetime_in_min) <= MAX_TIMESTAMP
    &&& signed_token(key, claim, now, expiry(now, lifetime_in_min) as u64) == Some(token)
    &&& carries(key, token, claim, now, expiry(now, lifetime_in_min) as u64)
    &&& byte_len(token) <= token_length_bound(claim)
    &&& is_token_text(token)
}

/// `HS256Key::from_bytes(key).authenticate(..)` on claims built from the
/// arguments: issued and valid from `issued_at`, expiring at `expires_at`,
/// with the three identity fields as the custom claims `user_id`, `email`
/// and `name`. The contract names the outcome and claims of it that the
/// signer refuses a key under [`MIN_KEY_LEN`] bytes and no other, that a
/// token carries, under the same key, what was put in, that it is no
/// longer than [`token_length_bound`] says, and that it is made of three
/// base-64 texts of the URL-safe alphabet with a dot between them.
#[verifier::external_body]
fn sign_hs256(key: &Vec<u8>, claim: &TokenClaim, issued_at: u64, expires_at: u64) -> (token:
    Option<String>)
    requires
        issued_at <= MAX_TIMESTAMP,
        expires_at <= MAX_TIMESTAMP,
    ensures
        text_of(token) == signed_token(key@, claim@, issued_at, expires_at),
        key@.len() < MIN_KEY_LEN <==> token is None,
        token matches Some(t) ==> carries(key@, t@, claim@, issued_at, expires_at) && byte_len(t@)
            <= token_length_bound(claim@) && is_token_text(t@),
{
    let mut custom = serde_json::Map::new();
    custom.insert("user_id".to_string(), Value::from(claim.user_id));
    custom.insert("email".to_string(), Value::from(claim.email.clone()));
    custom.insert("name".to_string(), Value::from(claim.name.clone()));
    let issued = Some(Duration::from_secs(issued_at));
    let expires = Some(Duration::from_secs(expires_at));
    let claims = JWTClaims { issued_at: issued, expires_at: expires, invalid_before: issued, issuer: None, subject: None, audiences: None, jwt_id: None, nonce: None, custom };
    HS256Key::from_bytes(key).authenticate(claims).ok()
}

/// `HS256Key::from_bytes(key).verify_token(..)` at the artificial time
/// `now`, with the given tolerance and validity ceiling and every other
/// option at its default. The contract claims the order in which the call
/// works: a token of more than [`MAX_TOKEN_LENGTH`] bytes, and whatever
/// else keeps the token from being read and authenticated, is reported as
/// an invalid signature; then the age of the token is judged, then its
/// expiry; and what comes back are the identity fields of the claims that
/// were read.
#[verifier::external_body]
fn verify_hs256(
    key: &Vec<u8>,
    token: &str,
    now: u64,
    accept_future: bool,
    tolerance_secs: u64,
    max_validity_secs: u64,
) -> (outcome: Result<RawClaim, InvalidTokenReason>)
    requires
        accept_future,
    ensures
        match outcome {
            Ok(raw) => checked_token(
                token@,
                authenticated_payload(key@, token@),
                now,
                tolerance_secs,
                max_validity_secs,
            ) matches Ok(claims) && claims.user_id == raw.user_id && claims.email == text_of(
                raw.email,
            ) && claims.name == text_of(raw.name),
            Err(reason) => checked_token(
                token@,
                authenticated_payload(key@, token@),
                now,
                tolerance_secs,
                max_validity_secs,
            ) == Err::<SignedClaims, InvalidTokenReason>(reason),
        },
{
    let options = VerificationOptions { accept_future, time_tolerance: Some(Duration::from_secs(tolerance_secs)), max_validity: Some(Duration::from_secs(max_validity_secs)), artificial_time: Some(Duration::from_secs(now)), ..Default::default() };
    HS256Key::from_bytes(key)
        .verify_token::<serde_json::Map<String, Value>>(token, Some(options))
        .map(|claims| RawClaim {
            user_id: claims.custom.get("user_id").and_then(Value::as_i64),
            email: claims.custom.get("email").and_then(Value::as_str).map(str::to_string),
            name: claims.custom.get("name").and_then(Value::as_str).map(str::to_string),
        })
        .map_err(|error| match error.downcast_ref() {
            Some(TokenIsTooOld) => MaxValidityExceeded,
            Some(TokenHasExpired) => Expired,
            _ => InvalidSignature,
        })
}

/// `Clock::now_since_epoch`, taken apart by `as_secs` and `subsec_nanos`.
/// The contract claims only that the seconds fit a timestamp: the clock
/// keeps 32 bits of them.
#[verifier::external_body]
fn clock_reading() -> (reading: ClockReading)
    ensures
        reading.secs <= MAX_TIMESTAMP,
{
    let now = Clock::now_since_epoch();
    ClockReading { secs: now.as_secs(), subsec_nanos: now.subsec_nanos() }
}

/// `HS256Key::generate().to_bytes()`: fresh random key material. The
/// contract claims its length only.
#[verifier::external_body]
fn random_key() -> (key: Vec<u8>)
    ensures
        key@.len() == KEY_LEN,
{
    HS256Key::generate().to_bytes()
}

/// The whole seconds that have passed at a clock reading.
pub fn seconds_elapsed(reading: ClockReading) -> (secs: u64)
    ensures
        secs == reading.secs,
{
    reading.secs
}

/// The first whole second that is not before a clock reading.
pub fn seconds_reached(reading: ClockReading) -> (secs: u64)
    ensures
        secs == second_reached(reading),
        reading.secs <= secs <= reading.secs + 1,
{
    if reading.subsec_nanos > 0 && reading.secs < u64::MAX {
        reading.secs + 1
    } else {
        reading.secs
    }
}

/// The present second as a token is dated: the whole seconds that have
/// passed on the clock.
pub fn issue_time() -> (now: u64)
    ensures
        now <= MAX_TIMESTAMP,
{
    seconds_elapsed(clock_reading())
}

/// The present second as a token is judged: the first whole second that is
/// not before the clock, so that no token outlives its stated expiry.
pub fn verification_time() -> (now: u64)
    ensures
        exists|reading: ClockReading|
            reading.secs <= MAX_TIMESTAMP && now == #[trigger] second_reached(reading),
        now <= MAX_TIMESTAMP + 1,
{
    let reading = clock_reading();
    let now = seconds_reached(reading);
    proof {
        assert(now == second_reached(reading));
    }
    now
}

/// The first whole second that is not before the clock reading `reading`:
/// the next one where a part of it has passed, as far as seconds can be
/// counted.
pub open spec fn second_reached(reading: ClockReading) -> u64 {
    if reading.subsec_nanos > 0 && reading.secs < u64::MAX {
        (reading.secs + 1) as u64
    } else {
        reading.secs
    }
}

/// The hexadecimal text under which the configuration holds the signing
/// key `key`: `None` unless the key has [`KEY_LEN`] bytes.
pub fn jwt_key_text(key: &Vec<u8>) -> (text: Option<String>)
    ensures
        match text {
            Some(t) => key@.len() == KEY_LEN && t@ == hex::hex_encoded(key@) && signing_key(t@)
                == Some(key@),
            None => key@.len() != KEY_LEN,
        },
{
    if key.len() == KEY_LEN {
        proof {
            hex::hex_round_trip(key@, KEY_LEN as nat);
        }
        hex::encode(key, KEY_TEXT_LEN)
    } else {
        None
    }
}

/// A fresh random key, as the hexadecimal text that the configuration
/// holds.
pub fn generate_jwt_key() -> (text: String)
    ensures
        exists|key: Seq<u8>|
            key.len() == KEY_LEN && text@ == #[trigger] hex::hex_encoded(key) && signing_key(text@)
                == Some(key),
        text@.len() == KEY_TEXT_LEN,
{
    let key = random_key();
    match jwt_key_text(&key) {
        Some(text) => text,
        None => {
            // The key that was drawn has the full length.
            proof {
                assert(false);
            }
            String::new()
        },
    }
}

/// The signing key that a configured text stands for: `None` unless the
/// text is the hexadecimal text of exactly [`KEY_LEN`] bytes.
pub fn get_jwt_key(key_str: &str) -> (key: Option<Vec<u8>>)
    ensures
        match key {
            Some(bytes) => signing_key(key_str@) == Some(bytes@),
            None => signing_key(key_str@) is None,
        },
{
    match hex::decode(key_str, KEY_LEN) {
        Some(bytes) => if bytes.len() == KEY_LEN {
            Some(bytes)
        } else {
            None
        },
        None => None,
    }
}

/// The signing key that `text` configures: the bytes it stands for, if
/// there are exactly [`KEY_LEN`] of them.
pub open spec fn signing_key(text: Seq<char>) -> Option<Seq<u8>> {
    match hex_decoded(text, KEY_LEN as nat) {
        Some(bytes) => if bytes.len() == KEY_LEN {
            Some(bytes)
        } else {
            None
        },
        None => None,
    }
}

/// The key of the access domain, if the configuration holds a proper one.
pub fn get_access_jwt_key(env: &Env) -> (key: Option<Vec<u8>>)
    ensures
        match key {
            Some(bytes) => signing_key(env.jwt_access_key@) == Some(bytes@),
            None => signing_key(env.jwt_access_key@) is None,
        },
{
    get_jwt_key(env.jwt_access_key.as_str())
}

/// The key of the refresh domain, if the configuration holds a proper one.
pub fn get_refresh_jwt_key(env: &Env) -> (key: Option<Vec<u8>>)
    ensures
        match key {
            Some(bytes) => signing_key(env.jwt_refresh_key@) == Some(bytes@),
            None => signing_key(env.jwt_refresh_key@) is None,
        },
{
    get_jwt_key(env.jwt_refresh_key.as_str())
}

/// The identity claim among the fields read from a token: all three must be
/// there.
pub fn complete_claim(raw: RawClaim) -> (claim: Result<TokenClaim, InvalidTokenReason>)
    ensures
        match claim {
            Ok(c) => claim_of(raw.user_id, text_of(raw.email), text_of(raw.name)) == Some(c@),
            Err(reason) => reason == InvalidTokenReason::InvalidSignature && claim_of(
                raw.user_id,
                text_of(raw.email),
                text_of(raw.name),
            ) is None,
        },
{
    match (raw.user_id, raw.email, raw.name) {
        (Some(user_id), Some(email), Some(name)) => Ok(TokenClaim { user_id, email, name }),
        _ => Err(InvalidTokenReason::InvalidSignature),
    }
}

/// The answer of the service for what the signer handed back.
pub fn signed_or_error(signed: Option<String>) -> (answer: Result<String, AuthError>)
    ensures
        match answer {
            Ok(token) => signed == Some(token),
            Err(error) => signed is None && error@ == AuthErrorView::SigningError,
        },
{
    match signed {
        Some(token) => Ok(token),
        None => Err(AuthError::SigningError),
    }
}

fn issue_with(key: &Vec<u8>, lifetime_in_min: u64, claim: &TokenClaim, now: u64) -> (answer: Result<
    String,
    AuthError,
>)
    ensures
        match answer {
            Ok(token) => issued(key@, lifetime_in_min, token@, claim@, now),
            Err(error) => error@ == AuthErrorView::SigningError,
        },
        answer is Err <==> expiry(now, lifetime_in_min) > MAX_TIMESTAMP || key@.len()
            < MIN_KEY_LEN,
{
    if now > MAX_TIMESTAMP {
        return Err(AuthError::SigningError);
    }
    let room: u64 = MAX_TIMESTAMP - now;
    if lifetime_in_min > room / 60 {
        return Err(AuthError::SigningError);
    }
    let expires_at: u64 = now + 60 * lifetime_in_min;
    signed_or_error(sign_hs256(key, claim, now, expires_at))
}

fn verify_with(key: &Vec<u8>, token: &str, now: u64) -> (answer: Result<
    TokenClaim,
    InvalidTokenReason,
>)
    ensures
        match answer {
            Ok(claim) => verdict(key@, token@, now) == Ok::<TokenClaimView, InvalidTokenReason>(
                claim@,
            ),
            Err(reason) => verdict(key@, token@, now) == Err::<TokenClaimView, InvalidTokenReason>(
                reason,
            ),
        },
{
    match verify_hs256(key, token, now, true, TIME_TOLERANCE_SECS, MAX_VALIDITY_SECS) {
        Ok(raw) => complete_claim(raw),
        Err(reason) => Err(reason),
    }
}

/// The two signing keys and the two lifetimes, fixed once at start.
pub struct TokenService {
    access_key: Vec<u8>,
    access_lifetime_in_min: u64,
    refresh_key: Vec<u8>,
    refresh_lifetime_in_min: u64,
}

impl TokenService {
    #[verifier::type_invariant]
    spec fn well_formed(self) -> bool {
        self.access_key@.len() == KEY_LEN && self.refresh_key@.len() == KEY_LEN
    }

    /// The key that authenticates access tokens.
    pub closed spec fn access_key(&self) -> Seq<u8> {
        self.access_key@
    }

    /// The key that authenticates refresh tokens.
    pub closed spec fn refresh_key(&self) -> Seq<u8> {
        self.refresh_key@
    }

    /// Minutes for which an access token is issued.
    pub closed spec fn access_lifetime(&self) -> u64 {
        self.access_lifetime_in_min
    }

    /// Minutes for which a refresh token is issued.
    pub closed spec fn refresh_lifetime(&self) -> u64 {
        self.refresh_lifetime_in_min
    }

    /// Decodes the two configured keys. Fails, naming the first key at
    /// fault, unless each is the hexadecimal text of [`KEY_LEN`] bytes.
    pub fn new(env: &Env) -> (service: Result<TokenService, ConfigError>)
        ensures
            match service {
                Ok(s) => {
                    &&& signing_key(env.jwt_access_key@) == Some(s.access_key())
                    &&& signing_key(env.jwt_refresh_key@) == Some(s.refresh_key())
                    &&& s.access_lifetime() == env.jwt_access_lifetime_in_min
                    &&& s.refresh_lifetime() == env.jwt_refresh_lifetime_in_min
                },
                Err(ConfigError::InvalidAccessKey) => signing_key(env.jwt_access_key@) is None,
                Err(ConfigError::InvalidRefreshKey) => signing_key(env.jwt_access_key@) is Some
                    && signing_key(env.jwt_refresh_key@) is None,
            },
    {
        let access_key = match get_access_jwt_key(env) {
            Some(key) => key,
            None => {
                return Err(ConfigError::InvalidAccessKey);
            },
        };
        let refresh_key = match get_refresh_jwt_key(env) {
            Some(key) => key,
            None => {
                return Err(ConfigError::InvalidRefreshKey);
            },
        };
        Ok(
            TokenService {
                access_key,
                access_lifetime_in_min: env.jwt_access_lifetime_in_min,
                refresh_key,
                refresh_lifetime_in_min: env.jwt_refresh_lifetime_in_min,
            },
        )
    }

    /// Signs `claim` with the access key at the second `now`. Fails, with a
    /// signing error, where the expiry cannot be written down, and nowhere
    /// else.
    pub fn issue_access(&self, claim: &TokenClaim, now: u64) -> (answer: Result<String, AuthError>)
        ensures
            match answer {
                Ok(token) => issued(
                    self.access_key(),
                    self.access_lifetime(),
                    token@,
                    claim@,
                    now,
                ),
                Err(error) => error@ == AuthErrorView::SigningError,
            },
            answer is Err <==> expiry(now, self.access_lifetime()) > MAX_TIMESTAMP,
    {
        proof {
            use_type_invariant(self);
        }
        issue_with(&self.access_key, self.access_lifetime_in_min, claim, now)
    }

    /// Signs `claim` with the refresh key at the second `now`. Fails, with
    /// a signing error, where the expiry cannot be written down, and
    /// nowhere else.
    pub fn issue_refresh(&self, claim: &TokenClaim, now: u64) -> (answer: Result<String, AuthError>)
        ensures
            match answer {
                Ok(token) => issued(
                    self.refresh_key(),
                    self.refresh_lifetime(),
                    token@,
                    claim@,
                    now,
                ),
                Err(error) => error@ == AuthErrorView::SigningError,
            },
            answer is Err <==> expiry(now, self.refresh_lifetime()) > MAX_TIMESTAMP,
    {
        proof {
            use_type_invariant(self);
        }
        issue_with(&self.refresh_key, self.refresh_lifetime_in_min, claim, now)
    }

    /// Verifies `token` against the access key at the second `now`.
    pub fn verify_access(&self, token: &str, now: u64) -> (answer: Result<
        TokenClaim,
        InvalidTokenReason,
    >)
        ensures
            match answer {
                Ok(claim) => verdict(self.access_key(), token@, now) == Ok::<
                    TokenClaimView,
                    InvalidTokenReason,
                >(claim@),
                Err(reason) => verdict(self.access_key(), token@, now) == Err::<
                    TokenClaimView,
                    InvalidTokenReason,
                >(reason),
            },
    {
        verify_with(&self.access_key, token, now)
    }

    /// Verifies `token` against the refresh key at the second `now`.
    pub fn verify_refresh(&self, token: &str, now: u64) -> (answer: Result<
        TokenClaim,
        InvalidTokenReason,
    >)
        ensures
            match answer {
                Ok(claim) => verdict(self.refresh_key(), token@, now) == Ok::<
                    TokenClaimView,
                    InvalidTokenReason,
                >(claim@),
                Err(reason) => verdict(self.refresh_key(), token@, now) == Err::<
                    TokenClaimView,
                    InvalidTokenReason,
                >(reason),
            },
    {
        verify_with(&self.refresh_key, token, now)
    }
}

/// Some second of the clock at which a token of the given lifetime can no
/// longer be dated.
pub open spec fn clock_can_overrun(lifetime_in_min: u64) -> bool {
    exists|now: u64| now <= MAX_TIMESTAMP && #[trigger] expiry(now, lifetime_in_min) > MAX_TIMESTAMP
}

/// Issues an access token for `token_claim` at the present second. The
/// token is the one issued at some second of the clock; a failure is a
/// signing error and comes of a second at which the expiry can no longer be
/// written down, so there is none for a lifetime of no minutes.
pub fn generate_access_token(service: &TokenService, token_claim: TokenClaim) -> (answer: Result<
    String,
    AuthError,
>)
    ensures
        match answer {
            Ok(token) => exists|now: u64|
                now <= MAX_TIMESTAMP && #[trigger] issued(
                    service.access_key(),
                    service.access_lifetime(),
                    token@,
                    token_claim@,
                    now,
                ),
            Err(error) => error@ == AuthErrorView::SigningError && clock_can_overrun(
                service.access_lifetime(),
            ),
        },
        service.access_lifetime() == 0 ==> answer is Ok,
{
    let now = issue_time();
    let answer = service.issue_access(&token_claim, now);
    proof {
        if answer is Err {
            assert(expiry(now, service.access_lifetime()) > MAX_TIMESTAMP);
        }
    }
    answer
}

/// Issues a refresh token for `token_claim` at the present second. The
/// token is the one issued at some second of the clock; a failure is a
/// signing error and comes of a second at which the expiry can no longer be
/// written down, so there is none for a lifetime of no minutes.
pub fn generate_refresh_token(service: &TokenService, token_claim: TokenClaim) -> (answer: Result<
    String,
    AuthError,
>)
    ensures
        match answer {
            Ok(token) => exists|now: u64|
                now <= MAX_TIMESTAMP && #[trigger] issued(
                    service.refresh_key(),
                    service.refresh_lifetime(),
                    token@,
                    token_claim@,
                    now,
                ),
            Err(error) => error@ == AuthErrorView::SigningError && clock_can_overrun(
                service.refresh_lifetime(),
            ),
        },
        service.refresh_lifetime() == 0 ==> answer is Ok,
{
    let now = issue_time();
    let answer = service.issue_refresh(&token_claim, now);
    proof {
        if answer is Err {
            assert(expiry(now, service.refresh_lifetime()) > MAX_TIMESTAMP);
        }
    }
    answer
}

/// Verifies an access token at the present time and hands out its claim.
pub fn get_access_token_claim(service: &TokenService, access_token: &str) -> (answer: Result<
    TokenClaim,
    InvalidTokenReason,
>)
    ensures
        exists|now: u64|
            match answer {
                Ok(claim) => #[trigger] verdict(service.access_key(), access_token@, now) == Ok::<
                    TokenClaimView,
                    InvalidTokenReason,
                >(claim@),
                Err(reason) => verdict(service.access_key(), access_token@, now) == Err::<
                    TokenClaimView,
                    InvalidTokenReason,
                >(reason),
            },
{
    service.verify_access(access_token, verification_time())
}

/// Verifies a refresh token at the present time and hands out its claim.
pub fn get_refresh_token_claim(service: &TokenService, refresh_token: &str) -> (answer: Result<
    TokenClaim,
    InvalidTokenReason,
>)
    ensures
        exists|now: u64|
            match answer {
                Ok(claim) => #[trigger] verdict(service.refresh_key(), refresh_token@, now) == Ok::<
                    TokenClaimView,
                    InvalidTokenReason,
                >(claim@),
                Err(reason) => verdict(service.refresh_key(), refresh_token@, now) == Err::<
                    TokenClaimView,
                    InvalidTokenReason,
                >(reason),
            },
{
    service.verify_refresh(refresh_token, verification_time())
}

/// Within the range of timestamps, ticks order as seconds do.
pub proof fn ticks_order_as_seconds(earlier: u64, later: u64)
    requires
        earlier <= MAX_TIMESTAMP,
        later <= MAX_TIMESTAMP,
    ensures
        ticks(later) - ticks(earlier) == (later - earlier) * TICKS_PER_SECOND,
        ticks(earlier) <= ticks(later) <==> earlier <= later,
{
}

/// The verdict on a token that carries a claim, in whole seconds: it is too
/// old once more than [`MAX_VALIDITY_SECS`] have passed since it was
/// issued; short of that it has expired once the stated expiry has passed;
/// otherwise it verifies to its claim.
pub proof fn verdict_on_carried_claim(
    key: Seq<u8>,
    token: Seq<char>,
    claim: TokenClaimView,
    issued_at: u64,
    expires_at: u64,
    now: u64,
)
    requires
        carries(key, token, claim, issued_at, expires_at),
        byte_len(token) <= MAX_TOKEN_LENGTH,
        issued_at <= MAX_TIMESTAMP,
        expires_at <= MAX_TIMESTAMP,
        now <= MAX_TIMESTAMP,
    ensures
        verdict(key, token, now) == if now > issued_at + MAX_VALIDITY_SECS {
            Err::<TokenClaimView, InvalidTokenReason>(InvalidTokenReason::MaxValidityExceeded)
        } else if now > expires_at {
            Err(InvalidTokenReason::Expired)
        } else {
            Ok(claim)
        },
{
    ticks_order_as_seconds(issued_at, now);
    ticks_order_as_seconds(now, issued_at);
    ticks_order_as_seconds(expires_at, now);
    ticks_order_as_seconds(now, expires_at);
}

/// A token verifies to the claim it was issued for at the second of its
/// issue, in the domain of the key that signed it.
pub proof fn fresh_token_verifies(
    key: Seq<u8>,
    lifetime_in_min: u64,
    token: Seq<char>,
    claim: TokenClaimView,
    now: u64,
)
    requires
        issued(key, lifetime_in_min, token, claim, now),
        byte_len(token) <= MAX_TOKEN_LENGTH,
    ensures
        verdict(key, token, now) == Ok::<TokenClaimView, InvalidTokenReason>(claim),
{
    verdict_on_carried_claim(
        key,
        token,
        claim,
        now,
        expiry(now, lifetime_in_min) as u64,
        now,
    );
}

/// A token keeps verifying to its claim at every second from its issue up
/// to its expiry or the validity ceiling, whichever comes first, whatever
/// else was issued or verified in between.
pub proof fn token_verifies_throughout_its_window(
    key: Seq<u8>,
    lifetime_in_min: u64,
    token: Seq<char>,
    claim: TokenClaimView,
    issued_at: u64,
    now: u64,
)
    requires
        issued(key, lifetime_in_min, token, claim, issued_at),
        byte_len(token) <= MAX_TOKEN_LENGTH,
        issued_at <= now <= expiry(issued_at, lifetime_in_min),
        now <= issued_at + MAX_VALIDITY_SECS,
    ensures
        verdict(key, token, now) == Ok::<TokenClaimView, InvalidTokenReason>(claim),
{
    verdict_on_carried_claim(
        key,
        token,
        claim,
        issued_at,
        expiry(issued_at, lifetime_in_min) as u64,
        now,
    );
}

/// Once the clock has passed the expiry of a token, and the validity
/// ceiling has not been reached, the token is refused as expired.
pub proof fn expired_token_is_refused(
    key: Seq<u8>,
    lifetime_in_min: u64,
    token: Seq<char>,
    claim: TokenClaimView,
    issued_at: u64,
    now: u64,
)
    requires
        issued(key, lifetime_in_min, token, claim, issued_at),
        byte_len(token) <= MAX_TOKEN_LENGTH,
        expiry(issued_at, lifetime_in_min) < now <= issued_at + MAX_VALIDITY_SECS,
        now <= MAX_TIMESTAMP,
    ensures
        verdict(key, token, now) == Err::<TokenClaimView, InvalidTokenReason>(
            InvalidTokenReason::Expired,
        ),
{
    verdict_on_carried_claim(
        key,
        token,
        claim,
        issued_at,
        expiry(issued_at, lifetime_in_min) as u64,
        now,
    );
}

/// Once more than the validity ceiling has passed since a token was issued,
/// the token is refused for its age, however long the lifetime it was
/// issued for.
pub proof fn aged_token_is_refused(
    key: Seq<u8>,
    lifetime_in_min: u64,
    token: Seq<char>,
    claim: TokenClaimView,
    issued_at: u64,
    now: u64,
)
    requires
        issued(key, lifetime_in_min, token, claim, issued_at),
        byte_len(token) <= MAX_TOKEN_LENGTH,
        issued_at + MAX_VALIDITY_SECS < now <= MAX_TIMESTAMP,
    ensures
        verdict(key, token, now) == Err::<TokenClaimView, InvalidTokenReason>(
            InvalidTokenReason::MaxValidityExceeded,
        ),
{
    verdict_on_carried_claim(
        key,
        token,
        claim,
        issued_at,
        expiry(issued_at, lifetime_in_min) as u64,
        now,
    );
}

/// A token holds no space, so that a header made of a scheme, a space and
/// the token splits in two.
pub proof fn token_holds_no_space(token: Seq<char>)
    requires
        is_token_text(token),
    ensures
        !token.contains(' '),
{
    if token.contains(' ') {
        let i = choose|i: int| 0 <= i < token.len() && token[i] == ' ';
        assert(is_token_char(token[i]));
    }
}

} // verus!
