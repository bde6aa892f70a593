//! Cached SSO tokens and role credentials, and where a token is kept.
//!
//! Times are milliseconds since the Unix epoch.
use vstd::prelude::*;
use vstd::utf8::encode_utf8;
use crate::error::{ErrorView, ToolError};
use crate::profile::SsoProfile;
use sha2::Digest;

verus! {

/// Short-lived role credentials.
#[derive(Debug, Clone)]
pub struct CachedCredentials {
    pub access_key_id: String,
    pub secret_access_key: String,
    pub session_token: String,
    pub expiration_ms: i64,
}

/// What renews an SSO token without a new sign-in: the client that the
/// sign-in registered and the refresh token that it was given.
#[derive(Debug, Clone)]
pub struct RefreshGrant {
    pub client_id: String,
    pub client_secret: String,
    pub refresh_token: String,
}

/// An SSO access token as the cache keeps it.
#[derive(Debug, Clone)]
pub struct SsoTokenCache {
    pub access_token: String,
    pub expires_at_ms: i64,
    pub region: String,
    pub start_url: String,
    /// How to renew the token once it expires, where the sign-in allowed it.
    pub refresh: Option<RefreshGrant>,
}

/// The system clock's reading.
#[verifier::external_type_specification]
#[verifier::external_body]
pub struct ExSystemTime(std::time::SystemTime);

/// The system clock now (`std::time::SystemTime::now`). Nothing is claimed of
/// the reading, which is the machine's clock.
#[verifier::external_body]
fn system_now() -> std::time::SystemTime {
    std::time::SystemTime::now()
}

/// How long after the Unix epoch `t` is
/// (`SystemTime::duration_since(UNIX_EPOCH)`), `None` where `t` is before it.
/// Nothing is claimed of which: the reading comes from the clock.
#[verifier::external_body]
fn since_epoch(t: &std::time::SystemTime) -> Option<core::time::Duration> {
    t.duration_since(std::time::UNIX_EPOCH).ok()
}

/// The whole milliseconds of a duration (`Duration::as_millis`). Nothing is
/// claimed of the number; the duration is the clock's.
#[verifier::external_body]
fn whole_millis(d: &core::time::Duration) -> u128 {
    d.as_millis()
}

/// What a reading of the clock can be: an instant at or after the Unix epoch.
pub open spec fn clock_reading(t: i64) -> bool {
    0 <= t
}

/// A clock reading of `ms` milliseconds after the Unix epoch as an `i64`;
/// `None` where it does not fit.
pub fn clock_millis(ms: u128) -> (t: Option<i64>)
    ensures
        t == (if ms <= i64::MAX as u128 {
            Some(ms as i64)
        } else {
            None::<i64>
        }),
{
    if ms <= i64::MAX as u128 {
        Some(ms as i64)
    } else {
        None
    }
}

/// The current time in milliseconds since the Unix epoch: the clock's
/// reading taken by `clock_millis`; `None` where the clock reads before the
/// epoch, or too far after it for an `i64`. Which of the two, and which time,
/// rests on the clock.
pub fn now_millis() -> (t: Option<i64>)
    ensures
        t matches Some(ms) ==> clock_reading(ms),
{
    let now = system_now();
    match since_epoch(&now) {
        Some(d) => {
            let ms = whole_millis(&d);
            clock_millis(ms)
        },
        None => None,
    }
}

impl CachedCredentials {
    /// Whether the credentials have expired at time `now_ms`.
    pub fn is_expired_at(&self, now_ms: i64) -> (b: bool)
        ensures
            b == (self.expiration_ms <= now_ms),
    {
        self.expiration_ms <= now_ms
    }

    /// Whether the credentials have expired now: the expiry compared with a
    /// reading of the clock. Where the clock cannot be read, they count as
    /// expired, so that they are not used. Credentials that expire at or
    /// before the Unix epoch are always expired.
    pub fn is_expired(&self) -> (b: bool)
        ensures
            !b ==> exists|t: i64| #[trigger] clock_reading(t) && self.expiration_ms > t,
            self.expiration_ms <= 0 ==> b,
    {
        match now_millis() {
            Some(now) => {
                assert(clock_reading(now));
                self.is_expired_at(now)
            },
            None => true,
        }
    }
}

impl SsoTokenCache {
    /// Whether the token has expired at time `now_ms`.
    pub fn is_expired_at(&self, now_ms: i64) -> (b: bool)
        ensures
            b == (self.expires_at_ms <= now_ms),
    {
        self.expires_at_ms <= now_ms
    }

    /// Whether the token has expired now: the expiry compared with a reading
    /// of the clock. Where the clock cannot be read, it counts as expired, so
    /// that it is not used. A token that expires at or before the Unix epoch
    /// is always expired.
    pub fn is_expired(&self) -> (b: bool)
        ensures
            !b ==> exists|t: i64| #[trigger] clock_reading(t) && self.expires_at_ms > t,
            self.expires_at_ms <= 0 ==> b,
    {
        match now_millis() {
            Some(now) => {
                assert(clock_reading(now));
                self.is_expired_at(now)
            },
            None => true,
        }
    }
}

/// How a tool gets an SSO access token.
#[derive(Debug, Clone)]
pub enum TokenStep {
    /// The cached token has not expired: use this access token.
    Use(String),
    /// The cached token has expired and can be renewed with this grant.
    Refresh(RefreshGrant),
}

/// The step for the cached `token` at time `now_ms`: use it while it has not
/// expired; once it has, renew it where it carries a grant; `None` where the
/// user must sign in again (no token, or an expired one without a grant).
pub open spec fn spec_token_step(token: Option<SsoTokenCache>, now_ms: i64) -> Option<TokenStep> {
    match token {
        None => None,
        Some(t) => if t.expires_at_ms <= now_ms {
            match t.refresh {
                Some(g) => Some(TokenStep::Refresh(g)),
                None => None,
            }
        } else {
            Some(TokenStep::Use(t.access_token))
        },
    }
}

/// How the step depends on the cached token and the time: a token that has
/// not expired is used as it is, whether or not it could be renewed; an
/// expired one is never used, only renewed with its own grant; without a
/// token, or with an expired one that has no grant, there is no step. Of two
/// times, the token is used at the later one only if it is used at the
/// earlier one.
pub proof fn lemma_token_step_rules(token: Option<SsoTokenCache>, now_ms: i64, later_ms: i64)
    ensures
        token is None ==> spec_token_step(token, now_ms) is None,
        match token {
            Some(t) => {
                &&& now_ms < t.expires_at_ms ==> spec_token_step(token, now_ms) == Some(
                    TokenStep::Use(t.access_token),
                )
                &&& t.expires_at_ms <= now_ms ==> !(spec_token_step(token, now_ms) matches Some(
                    TokenStep::Use(_),
                ))
                &&& spec_token_step(token, now_ms) matches Some(TokenStep::Refresh(g)) ==> (t.refresh
                    == Some(g) && t.expires_at_ms <= now_ms)
                &&& (t.expires_at_ms <= now_ms && t.refresh is Some) ==> spec_token_step(token, now_ms) is Some
                &&& (t.expires_at_ms <= now_ms && t.refresh is None) ==> spec_token_step(token, now_ms) is None
            },
            None => true,
        },
        (now_ms <= later_ms && (spec_token_step(token, later_ms) matches Some(TokenStep::Use(_))))
            ==> (spec_token_step(token, now_ms) matches Some(TokenStep::Use(_))),
{
}

/// The step for `profile` with the cached `token` at time `now_ms`, or
/// `NotAuthenticated` where the user must sign in again.
pub fn token_step_at(token: Option<SsoTokenCache>, now_ms: i64, profile: &SsoProfile) -> (r: Result<TokenStep, ToolError>)
    ensures
        match spec_token_step(token, now_ms) {
            Some(s) => r == Ok::<TokenStep, ToolError>(s),
            None => r is Err && r->Err_0@ == ErrorView::NotAuthenticated(profile.name@),
        },
{
    match token {
        Some(t) => if t.is_expired_at(now_ms) {
            match t.refresh {
                Some(g) => Ok(TokenStep::Refresh(g)),
                None => Err(ToolError::NotAuthenticated(profile.name.clone())),
            }
        } else {
            Ok(TokenStep::Use(t.access_token))
        },
        None => Err(ToolError::NotAuthenticated(profile.name.clone())),
    }
}

/// The step for `profile` with the cached `token` now: `token_step_at` at a
/// reading of the clock. Without a token the user must sign in, whatever the
/// clock; with one, a clock that cannot be read is `ClockUnreadable`. A token
/// that expires at or before the Unix epoch is never used as it is.
pub fn token_step(token: Option<SsoTokenCache>, profile: &SsoProfile) -> (r: Result<TokenStep, ToolError>)
    ensures
        token is None ==> (r is Err && r->Err_0@ == ErrorView::NotAuthenticated(profile.name@)),
        token is Some ==> (r is Err && r->Err_0@ == ErrorView::ClockUnreadable) || exists|now: i64|
            #[trigger] clock_reading(now) && match spec_token_step(token, now) {
                Some(s) => r == Ok::<TokenStep, ToolError>(s),
                None => r is Err && r->Err_0@ == ErrorView::NotAuthenticated(profile.name@),
            },
        match token {
            Some(t) => t.expires_at_ms <= 0 ==> !(r matches Ok(TokenStep::Use(_))),
            None => true,
        },
{
    if token.is_none() {
        return Err(ToolError::NotAuthenticated(profile.name.clone()));
    }
    match now_millis() {
        Some(now) => {
            assert(clock_reading(now));
            token_step_at(token, now, profile)
        },
        None => Err(ToolError::ClockUnreadable),
    }
}

/// The SHA-256 digest of a byte string.
pub uninterp spec fn sha256(data: Seq<u8>) -> Seq<u8>;

/// SHA-256 (`sha2::Sha256::digest`). The contract names the digest and
/// claims its documented size, 32 bytes.
#[verifier::external_body]
fn sha256_digest(data: &[u8]) -> (d: Vec<u8>)
    ensures
        d@ == sha256(data@),
        d@.len() == 32,
{
    sha2::Sha256::digest(data).to_vec()
}

/// A lowercase hexadecimal digit.
pub open spec fn hex_digit(v: int) -> char {
    if v < 10 {
        (48 + v) as char
    } else {
        (97 + v - 10) as char
    }
}

/// Two lowercase hexadecimal digits per byte, high nibble first.
pub open spec fn hex_lower(b: Seq<u8>) -> Seq<char>
    decreases b.len(),
{
    if b.len() == 0 {
        seq![]
    } else {
        seq![hex_digit(b[0] as int / 16), hex_digit(b[0] as int % 16)] + hex_lower(b.drop_first())
    }
}

pub proof fn lemma_hex_lower_length(b: Seq<u8>)
    ensures
        hex_lower(b).len() == 2 * b.len(),
    decreases b.len(),
{
    if b.len() > 0 {
        lemma_hex_lower_length(b.drop_first());
    }
}

/// Lowercase hexadecimal (`hex::encode`): for each byte, the digit of its high
/// nibble then that of its low nibble.
#[verifier::external_body]
fn hex_encode(data: &[u8]) -> (s: String)
    ensures
        s@ == hex_lower(data@),
{
    hex::encode(data)
}

/// The cache's name for the token of an SSO start URL: the lowercase hex
/// SHA-256 of the URL's UTF-8 bytes.
pub fn cache_key(start_url: &str) -> (k: String)
    ensures
        k@ == hex_lower(sha256(encode_utf8(start_url@))),
        k@.len() == 64,
{
    let digest = sha256_digest(start_url.as_bytes());
    proof {
        lemma_hex_lower_length(digest@);
    }
    hex_encode(digest.as_slice())
}

/// The name of the file that holds the token of an SSO start URL.
pub fn cache_file_name(start_url: &str) -> (f: String)
    ensures
        f@ == hex_lower(sha256(encode_utf8(start_url@))) + ".json"@,
{
    let mut f = cache_key(start_url);
    f.append(".json");
    f
}

} // verus!
