//! The decisions of the SSO device-authorization login: which replies are
//! complete, how long to wait between polls, when to keep polling, and what
//! is cached once the user has signed in.
use vstd::prelude::*;
use crate::credentials::{CachedCredentials, RefreshGrant, SsoTokenCache};
use crate::error::{ErrorView, ToolError};
use crate::profile::SsoProfile;
use crate::text::{chars_of, concat_str, contains_chars, has_substring};

verus! {

/// A member that a login reply must carry.
pub enum LoginField {
    ClientId,
    ClientSecret,
    DeviceCode,
    UserCode,
    VerificationUri,
    AccessToken,
    RoleCredentials,
    AccessKeyId,
    SecretAccessKey,
    SessionToken,
}

impl LoginField {
    pub open spec fn spec_name(self) -> Seq<char> {
        match self {
            LoginField::ClientId => "client_id"@,
            LoginField::ClientSecret => "client_secret"@,
            LoginField::DeviceCode => "device_code"@,
            LoginField::UserCode => "user_code"@,
            LoginField::VerificationUri => "verification_uri"@,
            LoginField::AccessToken => "access_token"@,
            LoginField::RoleCredentials => "role_credentials"@,
            LoginField::AccessKeyId => "access_key_id"@,
            LoginField::SecretAccessKey => "secret_access_key"@,
            LoginField::SessionToken => "session_token"@,
        }
    }

    /// The member's name in the reply.
    pub fn name(&self) -> (s: &'static str)
        ensures
            s@ == self.spec_name(),
    {
        match self {
            LoginField::ClientId => "client_id",
            LoginField::ClientSecret => "client_secret",
            LoginField::DeviceCode => "device_code",
            LoginField::UserCode => "user_code",
            LoginField::VerificationUri => "verification_uri",
            LoginField::AccessToken => "access_token",
            LoginField::RoleCredentials => "role_credentials",
            LoginField::AccessKeyId => "access_key_id",
            LoginField::SecretAccessKey => "secret_access_key",
            LoginField::SessionToken => "session_token",
        }
    }
}

/// Why a login step failed.
pub enum LoginError {
    /// A reply lacked this member.
    Missing(LoginField),
    /// The credentials' expiry is outside the dates that can be represented.
    InvalidExpiration,
    /// The token exchange failed for another reason than a pending or slowed
    /// authorization; the text is the service's error.
    TokenExchange(String),
}

impl LoginError {
    /// The error's text.
    pub fn message(&self) -> (s: String)
        ensures
            s@ == match self {
                LoginError::Missing(f) => "missing "@ + f.spec_name(),
                LoginError::InvalidExpiration => "invalid expiration timestamp"@,
                LoginError::TokenExchange(e) => "SSO token exchange failed: "@ + e@,
            },
    {
        match self {
            LoginError::Missing(f) => concat_str("missing ", f.name()),
            LoginError::InvalidExpiration => String::from_str("invalid expiration timestamp"),
            LoginError::TokenExchange(e) => concat_str("SSO token exchange failed: ", e.as_str()),
        }
    }
}

/// The client that the login registered.
pub struct ClientRegistration {
    pub client_id: String,
    pub client_secret: String,
}

/// The registered client, or the first member that the reply lacks.
pub fn client_registration(client_id: Option<String>, client_secret: Option<String>) -> (r: Result<ClientRegistration, LoginError>)
    ensures
        match (client_id, client_secret) {
            (None, _) => r == Err::<ClientRegistration, LoginError>(LoginError::Missing(LoginField::ClientId)),
            (Some(_), None) => r == Err::<ClientRegistration, LoginError>(LoginError::Missing(LoginField::ClientSecret)),
            (Some(id), Some(secret)) => r == Ok::<ClientRegistration, LoginError>(ClientRegistration { client_id: id, client_secret: secret }),
        },
{
    let client_id = match client_id {
        Some(v) => v,
        None => { return Err(LoginError::Missing(LoginField::ClientId)); },
    };
    let client_secret = match client_secret {
        Some(v) => v,
        None => { return Err(LoginError::Missing(LoginField::ClientSecret)); },
    };
    Ok(ClientRegistration { client_id, client_secret })
}

/// What the user is shown and how the login then polls.
pub struct DeviceAuthorization {
    pub device_code: String,
    pub user_code: String,
    /// The complete verification URI where the reply has one, else the plain one.
    pub verification_uri: String,
    /// Seconds between polls: the interval the service asks for, at least 5.
    pub poll_secs: u64,
}

/// Seconds between polls for a requested interval: the interval taken as an
/// unsigned number, and at least 5.
pub open spec fn poll_secs(interval: i32) -> u64 {
    let i = interval as u64;
    if i > 5 {
        i
    } else {
        5
    }
}

/// The login waits at least five seconds between polls, and exactly the
/// interval the service asks for when that is longer.
pub proof fn lemma_poll_interval(interval: i32)
    ensures
        poll_secs(interval) >= 5,
        interval >= 5 ==> poll_secs(interval) == interval,
        0 <= interval <= 5 ==> poll_secs(interval) == 5,
{
}

/// The device authorization, or the first member that the reply lacks.
pub fn device_authorization(
    device_code: Option<String>,
    user_code: Option<String>,
    verification_uri_complete: Option<String>,
    verification_uri: Option<String>,
    interval: i32,
) -> (r: Result<DeviceAuthorization, LoginError>)
    ensures
        match (device_code, user_code, verification_uri_complete, verification_uri) {
            (None, _, _, _) => r == Err::<DeviceAuthorization, LoginError>(LoginError::Missing(LoginField::DeviceCode)),
            (Some(_), None, _, _) => r == Err::<DeviceAuthorization, LoginError>(LoginError::Missing(LoginField::UserCode)),
            (Some(_), Some(_), None, None) => r == Err::<DeviceAuthorization, LoginError>(LoginError::Missing(LoginField::VerificationUri)),
            (Some(d), Some(u), Some(c), _) => r == Ok::<DeviceAuthorization, LoginError>(DeviceAuthorization {
                device_code: d,
                user_code: u,
                verification_uri: c,
                poll_secs: poll_secs(interval),
            }),
            (Some(d), Some(u), None, Some(p)) => r == Ok::<DeviceAuthorization, LoginError>(DeviceAuthorization {
                device_code: d,
                user_code: u,
                verification_uri: p,
                poll_secs: poll_secs(interval),
            }),
        },
{
    let device_code = match device_code {
        Some(v) => v,
        None => { return Err(LoginError::Missing(LoginField::DeviceCode)); },
    };
    let user_code = match user_code {
        Some(v) => v,
        None => { return Err(LoginError::Missing(LoginField::UserCode)); },
    };
    let verification_uri = match verification_uri_complete {
        Some(v) => v,
        None => match verification_uri {
            Some(v) => v,
            None => { return Err(LoginError::Missing(LoginField::VerificationUri)); },
        },
    };
    let requested = interval as u64;
    let poll_secs = if requested > 5 {
        requested
    } else {
        5
    };
    Ok(DeviceAuthorization { device_code, user_code, verification_uri, poll_secs })
}

/// What to do after a failed token request.
pub enum PollStep {
    /// The user has not finished signing in yet: poll again.
    KeepWaiting,
    /// Give up with this error.
    Fail(LoginError),
}

/// Whether a token error means that the authorization is still pending or
/// that polling must slow down.
pub open spec fn is_pending(error_text: Seq<char>) -> bool {
    has_substring(error_text, "AuthorizationPendingException"@) || has_substring(
        error_text,
        "SlowDownException"@,
    )
}

/// A failed poll keeps the sign-in waiting exactly when its error text
/// contains, anywhere in it, `AuthorizationPendingException` or
/// `SlowDownException`.
pub proof fn lemma_pending_anywhere(error_text: Seq<char>, i: int)
    ensures
        0 <= i && i + 17 <= error_text.len() && error_text.subrange(i, i + 17) == "SlowDownException"@
            ==> is_pending(error_text),
        0 <= i && i + 29 <= error_text.len() && error_text.subrange(i, i + 29)
            == "AuthorizationPendingException"@ ==> is_pending(error_text),
        is_pending(error_text) ==> (exists|j: int|
            0 <= j && j + 17 <= error_text.len() && #[trigger] error_text.subrange(j, j + 17)
                == "SlowDownException"@) || (exists|j: int|
            0 <= j && j + 29 <= error_text.len() && #[trigger] error_text.subrange(j, j + 29)
                == "AuthorizationPendingException"@),
{
    reveal_strlit("SlowDownException");
    reveal_strlit("AuthorizationPendingException");
    if 0 <= i && i + 17 <= error_text.len() && error_text.subrange(i, i + 17) == "SlowDownException"@ {
        assert(error_text.subrange(i, i + "SlowDownException"@.len()) == "SlowDownException"@);
    }
    if 0 <= i && i + 29 <= error_text.len() && error_text.subrange(i, i + 29)
        == "AuthorizationPendingException"@ {
        assert(error_text.subrange(i, i + "AuthorizationPendingException"@.len())
            == "AuthorizationPendingException"@);
    }
    if is_pending(error_text) {
        if has_substring(error_text, "SlowDownException"@) {
            let j = choose|j: int|
                0 <= j <= error_text.len() - "SlowDownException"@.len() && #[trigger] error_text.subrange(
                    j,
                    j + "SlowDownException"@.len(),
                ) == "SlowDownException"@;
            assert(error_text.subrange(j, j + 17) == "SlowDownException"@);
        } else {
            let j = choose|j: int|
                0 <= j <= error_text.len() - "AuthorizationPendingException"@.len()
                    && #[trigger] error_text.subrange(j, j + "AuthorizationPendingException"@.len())
                    == "AuthorizationPendingException"@;
            assert(error_text.subrange(j, j + 29) == "AuthorizationPendingException"@);
        }
    }
}

/// The step after a failed token request with this error text.
pub fn token_poll_step(error_text: String) -> (s: PollStep)
    ensures
        is_pending(error_text@) ==> s is KeepWaiting,
        !is_pending(error_text@) ==> s == PollStep::Fail(LoginError::TokenExchange(error_text)),
{
    let text = chars_of(error_text.as_str());
    let pending = chars_of("AuthorizationPendingException");
    let slow = chars_of("SlowDownException");
    if contains_chars(&text, &pending) || contains_chars(&text, &slow) {
        PollStep::KeepWaiting
    } else {
        PollStep::Fail(LoginError::TokenExchange(error_text))
    }
}

/// The token to cache once the user has signed in, or the token has been
/// renewed, at time `now_ms`: it expires `expires_in_secs` seconds later,
/// belongs to the profile's SSO region and start URL, and is renewed later
/// with `refresh`.
pub fn token_cache_entry(
    profile: &SsoProfile,
    access_token: Option<String>,
    expires_in_secs: i32,
    now_ms: i64,
    refresh: Option<RefreshGrant>,
) -> (r: Result<SsoTokenCache, LoginError>)
    requires
        i64::MIN <= now_ms + expires_in_secs * 1000 <= i64::MAX,
    ensures
        access_token is None ==> r == Err::<SsoTokenCache, LoginError>(LoginError::Missing(LoginField::AccessToken)),
        access_token matches Some(t) ==> (r matches Ok(c) && c.access_token == t && c.expires_at_ms == now_ms
            + expires_in_secs * 1000 && c.region@ == profile.sso_region@ && c.start_url@
            == profile.sso_start_url@ && c.refresh == refresh),
{
    let access_token = match access_token {
        Some(t) => t,
        None => { return Err(LoginError::Missing(LoginField::AccessToken)); },
    };
    Ok(
        SsoTokenCache {
            access_token,
            expires_at_ms: now_ms + (expires_in_secs as i64) * 1000,
            region: profile.sso_region.clone(),
            start_url: profile.sso_start_url.clone(),
            refresh,
        },
    )
}

/// The grant that renews the token of a sign-in: the registered client and
/// the refresh token of the token reply, where the reply has one.
pub fn refresh_grant(client: &ClientRegistration, refresh_token: Option<String>) -> (g: Option<RefreshGrant>)
    ensures
        match refresh_token {
            Some(t) => g matches Some(r) && r.client_id == client.client_id && r.client_secret
                == client.client_secret && r.refresh_token == t,
            None => g is None,
        },
{
    match refresh_token {
        Some(t) => Some(
            RefreshGrant {
                client_id: client.client_id.clone(),
                client_secret: client.client_secret.clone(),
                refresh_token: t,
            },
        ),
        None => None,
    }
}

/// A token reply of the SSO service, as far as the cache needs it.
pub struct TokenReply {
    pub access_token: Option<String>,
    pub expires_in_secs: i32,
    pub refresh_token: Option<String>,
}

/// The token to cache after renewing with `grant` at time `now_ms`: the
/// reply's access token and lifetime, renewed later with the reply's refresh
/// token where it sends a new one, else with the same one. A renewal that
/// failed (`None`) or a reply without an access token leaves the user to sign
/// in again.
pub fn renewed_token(profile: &SsoProfile, grant: RefreshGrant, reply: Option<TokenReply>, now_ms: i64) -> (r: Result<SsoTokenCache, ToolError>)
    requires
        reply matches Some(p) ==> i64::MIN <= now_ms + p.expires_in_secs * 1000 <= i64::MAX,
    ensures
        match reply {
            Some(TokenReply { access_token: Some(a), expires_in_secs, refresh_token }) => r matches Ok(c) && {
                &&& c.access_token == a
                &&& c.expires_at_ms == now_ms + expires_in_secs * 1000
                &&& c.region@ == profile.sso_region@
                &&& c.start_url@ == profile.sso_start_url@
                &&& c.refresh matches Some(g) && g.client_id == grant.client_id && g.client_secret
                    == grant.client_secret && g.refresh_token == match refresh_token {
                    Some(t) => t,
                    None => grant.refresh_token,
                }
            },
            _ => r is Err && r->Err_0@ == ErrorView::NotAuthenticated(profile.name@),
        },
{
    match reply {
        Some(TokenReply { access_token: Some(a), expires_in_secs, refresh_token }) => {
            let next = RefreshGrant {
                client_id: grant.client_id,
                client_secret: grant.client_secret,
                refresh_token: match refresh_token {
                    Some(t) => t,
                    None => grant.refresh_token,
                },
            };
            match token_cache_entry(profile, Some(a), expires_in_secs, now_ms, Some(next)) {
                Ok(c) => Ok(c),
                Err(_) => Err(ToolError::NotAuthenticated(profile.name.clone())),
            }
        },
        _ => Err(ToolError::NotAuthenticated(profile.name.clone())),
    }
}

/// The role credentials of a reply, as the service sends them.
pub struct RoleCredentials {
    pub access_key_id: Option<String>,
    pub secret_access_key: Option<String>,
    pub session_token: Option<String>,
    pub expiration_ms: i64,
}

/// Whether `chrono` can represent the instant `ms` milliseconds after the
/// epoch: from the first millisecond of the year -262143 to the last of the
/// year 262142.
pub open spec fn representable_millis(ms: i64) -> bool {
    -8_334_601_228_800_000 <= ms <= 8_210_266_876_799_999
}

/// Whether the instant is within chrono's dates
/// (`chrono::DateTime::from_timestamp_millis(ms).is_some()`). The bounds are
/// those of chrono's `NaiveDate` years, `MIN_YEAR` and `MAX_YEAR`, reached
/// through `from_timestamp` and `from_num_days_from_ce_opt`.
#[verifier::external_body]
fn millis_representable(ms: i64) -> (b: bool)
    ensures
        b == representable_millis(ms),
{
    chrono::DateTime::from_timestamp_millis(ms).is_some()
}

/// The credentials of a reply: the first missing member or an expiry outside
/// chrono's dates is an error, checked in the order the reply is read.
pub fn credentials_from_role(role: Option<RoleCredentials>) -> (r: Result<CachedCredentials, LoginError>)
    ensures
        match role {
            None => r == Err::<CachedCredentials, LoginError>(LoginError::Missing(LoginField::RoleCredentials)),
            Some(c) => if !representable_millis(c.expiration_ms) {
                r == Err::<CachedCredentials, LoginError>(LoginError::InvalidExpiration)
            } else {
                match (c.access_key_id, c.secret_access_key, c.session_token) {
                    (None, _, _) => r == Err::<CachedCredentials, LoginError>(LoginError::Missing(LoginField::AccessKeyId)),
                    (Some(_), None, _) => r == Err::<CachedCredentials, LoginError>(LoginError::Missing(LoginField::SecretAccessKey)),
                    (Some(_), Some(_), None) => r == Err::<CachedCredentials, LoginError>(LoginError::Missing(LoginField::SessionToken)),
                    (Some(a), Some(s), Some(t)) => r == Ok::<CachedCredentials, LoginError>(CachedCredentials {
                        access_key_id: a,
                        secret_access_key: s,
                        session_token: t,
                        expiration_ms: c.expiration_ms,
                    }),
                }
            },
        },
{
    let role = match role {
        Some(c) => c,
        None => { return Err(LoginError::Missing(LoginField::RoleCredentials)); },
    };
    if !millis_representable(role.expiration_ms) {
        return Err(LoginError::InvalidExpiration);
    }
    let access_key_id = match role.access_key_id {
        Some(v) => v,
        None => { return Err(LoginError::Missing(LoginField::AccessKeyId)); },
    };
    let secret_access_key = match role.secret_access_key {
        Some(v) => v,
        None => { return Err(LoginError::Missing(LoginField::SecretAccessKey)); },
    };
    let session_token = match role.session_token {
        Some(v) => v,
        None => { return Err(LoginError::Missing(LoginField::SessionToken)); },
    };
    Ok(
        CachedCredentials {
            access_key_id,
            secret_access_key,
            session_token,
            expiration_ms: role.expiration_ms,
        },
    )
}

} // verus!
