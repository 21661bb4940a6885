//! The device authorization flow's decisions, and the stored form of the
//! credential record.

use vstd::prelude::*;
use crate::clock::{format_rfc3339, parse_rfc3339, rfc3339_seconds, rfc3339_text};
use crate::error::GhrustError;
use crate::token::OAuthTokenData;

verus! {

/// The OAuth application's public client id.
pub const GITHUB_CLIENT_ID: &'static str = "Iv23likwShJV7sLmxc59";

/// The client id used for the device flow and for refreshes.
pub fn client_id() -> (r: &'static str)
    ensures
        r@ == GITHUB_CLIENT_ID@,
{
    GITHUB_CLIENT_ID
}

/// Access lifetime assumed when the server grants no expiry: one year.
pub const DEFAULT_ACCESS_LIFETIME_SECS: u64 = 31536000;

/// Added to the polling interval on each `slow_down` answer.
pub const SLOW_DOWN_STEP_SECS: u64 = 5;

/// The polling interval never grows beyond this.
pub const MAX_POLL_INTERVAL_SECS: u64 = 60;

/// The device code the server hands out.
pub struct DeviceCodeResponse {
    pub device_code: String,
    pub user_code: String,
    pub verification_uri: String,
    /// Seconds until the codes expire.
    pub expires_in: u64,
    /// Minimum polling interval in seconds.
    pub interval: u64,
}

/// A token answer without refresh support.
pub struct TokenResponse {
    pub access_token: String,
    pub token_type: String,
    pub scope: String,
}

/// A token answer, possibly with refresh support.
pub struct FullTokenResponse {
    pub access_token: String,
    pub token_type: String,
    pub scope: String,
    /// Seconds until the access credential expires.
    pub expires_in: Option<u64>,
    pub refresh_token: Option<String>,
    /// Seconds until the refresh credential expires.
    pub refresh_token_expires_in: Option<u64>,
}

/// `now` plus `secs`, held at the largest timestamp.
pub open spec fn add_secs(now: i64, secs: u64) -> i64 {
    if now + secs > i64::MAX {
        i64::MAX
    } else {
        (now + secs) as i64
    }
}

fn plus_secs(now: i64, secs: u64) -> (r: i64)
    ensures
        r == add_secs(now, secs),
{
    if (now as i128) + (secs as i128) > i64::MAX as i128 {
        i64::MAX
    } else {
        ((now as i128) + (secs as i128)) as i64
    }
}

/// `r` is the credential record that the token answer `resp` yields at
/// `now`.
pub open spec fn from_answer(r: OAuthTokenData, resp: FullTokenResponse, now: i64) -> bool {
    &&& r.access_token == resp.access_token
    &&& r.token_type == resp.token_type
    &&& r.scope == resp.scope
    &&& match (resp.refresh_token, resp.expires_in, resp.refresh_token_expires_in) {
        (Some(rt), Some(e), Some(re)) => r.refresh_token == rt && r.expires_at == add_secs(now, e)
            && r.refresh_token_expires_at == add_secs(now, re),
        _ => r.refresh_token@.len() == 0 && r.refresh_token_expires_at == now && r.expires_at
            == add_secs(
            now,
            match resp.expires_in {
                Some(e) => e,
                None => DEFAULT_ACCESS_LIFETIME_SECS,
            },
        ),
    }
}

/// The credential record a token answer yields at `now`. With refresh
/// support, both expiries come from the answer; without, the access
/// credential lasts as granted (a year if not stated), and the refresh
/// credential is empty and already expired.
pub fn token_data_from_response(resp: FullTokenResponse, now: i64) -> (r: OAuthTokenData)
    ensures
        from_answer(r, resp, now),
{
    match (resp.refresh_token, resp.expires_in, resp.refresh_token_expires_in) {
        (Some(rt), Some(e), Some(re)) => OAuthTokenData {
            access_token: resp.access_token,
            refresh_token: rt,
            token_type: resp.token_type,
            scope: resp.scope,
            expires_at: plus_secs(now, e),
            refresh_token_expires_at: plus_secs(now, re),
        },
        _ => {
            let e = match resp.expires_in {
                Some(e) => e,
                None => DEFAULT_ACCESS_LIFETIME_SECS,
            };
            OAuthTokenData {
                access_token: resp.access_token,
                refresh_token: String::new(),
                token_type: resp.token_type,
                scope: resp.scope,
                expires_at: plus_secs(now, e),
                refresh_token_expires_at: now,
            }
        },
    }
}

/// What one poll of the token endpoint returned, once read.
pub enum PollResponse {
    /// A token answer.
    Token(FullTokenResponse),
    /// An error answer, with its error code.
    Error(String),
    /// Neither could be read.
    Unreadable,
}

/// What the polling loop does next.
pub enum PollAction {
    /// Wait this many seconds and poll again.
    Wait(u64),
    /// The user authorized: store this record.
    Done(OAuthTokenData),
    /// Stop with this error.
    Fail(GhrustError),
}

/// The device flow's polling state.
pub struct DevicePoll {
    /// Seconds to wait before the next poll.
    pub interval: u64,
    /// When the device code expires.
    pub deadline: i64,
}

impl DevicePoll {
    /// Polling for a device code handed out at `now`.
    pub fn new(code: &DeviceCodeResponse, now: i64) -> (r: Self)
        ensures
            r.interval == code.interval,
            r.deadline == add_secs(now, code.expires_in),
    {
        DevicePoll { interval: code.interval, deadline: plus_secs(now, code.expires_in) }
    }

    /// Before each wait: the code expired, or wait the interval.
    pub fn before_poll(&self, now: i64) -> (r: PollAction)
        ensures
            now > self.deadline ==> r == PollAction::Fail(GhrustError::AuthenticationExpired),
            now <= self.deadline ==> r == PollAction::Wait(self.interval),
    {
        if now > self.deadline {
            PollAction::Fail(GhrustError::AuthenticationExpired)
        } else {
            PollAction::Wait(self.interval)
        }
    }

    /// After a poll: a token answer ends the flow; `authorization_pending`
    /// and unreadable answers poll again; `slow_down` polls again after a
    /// longer interval (by five seconds, up to a minute); `expired_token`,
    /// `access_denied` and any other error code end it with an error.
    pub fn after_poll(&mut self, response: PollResponse, now: i64) -> (r: PollAction)
        ensures
            final(self).deadline == old(self).deadline,
            match response {
                PollResponse::Token(t) => r is Done && from_answer(r->Done_0, t, now)
                    && final(self).interval == old(self).interval,
                PollResponse::Unreadable => r == PollAction::Wait(old(self).interval)
                    && final(self).interval == old(self).interval,
                PollResponse::Error(code) => if code@ == "authorization_pending"@ {
                    r == PollAction::Wait(old(self).interval) && final(self).interval == old(
                        self,
                    ).interval
                } else if code@ == "slow_down"@ {
                    final(self).interval == (if old(self).interval >= MAX_POLL_INTERVAL_SECS
                        - SLOW_DOWN_STEP_SECS {
                        if old(self).interval > MAX_POLL_INTERVAL_SECS {
                            old(self).interval
                        } else {
                            MAX_POLL_INTERVAL_SECS
                        }
                    } else {
                        (old(self).interval + SLOW_DOWN_STEP_SECS) as u64
                    }) && r == PollAction::Wait(final(self).interval)
                } else if code@ == "expired_token"@ {
                    r == PollAction::Fail(GhrustError::AuthenticationExpired)
                } else if code@ == "access_denied"@ {
                    r is Fail && r->Fail_0 is AuthenticationFailed
                } else {
                    r == PollAction::Fail(GhrustError::AuthenticationFailed(code))
                },
            },
    {
        match response {
            PollResponse::Token(t) => PollAction::Done(token_data_from_response(t, now)),
            PollResponse::Unreadable => PollAction::Wait(self.interval),
            PollResponse::Error(code) => {
                if crate::text::str_eq(code.as_str(), "authorization_pending") {
                    PollAction::Wait(self.interval)
                } else if crate::text::str_eq(code.as_str(), "slow_down") {
                    if self.interval >= MAX_POLL_INTERVAL_SECS - SLOW_DOWN_STEP_SECS {
                        if self.interval <= MAX_POLL_INTERVAL_SECS {
                            self.interval = MAX_POLL_INTERVAL_SECS;
                        }
                    } else {
                        self.interval = self.interval + SLOW_DOWN_STEP_SECS;
                    }
                    PollAction::Wait(self.interval)
                } else if crate::text::str_eq(code.as_str(), "expired_token") {
                    PollAction::Fail(GhrustError::AuthenticationExpired)
                } else if crate::text::str_eq(code.as_str(), "access_denied") {
                    PollAction::Fail(
                        GhrustError::AuthenticationFailed(
                            String::from_str("Authorization was denied by the user"),
                        ),
                    )
                } else {
                    PollAction::Fail(GhrustError::AuthenticationFailed(code))
                }
            },
        }
    }
}

/// What a refresh call returned, once read: a record (when the answer
/// carries refresh support), else the error code, else a generic reason.
pub fn refresh_outcome(response: PollResponse, now: i64) -> (r: Result<OAuthTokenData, String>)
    ensures
        match response {
            PollResponse::Token(t) => match (
                t.refresh_token,
                t.expires_in,
                t.refresh_token_expires_in,
            ) {
                (Some(_), Some(_), Some(_)) => r is Ok && from_answer(r->Ok_0, t, now),
                _ => r is Err && r->Err_0@ == "Invalid response from GitHub"@,
            },
            PollResponse::Error(code) => r == Err::<OAuthTokenData, String>(code),
            PollResponse::Unreadable => r is Err && r->Err_0@ == "Invalid response from GitHub"@,
        },
{
    match response {
        PollResponse::Token(t) => {
            if t.refresh_token.is_some() && t.expires_in.is_some()
                && t.refresh_token_expires_in.is_some() {
                Ok(token_data_from_response(t, now))
            } else {
                Err(String::from_str("Invalid response from GitHub"))
            }
        },
        PollResponse::Error(code) => Err(code),
        PollResponse::Unreadable => Err(String::from_str("Invalid response from GitHub")),
    }
}

/// The credential record as the secret store keeps it.
pub struct StoredTokenData {
    pub access_token: String,
    pub refresh_token: String,
    pub token_type: String,
    pub scope: String,
    /// RFC 3339 access expiry.
    pub expires_at: String,
    /// RFC 3339 refresh expiry.
    pub refresh_token_expires_at: String,
    /// Format version.
    pub version: u8,
}

/// The stored form's format version.
pub const STORED_FORMAT_VERSION: u8 = 1;

impl OAuthTokenData {
    /// The stored form, with the expiries written as RFC 3339; an error
    /// where an expiry cannot be written.
    pub fn to_stored(&self) -> (r: Result<StoredTokenData, GhrustError>)
        ensures
            (rfc3339_text(self.expires_at) is Some && rfc3339_text(
                self.refresh_token_expires_at,
            ) is Some) <==> r is Ok,
            r is Ok ==> ({
                let s = r->Ok_0;
                &&& s.access_token == self.access_token
                &&& s.refresh_token == self.refresh_token
                &&& s.token_type == self.token_type
                &&& s.scope == self.scope
                &&& rfc3339_text(self.expires_at) == Some(s.expires_at@)
                &&& rfc3339_text(self.refresh_token_expires_at) == Some(
                    s.refresh_token_expires_at@,
                )
                &&& s.version == STORED_FORMAT_VERSION
            }),
            r is Err ==> r->Err_0 is Config,
    {
        let e = match format_rfc3339(self.expires_at) {
            Some(t) => t,
            None => {
                return Err(GhrustError::Config(String::from_str("token expiry out of range")));
            },
        };
        let re = match format_rfc3339(self.refresh_token_expires_at) {
            Some(t) => t,
            None => {
                return Err(GhrustError::Config(String::from_str("token expiry out of range")));
            },
        };
        Ok(
            StoredTokenData {
                access_token: self.access_token.clone(),
                refresh_token: self.refresh_token.clone(),
                token_type: self.token_type.clone(),
                scope: self.scope.clone(),
                expires_at: e,
                refresh_token_expires_at: re,
                version: STORED_FORMAT_VERSION,
            },
        )
    }

    /// The record from its stored form; an error where an expiry is not
    /// RFC 3339.
    pub fn from_stored(stored: StoredTokenData) -> (r: Result<OAuthTokenData, GhrustError>)
        ensures
            (rfc3339_seconds(stored.expires_at@) is Some && rfc3339_seconds(
                stored.refresh_token_expires_at@,
            ) is Some) <==> r is Ok,
            r is Ok ==> r->Ok_0 == (OAuthTokenData {
                access_token: stored.access_token,
                refresh_token: stored.refresh_token,
                token_type: stored.token_type,
                scope: stored.scope,
                expires_at: rfc3339_seconds(stored.expires_at@)->0,
                refresh_token_expires_at: rfc3339_seconds(stored.refresh_token_expires_at@)->0,
            }),
            r is Err ==> r->Err_0 is Config,
    {
        let e = match parse_rfc3339(stored.expires_at.as_str()) {
            Some(t) => t,
            None => {
                return Err(GhrustError::Config(String::from_str("Invalid token expiration date")));
            },
        };
        let re = match parse_rfc3339(stored.refresh_token_expires_at.as_str()) {
            Some(t) => t,
            None => {
                return Err(
                    GhrustError::Config(String::from_str("Invalid refresh token expiration date")),
                );
            },
        };
        Ok(
            OAuthTokenData {
                access_token: stored.access_token,
                refresh_token: stored.refresh_token,
                token_type: stored.token_type,
                scope: stored.scope,
                expires_at: e,
                refresh_token_expires_at: re,
            },
        )
    }
}

} // verus!
