//! Bearer-token lifecycle: which credential a caller gets, and the refresh
//! protocol that runs under the process-wide refresh lock.
//!
//! Time is a Unix timestamp in whole seconds, handed in by the caller.

use vstd::prelude::*;
use crate::error::GhrustError;

verus! {

/// How long before its expiry an access credential is already treated as
/// expired, in seconds.
pub const EXPIRY_BUFFER_SECS: i64 = 300;

/// A structured credential record.
pub struct OAuthTokenData {
    /// The bearer credential presented to the remote API.
    pub access_token: String,
    /// The credential that obtains a new access credential; empty when the
    /// record cannot be refreshed.
    pub refresh_token: String,
    /// Credential kind, usually "bearer".
    pub token_type: String,
    /// Granted scope.
    pub scope: String,
    /// When the access credential expires.
    pub expires_at: i64,
    /// When the refresh credential expires.
    pub refresh_token_expires_at: i64,
}

/// The access credential is more than the buffer away from its expiry.
pub open spec fn access_valid_at(t: OAuthTokenData, now: int) -> bool {
    t.expires_at > now + EXPIRY_BUFFER_SECS
}

/// The refresh credential can still be used.
pub open spec fn refresh_usable_at(t: OAuthTokenData, now: int) -> bool {
    t.refresh_token@.len() > 0 && now <= t.refresh_token_expires_at
}

impl OAuthTokenData {
    /// A field-by-field copy.
    pub fn duplicate(&self) -> (r: Self)
        ensures
            r == *self,
    {
        OAuthTokenData {
            access_token: self.access_token.clone(),
            refresh_token: self.refresh_token.clone(),
            token_type: self.token_type.clone(),
            scope: self.scope.clone(),
            expires_at: self.expires_at,
            refresh_token_expires_at: self.refresh_token_expires_at,
        }
    }
}

/// What a caller of `get_valid_token` is handed, or must do next.
pub enum TokenResolution {
    /// Use this credential.
    Ready(String),
    /// The stored record is expired: take the refresh lock and run the
    /// refresh protocol.
    NeedsRefresh,
    /// No credential can be had.
    Failed(GhrustError),
}

/// What the refresh protocol does once the lock is held.
pub enum RefreshAction {
    /// Another caller refreshed meanwhile: use this credential.
    Reuse(String),
    /// Make exactly one refresh call with this refresh credential.
    Refresh(String),
}

/// The next state of the stored record and the answer of `begin_refresh`.
pub open spec fn begin_spec(stored: Option<OAuthTokenData>, now: int) -> (Option<
    OAuthTokenData,
>, Result<RefreshAction, GhrustError>) {
    match stored {
        None => (None, Err(GhrustError::NotAuthenticated)),
        Some(t) => if access_valid_at(t, now) {
            (stored, Ok(RefreshAction::Reuse(t.access_token)))
        } else if !refresh_usable_at(t, now) {
            (None, Err(GhrustError::TokenRefreshExpired))
        } else {
            (stored, Ok(RefreshAction::Refresh(t.refresh_token)))
        },
    }
}

/// The next state of the stored record and the answer of `finish_refresh`.
pub open spec fn finish_spec(outcome: Result<OAuthTokenData, String>) -> (Option<
    OAuthTokenData,
>, Result<String, GhrustError>) {
    match outcome {
        Ok(t) => (Some(t), Ok(t.access_token)),
        Err(reason) => (None, Err(GhrustError::TokenRefreshFailed(reason))),
    }
}

/// One caller's pass through the refresh protocol, given what the refresh
/// call would return: the record afterwards, the answer, and whether the
/// refresh call was made.
pub open spec fn caller_spec(
    stored: Option<OAuthTokenData>,
    now: int,
    outcome: Result<OAuthTokenData, String>,
) -> (Option<OAuthTokenData>, Result<String, GhrustError>, bool) {
    let (s1, step) = begin_spec(stored, now);
    match step {
        Ok(RefreshAction::Reuse(tok)) => (s1, Ok(tok), false),
        Ok(RefreshAction::Refresh(_)) => {
            let (s2, res) = finish_spec(outcome);
            (s2, res, true)
        },
        Err(e) => (s1, Err(e), false),
    }
}

/// Callers that take the refresh lock one after another, the i-th at time
/// `nows[i]`: the record afterwards, the number of refresh calls made, and
/// each caller's answer.
pub open spec fn serve_spec(
    stored: Option<OAuthTokenData>,
    nows: Seq<i64>,
    outcome: Result<OAuthTokenData, String>,
) -> (Option<OAuthTokenData>, nat, Seq<Result<String, GhrustError>>)
    decreases nows.len(),
{
    if nows.len() == 0 {
        (stored, 0, seq![])
    } else {
        let (s1, res, called) = caller_spec(stored, nows[0] as int, outcome);
        let (s2, calls, rest) = serve_spec(s1, nows.drop_first(), outcome);
        (s2, calls + if called { 1nat } else { 0nat }, seq![res] + rest)
    }
}

/// The credential resolution: a non-empty override, else the stored record
/// (or the demand to refresh it), else the legacy credential.
pub open spec fn resolve_spec(
    override_token: Option<String>,
    stored: Option<OAuthTokenData>,
    legacy: Option<String>,
    now: int,
) -> TokenResolution {
    match override_token {
        Some(o) if o@.len() > 0 => TokenResolution::Ready(o),
        _ => match stored {
            Some(t) => if access_valid_at(t, now) {
                TokenResolution::Ready(t.access_token)
            } else {
                TokenResolution::NeedsRefresh
            },
            None => match legacy {
                Some(l) => TokenResolution::Ready(l),
                None => TokenResolution::Failed(GhrustError::NotAuthenticated),
            },
        },
    }
}

/// Resolves bearer credentials and decides each step of the refresh
/// protocol; the caller performs the lock, the store and the network call.
pub struct TokenManager;

impl TokenManager {
    /// Whether the access credential is expired or within the buffer of
    /// its expiry.
    pub fn is_token_expired(token_data: &OAuthTokenData, now: i64) -> (r: bool)
        ensures
            r == !access_valid_at(*token_data, now as int),
    {
        (token_data.expires_at as i128) <= (now as i128) + (EXPIRY_BUFFER_SECS as i128)
    }

    /// Whether the refresh credential is past its own expiry.
    pub fn is_refresh_token_expired(token_data: &OAuthTokenData, now: i64) -> (r: bool)
        ensures
            r == (now > token_data.refresh_token_expires_at),
    {
        now > token_data.refresh_token_expires_at
    }

    /// The credential for an outbound call. In order, first match wins: a
    /// non-empty override; the stored record when it is valid (or the demand
    /// to refresh it); a plain legacy credential; else `NotAuthenticated`.
    pub fn get_valid_token(
        override_token: Option<String>,
        stored: Option<OAuthTokenData>,
        legacy: Option<String>,
        now: i64,
    ) -> (r: TokenResolution)
        ensures
            r == resolve_spec(override_token, stored, legacy, now as int),
    {
        if let Some(o) = override_token {
            if o.unicode_len() > 0 {
                return TokenResolution::Ready(o);
            }
        }
        match stored {
            Some(t) => {
                if !Self::is_token_expired(&t, now) {
                    TokenResolution::Ready(t.access_token)
                } else {
                    TokenResolution::NeedsRefresh
                }
            },
            None => match legacy {
                Some(l) => TokenResolution::Ready(l),
                None => TokenResolution::Failed(GhrustError::NotAuthenticated),
            },
        }
    }

    /// First step under the refresh lock, with the record as stored now: a
    /// record that became valid meanwhile is reused; one whose refresh
    /// credential is empty or expired is deleted and `TokenRefreshExpired`
    /// returned; otherwise the refresh call is due.
    pub fn begin_refresh(stored: &mut Option<OAuthTokenData>, now: i64) -> (r: Result<
        RefreshAction,
        GhrustError,
    >)
        ensures
            (*final(stored), r) == begin_spec(*old(stored), now as int),
    {
        match stored {
            None => Err(GhrustError::NotAuthenticated),
            Some(t) => {
                if !Self::is_token_expired(t, now) {
                    Ok(RefreshAction::Reuse(t.access_token.clone()))
                } else if Self::is_refresh_token_expired(t, now) || t.refresh_token.unicode_len()
                    == 0 {
                    *stored = None;
                    Err(GhrustError::TokenRefreshExpired)
                } else {
                    Ok(RefreshAction::Refresh(t.refresh_token.clone()))
                }
            },
        }
    }

    /// Last step under the refresh lock, with what the refresh call
    /// returned: a new record is stored and its credential returned; a
    /// failure deletes the stored record and is reported with its reason.
    pub fn finish_refresh(
        stored: &mut Option<OAuthTokenData>,
        outcome: Result<OAuthTokenData, String>,
    ) -> (r: Result<String, GhrustError>)
        ensures
            (*final(stored), r) == finish_spec(outcome),
    {
        match outcome {
            Ok(t) => {
                let tok = t.access_token.clone();
                *stored = Some(t);
                Ok(tok)
            },
            Err(reason) => {
                *stored = None;
                Err(GhrustError::TokenRefreshFailed(reason))
            },
        }
    }

    /// Whether some credential is available: a non-empty override, a stored
    /// record or a legacy credential.
    pub fn is_authenticated(override_token: &Option<String>, has_data: bool, has_legacy: bool) -> (r:
        bool)
        ensures
            r == ((override_token is Some && override_token->0@.len() > 0) || has_data
                || has_legacy),
    {
        match override_token {
            Some(o) => if o.unicode_len() > 0 {
                return true;
            },
            None => {},
        }
        has_data || has_legacy
    }
}

/// A non-empty override is returned as it is, whatever record or legacy
/// credential is stored.
pub proof fn lemma_override_wins(
    o: String,
    stored: Option<OAuthTokenData>,
    legacy: Option<String>,
    now: int,
)
    requires
        o@.len() > 0,
    ensures
        resolve_spec(Some(o), stored, legacy, now) == TokenResolution::Ready(o),
{
}

/// Callers that one after another take the refresh lock while the stored
/// record stays valid all reuse it, and none makes a refresh call.
pub proof fn lemma_valid_record_reused(
    t: OAuthTokenData,
    nows: Seq<i64>,
    outcome: Result<OAuthTokenData, String>,
)
    requires
        forall|i: int| 0 <= i < nows.len() ==> access_valid_at(t, nows[i] as int),
    ensures
        serve_spec(Some(t), nows, outcome).0 == Some(t),
        serve_spec(Some(t), nows, outcome).1 == 0,
        serve_spec(Some(t), nows, outcome).2 =~= Seq::new(
            nows.len(),
            |i: int| Ok::<String, GhrustError>(t.access_token),
        ),
    decreases nows.len(),
{
    if nows.len() > 0 {
        let rest = nows.drop_first();
        assert forall|i: int| 0 <= i < rest.len() implies access_valid_at(t, rest[i] as int) by {
            assert(rest[i] == nows[i + 1]);
        }
        lemma_valid_record_reused(t, rest, outcome);
    }
}

/// Refresh mutual exclusion: when callers that found the access credential
/// expired take the refresh lock one after another, exactly one refresh call
/// is made, every caller receives the refreshed credential, and the refreshed
/// record is what stays stored (provided the refreshed credential is valid
/// at each caller's time).
pub proof fn lemma_single_refresh(t: OAuthTokenData, fresh: OAuthTokenData, nows: Seq<i64>)
    requires
        nows.len() > 0,
        !access_valid_at(t, nows[0] as int),
        refresh_usable_at(t, nows[0] as int),
        forall|i: int| 0 <= i < nows.len() ==> access_valid_at(fresh, nows[i] as int),
    ensures
        serve_spec(Some(t), nows, Ok(fresh)).0 == Some(fresh),
        serve_spec(Some(t), nows, Ok(fresh)).1 == 1,
        serve_spec(Some(t), nows, Ok(fresh)).2 =~= Seq::new(
            nows.len(),
            |i: int| Ok::<String, GhrustError>(fresh.access_token),
        ),
{
    let rest = nows.drop_first();
    assert forall|i: int| 0 <= i < rest.len() implies access_valid_at(fresh, rest[i] as int) by {
        assert(rest[i] == nows[i + 1]);
    }
    lemma_valid_record_reused(fresh, rest, Ok(fresh));
}

/// Refresh terminal failure: on the refresh path, an empty refresh
/// credential or one past its own expiry yields `TokenRefreshExpired` and
/// leaves no stored record.
pub proof fn lemma_refresh_terminal(t: OAuthTokenData, now: int)
    requires
        !access_valid_at(t, now),
        t.refresh_token@.len() == 0 || now > t.refresh_token_expires_at,
    ensures
        begin_spec(Some(t), now) == (
        None::<OAuthTokenData>,
        Err::<RefreshAction, GhrustError>(GhrustError::TokenRefreshExpired),
        ),
{
}

} // verus!
