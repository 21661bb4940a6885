use argo::auth::{
    refresh_outcome, token_data_from_response, DevicePoll, DeviceCodeResponse, FullTokenResponse,
    PollAction, PollResponse, StoredTokenData,
};
use argo::credentials::{CacheEntry, CredentialStore, SecretSlot};
use argo::error::GhrustError;
use argo::token::{OAuthTokenData, RefreshAction, TokenManager, TokenResolution};

const NOW: i64 = 1_700_000_000;

fn record(access: &str, refresh: &str, expires_at: i64, refresh_expires_at: i64) -> OAuthTokenData {
    OAuthTokenData {
        access_token: access.to_string(),
        refresh_token: refresh.to_string(),
        token_type: "bearer".to_string(),
        scope: "repo".to_string(),
        expires_at,
        refresh_token_expires_at: refresh_expires_at,
    }
}

#[test]
fn override_wins_over_stored_record() {
    let stored = record("stored", "r", NOW + 10_000, NOW + 100_000);
    let r = TokenManager::get_valid_token(
        Some("override".to_string()),
        Some(stored),
        Some("legacy".to_string()),
        NOW,
    );
    assert!(matches!(r, TokenResolution::Ready(ref t) if t == "override"));
    let expired = record("stored", "r", NOW - 10, NOW + 100_000);
    let r = TokenManager::get_valid_token(Some("override".to_string()), Some(expired), None, NOW);
    assert!(matches!(r, TokenResolution::Ready(ref t) if t == "override"));
}

#[test]
fn empty_override_is_ignored() {
    let r = TokenManager::get_valid_token(Some(String::new()), None, Some("legacy".to_string()), NOW);
    assert!(matches!(r, TokenResolution::Ready(ref t) if t == "legacy"));
}

#[test]
fn nothing_stored_is_not_authenticated() {
    let r = TokenManager::get_valid_token(None, None, None, NOW);
    assert!(matches!(r, TokenResolution::Failed(GhrustError::NotAuthenticated)));
    assert!(!TokenManager::is_authenticated(&None, false, false));
    assert!(TokenManager::is_authenticated(&None, false, true));
}

#[test]
fn expiry_buffer_boundaries() {
    let valid = record("a", "r", NOW + 301, NOW + 100_000);
    assert!(!TokenManager::is_token_expired(&valid, NOW));
    let r = TokenManager::get_valid_token(None, Some(valid), None, NOW);
    assert!(matches!(r, TokenResolution::Ready(ref t) if t == "a"));
    let soon = record("a", "r", NOW + 299, NOW + 100_000);
    assert!(TokenManager::is_token_expired(&soon, NOW));
    let r = TokenManager::get_valid_token(None, Some(soon), None, NOW);
    assert!(matches!(r, TokenResolution::NeedsRefresh));
    let exactly = record("a", "r", NOW + 300, NOW + 100_000);
    assert!(TokenManager::is_token_expired(&exactly, NOW));
}

#[test]
fn refresh_with_empty_credential_is_terminal() {
    let mut stored = Some(record("a", "", NOW - 1, NOW + 100_000));
    let r = TokenManager::begin_refresh(&mut stored, NOW);
    assert!(matches!(r, Err(GhrustError::TokenRefreshExpired)));
    assert!(stored.is_none());
}

#[test]
fn refresh_with_expired_credential_is_terminal() {
    let mut stored = Some(record("a", "r", NOW - 1, NOW - 1));
    let r = TokenManager::begin_refresh(&mut stored, NOW);
    assert!(matches!(r, Err(GhrustError::TokenRefreshExpired)));
    assert!(stored.is_none());
}

#[test]
fn refresh_without_record_is_not_authenticated() {
    let mut stored: Option<OAuthTokenData> = None;
    let r = TokenManager::begin_refresh(&mut stored, NOW);
    assert!(matches!(r, Err(GhrustError::NotAuthenticated)));
}

#[test]
fn failed_refresh_evicts_record() {
    let mut stored = Some(record("a", "r", NOW - 1, NOW + 100_000));
    let r = TokenManager::begin_refresh(&mut stored, NOW);
    assert!(matches!(r, Ok(RefreshAction::Refresh(ref t)) if t == "r"));
    let r = TokenManager::finish_refresh(&mut stored, Err("bad_refresh_token".to_string()));
    assert_eq!(r, Err(GhrustError::TokenRefreshFailed("bad_refresh_token".to_string())));
    assert!(stored.is_none());
}

#[test]
fn concurrent_refresh_makes_one_call() {
    let mut stored = Some(record("old", "r", NOW - 1, NOW + 100_000));
    let mut calls = 0;
    let mut answers: Vec<String> = Vec::new();
    for _ in 0..5 {
        match TokenManager::begin_refresh(&mut stored, NOW) {
            Ok(RefreshAction::Reuse(t)) => answers.push(t),
            Ok(RefreshAction::Refresh(_)) => {
                calls += 1;
                let fresh = record("new", "r2", NOW + 28_800, NOW + 15_811_200);
                answers.push(TokenManager::finish_refresh(&mut stored, Ok(fresh)).unwrap());
            }
            Err(e) => panic!("unexpected {:?}", e),
        }
    }
    assert_eq!(calls, 1);
    assert!(answers.iter().all(|t| t == "new"));
}

#[test]
fn cache_last_write_wins() {
    let mut slot: SecretSlot<String> = SecretSlot::new();
    assert!(matches!(slot.get(), CacheEntry::Unknown));
    slot.record_set("one".to_string());
    slot.record_fetch(None);
    assert!(matches!(slot.get(), CacheEntry::Present(ref v) if v == "one"));
    slot.record_delete();
    slot.record_fetch(Some("stale".to_string()));
    assert!(matches!(slot.get(), CacheEntry::Absent));
    slot.record_set("two".to_string());
    assert!(matches!(slot.get(), CacheEntry::Present(ref v) if v == "two"));
}

#[test]
fn cache_read_through_fills_unknown() {
    let mut store = CredentialStore::new();
    assert_eq!(store.has_gemini_key(), None);
    store.gemini_key.record_fetch(None);
    assert_eq!(store.has_gemini_key(), Some(false));
    store.github_token.record_fetch(Some("tok".to_string()));
    assert_eq!(store.has_github_token(), Some(true));
    assert_eq!(store.has_github_token_data(), None);
}

#[test]
fn mask_short_and_long() {
    assert_eq!(CredentialStore::mask_token(""), "");
    assert_eq!(CredentialStore::mask_token("12345678"), "********");
    assert_eq!(CredentialStore::mask_token("123456789"), "1234...6789");
}

#[test]
fn token_answer_with_refresh_support() {
    let resp = FullTokenResponse {
        access_token: "a".to_string(),
        token_type: "bearer".to_string(),
        scope: "repo".to_string(),
        expires_in: Some(28_800),
        refresh_token: Some("r".to_string()),
        refresh_token_expires_in: Some(15_811_200),
    };
    let t = token_data_from_response(resp, NOW);
    assert_eq!(t.expires_at, NOW + 28_800);
    assert_eq!(t.refresh_token_expires_at, NOW + 15_811_200);
    assert_eq!(t.refresh_token, "r");
}

#[test]
fn token_answer_without_refresh_support() {
    let resp = FullTokenResponse {
        access_token: "a".to_string(),
        token_type: "bearer".to_string(),
        scope: "repo".to_string(),
        expires_in: None,
        refresh_token: None,
        refresh_token_expires_in: None,
    };
    let t = token_data_from_response(resp, NOW);
    assert_eq!(t.expires_at, NOW + 31_536_000);
    assert_eq!(t.refresh_token_expires_at, NOW);
    assert!(t.refresh_token.is_empty());
}

#[test]
fn device_poll_decisions() {
    let code = DeviceCodeResponse {
        device_code: "d".to_string(),
        user_code: "U".to_string(),
        verification_uri: "https://github.com/login/device".to_string(),
        expires_in: 900,
        interval: 5,
    };
    let mut poll = DevicePoll::new(&code, NOW);
    assert!(matches!(poll.before_poll(NOW), PollAction::Wait(5)));
    assert!(matches!(poll.before_poll(NOW + 901), PollAction::Fail(GhrustError::AuthenticationExpired)));
    let a = poll.after_poll(PollResponse::Error("authorization_pending".to_string()), NOW);
    assert!(matches!(a, PollAction::Wait(5)));
    let a = poll.after_poll(PollResponse::Error("slow_down".to_string()), NOW);
    assert!(matches!(a, PollAction::Wait(10)));
    for _ in 0..20 {
        poll.after_poll(PollResponse::Error("slow_down".to_string()), NOW);
    }
    assert_eq!(poll.interval, 60);
    let a = poll.after_poll(PollResponse::Error("expired_token".to_string()), NOW);
    assert!(matches!(a, PollAction::Fail(GhrustError::AuthenticationExpired)));
    let a = poll.after_poll(PollResponse::Error("access_denied".to_string()), NOW);
    assert!(matches!(a, PollAction::Fail(GhrustError::AuthenticationFailed(_))));
    let a = poll.after_poll(PollResponse::Error("weird".to_string()), NOW);
    assert!(matches!(a, PollAction::Fail(GhrustError::AuthenticationFailed(ref e)) if e == "weird"));
    assert!(matches!(poll.after_poll(PollResponse::Unreadable, NOW), PollAction::Wait(60)));
}

#[test]
fn refresh_answer_outcomes() {
    let r = refresh_outcome(PollResponse::Error("bad_refresh_token".to_string()), NOW);
    assert_eq!(r.err(), Some("bad_refresh_token".to_string()));
    let r = refresh_outcome(PollResponse::Unreadable, NOW);
    assert_eq!(r.err(), Some("Invalid response from GitHub".to_string()));
}

#[test]
fn stored_form_round_trip() {
    let t = record("a", "r", 1_700_000_000, 1_715_811_200);
    let s = t.to_stored().unwrap();
    assert_eq!(s.expires_at, "2023-11-14T22:13:20+00:00");
    assert_eq!(s.version, 1);
    let back = OAuthTokenData::from_stored(s).unwrap();
    assert_eq!(back.expires_at, 1_700_000_000);
    assert_eq!(back.refresh_token_expires_at, 1_715_811_200);
    let bad = StoredTokenData {
        access_token: "a".to_string(),
        refresh_token: "r".to_string(),
        token_type: "bearer".to_string(),
        scope: "repo".to_string(),
        expires_at: "yesterday".to_string(),
        refresh_token_expires_at: "2023-11-14T22:13:20+00:00".to_string(),
        version: 1,
    };
    assert!(matches!(OAuthTokenData::from_stored(bad), Err(GhrustError::Config(_))));
    let far = record("a", "r", i64::MAX, 0);
    assert!(matches!(far.to_stored(), Err(GhrustError::Config(_))));
}
