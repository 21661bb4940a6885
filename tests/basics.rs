use argo::config::{Config, GeminiModel};
use argo::credentials::CredentialStore;
use argo::github::{
    build_app_install_url, extract_org_from_access_error, is_not_found_error, is_rate_limit_error,
};
use argo::repository::{parse_github_url, RepositoryContext};
use argo::token::TokenManager;
use argo::update::{platform_asset_name, UpdatePersistentState, UpdateState};
use argo::update_checker::{is_prerelease, ReleaseVersion, GITHUB_REPO};

#[test]
fn test_gemini_model_from_str() {
    assert_eq!(GeminiModel::from_str("gemini-2.0-flash"), Some(GeminiModel::Gemini20Flash));
    assert_eq!(GeminiModel::from_str("gemini-2.5-flash"), Some(GeminiModel::Gemini25Flash));
    assert_eq!(
        GeminiModel::from_str("gemini-3-flash-preview"),
        Some(GeminiModel::Gemini3FlashPreview)
    );
    assert_eq!(GeminiModel::from_str("invalid"), None);
}

#[test]
fn test_default_config() {
    let config = Config::default();
    assert_eq!(config.gemini_model, GeminiModel::Gemini25Flash);
    assert_eq!(config.poll_interval_secs, 30);
}

#[test]
fn test_mask_token() {
    assert_eq!(CredentialStore::mask_token("abc"), "***");
    assert_eq!(CredentialStore::mask_token("ghp_1234567890abcdef"), "ghp_...cdef");
}

#[test]
fn test_parse_https_url() {
    let (owner, repo) = parse_github_url("https://github.com/owner/repo.git").unwrap();
    assert_eq!(owner, "owner");
    assert_eq!(repo, "repo");
}

#[test]
fn test_parse_https_url_no_git() {
    let (owner, repo) = parse_github_url("https://github.com/owner/repo").unwrap();
    assert_eq!(owner, "owner");
    assert_eq!(repo, "repo");
}

#[test]
fn test_parse_ssh_url() {
    let (owner, repo) = parse_github_url("git@github.com:owner/repo.git").unwrap();
    assert_eq!(owner, "owner");
    assert_eq!(repo, "repo");
}

#[test]
fn test_parse_ssh_url_no_git() {
    let (owner, repo) = parse_github_url("git@github.com:owner/repo").unwrap();
    assert_eq!(owner, "owner");
    assert_eq!(repo, "repo");
}

#[test]
fn test_parse_ssh_protocol_url() {
    let (owner, repo) = parse_github_url("ssh://git@github.com/owner/repo.git").unwrap();
    assert_eq!(owner, "owner");
    assert_eq!(repo, "repo");
}

#[test]
fn test_invalid_url() {
    assert!(parse_github_url("not-a-url").is_err());
    assert!(parse_github_url("https://gitlab.com/owner/repo").is_err());
}

#[test]
fn test_repository_context_full_name() {
    let ctx = RepositoryContext {
        owner: "myorg".to_string(),
        name: "myrepo".to_string(),
        current_branch: "main".to_string(),
        default_branch: "main".to_string(),
    };
    assert_eq!(ctx.full_name(), "myorg/myrepo");
    assert_eq!(ctx.github_url(), "https://github.com/myorg/myrepo");
}

#[test]
fn test_is_authenticated_with_env_var() {
    let result = TokenManager::is_authenticated(&Some("test_token".to_string()), false, false);
    assert!(result);
}

#[test]
fn test_is_prerelease() {
    let stable = ReleaseVersion::parse("1.0.0").unwrap();
    let prerelease = ReleaseVersion::parse("1.0.0-alpha").unwrap();
    assert!(!is_prerelease(&stable));
    assert!(is_prerelease(&prerelease));
}

#[test]
fn test_platform_asset_name() {
    let asset = platform_asset_name("linux", "x86_64");
    assert!(asset.is_some());
    assert!(asset.unwrap().starts_with("argo-"));
    let asset = platform_asset_name("macos", "aarch64");
    assert!(asset.is_some());
    assert!(asset.unwrap().starts_with("argo-"));
}

#[test]
fn test_update_state_default() {
    let state = UpdateState::default();
    assert!(matches!(state, UpdateState::Idle));
}

#[test]
fn test_persistent_state_should_check() {
    let now: i64 = 1_700_000_000;
    let mut state = UpdatePersistentState::new();
    assert!(state.should_check(now));
    assert!(state.mark_checked(now));
    assert!(!state.should_check(now));
}

#[test]
fn test_github_repo_constant() {
    assert!(GITHUB_REPO.contains('/'));
    assert!(!GITHUB_REPO.is_empty());
}

#[test]
fn test_extract_org_name_from_access_error() {
    let error_msg = r#"Although you appear to have the correct authorization credentials, the `acme-corp` organization has enabled OAuth App access restrictions"#;
    assert_eq!(extract_org_from_access_error(error_msg), Some("acme-corp".to_string()));
}

#[test]
fn test_extract_org_name_with_special_chars() {
    let error_msg = r#"the `my-org-123` organization has enabled OAuth App access restrictions"#;
    assert_eq!(extract_org_from_access_error(error_msg), Some("my-org-123".to_string()));
}

#[test]
fn test_no_org_in_regular_error() {
    let error_msg = "Some other error message without org info";
    assert_eq!(extract_org_from_access_error(error_msg), None);
}

#[test]
fn test_rate_limit_detection() {
    assert!(is_rate_limit_error("API rate limit exceeded"));
    assert!(is_rate_limit_error("403 limit exceeded"));
    assert!(!is_rate_limit_error("Some other error"));
}

#[test]
fn test_not_found_detection() {
    assert!(is_not_found_error("404 Not Found"));
    assert!(is_not_found_error("Resource Not Found"));
    assert!(!is_not_found_error("Some other error"));
}

#[test]
fn test_build_app_install_url() {
    assert_eq!(
        build_app_install_url(),
        "https://github.com/apps/argo-rs/installations/select_target"
    );
}

#[test]
fn model_cycle_and_names() {
    assert_eq!(GeminiModel::Gemini3FlashPreview.next(), GeminiModel::Gemini20Flash);
    assert_eq!(GeminiModel::Gemini20Flash.next(), GeminiModel::Gemini25Flash);
    assert_eq!(GeminiModel::Gemini25Flash.api_name(), "gemini-2.5-flash");
    assert_eq!(GeminiModel::Gemini3FlashPreview.display_name(), "Gemini 3 Flash Preview");
    assert_eq!(GeminiModel::all().len(), 3);
    let mut c = Config::default();
    c.set_gemini_model(GeminiModel::Gemini20Flash);
    assert_eq!(c.gemini_model, GeminiModel::Gemini20Flash);
}
