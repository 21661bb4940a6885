use argo::error::GhrustError;
use argo::update::{
    final_file_name, is_archive_url, partial_file_name, staging_path, UpdatePersistentState,
};
use argo::update_checker::{
    calculate_sha256, check_for_update, verify_binary, ApplyAction, ApplyEvent, ApplyOutcome,
    GitHubAsset, GitHubRelease, ReleaseVersion, UpdateApplier, UpdateCheckResult,
};

fn asset(name: &str) -> GitHubAsset {
    GitHubAsset {
        name: name.to_string(),
        browser_download_url: format!("https://example.invalid/{}", name),
        size: 42,
    }
}

fn release(tag: &str, assets: Vec<GitHubAsset>) -> GitHubRelease {
    GitHubRelease { tag_name: tag.to_string(), name: None, prerelease: false, draft: false, assets }
}

fn current() -> ReleaseVersion {
    ReleaseVersion::parse("1.2.3").unwrap()
}

fn staged() -> UpdatePersistentState {
    let mut s = UpdatePersistentState::new();
    s.begin_download();
    s.complete_download(
        "/tmp/argo-1.3.0".to_string(),
        "1.3.0".to_string(),
        "ba7816bf8f01cfea414140de5dae2223b00361a396177a9cb410ff61f20015ad".to_string(),
    );
    s
}

#[test]
fn newer_release_with_asset_is_available() {
    let r = release("v1.3.0", vec![asset("argo-linux-aarch64"), asset("argo-linux-x86_64.tar.gz")]);
    let out = check_for_update(&r, &current(), &Some("argo-linux-x86_64".to_string())).unwrap();
    match out {
        UpdateCheckResult::Available { version, download_url, asset_size } => {
            assert_eq!(version.to_text(), "1.3.0");
            assert_eq!(download_url, "https://example.invalid/argo-linux-x86_64.tar.gz");
            assert_eq!(asset_size, 42);
        }
        UpdateCheckResult::UpToDate => panic!("expected an update"),
    }
}

#[test]
fn same_or_older_release_is_up_to_date() {
    let asset_name = Some("argo-linux-x86_64".to_string());
    let r = release("v1.2.3", vec![asset("argo-linux-x86_64")]);
    assert!(matches!(check_for_update(&r, &current(), &asset_name), Ok(UpdateCheckResult::UpToDate)));
    let r = release("1.1.9", vec![asset("argo-linux-x86_64")]);
    assert!(matches!(check_for_update(&r, &current(), &asset_name), Ok(UpdateCheckResult::UpToDate)));
}

#[test]
fn draft_and_prerelease_are_skipped() {
    let asset_name = Some("argo-linux-x86_64".to_string());
    let mut r = release("v9.0.0", vec![asset("argo-linux-x86_64")]);
    r.draft = true;
    assert!(matches!(check_for_update(&r, &current(), &asset_name), Ok(UpdateCheckResult::UpToDate)));
    let r = release("v9.0.0-beta.1", vec![asset("argo-linux-x86_64")]);
    assert!(matches!(check_for_update(&r, &current(), &asset_name), Ok(UpdateCheckResult::UpToDate)));
}

#[test]
fn release_errors() {
    let asset_name = Some("argo-linux-x86_64".to_string());
    let r = release("latest", vec![]);
    assert!(matches!(check_for_update(&r, &current(), &asset_name), Err(GhrustError::Custom(_))));
    let r = release("v2.0.0", vec![asset("argo-macos-aarch64")]);
    assert!(matches!(check_for_update(&r, &current(), &asset_name), Err(GhrustError::Custom(_))));
    let r = release("v2.0.0", vec![asset("argo-linux-x86_64")]);
    assert!(matches!(check_for_update(&r, &current(), &None), Err(GhrustError::Custom(_))));
}

#[test]
fn version_order() {
    let a = ReleaseVersion::parse("1.10.0").unwrap();
    let b = ReleaseVersion::parse("1.9.9").unwrap();
    assert!(a.is_newer_than(&b));
    assert!(!b.is_newer_than(&a));
    let pre = ReleaseVersion::parse("1.10.0-rc.1").unwrap();
    assert!(a.is_newer_than(&pre));
    assert!(ReleaseVersion::parse("not a version").is_none());
}

#[test]
fn digest_of_bytes() {
    assert_eq!(
        calculate_sha256(&b"abc".to_vec()),
        "ba7816bf8f01cfea414140de5dae2223b00361a396177a9cb410ff61f20015ad"
    );
    assert_ne!(
        calculate_sha256(&b"abd".to_vec()),
        "ba7816bf8f01cfea414140de5dae2223b00361a396177a9cb410ff61f20015ad"
    );
}

#[test]
fn self_test_judgement() {
    assert!(verify_binary(true, "ARGO 1.3.0\n").is_ok());
    assert!(matches!(verify_binary(true, "hello"), Err(GhrustError::UpdateVerificationFailed(_))));
    assert!(matches!(verify_binary(false, "argo 1.3.0"), Err(GhrustError::UpdateVerificationFailed(_))));
}

#[test]
fn download_checkpoint_protocol() {
    let mut s = UpdatePersistentState::new();
    s.begin_download();
    assert!(s.partial_download);
    assert!(!s.has_pending_update());
    let mut crashed = s;
    assert!(crashed.recover_at_startup(true));
    assert!(!crashed.partial_download);
    let mut ok = staged();
    assert!(ok.has_pending_update());
    assert!(!ok.recover_at_startup(true));
    assert!(ok.recover_at_startup(false));
    assert!(!ok.has_pending_update());
}

#[test]
fn artifact_names() {
    assert_eq!(partial_file_name("1.3.0"), "argo-1.3.0.partial");
    assert_eq!(final_file_name("1.3.0"), "argo-1.3.0");
    assert_eq!(staging_path("/home/u/.config/argo-rs"), "/home/u/.config/argo-rs/updates");
    assert!(is_archive_url("https://x/argo.tar.gz"));
    assert!(is_archive_url("https://x/argo.tgz"));
    assert!(!is_archive_url("https://x/argo"));
}

#[test]
fn apply_nothing_pending() {
    let mut m = UpdateApplier::new(UpdatePersistentState::new());
    let a = m.step(ApplyEvent::Begin { artifact_exists: true });
    assert!(matches!(a, ApplyAction::Finish(ApplyOutcome::NothingToApply)));
    assert_eq!(ApplyOutcome::NothingToApply.result(), Ok(false));
}

#[test]
fn apply_stale_checkpoint_is_discarded() {
    let mut m = UpdateApplier::new(staged());
    let a = m.step(ApplyEvent::Begin { artifact_exists: false });
    assert!(matches!(a, ApplyAction::Finish(ApplyOutcome::StaleDiscarded)));
    assert!(!m.checkpoint.has_pending_update());
}

#[test]
fn apply_corrupt_artifact_is_rejected() {
    let mut m = UpdateApplier::new(staged());
    let a = m.step(ApplyEvent::Begin { artifact_exists: true });
    assert!(matches!(a, ApplyAction::ComputeDigest(ref p) if p == "/tmp/argo-1.3.0"));
    let corrupted = calculate_sha256(&b"abd".to_vec());
    let a = m.step(ApplyEvent::Digest(corrupted));
    let outcome = match a {
        ApplyAction::Finish(o) => o,
        _ => panic!("expected the protocol to end"),
    };
    assert!(matches!(outcome, ApplyOutcome::IntegrityRejected(ref p) if p == "/tmp/argo-1.3.0"));
    assert_eq!(outcome.result(), Err(GhrustError::IntegrityMismatch));
    assert!(m.checkpoint.pending_update_path.is_none());
    let mut again = UpdateApplier::new(m.checkpoint);
    let a = again.step(ApplyEvent::Begin { artifact_exists: true });
    assert!(matches!(a, ApplyAction::Finish(ApplyOutcome::NothingToApply)));
}

#[test]
fn apply_success() {
    let mut m = UpdateApplier::new(staged());
    m.step(ApplyEvent::Begin { artifact_exists: true });
    let a = m.step(ApplyEvent::Digest(calculate_sha256(&b"abc".to_vec())));
    assert!(matches!(a, ApplyAction::Install(_)));
    assert!(matches!(m.step(ApplyEvent::Installed(Ok(()))), ApplyAction::RunSelfTest));
    let a = m.step(ApplyEvent::SelfTest(Ok(())));
    assert!(matches!(a, ApplyAction::Finish(ApplyOutcome::Applied)));
    assert!(!m.checkpoint.has_pending_update());
    assert_eq!(ApplyOutcome::Applied.result(), Ok(true));
}

#[test]
fn apply_rolls_back_on_failed_self_test() {
    let mut m = UpdateApplier::new(staged());
    m.step(ApplyEvent::Begin { artifact_exists: true });
    m.step(ApplyEvent::Digest(calculate_sha256(&b"abc".to_vec())));
    m.step(ApplyEvent::Installed(Ok(())));
    let a = m.step(ApplyEvent::SelfTest(Err("exit 1".to_string())));
    assert!(matches!(a, ApplyAction::RestoreBackup));
    let a = m.step(ApplyEvent::Restored(Ok(())));
    let outcome = match a {
        ApplyAction::Finish(o) => o,
        _ => panic!("expected the protocol to end"),
    };
    assert!(matches!(outcome, ApplyOutcome::RolledBack(ref e) if e == "exit 1"));
    assert!(!m.checkpoint.has_pending_update());
    let r = outcome.result();
    assert_eq!(r, Err(GhrustError::UpdateVerificationFailed("exit 1".to_string())));
    assert!(!r.unwrap_err().is_critical());
}

#[test]
fn failed_restore_is_critical() {
    let mut m = UpdateApplier::new(staged());
    m.step(ApplyEvent::Begin { artifact_exists: true });
    m.step(ApplyEvent::Digest(calculate_sha256(&b"abc".to_vec())));
    m.step(ApplyEvent::Installed(Ok(())));
    m.step(ApplyEvent::SelfTest(Err("exit 1".to_string())));
    let a = m.step(ApplyEvent::Restored(Err("permission denied".to_string())));
    let outcome = match a {
        ApplyAction::Finish(o) => o,
        _ => panic!("expected the protocol to end"),
    };
    let err = outcome.result().unwrap_err();
    assert!(err.is_critical());
    assert_eq!(err, GhrustError::RollbackFailed("exit 1".to_string()));
}

#[test]
fn install_failure_and_out_of_order() {
    let mut m = UpdateApplier::new(staged());
    let a = m.step(ApplyEvent::SelfTest(Ok(())));
    assert!(matches!(a, ApplyAction::Finish(ApplyOutcome::OutOfOrder)));
    m.step(ApplyEvent::Begin { artifact_exists: true });
    m.step(ApplyEvent::Digest(calculate_sha256(&b"abc".to_vec())));
    let a = m.step(ApplyEvent::Installed(Err("rename failed".to_string())));
    let outcome = match a {
        ApplyAction::Finish(o) => o,
        _ => panic!("expected the protocol to end"),
    };
    assert_eq!(outcome.result(), Err(GhrustError::Custom("rename failed".to_string())));
}

#[test]
fn release_decision_on_given_versions() {
    let r = release("anything", vec![asset("argo-linux-x86_64")]);
    let name = Some("argo-linux-x86_64".to_string());
    let newer = ReleaseVersion { major: 1, minor: 3, patch: 0, pre_release: false };
    assert!(matches!(
        argo::update_checker::decide_release(&r, Some(newer), &current(), &name),
        Ok(UpdateCheckResult::Available { asset_size: 42, .. })
    ));
    let pre = ReleaseVersion { major: 9, minor: 0, patch: 0, pre_release: true };
    assert!(matches!(argo::update_checker::decide_release(&r, Some(pre), &current(), &name), Ok(UpdateCheckResult::UpToDate)));
    assert!(matches!(argo::update_checker::decide_release(&r, None, &current(), &name), Err(GhrustError::Custom(_))));
}

#[test]
fn check_due_hourly() {
    assert!(argo::update::check_due(None, 100));
    assert!(argo::update::check_due(Some(0), 3600));
    assert!(!argo::update::check_due(Some(0), 3599));
    assert!(!argo::update::check_due(Some(5000), 100));
}
