//! Release evaluation and the apply protocol of the self-update:
//! integrity check, backup, replacement, self-test, rollback.

use vstd::prelude::*;
use crate::error::GhrustError;
use crate::text::{contains, contains_seq, decimal, decimal_string, lower_of, lowercase, str_eq};
use crate::update::{cleared, UpdatePersistentState};

verus! {

/// The repository whose releases feed the self-update.
pub const GITHUB_REPO: &'static str = "stefanodecillis/argo-rs";

/// A version as the update logic reads it.
pub struct ReleaseVersion {
    pub major: u64,
    pub minor: u64,
    pub patch: u64,
    /// The version carries a pre-release tag.
    pub pre_release: bool,
}

/// What semver's parser reads from a text: major, minor, patch and whether
/// a pre-release tag is present; None where it rejects the text.
pub uninterp spec fn semver_parts(s: Seq<char>) -> Option<(u64, u64, u64, bool)>;

/// Relies on semver's `Version::parse` (and `Prerelease::is_empty`): the
/// numeric parts of a semantic version and whether it is a pre-release.
#[verifier::external_body]
fn semver_parse(s: &str) -> (r: Option<ReleaseVersion>)
    ensures
        match r {
            Some(v) => semver_parts(s@) == Some((v.major, v.minor, v.patch, v.pre_release)),
            None => semver_parts(s@) is None,
        },
{
    match semver::Version::parse(s) {
        Ok(v) => Some(
            ReleaseVersion {
                major: v.major,
                minor: v.minor,
                patch: v.patch,
                pre_release: !v.pre.is_empty(),
            },
        ),
        Err(_) => None,
    }
}

/// `a` orders after `b` in semantic-version order, build metadata aside
/// (exact when `a` is not a pre-release).
pub open spec fn newer_spec(a: ReleaseVersion, b: ReleaseVersion) -> bool {
    a.major > b.major || (a.major == b.major && (a.minor > b.minor || (a.minor == b.minor && (
    a.patch > b.patch || (a.patch == b.patch && !a.pre_release && b.pre_release)))))
}

/// The text of a release version without pre-release tag.
pub open spec fn version_text(v: ReleaseVersion) -> Seq<char> {
    decimal(v.major as nat) + seq!['.'] + decimal(v.minor as nat) + seq!['.'] + decimal(
        v.patch as nat,
    )
}

impl ReleaseVersion {
    /// Parse a semantic version.
    pub fn parse(s: &str) -> (r: Option<ReleaseVersion>)
        ensures
            match r {
                Some(v) => semver_parts(s@) == Some((v.major, v.minor, v.patch, v.pre_release)),
                None => semver_parts(s@) is None,
            },
    {
        semver_parse(s)
    }

    /// Whether this version orders after `other`.
    pub fn is_newer_than(&self, other: &ReleaseVersion) -> (r: bool)
        ensures
            r == newer_spec(*self, *other),
    {
        if self.major != other.major {
            return self.major > other.major;
        }
        if self.minor != other.minor {
            return self.minor > other.minor;
        }
        if self.patch != other.patch {
            return self.patch > other.patch;
        }
        !self.pre_release && other.pre_release
    }

    /// `major.minor.patch`.
    pub fn to_text(&self) -> (r: String)
        ensures
            r@ == version_text(*self),
    {
        proof {
            reveal_strlit(".");
        }
        assert("."@ =~= seq!['.']);
        let mut r = decimal_string(self.major);
        r.append(".");
        let m = decimal_string(self.minor);
        r.append(m.as_str());
        r.append(".");
        let p = decimal_string(self.patch);
        r.append(p.as_str());
        r
    }
}

/// Whether a version is a pre-release (such releases are skipped).
pub fn is_prerelease(version: &ReleaseVersion) -> (r: bool)
    ensures
        r == version.pre_release,
{
    version.pre_release
}

/// A release as the feed describes it.
pub struct GitHubRelease {
    pub tag_name: String,
    pub name: Option<String>,
    pub prerelease: bool,
    pub draft: bool,
    pub assets: Vec<GitHubAsset>,
}

/// One downloadable file of a release.
pub struct GitHubAsset {
    pub name: String,
    pub browser_download_url: String,
    pub size: u64,
}

/// The answer of an update check.
pub enum UpdateCheckResult {
    UpToDate,
    Available { version: ReleaseVersion, download_url: String, asset_size: u64 },
}

/// A tag with its leading `v`s removed.
pub open spec fn strip_v(s: Seq<char>) -> Seq<char>
    decreases s.len(),
{
    if s.len() > 0 && s[0] == 'v' {
        strip_v(s.drop_first())
    } else {
        s
    }
}

/// The asset is the platform's plain binary or its compressed archive.
pub open spec fn asset_matches(a: GitHubAsset, name: Seq<char>) -> bool {
    a.name@ == name || a.name@ == name + ".tar.gz"@
}

/// The position of the first asset at or after `from` that matches.
pub open spec fn find_asset(assets: Seq<GitHubAsset>, name: Seq<char>, from: int) -> Option<int>
    decreases assets.len() - from,
{
    if from < 0 || from >= assets.len() {
        None
    } else if asset_matches(assets[from], name) {
        Some(from)
    } else {
        find_asset(assets, name, from + 1)
    }
}

fn strip_leading_v(s: &str) -> (r: &str)
    ensures
        r@ == strip_v(s@),
{
    let n = s.unicode_len();
    let mut k: usize = 0;
    assert(s@.subrange(0, n as int) =~= s@);
    while k < n && s.get_char(k) == 'v'
        invariant
            k <= n == s@.len(),
            strip_v(s@) == strip_v(s@.subrange(k as int, n as int)),
        decreases n - k,
    {
        assert(s@.subrange(k as int, n as int).drop_first() =~= s@.subrange(k + 1, n as int));
        k += 1;
    }
    s.substring_char(k, n)
}

/// Decide on a release fetched from the feed, given the running version and
/// the asset name of this platform (None: no build is published for it).
/// Drafts, pre-releases and versions not newer than the running one give
/// `UpToDate`; a tag that is no version, an unsupported platform and a
/// release without this platform's asset are errors.
pub fn check_for_update(
    release: &GitHubRelease,
    current: &ReleaseVersion,
    asset_name: &Option<String>,
) -> (r: Result<UpdateCheckResult, GhrustError>)
    ensures
        release.draft || release.prerelease ==> r is Ok && r->Ok_0 is UpToDate,
        !(release.draft || release.prerelease) ==> match semver_parts(strip_v(release.tag_name@)) {
            None => r == Err::<UpdateCheckResult, GhrustError>(
                GhrustError::Custom(r->Err_0->Custom_0),
            ) && r->Err_0->Custom_0@ == "Invalid version in release"@,
            Some((maj, min, pat, pre)) => {
                let latest = ReleaseVersion {
                    major: maj,
                    minor: min,
                    patch: pat,
                    pre_release: pre,
                };
                if pre || !newer_spec(latest, *current) {
                    r is Ok && r->Ok_0 is UpToDate
                } else {
                    match asset_name {
                        None => r is Err && r->Err_0 is Custom && r->Err_0->Custom_0@
                            == "Unsupported platform for auto-update"@,
                        Some(an) => match find_asset(release.assets@, an@, 0) {
                            Some(i) => r == Ok::<UpdateCheckResult, GhrustError>(
                                UpdateCheckResult::Available {
                                    version: latest,
                                    download_url: release.assets@[i].browser_download_url,
                                    asset_size: release.assets@[i].size,
                                },
                            ),
                            None => r is Err && r->Err_0 is Custom && r->Err_0->Custom_0@
                                == "No release asset for this platform"@,
                        },
                    }
                }
            },
        },
{
    if release.draft || release.prerelease {
        return Ok(UpdateCheckResult::UpToDate);
    }
    let parsed = ReleaseVersion::parse(strip_leading_v(release.tag_name.as_str()));
    decide_release(release, parsed, current, asset_name)
}

/// Decide on a release given its parsed version (None: its tag is no
/// version), the running version and the asset name of this platform.
/// Drafts, pre-releases and versions not newer than the running one give
/// `UpToDate`; a tag that is no version, an unsupported platform and a
/// release without this platform's asset are errors.
pub fn decide_release(
    release: &GitHubRelease,
    parsed: Option<ReleaseVersion>,
    current: &ReleaseVersion,
    asset_name: &Option<String>,
) -> (r: Result<UpdateCheckResult, GhrustError>)
    ensures
        release.draft || release.prerelease ==> r is Ok && r->Ok_0 is UpToDate,
        !(release.draft || release.prerelease) ==> match parsed {
            None => r == Err::<UpdateCheckResult, GhrustError>(
                GhrustError::Custom(r->Err_0->Custom_0),
            ) && r->Err_0->Custom_0@ == "Invalid version in release"@,
            Some(latest) => {
                if latest.pre_release || !newer_spec(latest, *current) {
                    r is Ok && r->Ok_0 is UpToDate
                } else {
                    match asset_name {
                        None => r is Err && r->Err_0 is Custom && r->Err_0->Custom_0@
                            == "Unsupported platform for auto-update"@,
                        Some(an) => match find_asset(release.assets@, an@, 0) {
                            Some(i) => r == Ok::<UpdateCheckResult, GhrustError>(
                                UpdateCheckResult::Available {
                                    version: latest,
                                    download_url: release.assets@[i].browser_download_url,
                                    asset_size: release.assets@[i].size,
                                },
                            ),
                            None => r is Err && r->Err_0 is Custom && r->Err_0->Custom_0@
                                == "No release asset for this platform"@,
                        },
                    }
                }
            },
        },
{
    if release.draft || release.prerelease {
        return Ok(UpdateCheckResult::UpToDate);
    }
    let latest = match parsed {
        Some(v) => v,
        None => {
            return Err(GhrustError::Custom(String::from_str("Invalid version in release")));
        },
    };
    if is_prerelease(&latest) || !latest.is_newer_than(current) {
        return Ok(UpdateCheckResult::UpToDate);
    }
    let an = match asset_name {
        Some(a) => a,
        None => {
            return Err(
                GhrustError::Custom(String::from_str("Unsupported platform for auto-update")),
            );
        },
    };
    let archive = crate::text::join2(an.as_str(), ".tar.gz");
    let mut i: usize = 0;
    while i < release.assets.len()
        invariant
            i <= release.assets@.len(),
            !release.draft && !release.prerelease,
            parsed == Some(latest),
            !latest.pre_release,
            newer_spec(latest, *current),
            *asset_name == Some(*an),
            archive@ == an@ + ".tar.gz"@,
            find_asset(release.assets@, an@, 0) == find_asset(release.assets@, an@, i as int),
        decreases release.assets@.len() - i,
    {
        let a = &release.assets[i];
        if str_eq(a.name.as_str(), an.as_str()) || str_eq(a.name.as_str(), archive.as_str()) {
            let res = Ok(
                UpdateCheckResult::Available {
                    version: latest,
                    download_url: a.browser_download_url.clone(),
                    asset_size: a.size,
                },
            );
            return res;
        }
        i += 1;
    }
    Err(GhrustError::Custom(String::from_str("No release asset for this platform")))
}

/// The lower-case hex SHA-256 digest of some bytes, as sha2 computes it.
pub uninterp spec fn sha256_hex(data: Seq<u8>) -> Seq<char>;

/// Relies on sha2's `Sha256::digest` and its `LowerHex` formatting: the
/// 64-digit lower-case hex digest of the bytes.
#[verifier::external_body]
fn sha256_digest(data: &Vec<u8>) -> (r: String)
    ensures
        r@ == sha256_hex(data@),
{
    format!("{:x}", <sha2::Sha256 as sha2::Digest>::digest(data.as_slice()))
}

/// The integrity digest of an artifact's bytes.
pub fn calculate_sha256(data: &Vec<u8>) -> (r: String)
    ensures
        r@ == sha256_hex(data@),
{
    sha256_digest(data)
}

/// Whether a self-test's lower-cased output identifies this program.
pub fn identity_ok(lowered: &str) -> (r: bool)
    ensures
        r == contains_seq(lowered@, "argo"@),
{
    contains(lowered, "argo")
}

/// Judge a binary's self-test (run with `--version`) from its exit status
/// and its output: it must succeed and name this program.
pub fn verify_binary(exit_success: bool, stdout: &str) -> (r: Result<(), GhrustError>)
    ensures
        r is Ok <==> exit_success && contains_seq(lower_of(stdout@), "argo"@),
        r is Err ==> r->Err_0 is UpdateVerificationFailed,
{
    if !exit_success {
        return Err(
            GhrustError::UpdateVerificationFailed(
                String::from_str("the binary did not run successfully"),
            ),
        );
    }
    let lowered = lowercase(stdout);
    if !identity_ok(lowered.as_str()) {
        return Err(
            GhrustError::UpdateVerificationFailed(
                String::from_str("the binary produced unexpected output"),
            ),
        );
    }
    Ok(())
}

/// Where the apply protocol stands.
pub enum ApplyPhase {
    /// Nothing done yet.
    Start,
    /// Waiting for the staged artifact's digest.
    Verifying,
    /// Waiting for the backup and the replacement.
    Installing,
    /// Waiting for the installed binary's self-test.
    SelfTesting,
    /// Waiting for the backup to be put back.
    RollingBack,
    /// The protocol has ended.
    Finished,
}

/// What the caller observed after the last action.
pub enum ApplyEvent {
    /// The protocol starts; whether the staged artifact exists on disk.
    Begin { artifact_exists: bool },
    /// The digest of the staged artifact.
    Digest(String),
    /// The running binary was backed up and replaced (or why not; the
    /// caller has then already tried to put the backup back).
    Installed(Result<(), String>),
    /// The installed binary's self-test.
    SelfTest(Result<(), String>),
    /// Putting the backup back over the installed binary.
    Restored(Result<(), String>),
}

/// How the apply protocol ended.
pub enum ApplyOutcome {
    /// No complete download is recorded.
    NothingToApply,
    /// The staged file is gone: the checkpoint is cleared (save it).
    StaleDiscarded,
    /// The digest differs: delete this artifact and save the cleared
    /// checkpoint.
    IntegrityRejected(String),
    /// The replacement failed.
    InstallFailed(String),
    /// The new binary is installed and passed its self-test: delete the
    /// backup and save the cleared checkpoint.
    Applied,
    /// The new binary failed its self-test and the backup is back: save the
    /// cleared checkpoint.
    RolledBack(String),
    /// The new binary failed its self-test (first reason) and the backup
    /// could not be put back (second reason).
    RollbackFailed(String, String),
    /// An event that the current phase does not expect.
    OutOfOrder,
}

/// The next thing the caller must do.
pub enum ApplyAction {
    /// Compute the digest of this staged file and report it.
    ComputeDigest(String),
    /// Back up the running binary, then move this staged file over it.
    Install(String),
    /// Run the installed binary's self-test.
    RunSelfTest,
    /// Move the backup back over the installed binary.
    RestoreBackup,
    /// Stop.
    Finish(ApplyOutcome),
}

/// The apply protocol's state: its phase, the checkpoint it works on, and
/// the self-test failure being rolled back.
pub struct UpdateApplier {
    pub phase: ApplyPhase,
    pub checkpoint: UpdatePersistentState,
    pub reason: String,
}

/// The protocol ends with this checkpoint and outcome.
pub open spec fn finished(m: UpdateApplier, c: UpdatePersistentState, o: ApplyOutcome) -> (
    UpdateApplier,
    ApplyAction,
) {
    (UpdateApplier { phase: ApplyPhase::Finished, checkpoint: c, reason: m.reason }, ApplyAction::Finish(o))
}

/// One step of the apply protocol: the next state and the next action.
pub open spec fn apply_step_spec(m: UpdateApplier, ev: ApplyEvent) -> (UpdateApplier, ApplyAction) {
    let cp = m.checkpoint;
    match (m.phase, ev) {
        (ApplyPhase::Start, ApplyEvent::Begin { artifact_exists }) => {
            if cp.pending_update_path is None || cp.pending_sha256 is None || cp.partial_download {
                finished(m, cp, ApplyOutcome::NothingToApply)
            } else if !artifact_exists {
                finished(m, cleared(cp), ApplyOutcome::StaleDiscarded)
            } else {
                (
                    UpdateApplier { phase: ApplyPhase::Verifying, ..m },
                    ApplyAction::ComputeDigest(cp.pending_update_path->0),
                )
            }
        },
        (ApplyPhase::Verifying, ApplyEvent::Digest(d)) => {
            if cp.pending_update_path is Some && cp.pending_sha256 is Some && d@
                == cp.pending_sha256->0@ {
                (
                    UpdateApplier { phase: ApplyPhase::Installing, ..m },
                    ApplyAction::Install(cp.pending_update_path->0),
                )
            } else if cp.pending_update_path is Some {
                finished(m, cleared(cp), ApplyOutcome::IntegrityRejected(cp.pending_update_path->0))
            } else {
                finished(m, cleared(cp), ApplyOutcome::NothingToApply)
            }
        },
        (ApplyPhase::Installing, ApplyEvent::Installed(res)) => match res {
            Ok(_) => (UpdateApplier { phase: ApplyPhase::SelfTesting, ..m }, ApplyAction::RunSelfTest),
            Err(e) => finished(m, cp, ApplyOutcome::InstallFailed(e)),
        },
        (ApplyPhase::SelfTesting, ApplyEvent::SelfTest(res)) => match res {
            Ok(_) => finished(m, cleared(cp), ApplyOutcome::Applied),
            Err(e) => (
                UpdateApplier { phase: ApplyPhase::RollingBack, checkpoint: cp, reason: e },
                ApplyAction::RestoreBackup,
            ),
        },
        (ApplyPhase::RollingBack, ApplyEvent::Restored(res)) => match res {
            Ok(_) => finished(m, cleared(cp), ApplyOutcome::RolledBack(m.reason)),
            Err(e) => finished(m, cp, ApplyOutcome::RollbackFailed(m.reason, e)),
        },
        _ => (m, ApplyAction::Finish(ApplyOutcome::OutOfOrder)),
    }
}

impl UpdateApplier {
    /// The protocol at its start, on the checkpoint as loaded.
    pub fn new(checkpoint: UpdatePersistentState) -> (r: Self)
        ensures
            r.phase is Start,
            r.checkpoint == checkpoint,
    {
        UpdateApplier { phase: ApplyPhase::Start, checkpoint, reason: String::new() }
    }

    fn finish(&mut self, o: ApplyOutcome) -> (r: ApplyAction)
        ensures
            (*final(self), r) == finished(*old(self), old(self).checkpoint, o),
    {
        self.phase = ApplyPhase::Finished;
        ApplyAction::Finish(o)
    }

    /// Advance the protocol with what the caller observed.
    pub fn step(&mut self, ev: ApplyEvent) -> (r: ApplyAction)
        ensures
            (*final(self), r) == apply_step_spec(*old(self), ev),
    {
        match (&self.phase, ev) {
            (ApplyPhase::Start, ApplyEvent::Begin { artifact_exists }) => {
                match (&self.checkpoint.pending_update_path, &self.checkpoint.pending_sha256) {
                    (Some(path), Some(_)) => {
                        if self.checkpoint.partial_download {
                            self.finish(ApplyOutcome::NothingToApply)
                        } else if !artifact_exists {
                            self.checkpoint.clear_pending();
                            self.finish(ApplyOutcome::StaleDiscarded)
                        } else {
                            let p = path.clone();
                            self.phase = ApplyPhase::Verifying;
                            ApplyAction::ComputeDigest(p)
                        }
                    },
                    _ => self.finish(ApplyOutcome::NothingToApply),
                }
            },
            (ApplyPhase::Verifying, ApplyEvent::Digest(d)) => {
                match (&self.checkpoint.pending_update_path, &self.checkpoint.pending_sha256) {
                    (Some(path), Some(sha)) => {
                        let p = path.clone();
                        if str_eq(d.as_str(), sha.as_str()) {
                            self.phase = ApplyPhase::Installing;
                            ApplyAction::Install(p)
                        } else {
                            self.checkpoint.clear_pending();
                            self.finish(ApplyOutcome::IntegrityRejected(p))
                        }
                    },
                    (Some(path), None) => {
                        let p = path.clone();
                        self.checkpoint.clear_pending();
                        self.finish(ApplyOutcome::IntegrityRejected(p))
                    },
                    _ => {
                        self.checkpoint.clear_pending();
                        self.finish(ApplyOutcome::NothingToApply)
                    },
                }
            },
            (ApplyPhase::Installing, ApplyEvent::Installed(res)) => match res {
                Ok(_) => {
                    self.phase = ApplyPhase::SelfTesting;
                    ApplyAction::RunSelfTest
                },
                Err(e) => self.finish(ApplyOutcome::InstallFailed(e)),
            },
            (ApplyPhase::SelfTesting, ApplyEvent::SelfTest(res)) => match res {
                Ok(_) => {
                    self.checkpoint.clear_pending();
                    self.finish(ApplyOutcome::Applied)
                },
                Err(e) => {
                    self.phase = ApplyPhase::RollingBack;
                    self.reason = e;
                    ApplyAction::RestoreBackup
                },
            },
            (ApplyPhase::RollingBack, ApplyEvent::Restored(res)) => {
                let reason = self.reason.clone();
                match res {
                    Ok(_) => {
                        self.checkpoint.clear_pending();
                        self.finish(ApplyOutcome::RolledBack(reason))
                    },
                    Err(e) => self.finish(ApplyOutcome::RollbackFailed(reason, e)),
                }
            },
            _ => ApplyAction::Finish(ApplyOutcome::OutOfOrder),
        }
    }
}

impl ApplyOutcome {
    /// What `apply_pending_update` reports: whether an update was applied,
    /// or the error. A failed rollback is the one critical error.
    pub fn result(self) -> (r: Result<bool, GhrustError>)
        ensures
            match self {
                ApplyOutcome::NothingToApply => r == Ok::<bool, GhrustError>(false),
                ApplyOutcome::StaleDiscarded => r == Ok::<bool, GhrustError>(false),
                ApplyOutcome::IntegrityRejected(_) => r == Err::<bool, GhrustError>(
                    GhrustError::IntegrityMismatch,
                ),
                ApplyOutcome::InstallFailed(e) => r == Err::<bool, GhrustError>(
                    GhrustError::Custom(e),
                ),
                ApplyOutcome::Applied => r == Ok::<bool, GhrustError>(true),
                ApplyOutcome::RolledBack(e) => r == Err::<bool, GhrustError>(
                    GhrustError::UpdateVerificationFailed(e),
                ),
                ApplyOutcome::RollbackFailed(v, _) => r == Err::<bool, GhrustError>(
                    GhrustError::RollbackFailed(v),
                ),
                ApplyOutcome::OutOfOrder => r is Err && r->Err_0 is Custom,
            },
    {
        match self {
            ApplyOutcome::NothingToApply => Ok(false),
            ApplyOutcome::StaleDiscarded => Ok(false),
            ApplyOutcome::IntegrityRejected(_) => Err(GhrustError::IntegrityMismatch),
            ApplyOutcome::InstallFailed(e) => Err(GhrustError::Custom(e)),
            ApplyOutcome::Applied => Ok(true),
            ApplyOutcome::RolledBack(e) => Err(GhrustError::UpdateVerificationFailed(e)),
            ApplyOutcome::RollbackFailed(v, _) => Err(GhrustError::RollbackFailed(v)),
            ApplyOutcome::OutOfOrder => Err(
                GhrustError::Custom(String::from_str("update protocol step out of order")),
            ),
        }
    }
}

/// Update integrity: when the staged artifact's digest differs from the
/// recorded one, the artifact is to be deleted and the checkpoint is
/// cleared; a later run of the protocol on that checkpoint finds nothing to
/// apply.
pub proof fn lemma_integrity_rejects(m: UpdateApplier, d: String, artifact_exists: bool)
    requires
        m.phase is Verifying,
        m.checkpoint.pending_update_path is Some,
        m.checkpoint.pending_sha256 is Some,
        d@ != m.checkpoint.pending_sha256->0@,
    ensures
        ({
            let (m2, a) = apply_step_spec(m, ApplyEvent::Digest(d));
            &&& a == ApplyAction::Finish(
                ApplyOutcome::IntegrityRejected(m.checkpoint.pending_update_path->0),
            )
            &&& m2.checkpoint == cleared(m.checkpoint)
            &&& !crate::update::pending_spec(m2.checkpoint)
            &&& apply_step_spec(
                UpdateApplier { phase: ApplyPhase::Start, checkpoint: m2.checkpoint, reason: m.reason },
                ApplyEvent::Begin { artifact_exists },
            ).1 == ApplyAction::Finish(ApplyOutcome::NothingToApply)
        }),
{
}

/// Update rollback: when the installed binary fails its self-test, the
/// backup is to be put back; once it is, the checkpoint is cleared and the
/// failure reported as rolled back; when putting it back fails, the
/// checkpoint is kept and the error is the critical one.
pub proof fn lemma_rollback(m: UpdateApplier, why: String, restore: Result<(), String>)
    requires
        m.phase is SelfTesting,
    ensures
        ({
            let (m2, a) = apply_step_spec(m, ApplyEvent::SelfTest(Err(why)));
            let (m3, b) = apply_step_spec(m2, ApplyEvent::Restored(restore));
            &&& a == ApplyAction::RestoreBackup
            &&& match restore {
                Ok(_) => m3.checkpoint == cleared(m.checkpoint) && b == ApplyAction::Finish(
                    ApplyOutcome::RolledBack(why),
                ),
                Err(e) => m3.checkpoint == m.checkpoint && b == ApplyAction::Finish(
                    ApplyOutcome::RollbackFailed(why, e),
                ),
            }
        }),
{
}

} // verus!
