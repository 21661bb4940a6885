//! Update state, the durable update checkpoint, and the names of the
//! artifacts that the update protocol stages.

use vstd::prelude::*;
use crate::clock::{format_rfc3339, parse_rfc3339, rfc3339_seconds, rfc3339_text};
use crate::text::{ends_with, is_suffix, join2, join3};

verus! {

/// Where the update process stands, as the UI shows it.
pub enum UpdateState {
    /// No check in progress.
    Idle,
    /// Asking the release feed.
    Checking,
    /// The running version is the newest.
    UpToDate,
    /// This version can be downloaded.
    Available(String),
    /// Bytes received so far, of the total announced (0 when unknown).
    Downloading { downloaded: u64, total: u64 },
    /// This version is downloaded, verified and ready to apply.
    Ready(String),
    /// The check or the download failed.
    Failed,
}

impl Default for UpdateState {
    fn default() -> (r: Self)
        ensures
            r is Idle,
    {
        UpdateState::Idle
    }
}

/// How long after a check the next one is due, in seconds.
pub const CHECK_INTERVAL_SECS: i64 = 3600;

/// The durable update checkpoint, rewritten at each step boundary.
pub struct UpdatePersistentState {
    /// When the release feed was last asked (RFC 3339).
    pub last_check: Option<String>,
    /// The staged binary awaiting application.
    pub pending_update_path: Option<String>,
    /// Its version.
    pub pending_version: Option<String>,
    /// Its digest (lower-case hex SHA-256).
    pub pending_sha256: Option<String>,
    /// A download was started and has not completed.
    pub partial_download: bool,
}

/// The checkpoint with nothing pending (the last check is kept).
pub open spec fn cleared(s: UpdatePersistentState) -> UpdatePersistentState {
    UpdatePersistentState {
        last_check: s.last_check,
        pending_update_path: None,
        pending_version: None,
        pending_sha256: None,
        partial_download: false,
    }
}

/// A staged binary is recorded in full and no download is under way.
pub open spec fn pending_spec(s: UpdatePersistentState) -> bool {
    s.pending_update_path is Some && s.pending_version is Some && s.pending_sha256 is Some
        && !s.partial_download
}

/// Whether a check is due at `now`: never checked, an unreadable time, or
/// at least an hour since the last check.
pub open spec fn should_check_spec(s: UpdatePersistentState, now: int) -> bool {
    match s.last_check {
        None => true,
        Some(t) => match rfc3339_seconds(t@) {
            None => true,
            Some(last) => now - last >= CHECK_INTERVAL_SECS,
        },
    }
}

/// Whether a check is due at `now`, given when the last one was made (None:
/// unknown).
pub fn check_due(last: Option<i64>, now: i64) -> (r: bool)
    ensures
        r == match last {
            None => true,
            Some(l) => now - l >= CHECK_INTERVAL_SECS,
        },
{
    match last {
        None => true,
        Some(l) => (now as i128) - (l as i128) >= CHECK_INTERVAL_SECS as i128,
    }
}

impl UpdatePersistentState {
    /// A checkpoint that records nothing.
    pub fn new() -> (r: Self)
        ensures
            r.last_check is None,
            r == cleared(r),
    {
        UpdatePersistentState {
            last_check: None,
            pending_update_path: None,
            pending_version: None,
            pending_sha256: None,
            partial_download: false,
        }
    }

    /// Forget the pending update.
    pub fn clear_pending(&mut self)
        ensures
            *final(self) == cleared(*old(self)),
    {
        self.pending_update_path = None;
        self.pending_version = None;
        self.pending_sha256 = None;
        self.partial_download = false;
    }

    /// Whether a complete, verified download awaits application.
    pub fn has_pending_update(&self) -> (r: bool)
        ensures
            r == pending_spec(*self),
    {
        self.pending_update_path.is_some() && self.pending_version.is_some()
            && self.pending_sha256.is_some() && !self.partial_download
    }

    /// Record a check made at `now`. Returns false, and changes nothing,
    /// where the time cannot be written.
    pub fn mark_checked(&mut self, now: i64) -> (r: bool)
        ensures
            r == (rfc3339_text(now) is Some),
            r ==> final(self).last_check is Some && rfc3339_text(now) == Some(
                final(self).last_check->0@,
            ),
            final(self).pending_update_path == old(self).pending_update_path,
            final(self).pending_version == old(self).pending_version,
            final(self).pending_sha256 == old(self).pending_sha256,
            final(self).partial_download == old(self).partial_download,
            !r ==> *final(self) == *old(self),
    {
        match format_rfc3339(now) {
            Some(t) => {
                self.last_check = Some(t);
                true
            },
            None => false,
        }
    }

    /// Whether the release feed should be asked at `now` (at most hourly).
    pub fn should_check(&self, now: i64) -> (r: bool)
        ensures
            r == should_check_spec(*self, now as int),
    {
        match &self.last_check {
            None => true,
            Some(t) => check_due(parse_rfc3339(t.as_str()), now),
        }
    }

    /// The flag is set before any byte of a download is written, so that a
    /// crash mid-download is seen on the next launch.
    pub fn begin_download(&mut self)
        ensures
            *final(self) == (UpdatePersistentState { partial_download: true, ..*old(self) }),
    {
        self.partial_download = true;
    }

    /// Mark a download that was cut short: nothing is pending and the
    /// partial-download flag makes the next launch clean up.
    pub fn abandon_download(&mut self)
        ensures
            *final(self) == (UpdatePersistentState { partial_download: true, ..cleared(*old(self)) }),
    {
        self.clear_pending();
        self.partial_download = true;
    }

    /// Record a download that completed, was renamed to its final name and
    /// passed its self-test.
    pub fn complete_download(&mut self, path: String, version: String, sha256: String)
        ensures
            *final(self) == (UpdatePersistentState {
                last_check: old(self).last_check,
                pending_update_path: Some(path),
                pending_version: Some(version),
                pending_sha256: Some(sha256),
                partial_download: false,
            }),
    {
        self.partial_download = false;
        self.pending_update_path = Some(path);
        self.pending_version = Some(version);
        self.pending_sha256 = Some(sha256);
    }

    /// At startup: a checkpoint with the partial-download flag set, or whose
    /// staged file is gone, is discarded, never applied. Returns whether it
    /// was discarded (and must be saved).
    pub fn recover_at_startup(&mut self, artifact_exists: bool) -> (r: bool)
        ensures
            r == (old(self).partial_download || (old(self).pending_update_path is Some
                && !artifact_exists)),
            r ==> *final(self) == cleared(*old(self)),
            !r ==> *final(self) == *old(self),
    {
        if self.partial_download || (self.pending_update_path.is_some() && !artifact_exists) {
            self.clear_pending();
            true
        } else {
            false
        }
    }
}

/// The release asset's name for an operating system and architecture, or
/// None where no build is published.
pub open spec fn platform_spec(os: Seq<char>, arch: Seq<char>) -> Option<Seq<char>> {
    if os == "macos"@ && arch == "aarch64"@ {
        Some("argo-macos-aarch64"@)
    } else if os == "macos"@ && arch == "x86_64"@ {
        Some("argo-macos-x86_64"@)
    } else if os == "linux"@ && arch == "x86_64"@ {
        Some("argo-linux-x86_64"@)
    } else if os == "linux"@ && arch == "aarch64"@ {
        Some("argo-linux-aarch64"@)
    } else {
        None
    }
}

/// The release asset published for this platform, if any.
pub fn platform_asset_name(os: &str, arch: &str) -> (r: Option<String>)
    ensures
        match r {
            Some(s) => platform_spec(os@, arch@) == Some(s@),
            None => platform_spec(os@, arch@) is None,
        },
{
    let macos = crate::text::str_eq(os, "macos");
    let linux = crate::text::str_eq(os, "linux");
    let arm = crate::text::str_eq(arch, "aarch64");
    let x86 = crate::text::str_eq(arch, "x86_64");
    if macos && arm {
        Some(String::from_str("argo-macos-aarch64"))
    } else if macos && x86 {
        Some(String::from_str("argo-macos-x86_64"))
    } else if linux && x86 {
        Some(String::from_str("argo-linux-x86_64"))
    } else if linux && arm {
        Some(String::from_str("argo-linux-aarch64"))
    } else {
        None
    }
}

/// The directory where downloads are staged, under the configuration
/// directory.
pub fn staging_path(config_dir: &str) -> (r: String)
    ensures
        r@ == config_dir@ + "/updates"@,
{
    join2(config_dir, "/updates")
}

/// The name a download carries while it is under way.
pub fn partial_file_name(version: &str) -> (r: String)
    ensures
        r@ == "argo-"@ + version@ + ".partial"@,
{
    join3("argo-", version, ".partial")
}

/// The name of a completed download, and of the binary extracted from it.
pub fn final_file_name(version: &str) -> (r: String)
    ensures
        r@ == "argo-"@ + version@,
{
    join2("argo-", version)
}

/// Whether a download URL names a compressed archive.
pub fn is_archive_url(url: &str) -> (r: bool)
    ensures
        r == (is_suffix(".tar.gz"@, url@) || is_suffix(".tgz"@, url@)),
{
    ends_with(url, ".tar.gz") || ends_with(url, ".tgz")
}

} // verus!
