//! The library's error kinds.

use vstd::prelude::*;

verus! {

/// Every failure that the library reports.
#[derive(PartialEq, Eq, Debug)]
pub enum GhrustError {
    /// No credential of any kind is available.
    NotAuthenticated,
    /// The interactive authorization failed; the reason is kept.
    AuthenticationFailed(String),
    /// The device code ran out before the user authorized it.
    AuthenticationExpired,
    /// The refresh credential is empty or past its own expiry.
    TokenRefreshExpired,
    /// The refresh call failed; the reason is kept.
    TokenRefreshFailed(String),
    /// The remote API refused a request.
    GitHubApi(String),
    /// An organization restricts third-party application access.
    OrgAccessRestricted { org_name: String, install_url: String },
    /// A remote URL that names no forge repository.
    InvalidGitHubUrl(String),
    /// The secret store could not be used.
    Credential(String),
    /// Stored configuration or state could not be read.
    Config(String),
    /// A network request failed.
    Network(String),
    /// A downloaded artifact's digest differs from the recorded one.
    IntegrityMismatch,
    /// A binary failed its self-test; the reason is kept.
    UpdateVerificationFailed(String),
    /// An installed binary failed its self-test and the backup could not be
    /// put back: the installation needs a manual reinstall.
    RollbackFailed(String),
    /// The AI service failed or answered something unusable.
    GeminiApi(String),
    /// Any other failure, with its message.
    Custom(String),
}

impl GhrustError {
    /// Whether the running installation can no longer be trusted.
    pub fn is_critical(&self) -> (r: bool)
        ensures
            r == (self is RollbackFailed),
    {
        match self {
            GhrustError::RollbackFailed(_) => true,
            _ => false,
        }
    }
}

} // verus!
