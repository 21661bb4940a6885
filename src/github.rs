//! Forge-side vocabulary: error classification, reactions, workflow runs,
//! and the plain records the remote API hands back.

use vstd::prelude::*;
use crate::error::GhrustError;
use crate::text::{contains, contains_seq, decimal, decimal_string, join2};

verus! {

/// The name under which the forge application is published.
pub const GITHUB_APP_NAME: &'static str = "argo-rs";

/// Where the forge application is installed on an organization.
pub fn build_app_install_url() -> (r: String)
    ensures
        r@ == "https://github.com/apps/argo-rs/installations/select_target"@,
{
    String::from_str("https://github.com/apps/argo-rs/installations/select_target")
}

/// The organization that the regex
/// ``the `([^`]+)` organization has enabled OAuth App access restrictions``
/// captures in a text (its leftmost match), as the regex crate finds it.
pub uninterp spec fn org_restriction_capture(s: Seq<char>) -> Option<Seq<char>>;

/// Relies on regex's `Regex::new`, `Regex::captures` and `Captures::get`:
/// the first capture group of the leftmost match of the pattern.
#[verifier::external_body]
fn capture_restricted_org(s: &str) -> (r: Option<String>)
    ensures
        match r {
            Some(o) => org_restriction_capture(s@) == Some(o@),
            None => org_restriction_capture(s@) is None,
        },
{
    let re = match regex::Regex::new(
        r"the `([^`]+)` organization has enabled OAuth App access restrictions",
    ) {
        Ok(re) => re,
        Err(_) => return None,
    };
    match re.captures(s) {
        Some(caps) => match caps.get(1) {
            Some(m) => Some(m.as_str().to_string()),
            None => None,
        },
        None => None,
    }
}

/// The organization named in an access-restriction error, if the error is
/// one.
pub fn extract_org_from_access_error(error_message: &str) -> (r: Option<String>)
    ensures
        !contains_seq(error_message@, "OAuth App access restrictions"@) ==> r is None,
        contains_seq(error_message@, "OAuth App access restrictions"@) ==> match r {
            Some(o) => org_restriction_capture(error_message@) == Some(o@),
            None => org_restriction_capture(error_message@) is None,
        },
{
    if !contains(error_message, "OAuth App access restrictions") {
        return None;
    }
    capture_restricted_org(error_message)
}

/// Whether an error reports the API rate limit.
pub fn is_rate_limit_error(error_message: &str) -> (r: bool)
    ensures
        r == (contains_seq(error_message@, "rate limit"@) || (contains_seq(
            error_message@,
            "403"@,
        ) && contains_seq(error_message@, "limit exceeded"@))),
{
    contains(error_message, "rate limit") || (contains(error_message, "403") && contains(
        error_message,
        "limit exceeded",
    ))
}

/// Whether an error reports a missing resource.
pub fn is_not_found_error(error_message: &str) -> (r: bool)
    ensures
        r == (contains_seq(error_message@, "404"@) || contains_seq(error_message@, "Not Found"@)),
{
    contains(error_message, "404") || contains(error_message, "Not Found")
}

/// Classify a remote API error (from its debug text) into the error that
/// tells the user what to do.
pub fn classify_github_error(error_message: &str) -> (r: GhrustError)
    ensures
        match (if contains_seq(error_message@, "OAuth App access restrictions"@) {
            org_restriction_capture(error_message@)
        } else {
            None
        }) {
            Some(o) => r is OrgAccessRestricted && r->org_name@ == o && r->install_url@
                == "https://github.com/apps/argo-rs/installations/select_target"@,
            None => if contains_seq(error_message@, "rate limit"@) || (contains_seq(
                error_message@,
                "403"@,
            ) && contains_seq(error_message@, "limit exceeded"@)) {
                r is GitHubApi && r->GitHubApi_0@
                    == "API rate limit exceeded. Please wait a few minutes and try again."@
            } else if contains_seq(error_message@, "404"@) || contains_seq(
                error_message@,
                "Not Found"@,
            ) {
                r is GitHubApi && r->GitHubApi_0@
                    == "Repository not found. It may be private or you may not have access."@
            } else {
                r is GitHubApi && r->GitHubApi_0@ == error_message@
            },
        },
{
    let org = extract_org_from_access_error(error_message);
    classify_error(error_message, org)
}

/// Classify a remote API error, given the organization its text names as
/// restricting access (None: it names none).
pub fn classify_error(error_message: &str, org: Option<String>) -> (r: GhrustError)
    ensures
        match org {
            Some(o) => r is OrgAccessRestricted && r->org_name == o && r->install_url@
                == "https://github.com/apps/argo-rs/installations/select_target"@,
            None => if contains_seq(error_message@, "rate limit"@) || (contains_seq(
                error_message@,
                "403"@,
            ) && contains_seq(error_message@, "limit exceeded"@)) {
                r is GitHubApi && r->GitHubApi_0@
                    == "API rate limit exceeded. Please wait a few minutes and try again."@
            } else if contains_seq(error_message@, "404"@) || contains_seq(
                error_message@,
                "Not Found"@,
            ) {
                r is GitHubApi && r->GitHubApi_0@
                    == "Repository not found. It may be private or you may not have access."@
            } else {
                r is GitHubApi && r->GitHubApi_0@ == error_message@
            },
        },
{
    if let Some(org_name) = org {
        return GhrustError::OrgAccessRestricted { org_name, install_url: build_app_install_url() };
    }
    if is_rate_limit_error(error_message) {
        return GhrustError::GitHubApi(
            String::from_str("API rate limit exceeded. Please wait a few minutes and try again."),
        );
    }
    if is_not_found_error(error_message) {
        return GhrustError::GitHubApi(
            String::from_str(
                "Repository not found. It may be private or you may not have access.",
            ),
        );
    }
    GhrustError::GitHubApi(String::from_str(error_message))
}

/// How a pull request is merged.
pub enum MergeMethod {
    Merge,
    Squash,
    Rebase,
}

/// The pull requests a listing asks for.
pub enum PrState {
    Open,
    Closed,
    All,
}

/// What is needed to open a pull request.
pub struct CreatePrParams {
    pub head: String,
    pub base: String,
    pub title: String,
    pub body: Option<String>,
    pub draft: bool,
}

/// A remote branch.
pub struct BranchInfo {
    pub name: String,
    pub is_default: bool,
    pub protected: bool,
    pub sha: String,
}

/// A remote tag.
pub struct TagInfo {
    pub name: String,
    pub sha: String,
}

/// What the comment poller reports.
pub enum GitHubEvent {
    NewComments { pr_number: u64, count: u64 },
    PrUpdated { pr_number: u64 },
    PrListRefreshed { count: u64 },
    Error(String),
}

/// The four reactions offered on comments.
#[derive(PartialEq, Eq, Structural, Clone, Copy, Debug)]
pub enum ReactionType {
    ThumbsUp,
    ThumbsDown,
    Heart,
    Hooray,
}

impl ReactionType {
    /// The emoji shown for the reaction.
    pub fn emoji(&self) -> (r: &'static str)
        ensures
            r@ == match *self {
                ReactionType::ThumbsUp => "👍"@,
                ReactionType::ThumbsDown => "👎"@,
                ReactionType::Heart => "❤️"@,
                ReactionType::Hooray => "🎉"@,
            },
    {
        match self {
            ReactionType::ThumbsUp => "👍",
            ReactionType::ThumbsDown => "👎",
            ReactionType::Heart => "❤️",
            ReactionType::Hooray => "🎉",
        }
    }

    /// Every reaction, in picker order.
    pub fn all() -> (r: [ReactionType; 4])
        ensures
            r@ == seq![
                ReactionType::ThumbsUp,
                ReactionType::ThumbsDown,
                ReactionType::Heart,
                ReactionType::Hooray,
            ],
    {
        let r = [
            ReactionType::ThumbsUp,
            ReactionType::ThumbsDown,
            ReactionType::Heart,
            ReactionType::Hooray,
        ];
        assert(r@ =~= seq![
            ReactionType::ThumbsUp,
            ReactionType::ThumbsDown,
            ReactionType::Heart,
            ReactionType::Hooray,
        ]);
        r
    }

    /// The reaction's name in the remote API.
    pub fn content(&self) -> (r: &'static str)
        ensures
            r@ == content_spec(*self),
    {
        match self {
            ReactionType::ThumbsUp => "+1",
            ReactionType::ThumbsDown => "-1",
            ReactionType::Heart => "heart",
            ReactionType::Hooray => "hooray",
        }
    }
}

pub open spec fn content_spec(t: ReactionType) -> Seq<char> {
    match t {
        ReactionType::ThumbsUp => "+1"@,
        ReactionType::ThumbsDown => "-1"@,
        ReactionType::Heart => "heart"@,
        ReactionType::Hooray => "hooray"@,
    }
}

/// The emoji for a reaction name of the remote API (`❓` for an unknown one).
pub open spec fn reaction_emoji_spec(content: Seq<char>) -> Seq<char> {
    if content == "+1"@ {
        "👍"@
    } else if content == "-1"@ {
        "👎"@
    } else if content == "heart"@ {
        "❤️"@
    } else if content == "hooray"@ {
        "🎉"@
    } else if content == "laugh"@ {
        "😄"@
    } else if content == "confused"@ {
        "😕"@
    } else if content == "rocket"@ {
        "🚀"@
    } else if content == "eyes"@ {
        "👀"@
    } else {
        "❓"@
    }
}

/// A reaction on a comment.
pub struct Reaction {
    pub id: u64,
    /// Login of the user who reacted.
    pub user: Option<String>,
    /// The reaction's name in the remote API (`+1`, `heart`, ...).
    pub content: String,
}

impl Reaction {
    /// The emoji for this reaction.
    pub fn emoji(&self) -> (r: &'static str)
        ensures
            r@ == reaction_emoji_spec(self.content@),
    {
        let c = self.content.as_str();
        if crate::text::str_eq(c, "+1") {
            "👍"
        } else if crate::text::str_eq(c, "-1") {
            "👎"
        } else if crate::text::str_eq(c, "heart") {
            "❤️"
        } else if crate::text::str_eq(c, "hooray") {
            "🎉"
        } else if crate::text::str_eq(c, "laugh") {
            "😄"
        } else if crate::text::str_eq(c, "confused") {
            "😕"
        } else if crate::text::str_eq(c, "rocket") {
            "🚀"
        } else if crate::text::str_eq(c, "eyes") {
            "👀"
        } else {
            "❓"
        }
    }

    /// A field-by-field copy.
    pub fn duplicate(&self) -> (r: Self)
        ensures
            r == *self,
    {
        Reaction { id: self.id, user: self.user.clone(), content: self.content.clone() }
    }
}

/// Status of a workflow run.
#[derive(PartialEq, Eq, Structural, Clone, Copy, Debug)]
pub enum WorkflowRunStatus {
    Queued,
    InProgress,
    Completed,
    Waiting,
    Requested,
    Pending,
}

impl WorkflowRunStatus {
    /// Whether the run has not completed.
    pub fn is_active(&self) -> (r: bool)
        ensures
            r == !(*self is Completed),
    {
        match self {
            WorkflowRunStatus::Completed => false,
            _ => true,
        }
    }

    /// The status's name in the remote API.
    pub fn as_str(&self) -> (r: &'static str)
        ensures
            r@ == match *self {
                WorkflowRunStatus::Queued => "queued"@,
                WorkflowRunStatus::InProgress => "in_progress"@,
                WorkflowRunStatus::Completed => "completed"@,
                WorkflowRunStatus::Waiting => "waiting"@,
                WorkflowRunStatus::Requested => "requested"@,
                WorkflowRunStatus::Pending => "pending"@,
            },
    {
        match self {
            WorkflowRunStatus::Queued => "queued",
            WorkflowRunStatus::InProgress => "in_progress",
            WorkflowRunStatus::Completed => "completed",
            WorkflowRunStatus::Waiting => "waiting",
            WorkflowRunStatus::Requested => "requested",
            WorkflowRunStatus::Pending => "pending",
        }
    }
}

pub open spec fn parse_status_spec(s: Seq<char>) -> WorkflowRunStatus {
    if s == "queued"@ {
        WorkflowRunStatus::Queued
    } else if s == "in_progress"@ {
        WorkflowRunStatus::InProgress
    } else if s == "completed"@ {
        WorkflowRunStatus::Completed
    } else if s == "waiting"@ {
        WorkflowRunStatus::Waiting
    } else if s == "requested"@ {
        WorkflowRunStatus::Requested
    } else {
        WorkflowRunStatus::Pending
    }
}

/// A run status from its name in the remote API (unknown names read as
/// pending).
pub fn parse_status(status: &str) -> (r: WorkflowRunStatus)
    ensures
        r == parse_status_spec(status@),
{
    if crate::text::str_eq(status, "queued") {
        WorkflowRunStatus::Queued
    } else if crate::text::str_eq(status, "in_progress") {
        WorkflowRunStatus::InProgress
    } else if crate::text::str_eq(status, "completed") {
        WorkflowRunStatus::Completed
    } else if crate::text::str_eq(status, "waiting") {
        WorkflowRunStatus::Waiting
    } else if crate::text::str_eq(status, "requested") {
        WorkflowRunStatus::Requested
    } else {
        WorkflowRunStatus::Pending
    }
}

/// Conclusion of a completed workflow run.
#[derive(PartialEq, Eq, Structural, Clone, Copy, Debug)]
pub enum WorkflowConclusion {
    Success,
    Failure,
    Cancelled,
    Skipped,
    TimedOut,
    ActionRequired,
    Neutral,
    Stale,
    StartupFailure,
}

pub open spec fn parse_conclusion_spec(s: Seq<char>) -> WorkflowConclusion {
    if s == "success"@ {
        WorkflowConclusion::Success
    } else if s == "failure"@ {
        WorkflowConclusion::Failure
    } else if s == "cancelled"@ {
        WorkflowConclusion::Cancelled
    } else if s == "skipped"@ {
        WorkflowConclusion::Skipped
    } else if s == "timed_out"@ {
        WorkflowConclusion::TimedOut
    } else if s == "action_required"@ {
        WorkflowConclusion::ActionRequired
    } else if s == "stale"@ {
        WorkflowConclusion::Stale
    } else if s == "startup_failure"@ {
        WorkflowConclusion::StartupFailure
    } else {
        WorkflowConclusion::Neutral
    }
}

impl WorkflowConclusion {
    /// The conclusion's name in the remote API.
    pub fn as_str(&self) -> (r: &'static str)
        ensures
            r@ == match *self {
                WorkflowConclusion::Success => "success"@,
                WorkflowConclusion::Failure => "failure"@,
                WorkflowConclusion::Cancelled => "cancelled"@,
                WorkflowConclusion::Skipped => "skipped"@,
                WorkflowConclusion::TimedOut => "timed_out"@,
                WorkflowConclusion::ActionRequired => "action_required"@,
                WorkflowConclusion::Neutral => "neutral"@,
                WorkflowConclusion::Stale => "stale"@,
                WorkflowConclusion::StartupFailure => "startup_failure"@,
            },
    {
        match self {
            WorkflowConclusion::Success => "success",
            WorkflowConclusion::Failure => "failure",
            WorkflowConclusion::Cancelled => "cancelled",
            WorkflowConclusion::Skipped => "skipped",
            WorkflowConclusion::TimedOut => "timed_out",
            WorkflowConclusion::ActionRequired => "action_required",
            WorkflowConclusion::Neutral => "neutral",
            WorkflowConclusion::Stale => "stale",
            WorkflowConclusion::StartupFailure => "startup_failure",
        }
    }
}

/// A run conclusion from its name in the remote API (unknown names read as
/// neutral).
pub fn parse_conclusion(conclusion: &str) -> (r: WorkflowConclusion)
    ensures
        r == parse_conclusion_spec(conclusion@),
{
    if crate::text::str_eq(conclusion, "success") {
        WorkflowConclusion::Success
    } else if crate::text::str_eq(conclusion, "failure") {
        WorkflowConclusion::Failure
    } else if crate::text::str_eq(conclusion, "cancelled") {
        WorkflowConclusion::Cancelled
    } else if crate::text::str_eq(conclusion, "skipped") {
        WorkflowConclusion::Skipped
    } else if crate::text::str_eq(conclusion, "timed_out") {
        WorkflowConclusion::TimedOut
    } else if crate::text::str_eq(conclusion, "action_required") {
        WorkflowConclusion::ActionRequired
    } else if crate::text::str_eq(conclusion, "stale") {
        WorkflowConclusion::Stale
    } else if crate::text::str_eq(conclusion, "startup_failure") {
        WorkflowConclusion::StartupFailure
    } else {
        WorkflowConclusion::Neutral
    }
}

/// A duration for display: seconds below a minute, minutes and seconds
/// below an hour, else hours and minutes. Negative durations count as zero.
pub open spec fn duration_spec(secs: int) -> Seq<char> {
    let s = if secs < 0 { 0 } else { secs };
    if s < 60 {
        decimal(s as nat) + "s"@
    } else if s < 3600 {
        decimal((s / 60) as nat) + "m "@ + decimal((s % 60) as nat) + "s"@
    } else {
        decimal((s / 3600) as nat) + "h "@ + decimal(((s % 3600) / 60) as nat) + "m"@
    }
}

/// A run's duration in seconds, written for display (`2m 35s`).
pub fn format_duration(secs: i64) -> (r: String)
    ensures
        r@ == duration_spec(secs as int),
{
    let s: u64 = if secs < 0 { 0 } else { secs as u64 };
    if s < 60 {
        let d = decimal_string(s);
        join2(d.as_str(), "s")
    } else if s < 3600 {
        let mut r = decimal_string(s / 60);
        r.append("m ");
        let d = decimal_string(s % 60);
        r.append(d.as_str());
        r.append("s");
        r
    } else {
        let mut r = decimal_string(s / 3600);
        r.append("h ");
        let d = decimal_string((s % 3600) / 60);
        r.append(d.as_str());
        r.append("m");
        r
    }
}

/// The icon for a run: an hourglass while active, else its conclusion's.
pub fn status_icon(status: WorkflowRunStatus, conclusion: Option<WorkflowConclusion>) -> (r:
    &'static str)
    ensures
        r@ == if !(status is Completed) {
            "⏳"@
        } else {
            match conclusion {
                Some(WorkflowConclusion::Success) => "✓"@,
                Some(WorkflowConclusion::Failure) => "✗"@,
                Some(WorkflowConclusion::Cancelled) => "○"@,
                Some(WorkflowConclusion::Skipped) => "⊘"@,
                Some(WorkflowConclusion::TimedOut) => "⧖"@,
                _ => "•"@,
            }
        },
{
    if status.is_active() {
        "⏳"
    } else {
        match conclusion {
            Some(WorkflowConclusion::Success) => "✓",
            Some(WorkflowConclusion::Failure) => "✗",
            Some(WorkflowConclusion::Cancelled) => "○",
            Some(WorkflowConclusion::Skipped) => "⊘",
            Some(WorkflowConclusion::TimedOut) => "⧖",
            _ => "•",
        }
    }
}

/// A text cut to at most `max_len` characters, the last of them `…` when
/// it was cut.
pub fn truncate(s: &str, max_len: usize) -> (r: String)
    requires
        max_len > 0,
    ensures
        r@ == if s@.len() <= max_len {
            s@
        } else {
            s@.subrange(0, max_len - 1) + "…"@
        },
{
    let n = s.unicode_len();
    if n <= max_len {
        String::from_str(s)
    } else {
        join2(s.substring_char(0, max_len - 1), "…")
    }
}

/// Whether an error message says the repository was not found.
pub fn is_repo_not_found(msg: &str) -> (r: bool)
    ensures
        r == (contains_seq(msg@, "not found"@) || contains_seq(msg@, "Not Found"@) || contains_seq(
            msg@,
            "404"@,
        )),
{
    contains(msg, "not found") || contains(msg, "Not Found") || contains(msg, "404")
}

} // verus!
