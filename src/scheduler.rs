//! The UI scheduler's state and its transitions: navigation, the fetches
//! each screen triggers, and the reconciliation of background outcomes.
//!
//! Nothing here performs I/O. Each transition returns the background
//! operations it dispatches; the run loop starts them, and each one sends
//! back exactly one `AsyncMessage`. Every tick the loop drains the queued
//! messages, in arrival order, before it renders.

use vstd::prelude::*;
use std::collections::VecDeque;
use crate::git::LocalTagInfo;
use crate::github::{BranchInfo, Reaction, WorkflowConclusion, WorkflowRunStatus};
use crate::repository::RepositoryContext;
use crate::text::{contains, contains_seq, lower_of, lowercase, opt_clone};
use crate::update::{pending_spec, should_check_spec, UpdatePersistentState, UpdateState};

verus! {

/// The screens of the UI.
#[derive(PartialEq, Eq, Structural, Clone, Copy, Debug)]
pub enum Screen {
    Dashboard,
    PrList,
    PrDetail(u64),
    PrCreate,
    Commit,
    Tags,
    Settings,
    Auth,
    WorkflowRuns,
}

/// A selection in a list.
#[derive(Clone, Copy)]
pub struct ListState {
    /// The selected position.
    pub selected: usize,
    /// The number of items.
    pub total: usize,
}

impl ListState {
    /// The first item of `total` selected.
    pub fn new(total: usize) -> (r: Self)
        ensures
            r == (ListState { selected: 0, total }),
    {
        ListState { selected: 0, total }
    }

    /// Select the next item, wrapping to the first.
    pub fn next(&mut self)
        ensures
            final(self).total == old(self).total,
            final(self).selected == if old(self).total > 0 {
                ((old(self).selected + 1) % (old(self).total as int)) as usize
            } else {
                old(self).selected
            },
    {
        if self.total > 0 {
            self.selected = ((self.selected as u128 + 1) % (self.total as u128)) as usize;
        }
    }

    /// Select the previous item, wrapping to the last.
    pub fn previous(&mut self)
        ensures
            final(self).total == old(self).total,
            final(self).selected == if old(self).total == 0 {
                old(self).selected
            } else if old(self).selected == 0 {
                (old(self).total - 1) as usize
            } else {
                (old(self).selected - 1) as usize
            },
    {
        if self.total > 0 {
            self.selected = if self.selected == 0 {
                self.total - 1
            } else {
                self.selected - 1
            };
        }
    }
}

/// A pull request, as the screens use it.
pub struct PrSummary {
    pub number: u64,
    pub title: String,
    /// The branch the pull request merges from.
    pub head_branch: String,
}

/// A comment on a pull request.
pub struct CommentInfo {
    pub id: u64,
    pub author: String,
    pub body: String,
}

/// A workflow run, as the screens use it.
pub struct RunSummary {
    pub id: u64,
    pub name: String,
    pub status: WorkflowRunStatus,
    pub conclusion: Option<WorkflowConclusion>,
    pub head_branch: String,
}

/// A reaction together with the comment it is on.
pub struct CommentReaction {
    pub comment_id: u64,
    pub reaction: Reaction,
}

impl CommentReaction {
    /// A field-by-field copy.
    pub fn duplicate(&self) -> (r: Self)
        ensures
            r == *self,
    {
        CommentReaction { comment_id: self.comment_id, reaction: self.reaction.duplicate() }
    }
}

/// Why a list could not be shown.
pub enum ListError {
    /// The failure's message.
    Message(String),
    /// The repository cannot be reached: the forge application may not be
    /// installed for its owner.
    AppNotInstalled { owner: String, repo: String },
    /// No repository is known.
    NoRepository,
}

/// The kind of failure an error popup reports.
pub enum PopupKind {
    PrCreation,
    Push,
    Merge,
    TagCreation,
    TagDeletion,
    TagPush,
}

/// An error that the user must acknowledge.
pub struct ErrorPopup {
    pub title: PopupKind,
    pub message: String,
}

/// The status line's note.
pub enum StatusNote {
    LoadingPullRequests,
    NoOpenPullRequests,
    LoadedPullRequests(u64),
    RepositoryNotFound,
    OpeningInstallPage(String),
    Error(String),
    LoadingPr(u64),
    LoadedBranches(u64),
    BranchesFailed(String),
    PrCreated(u64),
    AiContentGenerated,
    AiFailed(String),
    AiCommitMessageGenerated,
    PushedTo(String),
    LoadingWorkflowRuns(Option<String>),
    NoWorkflowRuns,
    LoadedWorkflowRuns(u64),
    CommentsFailed(String),
    CommentPosted,
    CommentFailed(String),
    ReactionAdded,
    ReactionFailed(String),
    ReactionRemoved,
    ReactionRemoveFailed(String),
    PrMerged(u64),
    LoadingTags,
    LoadedTags(u64),
    TagsFailed(String),
    TagCreated { name: String, pushed: bool },
    TagDeleted(String),
    TagPushed(String),
}

/// A background operation the scheduler starts.
pub enum Dispatch {
    FetchPrList,
    FetchPrDetail(u64),
    FetchPrComments(u64),
    FetchPrWorkflowRuns { number: u64, head_branch: String },
    FetchWorkflowRuns { branch: Option<String>, preserve_selection_id: Option<u64> },
    FetchBranches,
    FetchTags,
    DownloadUpdate { version: String, download_url: String },
    /// Open the page that installs the forge application.
    OpenInstallPage,
    /// Ask the release feed for a newer version.
    CheckForUpdate,
}

/// The terminal outcome of a background operation.
pub enum AsyncMessage {
    PrListLoaded(Vec<PrSummary>),
    PrListError(String),
    PrLoaded(PrSummary),
    PrError(String),
    AuthStatus { github: bool, gemini: bool },
    BranchesLoaded(Vec<BranchInfo>),
    BranchesError(String),
    PrCreated(PrSummary),
    PrCreateError(String),
    AiContentGenerated { title: String, body: String },
    AiContentError(String),
    AiCommitMessageGenerated(String),
    AiCommitMessageError(String),
    /// The push completed; the tracking branch.
    PushCompleted(String),
    PushError(String),
    WorkflowRunsLoaded { runs: Vec<RunSummary>, preserve_selection_id: Option<u64> },
    WorkflowRunsError(String),
    PrCommentsLoaded { number: u64, comments: Vec<CommentInfo> },
    PrCommentsError(String),
    PrCommentAdded(CommentInfo),
    PrCommentAddError(String),
    PrWorkflowRunsLoaded { number: u64, runs: Vec<RunSummary> },
    PrWorkflowRunsError(String),
    CommentReactionsLoaded { number: u64, reactions: Vec<CommentReaction> },
    ReactionAdded { comment_id: u64, reaction: Reaction },
    ReactionAddError(String),
    ReactionRemoved { comment_id: u64, reaction_id: u64 },
    ReactionRemoveError(String),
    PrMerged(u64),
    PrMergeError(String),
    TagsLoaded { local_tags: Vec<LocalTagInfo>, remote_tags: Vec<String> },
    TagsError(String),
    TagCreated { name: String, pushed: bool },
    TagCreateError(String),
    TagDeleted { name: String },
    TagDeleteError(String),
    TagPushed(String),
    TagPushError(String),
    UpdateUpToDate,
    UpdateAvailable { version: String, download_url: String },
    UpdateDownloadProgress { downloaded: u64, total: u64 },
    UpdateDownloadComplete(String),
    UpdateFailed,
}

} // verus!

verus! {
/// The pull request list.
pub struct PrListPane {
    pub prs: Vec<PrSummary>,
    pub loading: bool,
    pub fetched: bool,
    pub error: Option<ListError>,
    pub selection: ListState,
}
/// The pull request list, with lists and texts as sequences.
pub struct PrListView {
    pub prs: Seq<PrSummary>,
    pub loading: bool,
    pub fetched: bool,
    pub error: Option<ListError>,
    pub selection: ListState,
}
impl View for PrListPane {
    type V = PrListView;

    open spec fn view(&self) -> PrListView {
        PrListView {
            prs: self.prs@,
            loading: self.loading,
            fetched: self.fetched,
            error: self.error,
            selection: self.selection,
        }
    }
}
impl PrListPane {
    /// Nothing loaded yet.
    pub fn new() -> (r: Self)
        ensures
            r.prs@.len() == 0,
            r.loading == false,
            r.fetched == false,
            r.selection == (ListState { selected: 0, total: 0 }),
            r.error is None,
    {
        PrListPane {
            prs: Vec::new(),
            loading: false,
            fetched: false,
            error: None,
            selection: ListState::new(0),
        }
    }
}
/// One pull request with its comments, reactions and runs.
pub struct PrDetailPane {
    pub selected: Option<PrSummary>,
    pub loading: bool,
    pub scroll: usize,
    pub comments: Vec<CommentInfo>,
    pub comments_loading: bool,
    pub comments_error: Option<String>,
    pub comments_selection: ListState,
    pub input_mode: bool,
    pub comment_text: String,
    pub comment_submitting: bool,
    pub reactions: Vec<CommentReaction>,
    pub reaction_picker_open: bool,
    pub reaction_submitting: bool,
    pub runs: Vec<RunSummary>,
    pub runs_loading: bool,
    pub merge_dialog_open: bool,
    pub merge_in_progress: bool,
}
/// One pull request with its comments, reactions and runs, with lists and texts as sequences.
pub struct PrDetailView {
    pub selected: Option<PrSummary>,
    pub loading: bool,
    pub scroll: usize,
    pub comments: Seq<CommentInfo>,
    pub comments_loading: bool,
    pub comments_error: Option<String>,
    pub comments_selection: ListState,
    pub input_mode: bool,
    pub comment_text: Seq<char>,
    pub comment_submitting: bool,
    pub reactions: Seq<CommentReaction>,
    pub reaction_picker_open: bool,
    pub reaction_submitting: bool,
    pub runs: Seq<RunSummary>,
    pub runs_loading: bool,
    pub merge_dialog_open: bool,
    pub merge_in_progress: bool,
}
impl View for PrDetailPane {
    type V = PrDetailView;

    open spec fn view(&self) -> PrDetailView {
        PrDetailView {
            selected: self.selected,
            loading: self.loading,
            scroll: self.scroll,
            comments: self.comments@,
            comments_loading: self.comments_loading,
            comments_error: self.comments_error,
            comments_selection: self.comments_selection,
            input_mode: self.input_mode,
            comment_text: self.comment_text@,
            comment_submitting: self.comment_submitting,
            reactions: self.reactions@,
            reaction_picker_open: self.reaction_picker_open,
            reaction_submitting: self.reaction_submitting,
            runs: self.runs@,
            runs_loading: self.runs_loading,
            merge_dialog_open: self.merge_dialog_open,
            merge_in_progress: self.merge_in_progress,
        }
    }
}
impl PrDetailPane {
    /// Nothing loaded yet.
    pub fn new() -> (r: Self)
        ensures
            r.comments@.len() == 0,
            r.comment_text@.len() == 0,
            r.reactions@.len() == 0,
            r.runs@.len() == 0,
            r.loading == false,
            r.scroll == 0,
            r.comments_loading == false,
            r.comments_selection == (ListState { selected: 0, total: 0 }),
            r.input_mode == false,
            r.comment_submitting == false,
            r.reaction_picker_open == false,
            r.reaction_submitting == false,
            r.runs_loading == false,
            r.merge_dialog_open == false,
            r.merge_in_progress == false,
            r.selected is None,
            r.comments_error is None,
    {
        PrDetailPane {
            selected: None,
            loading: false,
            scroll: 0,
            comments: Vec::new(),
            comments_loading: false,
            comments_error: None,
            comments_selection: ListState::new(0),
            input_mode: false,
            comment_text: String::new(),
            comment_submitting: false,
            reactions: Vec::new(),
            reaction_picker_open: false,
            reaction_submitting: false,
            runs: Vec::new(),
            runs_loading: false,
            merge_dialog_open: false,
            merge_in_progress: false,
        }
    }
}
/// The commit screen.
pub struct CommitPane {
    pub message: String,
    pub message_mode: bool,
    pub ai_loading: bool,
    pub push_prompt: bool,
    pub push_loading: bool,
    pub last_commit_hash: Option<String>,
    pub tracking_branch: Option<String>,
    pub tag_prompt: bool,
}
/// The commit screen, with lists and texts as sequences.
pub struct CommitView {
    pub message: Seq<char>,
    pub message_mode: bool,
    pub ai_loading: bool,
    pub push_prompt: bool,
    pub push_loading: bool,
    pub last_commit_hash: Option<String>,
    pub tracking_branch: Option<String>,
    pub tag_prompt: bool,
}
impl View for CommitPane {
    type V = CommitView;

    open spec fn view(&self) -> CommitView {
        CommitView {
            message: self.message@,
            message_mode: self.message_mode,
            ai_loading: self.ai_loading,
            push_prompt: self.push_prompt,
            push_loading: self.push_loading,
            last_commit_hash: self.last_commit_hash,
            tracking_branch: self.tracking_branch,
            tag_prompt: self.tag_prompt,
        }
    }
}
impl CommitPane {
    /// Nothing loaded yet.
    pub fn new() -> (r: Self)
        ensures
            r.message@.len() == 0,
            r.message_mode == false,
            r.ai_loading == false,
            r.push_prompt == false,
            r.push_loading == false,
            r.tag_prompt == false,
            r.last_commit_hash is None,
            r.tracking_branch is None,
    {
        CommitPane {
            message: String::new(),
            message_mode: false,
            ai_loading: false,
            push_prompt: false,
            push_loading: false,
            last_commit_hash: None,
            tracking_branch: None,
            tag_prompt: false,
        }
    }
}
/// The pull request creation form.
pub struct PrCreatePane {
    pub title: String,
    pub body: String,
    pub head: String,
    pub base: String,
    pub branches: Vec<BranchInfo>,
    pub loading: bool,
    pub submitting: bool,
    pub error: Option<ListError>,
    pub head_selection: ListState,
    pub base_selection: ListState,
    pub ai_loading: bool,
}
/// The pull request creation form, with lists and texts as sequences.
pub struct PrCreateView {
    pub title: Seq<char>,
    pub body: Seq<char>,
    pub head: Seq<char>,
    pub base: Seq<char>,
    pub branches: Seq<BranchInfo>,
    pub loading: bool,
    pub submitting: bool,
    pub error: Option<ListError>,
    pub head_selection: ListState,
    pub base_selection: ListState,
    pub ai_loading: bool,
}
impl View for PrCreatePane {
    type V = PrCreateView;

    open spec fn view(&self) -> PrCreateView {
        PrCreateView {
            title: self.title@,
            body: self.body@,
            head: self.head@,
            base: self.base@,
            branches: self.branches@,
            loading: self.loading,
            submitting: self.submitting,
            error: self.error,
            head_selection: self.head_selection,
            base_selection: self.base_selection,
            ai_loading: self.ai_loading,
        }
    }
}
impl PrCreatePane {
    /// Nothing loaded yet.
    pub fn new() -> (r: Self)
        ensures
            r.title@.len() == 0,
            r.body@.len() == 0,
            r.head@.len() == 0,
            r.base@.len() == 0,
            r.branches@.len() == 0,
            r.loading == false,
            r.submitting == false,
            r.head_selection == (ListState { selected: 0, total: 0 }),
            r.base_selection == (ListState { selected: 0, total: 0 }),
            r.ai_loading == false,
            r.error is None,
    {
        PrCreatePane {
            title: String::new(),
            body: String::new(),
            head: String::new(),
            base: String::new(),
            branches: Vec::new(),
            loading: false,
            submitting: false,
            error: None,
            head_selection: ListState::new(0),
            base_selection: ListState::new(0),
            ai_loading: false,
        }
    }
}
/// The workflow runs screen.
pub struct WorkflowPane {
    pub runs: Vec<RunSummary>,
    pub loading: bool,
    pub fetched: bool,
    pub error: Option<String>,
    pub selection: ListState,
    pub last_poll_tick: u64,
    pub branch_filter: Option<String>,
}
/// The workflow runs screen, with lists and texts as sequences.
pub struct WorkflowView {
    pub runs: Seq<RunSummary>,
    pub loading: bool,
    pub fetched: bool,
    pub error: Option<String>,
    pub selection: ListState,
    pub last_poll_tick: u64,
    pub branch_filter: Option<String>,
}
impl View for WorkflowPane {
    type V = WorkflowView;

    open spec fn view(&self) -> WorkflowView {
        WorkflowView {
            runs: self.runs@,
            loading: self.loading,
            fetched: self.fetched,
            error: self.error,
            selection: self.selection,
            last_poll_tick: self.last_poll_tick,
            branch_filter: self.branch_filter,
        }
    }
}
impl WorkflowPane {
    /// Nothing loaded yet.
    pub fn new() -> (r: Self)
        ensures
            r.runs@.len() == 0,
            r.loading == false,
            r.fetched == false,
            r.selection == (ListState { selected: 0, total: 0 }),
            r.last_poll_tick == 0,
            r.error is None,
            r.branch_filter is None,
    {
        WorkflowPane {
            runs: Vec::new(),
            loading: false,
            fetched: false,
            error: None,
            selection: ListState::new(0),
            last_poll_tick: 0,
            branch_filter: None,
        }
    }
}
/// The tags screen.
pub struct TagsPane {
    pub local: Vec<LocalTagInfo>,
    pub remote: Vec<String>,
    pub loading: bool,
    pub fetched: bool,
    pub error: Option<ListError>,
    pub selection: ListState,
}
/// The tags screen, with lists and texts as sequences.
pub struct TagsView {
    pub local: Seq<LocalTagInfo>,
    pub remote: Seq<String>,
    pub loading: bool,
    pub fetched: bool,
    pub error: Option<ListError>,
    pub selection: ListState,
}
impl View for TagsPane {
    type V = TagsView;

    open spec fn view(&self) -> TagsView {
        TagsView {
            local: self.local@,
            remote: self.remote@,
            loading: self.loading,
            fetched: self.fetched,
            error: self.error,
            selection: self.selection,
        }
    }
}
impl TagsPane {
    /// Nothing loaded yet.
    pub fn new() -> (r: Self)
        ensures
            r.local@.len() == 0,
            r.remote@.len() == 0,
            r.loading == false,
            r.fetched == false,
            r.selection == (ListState { selected: 0, total: 0 }),
            r.error is None,
    {
        TagsPane {
            local: Vec::new(),
            remote: Vec::new(),
            loading: false,
            fetched: false,
            error: None,
            selection: ListState::new(0),
        }
    }
}
/// What the UI knows of the self-update.
pub struct UpdatePane {
    pub state: UpdateState,
    pub available_version: Option<String>,
    pub download_url: Option<String>,
    pub check_triggered: bool,
}
/// What the UI knows of the self-update, with lists and texts as sequences.
pub struct UpdateView {
    pub state: UpdateState,
    pub available_version: Option<String>,
    pub download_url: Option<String>,
    pub check_triggered: bool,
}
impl View for UpdatePane {
    type V = UpdateView;

    open spec fn view(&self) -> UpdateView {
        UpdateView {
            state: self.state,
            available_version: self.available_version,
            download_url: self.download_url,
            check_triggered: self.check_triggered,
        }
    }
}
impl UpdatePane {
    /// Nothing loaded yet.
    pub fn new() -> (r: Self)
        ensures
            r.check_triggered == false,
            r.available_version is None,
            r.download_url is None,
            r.state is Idle,
    {
        UpdatePane {
            state: UpdateState::Idle,
            available_version: None,
            download_url: None,
            check_triggered: false,
        }
    }
}
/// All UI state; only the scheduler changes it.
pub struct App {
    pub running: bool,
    pub current_screen: Screen,
    pub navigation_stack: Vec<Screen>,
    pub repository: Option<RepositoryContext>,
    pub status_message: Option<StatusNote>,
    pub error_popup: Option<ErrorPopup>,
    pub tick_counter: u64,
    pub github_authenticated: bool,
    pub gemini_configured: bool,
    pub pr_list: PrListPane,
    pub pr_detail: PrDetailPane,
    pub commit: CommitPane,
    pub pr_create: PrCreatePane,
    pub workflows: WorkflowPane,
    pub tags: TagsPane,
    pub update: UpdatePane,
}
/// The UI state as sequences.
pub struct AppView {
    pub running: bool,
    pub current_screen: Screen,
    pub navigation_stack: Seq<Screen>,
    pub repository: Option<RepositoryContext>,
    pub status_message: Option<StatusNote>,
    pub error_popup: Option<ErrorPopup>,
    pub tick_counter: u64,
    pub github_authenticated: bool,
    pub gemini_configured: bool,
    pub pr_list: PrListView,
    pub pr_detail: PrDetailView,
    pub commit: CommitView,
    pub pr_create: PrCreateView,
    pub workflows: WorkflowView,
    pub tags: TagsView,
    pub update: UpdateView,
}
impl View for App {
    type V = AppView;

    open spec fn view(&self) -> AppView {
        AppView {
            running: self.running,
            current_screen: self.current_screen,
            navigation_stack: self.navigation_stack@,
            repository: self.repository,
            status_message: self.status_message,
            error_popup: self.error_popup,
            tick_counter: self.tick_counter,
            github_authenticated: self.github_authenticated,
            gemini_configured: self.gemini_configured,
            pr_list: self.pr_list@,
            pr_detail: self.pr_detail@,
            commit: self.commit@,
            pr_create: self.pr_create@,
            workflows: self.workflows@,
            tags: self.tags@,
            update: self.update@,
        }
    }
}

/// The outcome of a transition: the next state and what it dispatches.
pub type Step = (AppView, Seq<Dispatch>);

pub open spec fn fetch_pr_list_spec(a: AppView) -> Step {
    if a.pr_list.loading || a.repository is None {
        (a, seq![])
    } else {
        (
            AppView {
                pr_list: PrListView { loading: true, error: None, ..a.pr_list },
                status_message: Some(StatusNote::LoadingPullRequests),
                ..a
            },
            seq![Dispatch::FetchPrList],
        )
    }
}

impl App {
    /// Start loading the pull request list, unless it is loading already or
    /// no repository is known.
    pub fn fetch_pr_list(&mut self, out: &mut Vec<Dispatch>)
        ensures
            final(self)@ == fetch_pr_list_spec(old(self)@).0,
            final(out)@ == old(out)@ + fetch_pr_list_spec(old(self)@).1,
    {
        if self.pr_list.loading || self.repository.is_none() {
            assert(old(out)@ + seq![] =~= old(out)@);
            return;
        }
        self.pr_list.loading = true;
        self.pr_list.error = None;
        self.status_message = Some(StatusNote::LoadingPullRequests);
        out.push(Dispatch::FetchPrList);
        assert(final(out)@ =~= old(out)@ + seq![Dispatch::FetchPrList]);
    }
}

pub open spec fn fetch_pr_detail_spec(a: AppView, number: u64) -> Step {
    if a.pr_detail.loading || a.repository is None {
        (a, seq![])
    } else {
        (
            AppView {
                pr_detail: PrDetailView { loading: true, ..a.pr_detail },
                status_message: Some(StatusNote::LoadingPr(number)),
                ..a
            },
            seq![Dispatch::FetchPrDetail(number)],
        )
    }
}

pub open spec fn fetch_pr_comments_spec(a: AppView, number: u64) -> Step {
    if a.pr_detail.comments_loading || a.repository is None {
        (a, seq![])
    } else {
        (
            AppView {
                pr_detail: PrDetailView {
                    comments_loading: true,
                    comments_error: None,
                    reactions: seq![],
                    ..a.pr_detail
                },
                ..a
            },
            seq![Dispatch::FetchPrComments(number)],
        )
    }
}

pub open spec fn fetch_pr_workflow_runs_spec(a: AppView) -> Step {
    if a.pr_detail.runs_loading || a.repository is None || a.pr_detail.selected is None {
        (a, seq![])
    } else {
        (
            AppView { pr_detail: PrDetailView { runs_loading: true, ..a.pr_detail }, ..a },
            seq![
                Dispatch::FetchPrWorkflowRuns {
                    number: a.pr_detail.selected->0.number,
                    head_branch: a.pr_detail.selected->0.head_branch,
                },
            ],
        )
    }
}

pub open spec fn fetch_workflow_runs_spec(a: AppView) -> Step {
    if a.workflows.loading || a.repository is None {
        (a, seq![])
    } else {
        (
            AppView {
                workflows: WorkflowView { loading: true, error: None, ..a.workflows },
                status_message: Some(StatusNote::LoadingWorkflowRuns(a.workflows.branch_filter)),
                ..a
            },
            seq![
                Dispatch::FetchWorkflowRuns {
                    branch: a.workflows.branch_filter,
                    preserve_selection_id: None,
                },
            ],
        )
    }
}

pub open spec fn fetch_tags_spec(a: AppView) -> Step {
    if a.tags.loading {
        (a, seq![])
    } else if a.repository is None {
        (AppView { tags: TagsView { error: Some(ListError::NoRepository), ..a.tags }, ..a }, seq![])
    } else {
        (
            AppView {
                tags: TagsView { loading: true, error: None, ..a.tags },
                status_message: Some(StatusNote::LoadingTags),
                ..a
            },
            seq![Dispatch::FetchTags],
        )
    }
}

pub open spec fn fetch_branches_spec(a: AppView) -> Step {
    if a.pr_create.loading {
        (a, seq![])
    } else if a.repository is None {
        (
            AppView {
                pr_create: PrCreateView { error: Some(ListError::NoRepository), ..a.pr_create },
                ..a
            },
            seq![],
        )
    } else {
        (
            AppView { pr_create: PrCreateView { loading: true, ..a.pr_create }, ..a },
            seq![Dispatch::FetchBranches],
        )
    }
}

pub open spec fn start_update_download_spec(a: AppView) -> Step {
    match (a.update.available_version, a.update.download_url) {
        (Some(v), Some(u)) => (
            AppView {
                update: UpdateView {
                    state: UpdateState::Downloading { downloaded: 0, total: 0 },
                    ..a.update
                },
                ..a
            },
            seq![Dispatch::DownloadUpdate { version: v, download_url: u }],
        ),
        _ => (a, seq![]),
    }
}

pub open spec fn init_pr_create_form_spec(a: AppView) -> AppView {
    let f = PrCreateView {
        title: seq![],
        body: seq![],
        error: None,
        ai_loading: false,
        ..a.pr_create
    };
    match a.repository {
        Some(r) => AppView {
            pr_create: PrCreateView { head: r.current_branch@, base: r.default_branch@, ..f },
            ..a
        },
        None => AppView { pr_create: f, ..a },
    }
}

impl App {
    /// Start loading one pull request.
    pub fn fetch_pr_detail(&mut self, number: u64, out: &mut Vec<Dispatch>)
        ensures
            final(self)@ == fetch_pr_detail_spec(old(self)@, number).0,
            final(out)@ == old(out)@ + fetch_pr_detail_spec(old(self)@, number).1,
    {
        if self.pr_detail.loading || self.repository.is_none() {
            assert(old(out)@ + seq![] =~= old(out)@);
            return;
        }
        self.pr_detail.loading = true;
        self.status_message = Some(StatusNote::LoadingPr(number));
        out.push(Dispatch::FetchPrDetail(number));
        assert(final(out)@ =~= old(out)@ + seq![Dispatch::FetchPrDetail(number)]);
    }

    /// Start loading a pull request's comments (and their reactions).
    pub fn fetch_pr_comments(&mut self, number: u64, out: &mut Vec<Dispatch>)
        ensures
            final(self)@ == fetch_pr_comments_spec(old(self)@, number).0,
            final(out)@ == old(out)@ + fetch_pr_comments_spec(old(self)@, number).1,
    {
        if self.pr_detail.comments_loading || self.repository.is_none() {
            assert(old(out)@ + seq![] =~= old(out)@);
            return;
        }
        self.pr_detail.comments_loading = true;
        self.pr_detail.comments_error = None;
        self.pr_detail.reactions.clear();
        out.push(Dispatch::FetchPrComments(number));
        assert(final(out)@ =~= old(out)@ + seq![Dispatch::FetchPrComments(number)]);
        assert(self.pr_detail@ =~= fetch_pr_comments_spec(old(self)@, number).0.pr_detail);
    }

    /// Start loading the workflow runs of the selected pull request's branch.
    pub fn fetch_pr_workflow_runs(&mut self, out: &mut Vec<Dispatch>)
        ensures
            final(self)@ == fetch_pr_workflow_runs_spec(old(self)@).0,
            final(out)@ == old(out)@ + fetch_pr_workflow_runs_spec(old(self)@).1,
    {
        if self.pr_detail.runs_loading || self.repository.is_none() {
            assert(old(out)@ + seq![] =~= old(out)@);
            return;
        }
        let d = match &self.pr_detail.selected {
            Some(pr) => Dispatch::FetchPrWorkflowRuns {
                number: pr.number,
                head_branch: pr.head_branch.clone(),
            },
            None => {
                assert(old(out)@ + seq![] =~= old(out)@);
                return;
            },
        };
        self.pr_detail.runs_loading = true;
        out.push(d);
        assert(final(out)@ =~= old(out)@ + seq![d]);
    }

    /// Start loading the workflow runs (of the branch filter, if one is set).
    pub fn fetch_workflow_runs(&mut self, out: &mut Vec<Dispatch>)
        ensures
            final(self)@ == fetch_workflow_runs_spec(old(self)@).0,
            final(out)@ == old(out)@ + fetch_workflow_runs_spec(old(self)@).1,
    {
        if self.workflows.loading || self.repository.is_none() {
            assert(old(out)@ + seq![] =~= old(out)@);
            return;
        }
        self.workflows.loading = true;
        self.workflows.error = None;
        self.status_message = Some(
            StatusNote::LoadingWorkflowRuns(opt_clone(&self.workflows.branch_filter)),
        );
        let d = Dispatch::FetchWorkflowRuns {
            branch: opt_clone(&self.workflows.branch_filter),
            preserve_selection_id: None,
        };
        out.push(d);
        assert(final(out)@ =~= old(out)@ + seq![d]);
    }

    /// Start loading the tags, unless they are loading already.
    pub fn fetch_tags(&mut self, out: &mut Vec<Dispatch>)
        ensures
            final(self)@ == fetch_tags_spec(old(self)@).0,
            final(out)@ == old(out)@ + fetch_tags_spec(old(self)@).1,
    {
        if self.tags.loading {
            assert(old(out)@ + seq![] =~= old(out)@);
            return;
        }
        if self.repository.is_none() {
            self.tags.error = Some(ListError::NoRepository);
            assert(old(out)@ + seq![] =~= old(out)@);
            return;
        }
        self.tags.loading = true;
        self.tags.error = None;
        self.status_message = Some(StatusNote::LoadingTags);
        out.push(Dispatch::FetchTags);
        assert(final(out)@ =~= old(out)@ + seq![Dispatch::FetchTags]);
    }

    /// Start loading the remote branches for the creation form.
    pub fn fetch_branches(&mut self, out: &mut Vec<Dispatch>)
        ensures
            final(self)@ == fetch_branches_spec(old(self)@).0,
            final(out)@ == old(out)@ + fetch_branches_spec(old(self)@).1,
    {
        if self.pr_create.loading {
            assert(old(out)@ + seq![] =~= old(out)@);
            return;
        }
        if self.repository.is_none() {
            self.pr_create.error = Some(ListError::NoRepository);
            assert(old(out)@ + seq![] =~= old(out)@);
            return;
        }
        self.pr_create.loading = true;
        out.push(Dispatch::FetchBranches);
        assert(final(out)@ =~= old(out)@ + seq![Dispatch::FetchBranches]);
    }

    /// Start downloading the update that was found, if one was.
    pub fn start_update_download(&mut self, out: &mut Vec<Dispatch>)
        ensures
            final(self)@ == start_update_download_spec(old(self)@).0,
            final(out)@ == old(out)@ + start_update_download_spec(old(self)@).1,
    {
        match (&self.update.available_version, &self.update.download_url) {
            (Some(v), Some(u)) => {
                let d = Dispatch::DownloadUpdate { version: v.clone(), download_url: u.clone() };
                self.update.state = UpdateState::Downloading { downloaded: 0, total: 0 };
                out.push(d);
                assert(final(out)@ =~= old(out)@ + seq![d]);
            },
            _ => {
                assert(old(out)@ + seq![] =~= old(out)@);
            },
        }
    }

    /// Reset the creation form, with the branches of the repository.
    pub fn init_pr_create_form(&mut self)
        ensures
            final(self)@ == init_pr_create_form_spec(old(self)@),
    {
        self.pr_create.title = String::new();
        self.pr_create.body = String::new();
        self.pr_create.error = None;
        self.pr_create.ai_loading = false;
        match &self.repository {
            Some(r) => {
                self.pr_create.head = r.current_branch.clone();
                self.pr_create.base = r.default_branch.clone();
            },
            None => {},
        }
        assert(self.pr_create@ =~= init_pr_create_form_spec(old(self)@).pr_create);
    }
}

/// Navigation: the current screen is pushed on the history, the new one
/// becomes current, the status note is cleared, and the fetches the new
/// screen needs are started. The list and tags screens fetch only when not
/// yet loaded or loading.
pub open spec fn navigate_spec(a: AppView, screen: Screen) -> Step {
    let b = AppView {
        navigation_stack: a.navigation_stack.push(a.current_screen),
        current_screen: screen,
        status_message: None,
        ..a
    };
    enter_spec(b, a.current_screen, screen)
}

/// What entering `screen` (coming from `prev`) starts.
pub open spec fn enter_spec(b: AppView, prev: Screen, screen: Screen) -> Step {
    match screen {
        Screen::PrList => if !b.pr_list.fetched && !b.pr_list.loading {
            fetch_pr_list_spec(b)
        } else {
            (b, seq![])
        },
        Screen::PrDetail(n) => enter_pr_detail_spec(b, n),
        Screen::PrCreate => fetch_branches_spec(init_pr_create_form_spec(b)),
        Screen::WorkflowRuns => enter_workflow_runs_spec(b, prev),
        Screen::Tags => if !b.tags.fetched && !b.tags.loading {
            fetch_tags_spec(b)
        } else {
            (b, seq![])
        },
        _ => (b, seq![]),
    }
}

/// A pull request's detail view with its comments and runs forgotten.
pub open spec fn reset_pr_detail_spec(c: AppView) -> AppView {
    AppView {
        pr_detail: PrDetailView {
            comments: seq![],
            comments_error: None,
            comments_selection: ListState { selected: 0, total: 0 },
            input_mode: false,
            comment_text: seq![],
            runs: seq![],
            ..c.pr_detail
        },
        ..c
    }
}

pub open spec fn enter_pr_detail_spec(b: AppView, n: u64) -> Step {
    {
            let (c, d1) = fetch_pr_detail_spec(b, n);
            let c2 = reset_pr_detail_spec(c);
            let (e, d2) = fetch_pr_comments_spec(c2, n);
            (e, d1 + d2)
    }
}

pub open spec fn enter_workflow_runs_spec(b: AppView, prev: Screen) -> Step {
    {
            let c = AppView {
                workflows: WorkflowView {
                    branch_filter: if prev == Screen::Dashboard {
                        None
                    } else {
                        b.workflows.branch_filter
                    },
                    last_poll_tick: b.tick_counter,
                    runs: seq![],
                    fetched: false,
                    ..b.workflows
                },
                ..b
            };
            fetch_workflow_runs_spec(c)
    }
}

/// Going back: the last screen of the history becomes current (nothing
/// happens with an empty history); leaving the workflow runs screen drops
/// its branch filter.
pub open spec fn go_back_spec(a: AppView) -> AppView {
    let b = if a.current_screen == Screen::WorkflowRuns {
        AppView { workflows: WorkflowView { branch_filter: None, ..a.workflows }, ..a }
    } else {
        a
    };
    if b.navigation_stack.len() > 0 {
        AppView {
            current_screen: b.navigation_stack.last(),
            navigation_stack: b.navigation_stack.drop_last(),
            status_message: None,
            ..b
        }
    } else {
        b
    }
}

impl App {
    /// The UI at start: the dashboard, nothing loaded, nothing dispatched.
    pub fn new(repository: Option<RepositoryContext>) -> (r: Self)
        ensures
            r.running,
            r.current_screen == Screen::Dashboard,
            r.navigation_stack@.len() == 0,
            r.repository == repository,
            r.status_message is None,
            r.error_popup is None,
            !r.pr_list.loading && !r.pr_list.fetched,
            !r.pr_detail.loading && !r.pr_detail.comments_loading && !r.pr_detail.runs_loading,
            !r.pr_create.loading,
            !r.workflows.loading && !r.workflows.fetched,
            !r.tags.loading && !r.tags.fetched,
            r.update.state is Idle && !r.update.check_triggered,
    {
        App {
            running: true,
            current_screen: Screen::Dashboard,
            navigation_stack: Vec::new(),
            repository,
            status_message: None,
            error_popup: None,
            tick_counter: 0,
            github_authenticated: false,
            gemini_configured: false,
            pr_list: PrListPane::new(),
            pr_detail: PrDetailPane::new(),
            commit: CommitPane::new(),
            pr_create: PrCreatePane::new(),
            workflows: WorkflowPane::new(),
            tags: TagsPane::new(),
            update: UpdatePane::new(),
        }
    }

    fn reset_pr_detail(&mut self)
        ensures
            final(self)@ == reset_pr_detail_spec(old(self)@),
    {
        self.pr_detail.comments.clear();
        self.pr_detail.comments_error = None;
        self.pr_detail.comments_selection = ListState::new(0);
        self.pr_detail.input_mode = false;
        self.pr_detail.comment_text = String::new();
        self.pr_detail.runs.clear();
        assert(self.pr_detail@ =~= reset_pr_detail_spec(old(self)@).pr_detail);
    }

    fn enter_pr_detail(&mut self, n: u64, out: &mut Vec<Dispatch>)
        ensures
            final(self)@ == enter_pr_detail_spec(old(self)@, n).0,
            final(out)@ == old(out)@ + enter_pr_detail_spec(old(self)@, n).1,
    {
        self.fetch_pr_detail(n, out);
        self.reset_pr_detail();
        self.fetch_pr_comments(n, out);
        proof {
            let sp = enter_pr_detail_spec(old(self)@, n);
            assert(out@ =~= old(out)@ + sp.1);
        }
    }

    fn enter_workflow_runs(&mut self, prev: Screen, out: &mut Vec<Dispatch>)
        ensures
            final(self)@ == enter_workflow_runs_spec(old(self)@, prev).0,
            final(out)@ == old(out)@ + enter_workflow_runs_spec(old(self)@, prev).1,
    {
        if prev == Screen::Dashboard {
            self.workflows.branch_filter = None;
        }
        self.workflows.last_poll_tick = self.tick_counter;
        self.workflows.runs.clear();
        self.workflows.fetched = false;
        proof {
            let b = old(self)@;
            assert(self.workflows@ =~= (WorkflowView {
                branch_filter: if prev == Screen::Dashboard {
                    None
                } else {
                    b.workflows.branch_filter
                },
                last_poll_tick: b.tick_counter,
                runs: seq![],
                fetched: false,
                ..b.workflows
            }));
        }
        self.fetch_workflow_runs(out);
    }

    /// Show another screen and start what it needs; returns the operations
    /// to dispatch.
    pub fn navigate_to(&mut self, screen: Screen) -> (r: Vec<Dispatch>)
        ensures
            (final(self)@, r@) == navigate_spec(old(self)@, screen),
    {
        let prev = self.current_screen;
        self.navigation_stack.push(prev);
        self.current_screen = screen;
        self.status_message = None;
        let mut out: Vec<Dispatch> = Vec::new();
        let ghost b = self@;
        match screen {
            Screen::PrList => {
                if !self.pr_list.fetched && !self.pr_list.loading {
                    self.fetch_pr_list(&mut out);
                }
            },
            Screen::PrDetail(n) => {
                self.enter_pr_detail(n, &mut out);
            },
            Screen::PrCreate => {
                self.init_pr_create_form();
                self.fetch_branches(&mut out);
            },
            Screen::WorkflowRuns => {
                self.enter_workflow_runs(prev, &mut out);
            },
            Screen::Tags => {
                if !self.tags.fetched && !self.tags.loading {
                    self.fetch_tags(&mut out);
                }
            },
            _ => {},
        }
        proof {
            assert(seq![] + enter_spec(b, prev, screen).1 =~= enter_spec(b, prev, screen).1);
            assert(out@ =~= enter_spec(b, prev, screen).1);
        }
        out
    }

    /// Return to the previous screen, if there is one.
    pub fn go_back(&mut self)
        ensures
            final(self)@ == go_back_spec(old(self)@),
    {
        if self.current_screen == Screen::WorkflowRuns {
            self.workflows.branch_filter = None;
        }
        if let Some(screen) = self.navigation_stack.pop() {
            self.current_screen = screen;
            self.status_message = None;
        }
    }
}

/// A failure message that says the repository was not found.
pub open spec fn not_found_spec(err: Seq<char>) -> bool {
    contains_seq(lower_of(err), "not found"@) || contains_seq(err, "404"@)
}

/// Whether a failure message says the repository was not found, given the
/// message and its lower-case form.
pub fn is_not_found_message(lowered: &str, err: &str) -> (r: bool)
    ensures
        r == (contains_seq(lowered@, "not found"@) || contains_seq(err@, "404"@)),
{
    contains(lowered, "not found") || contains(err, "404")
}

/// The last branch with this name, if any, among the first `n`.
pub open spec fn last_named(bs: Seq<BranchInfo>, name: Seq<char>, n: int) -> Option<int>
    decreases n,
{
    if n <= 0 {
        None
    } else if bs[n - 1].name@ == name {
        Some(n - 1)
    } else {
        last_named(bs, name, n - 1)
    }
}

/// The position the selection goes to: the last branch with this name, or
/// the first.
pub open spec fn branch_position(bs: Seq<BranchInfo>, name: Seq<char>) -> usize {
    match last_named(bs, name, bs.len() as int) {
        Some(i) => i as usize,
        None => 0,
    }
}

/// The first run at or after `from` with this id.
pub open spec fn find_run(runs: Seq<RunSummary>, id: u64, from: int) -> Option<int>
    decreases runs.len() - from,
{
    if from < 0 || from >= runs.len() {
        None
    } else if runs[from].id == id {
        Some(from)
    } else {
        find_run(runs, id, from + 1)
    }
}

/// The run selected after a reload: the one with the preserved id, or the
/// first.
pub open spec fn run_position(runs: Seq<RunSummary>, keep: Option<u64>) -> usize {
    match keep {
        Some(id) => match find_run(runs, id, 0) {
            Some(i) => i as usize,
            None => 0,
        },
        None => 0,
    }
}

/// The reactions without the one removed from a comment.
pub open spec fn without_reaction(rs: Seq<CommentReaction>, comment_id: u64, reaction_id: u64) -> Seq<
    CommentReaction,
>
    decreases rs.len(),
{
    if rs.len() == 0 {
        rs
    } else {
        let rest = without_reaction(rs.drop_last(), comment_id, reaction_id);
        let x = rs.last();
        if x.comment_id == comment_id && x.reaction.id == reaction_id {
            rest
        } else {
            rest.push(x)
        }
    }
}

/// The merge dialog closed after a merge.
pub open spec fn merged_spec(a: AppView, n: u64) -> AppView {
    AppView {
        pr_detail: PrDetailView { merge_in_progress: false, merge_dialog_open: false, ..a.pr_detail },
        status_message: Some(StatusNote::PrMerged(n)),
        ..a
    }
}

/// How one background outcome changes the UI state, and what it
/// dispatches in turn. Outcomes for a pull request that is no longer shown
/// only end its loading state.
pub open spec fn message_spec(a: AppView, msg: AsyncMessage) -> Step {
    let none = seq![];
    match msg {
        AsyncMessage::PrListLoaded(prs) => (
            AppView {
                pr_list: PrListView {
                    prs: prs@,
                    loading: false,
                    fetched: true,
                    error: None,
                    selection: ListState { selected: 0, total: prs@.len() as usize },
                },
                status_message: Some(
                    if prs@.len() == 0 {
                        StatusNote::NoOpenPullRequests
                    } else {
                        StatusNote::LoadedPullRequests(prs@.len() as u64)
                    },
                ),
                ..a
            },
            none,
        ),
        AsyncMessage::PrListError(err) => {
            let l = PrListView { loading: false, fetched: true, ..a.pr_list };
            if not_found_spec(err@) {
                match a.repository {
                    Some(r) => (
                        AppView {
                            pr_list: PrListView {
                                error: Some(ListError::AppNotInstalled { owner: r.owner, repo: r.name }),
                                ..l
                            },
                            status_message: Some(StatusNote::OpeningInstallPage(r.owner)),
                            ..a
                        },
                        seq![Dispatch::OpenInstallPage],
                    ),
                    None => (
                        AppView {
                            pr_list: PrListView { error: Some(ListError::Message(err)), ..l },
                            status_message: Some(StatusNote::RepositoryNotFound),
                            ..a
                        },
                        none,
                    ),
                }
            } else {
                (
                    AppView {
                        pr_list: PrListView { error: Some(ListError::Message(err)), ..l },
                        status_message: Some(StatusNote::Error(err)),
                        ..a
                    },
                    none,
                )
            }
        },
        AsyncMessage::PrLoaded(pr) => if a.current_screen == Screen::PrDetail(pr.number) {
            fetch_pr_workflow_runs_spec(
                AppView {
                    pr_detail: PrDetailView {
                        selected: Some(pr),
                        loading: false,
                        scroll: 0,
                        ..a.pr_detail
                    },
                    ..a
                },
            )
        } else {
            (AppView { pr_detail: PrDetailView { loading: false, ..a.pr_detail }, ..a }, none)
        },
        AsyncMessage::PrError(err) => (
            AppView {
                pr_detail: PrDetailView { loading: false, ..a.pr_detail },
                status_message: Some(StatusNote::Error(err)),
                ..a
            },
            none,
        ),
        AsyncMessage::AuthStatus { github, gemini } => (
            AppView { github_authenticated: github, gemini_configured: gemini, ..a },
            none,
        ),
        AsyncMessage::BranchesLoaded(bs) => (
            AppView {
                pr_create: PrCreateView {
                    branches: bs@,
                    loading: false,
                    head_selection: ListState {
                        selected: branch_position(bs@, a.pr_create.head),
                        total: bs@.len() as usize,
                    },
                    base_selection: ListState {
                        selected: branch_position(bs@, a.pr_create.base),
                        total: bs@.len() as usize,
                    },
                    ..a.pr_create
                },
                status_message: Some(StatusNote::LoadedBranches(bs@.len() as u64)),
                ..a
            },
            none,
        ),
        AsyncMessage::BranchesError(err) => (
            AppView {
                pr_create: PrCreateView {
                    loading: false,
                    error: Some(ListError::Message(err)),
                    ..a.pr_create
                },
                status_message: Some(StatusNote::BranchesFailed(err)),
                ..a
            },
            none,
        ),
        AsyncMessage::PrCreated(pr) => (
            AppView {
                pr_create: PrCreateView { submitting: false, ..a.pr_create },
                status_message: Some(StatusNote::PrCreated(pr.number)),
                pr_detail: PrDetailView { selected: Some(pr), ..a.pr_detail },
                current_screen: Screen::PrDetail(pr.number),
                ..a
            },
            none,
        ),
        AsyncMessage::PrCreateError(err) => (
            AppView {
                pr_create: PrCreateView {
                    submitting: false,
                    error: Some(ListError::Message(err)),
                    ..a.pr_create
                },
                error_popup: Some(ErrorPopup { title: PopupKind::PrCreation, message: err }),
                ..a
            },
            none,
        ),
        AsyncMessage::AiContentGenerated { title, body } => (
            AppView {
                pr_create: PrCreateView {
                    ai_loading: false,
                    title: title@,
                    body: body@,
                    ..a.pr_create
                },
                status_message: Some(StatusNote::AiContentGenerated),
                ..a
            },
            none,
        ),
        AsyncMessage::AiContentError(err) => (
            AppView {
                pr_create: PrCreateView {
                    ai_loading: false,
                    error: Some(ListError::Message(err)),
                    ..a.pr_create
                },
                status_message: Some(StatusNote::AiFailed(err)),
                ..a
            },
            none,
        ),
        AsyncMessage::AiCommitMessageGenerated(m) => (
            AppView {
                commit: CommitView {
                    ai_loading: false,
                    message: m@,
                    message_mode: true,
                    ..a.commit
                },
                status_message: Some(StatusNote::AiCommitMessageGenerated),
                ..a
            },
            none,
        ),
        AsyncMessage::AiCommitMessageError(err) => (
            AppView {
                commit: CommitView { ai_loading: false, ..a.commit },
                status_message: Some(StatusNote::AiFailed(err)),
                ..a
            },
            none,
        ),
        AsyncMessage::PushCompleted(t) => (
            AppView {
                commit: CommitView {
                    push_loading: false,
                    push_prompt: false,
                    last_commit_hash: None,
                    tracking_branch: None,
                    tag_prompt: true,
                    ..a.commit
                },
                status_message: Some(StatusNote::PushedTo(t)),
                ..a
            },
            none,
        ),
        AsyncMessage::PushError(err) => (
            AppView {
                commit: CommitView { push_loading: false, ..a.commit },
                error_popup: Some(ErrorPopup { title: PopupKind::Push, message: err }),
                ..a
            },
            none,
        ),
        AsyncMessage::WorkflowRunsLoaded { runs, preserve_selection_id } => (
            AppView {
                workflows: WorkflowView {
                    runs: runs@,
                    loading: false,
                    fetched: true,
                    error: None,
                    selection: ListState {
                        selected: run_position(runs@, preserve_selection_id),
                        total: runs@.len() as usize,
                    },
                    ..a.workflows
                },
                status_message: if preserve_selection_id is Some {
                    a.status_message
                } else if runs@.len() == 0 {
                    Some(StatusNote::NoWorkflowRuns)
                } else {
                    Some(StatusNote::LoadedWorkflowRuns(runs@.len() as u64))
                },
                ..a
            },
            none,
        ),
        AsyncMessage::WorkflowRunsError(err) => (
            AppView {
                workflows: WorkflowView {
                    loading: false,
                    fetched: true,
                    error: Some(err),
                    ..a.workflows
                },
                status_message: Some(StatusNote::Error(err)),
                ..a
            },
            none,
        ),
        AsyncMessage::PrCommentsLoaded { number, comments } => if a.current_screen
            == Screen::PrDetail(number) {
            (
                AppView {
                    pr_detail: PrDetailView {
                        comments_selection: ListState {
                            selected: 0,
                            total: comments@.len() as usize,
                        },
                        comments: comments@,
                        comments_loading: false,
                        comments_error: None,
                        ..a.pr_detail
                    },
                    ..a
                },
                none,
            )
        } else {
            (
                AppView { pr_detail: PrDetailView { comments_loading: false, ..a.pr_detail }, ..a },
                none,
            )
        },
        AsyncMessage::PrCommentsError(err) => (
            AppView {
                pr_detail: PrDetailView {
                    comments_loading: false,
                    comments_error: Some(err),
                    ..a.pr_detail
                },
                status_message: Some(StatusNote::CommentsFailed(err)),
                ..a
            },
            none,
        ),
        AsyncMessage::PrCommentAdded(c) => (
            AppView {
                pr_detail: PrDetailView {
                    comment_submitting: false,
                    input_mode: false,
                    comments: a.pr_detail.comments.push(c),
                    comments_selection: ListState {
                        total: (a.pr_detail.comments.len() + 1) as usize,
                        ..a.pr_detail.comments_selection
                    },
                    comment_text: seq![],
                    ..a.pr_detail
                },
                status_message: Some(StatusNote::CommentPosted),
                ..a
            },
            none,
        ),
        AsyncMessage::PrCommentAddError(err) => (
            AppView {
                pr_detail: PrDetailView { comment_submitting: false, ..a.pr_detail },
                status_message: Some(StatusNote::CommentFailed(err)),
                ..a
            },
            none,
        ),
        AsyncMessage::PrWorkflowRunsLoaded { number, runs } => if a.current_screen
            == Screen::PrDetail(number) {
            (
                AppView {
                    pr_detail: PrDetailView { runs: runs@, runs_loading: false, ..a.pr_detail },
                    ..a
                },
                none,
            )
        } else {
            (AppView { pr_detail: PrDetailView { runs_loading: false, ..a.pr_detail }, ..a }, none)
        },
        AsyncMessage::PrWorkflowRunsError(_) => (
            AppView { pr_detail: PrDetailView { runs_loading: false, ..a.pr_detail }, ..a },
            none,
        ),
        AsyncMessage::CommentReactionsLoaded { number, reactions } => if a.current_screen
            == Screen::PrDetail(number) {
            (AppView { pr_detail: PrDetailView { reactions: reactions@, ..a.pr_detail }, ..a }, none)
        } else {
            (a, none)
        },
        AsyncMessage::ReactionAdded { comment_id, reaction } => (
            AppView {
                pr_detail: PrDetailView {
                    reaction_submitting: false,
                    reaction_picker_open: false,
                    reactions: a.pr_detail.reactions.push(CommentReaction { comment_id, reaction }),
                    ..a.pr_detail
                },
                status_message: Some(StatusNote::ReactionAdded),
                ..a
            },
            none,
        ),
        AsyncMessage::ReactionAddError(err) => (
            AppView {
                pr_detail: PrDetailView { reaction_submitting: false, ..a.pr_detail },
                status_message: Some(StatusNote::ReactionFailed(err)),
                ..a
            },
            none,
        ),
        AsyncMessage::ReactionRemoved { comment_id, reaction_id } => (
            AppView {
                pr_detail: PrDetailView {
                    reaction_submitting: false,
                    reactions: without_reaction(a.pr_detail.reactions, comment_id, reaction_id),
                    ..a.pr_detail
                },
                status_message: Some(StatusNote::ReactionRemoved),
                ..a
            },
            none,
        ),
        AsyncMessage::ReactionRemoveError(err) => (
            AppView {
                pr_detail: PrDetailView { reaction_submitting: false, ..a.pr_detail },
                status_message: Some(StatusNote::ReactionRemoveFailed(err)),
                ..a
            },
            none,
        ),
        AsyncMessage::PrMerged(n) => {
            let b = merged_spec(a, n);
            let (c, d1) = fetch_pr_detail_spec(b, n);
            let (e, d2) = fetch_pr_comments_spec(c, n);
            (e, d1 + d2)
        },
        AsyncMessage::PrMergeError(err) => (
            AppView {
                pr_detail: PrDetailView {
                    merge_in_progress: false,
                    merge_dialog_open: false,
                    ..a.pr_detail
                },
                error_popup: Some(ErrorPopup { title: PopupKind::Merge, message: err }),
                ..a
            },
            none,
        ),
        AsyncMessage::TagsLoaded { local_tags, remote_tags } => (
            AppView {
                tags: TagsView {
                    local: local_tags@,
                    remote: remote_tags@,
                    loading: false,
                    fetched: true,
                    error: None,
                    selection: ListState { selected: 0, total: local_tags@.len() as usize },
                },
                status_message: Some(StatusNote::LoadedTags(local_tags@.len() as u64)),
                ..a
            },
            none,
        ),
        AsyncMessage::TagsError(err) => (
            AppView {
                tags: TagsView { loading: false, error: Some(ListError::Message(err)), ..a.tags },
                status_message: Some(StatusNote::TagsFailed(err)),
                ..a
            },
            none,
        ),
        AsyncMessage::TagCreated { name, pushed } => fetch_tags_spec(
            AppView {
                status_message: Some(StatusNote::TagCreated { name, pushed }),
                tags: TagsView { fetched: false, ..a.tags },
                ..a
            },
        ),
        AsyncMessage::TagCreateError(err) => (
            AppView {
                error_popup: Some(ErrorPopup { title: PopupKind::TagCreation, message: err }),
                ..a
            },
            none,
        ),
        AsyncMessage::TagDeleted { name } => fetch_tags_spec(
            AppView {
                status_message: Some(StatusNote::TagDeleted(name)),
                tags: TagsView { fetched: false, ..a.tags },
                ..a
            },
        ),
        AsyncMessage::TagDeleteError(err) => (
            AppView {
                error_popup: Some(ErrorPopup { title: PopupKind::TagDeletion, message: err }),
                ..a
            },
            none,
        ),
        AsyncMessage::TagPushed(name) => fetch_tags_spec(
            AppView {
                status_message: Some(StatusNote::TagPushed(name)),
                tags: TagsView { fetched: false, ..a.tags },
                ..a
            },
        ),
        AsyncMessage::TagPushError(err) => (
            AppView {
                error_popup: Some(ErrorPopup { title: PopupKind::TagPush, message: err }),
                ..a
            },
            none,
        ),
        AsyncMessage::UpdateUpToDate => (
            AppView { update: UpdateView { state: UpdateState::UpToDate, ..a.update }, ..a },
            none,
        ),
        AsyncMessage::UpdateAvailable { version, download_url } => start_update_download_spec(
            AppView {
                update: UpdateView {
                    state: UpdateState::Available(version),
                    available_version: Some(version),
                    download_url: Some(download_url),
                    ..a.update
                },
                ..a
            },
        ),
        AsyncMessage::UpdateDownloadProgress { downloaded, total } => (
            AppView {
                update: UpdateView {
                    state: UpdateState::Downloading { downloaded, total },
                    ..a.update
                },
                ..a
            },
            none,
        ),
        AsyncMessage::UpdateDownloadComplete(v) => (
            AppView { update: UpdateView { state: UpdateState::Ready(v), ..a.update }, ..a },
            none,
        ),
        AsyncMessage::UpdateFailed => (
            AppView { update: UpdateView { state: UpdateState::Idle, ..a.update }, ..a },
            none,
        ),
    }
}

impl App {
    fn on_pr_list_loaded(&mut self, prs: Vec<PrSummary>)
        ensures
            final(self)@ == message_spec(old(self)@, AsyncMessage::PrListLoaded(prs)).0,
            message_spec(old(self)@, AsyncMessage::PrListLoaded(prs)).1 == Seq::<Dispatch>::empty(),
    {
        let n = prs.len();
        self.pr_list.prs = prs;
        self.pr_list.loading = false;
        self.pr_list.fetched = true;
        self.pr_list.error = None;
        self.pr_list.selection = ListState::new(n);
        self.status_message = Some(
            if n == 0 {
                StatusNote::NoOpenPullRequests
            } else {
                StatusNote::LoadedPullRequests(n as u64)
            },
        );
    }

    fn on_pr_list_error(&mut self, err: String, out: &mut Vec<Dispatch>)
        ensures
            final(self)@ == message_spec(old(self)@, AsyncMessage::PrListError(err)).0,
            final(out)@ == old(out)@ + message_spec(old(self)@, AsyncMessage::PrListError(err)).1,
    {
        self.pr_list.loading = false;
        self.pr_list.fetched = true;
        let lowered = lowercase(err.as_str());
        if is_not_found_message(lowered.as_str(), err.as_str()) {
            match &self.repository {
                Some(r) => {
                    let owner = r.owner.clone();
                    let repo = r.name.clone();
                    self.status_message = Some(StatusNote::OpeningInstallPage(r.owner.clone()));
                    self.pr_list.error = Some(ListError::AppNotInstalled { owner, repo });
                    out.push(Dispatch::OpenInstallPage);
                    assert(final(out)@ =~= old(out)@ + seq![Dispatch::OpenInstallPage]);
                },
                None => {
                    self.pr_list.error = Some(ListError::Message(err));
                    self.status_message = Some(StatusNote::RepositoryNotFound);
                    assert(old(out)@ + seq![] =~= old(out)@);
                },
            }
        } else {
            self.pr_list.error = Some(ListError::Message(err.clone()));
            self.status_message = Some(StatusNote::Error(err));
            assert(old(out)@ + seq![] =~= old(out)@);
        }
    }

    fn on_pr_loaded(&mut self, pr: PrSummary, out: &mut Vec<Dispatch>)
        ensures
            final(self)@ == message_spec(old(self)@, AsyncMessage::PrLoaded(pr)).0,
            final(out)@ == old(out)@ + message_spec(old(self)@, AsyncMessage::PrLoaded(pr)).1,
    {
        if self.current_screen == Screen::PrDetail(pr.number) {
            self.pr_detail.selected = Some(pr);
            self.pr_detail.loading = false;
            self.pr_detail.scroll = 0;
            self.fetch_pr_workflow_runs(out);
        } else {
            self.pr_detail.loading = false;
            assert(old(out)@ + seq![] =~= old(out)@);
        }
    }

    fn on_pr_error(&mut self, err: String)
        ensures
            final(self)@ == message_spec(old(self)@, AsyncMessage::PrError(err)).0,
            message_spec(old(self)@, AsyncMessage::PrError(err)).1 == Seq::<Dispatch>::empty(),
    {
        self.pr_detail.loading = false;
        self.status_message = Some(StatusNote::Error(err));
    }

    fn on_branches_loaded(&mut self, bs: Vec<BranchInfo>)
        ensures
            final(self)@ == message_spec(old(self)@, AsyncMessage::BranchesLoaded(bs)).0,
            message_spec(old(self)@, AsyncMessage::BranchesLoaded(bs)).1 == Seq::<Dispatch>::empty(),
    {
        let n = bs.len();
        let head = branch_index(&bs, self.pr_create.head.as_str());
        let base = branch_index(&bs, self.pr_create.base.as_str());
        self.pr_create.branches = bs;
        self.pr_create.loading = false;
        self.pr_create.head_selection = ListState { selected: head, total: n };
        self.pr_create.base_selection = ListState { selected: base, total: n };
        self.status_message = Some(StatusNote::LoadedBranches(n as u64));
    }

    fn on_branches_error(&mut self, err: String)
        ensures
            final(self)@ == message_spec(old(self)@, AsyncMessage::BranchesError(err)).0,
            message_spec(old(self)@, AsyncMessage::BranchesError(err)).1 == Seq::<Dispatch>::empty(),
    {
        self.pr_create.loading = false;
        self.pr_create.error = Some(ListError::Message(err.clone()));
        self.status_message = Some(StatusNote::BranchesFailed(err));
    }

    fn on_pr_created(&mut self, pr: PrSummary)
        ensures
            final(self)@ == message_spec(old(self)@, AsyncMessage::PrCreated(pr)).0,
            message_spec(old(self)@, AsyncMessage::PrCreated(pr)).1 == Seq::<Dispatch>::empty(),
    {
        let n = pr.number;
        self.pr_create.submitting = false;
        self.status_message = Some(StatusNote::PrCreated(n));
        self.pr_detail.selected = Some(pr);
        self.current_screen = Screen::PrDetail(n);
    }

    fn on_pr_create_error(&mut self, err: String)
        ensures
            final(self)@ == message_spec(old(self)@, AsyncMessage::PrCreateError(err)).0,
            message_spec(old(self)@, AsyncMessage::PrCreateError(err)).1 == Seq::<Dispatch>::empty(),
    {
        self.pr_create.submitting = false;
        self.pr_create.error = Some(ListError::Message(err.clone()));
        self.error_popup = Some(ErrorPopup { title: PopupKind::PrCreation, message: err });
    }

    fn on_ai_content(&mut self, title: String, body: String)
        ensures
            final(self)@ == message_spec(old(self)@, AsyncMessage::AiContentGenerated { title, body }).0,
            message_spec(old(self)@, AsyncMessage::AiContentGenerated { title, body }).1 == Seq::<Dispatch>::empty(),
    {
        self.pr_create.ai_loading = false;
        self.pr_create.title = title;
        self.pr_create.body = body;
        self.status_message = Some(StatusNote::AiContentGenerated);
    }

    fn on_ai_content_error(&mut self, err: String)
        ensures
            final(self)@ == message_spec(old(self)@, AsyncMessage::AiContentError(err)).0,
            message_spec(old(self)@, AsyncMessage::AiContentError(err)).1 == Seq::<Dispatch>::empty(),
    {
        self.pr_create.ai_loading = false;
        self.pr_create.error = Some(ListError::Message(err.clone()));
        self.status_message = Some(StatusNote::AiFailed(err));
    }

    fn on_ai_commit_message(&mut self, m: String)
        ensures
            final(self)@ == message_spec(old(self)@, AsyncMessage::AiCommitMessageGenerated(m)).0,
            message_spec(old(self)@, AsyncMessage::AiCommitMessageGenerated(m)).1 == Seq::<Dispatch>::empty(),
    {
        self.commit.ai_loading = false;
        self.commit.message = m;
        self.commit.message_mode = true;
        self.status_message = Some(StatusNote::AiCommitMessageGenerated);
    }

    fn on_ai_commit_error(&mut self, err: String)
        ensures
            final(self)@ == message_spec(old(self)@, AsyncMessage::AiCommitMessageError(err)).0,
            message_spec(old(self)@, AsyncMessage::AiCommitMessageError(err)).1 == Seq::<Dispatch>::empty(),
    {
        self.commit.ai_loading = false;
        self.status_message = Some(StatusNote::AiFailed(err));
    }

    fn on_push_completed(&mut self, t: String)
        ensures
            final(self)@ == message_spec(old(self)@, AsyncMessage::PushCompleted(t)).0,
            message_spec(old(self)@, AsyncMessage::PushCompleted(t)).1 == Seq::<Dispatch>::empty(),
    {
        self.commit.push_loading = false;
        self.commit.push_prompt = false;
        self.commit.last_commit_hash = None;
        self.commit.tracking_branch = None;
        self.commit.tag_prompt = true;
        self.status_message = Some(StatusNote::PushedTo(t));
    }

    fn on_push_error(&mut self, err: String)
        ensures
            final(self)@ == message_spec(old(self)@, AsyncMessage::PushError(err)).0,
            message_spec(old(self)@, AsyncMessage::PushError(err)).1 == Seq::<Dispatch>::empty(),
    {
        self.commit.push_loading = false;
        self.error_popup = Some(ErrorPopup { title: PopupKind::Push, message: err });
    }

    fn on_workflow_runs_loaded(&mut self, runs: Vec<RunSummary>, keep: Option<u64>)
        ensures
            final(self)@ == message_spec(old(self)@, AsyncMessage::WorkflowRunsLoaded { runs, preserve_selection_id: keep }).0,
            message_spec(old(self)@, AsyncMessage::WorkflowRunsLoaded { runs, preserve_selection_id: keep }).1 == Seq::<Dispatch>::empty(),
    {
        let n = runs.len();
        let sel = run_index(&runs, keep);
        self.workflows.runs = runs;
        self.workflows.loading = false;
        self.workflows.fetched = true;
        self.workflows.error = None;
        self.workflows.selection = ListState { selected: sel, total: n };
        if keep.is_none() {
            self.status_message = Some(
                if n == 0 {
                    StatusNote::NoWorkflowRuns
                } else {
                    StatusNote::LoadedWorkflowRuns(n as u64)
                },
            );
        }
    }

    fn on_workflow_runs_error(&mut self, err: String)
        ensures
            final(self)@ == message_spec(old(self)@, AsyncMessage::WorkflowRunsError(err)).0,
            message_spec(old(self)@, AsyncMessage::WorkflowRunsError(err)).1 == Seq::<Dispatch>::empty(),
    {
        self.workflows.loading = false;
        self.workflows.fetched = true;
        self.workflows.error = Some(err.clone());
        self.status_message = Some(StatusNote::Error(err));
    }

    fn on_comments_loaded(&mut self, number: u64, comments: Vec<CommentInfo>)
        ensures
            final(self)@ == message_spec(old(self)@, AsyncMessage::PrCommentsLoaded { number, comments }).0,
            message_spec(old(self)@, AsyncMessage::PrCommentsLoaded { number, comments }).1 == Seq::<Dispatch>::empty(),
    {
        if self.current_screen == Screen::PrDetail(number) {
            self.pr_detail.comments_selection = ListState::new(comments.len());
            self.pr_detail.comments = comments;
            self.pr_detail.comments_loading = false;
            self.pr_detail.comments_error = None;
        } else {
            self.pr_detail.comments_loading = false;
        }
    }

    fn on_comments_error(&mut self, err: String)
        ensures
            final(self)@ == message_spec(old(self)@, AsyncMessage::PrCommentsError(err)).0,
            message_spec(old(self)@, AsyncMessage::PrCommentsError(err)).1 == Seq::<Dispatch>::empty(),
    {
        self.pr_detail.comments_loading = false;
        self.pr_detail.comments_error = Some(err.clone());
        self.status_message = Some(StatusNote::CommentsFailed(err));
    }

    fn on_comment_added(&mut self, c: CommentInfo)
        ensures
            final(self)@ == message_spec(old(self)@, AsyncMessage::PrCommentAdded(c)).0,
            message_spec(old(self)@, AsyncMessage::PrCommentAdded(c)).1 == Seq::<Dispatch>::empty(),
    {
        self.pr_detail.comment_submitting = false;
        self.pr_detail.input_mode = false;
        self.pr_detail.comments.push(c);
        self.pr_detail.comments_selection.total = self.pr_detail.comments.len();
        self.pr_detail.comment_text = String::new();
        self.status_message = Some(StatusNote::CommentPosted);
        assert(self.pr_detail@ =~= message_spec(old(self)@, AsyncMessage::PrCommentAdded(c)).0.pr_detail);
    }

    fn on_comment_add_error(&mut self, err: String)
        ensures
            final(self)@ == message_spec(old(self)@, AsyncMessage::PrCommentAddError(err)).0,
            message_spec(old(self)@, AsyncMessage::PrCommentAddError(err)).1 == Seq::<Dispatch>::empty(),
    {
        self.pr_detail.comment_submitting = false;
        self.status_message = Some(StatusNote::CommentFailed(err));
    }

    fn on_pr_runs_loaded(&mut self, number: u64, runs: Vec<RunSummary>)
        ensures
            final(self)@ == message_spec(old(self)@, AsyncMessage::PrWorkflowRunsLoaded { number, runs }).0,
            message_spec(old(self)@, AsyncMessage::PrWorkflowRunsLoaded { number, runs }).1 == Seq::<Dispatch>::empty(),
    {
        if self.current_screen == Screen::PrDetail(number) {
            self.pr_detail.runs = runs;
        }
        self.pr_detail.runs_loading = false;
    }

    fn on_pr_runs_error(&mut self, err: String)
        ensures
            final(self)@ == message_spec(old(self)@, AsyncMessage::PrWorkflowRunsError(err)).0,
            message_spec(old(self)@, AsyncMessage::PrWorkflowRunsError(err)).1 == Seq::<Dispatch>::empty(),
    {
        self.pr_detail.runs_loading = false;
    }

    fn on_reactions_loaded(&mut self, number: u64, reactions: Vec<CommentReaction>)
        ensures
            final(self)@ == message_spec(old(self)@, AsyncMessage::CommentReactionsLoaded { number, reactions }).0,
            message_spec(old(self)@, AsyncMessage::CommentReactionsLoaded { number, reactions }).1 == Seq::<Dispatch>::empty(),
    {
        if self.current_screen == Screen::PrDetail(number) {
            self.pr_detail.reactions = reactions;
        }
    }

    fn on_reaction_added(&mut self, comment_id: u64, reaction: Reaction)
        ensures
            final(self)@ == message_spec(old(self)@, AsyncMessage::ReactionAdded { comment_id, reaction }).0,
            message_spec(old(self)@, AsyncMessage::ReactionAdded { comment_id, reaction }).1 == Seq::<Dispatch>::empty(),
    {
        self.pr_detail.reaction_submitting = false;
        self.pr_detail.reaction_picker_open = false;
        self.pr_detail.reactions.push(CommentReaction { comment_id, reaction });
        self.status_message = Some(StatusNote::ReactionAdded);
    }

    fn on_reaction_add_error(&mut self, err: String)
        ensures
            final(self)@ == message_spec(old(self)@, AsyncMessage::ReactionAddError(err)).0,
            message_spec(old(self)@, AsyncMessage::ReactionAddError(err)).1 == Seq::<Dispatch>::empty(),
    {
        self.pr_detail.reaction_submitting = false;
        self.status_message = Some(StatusNote::ReactionFailed(err));
    }

    fn on_reaction_removed(&mut self, comment_id: u64, reaction_id: u64)
        ensures
            final(self)@ == message_spec(old(self)@, AsyncMessage::ReactionRemoved { comment_id, reaction_id }).0,
            message_spec(old(self)@, AsyncMessage::ReactionRemoved { comment_id, reaction_id }).1 == Seq::<Dispatch>::empty(),
    {
        self.pr_detail.reaction_submitting = false;
        let kept = remove_reaction(&self.pr_detail.reactions, comment_id, reaction_id);
        self.pr_detail.reactions = kept;
        self.status_message = Some(StatusNote::ReactionRemoved);
    }

    fn on_reaction_remove_error(&mut self, err: String)
        ensures
            final(self)@ == message_spec(old(self)@, AsyncMessage::ReactionRemoveError(err)).0,
            message_spec(old(self)@, AsyncMessage::ReactionRemoveError(err)).1 == Seq::<Dispatch>::empty(),
    {
        self.pr_detail.reaction_submitting = false;
        self.status_message = Some(StatusNote::ReactionRemoveFailed(err));
    }

    fn on_pr_merged(&mut self, n: u64, out: &mut Vec<Dispatch>)
        ensures
            final(self)@ == message_spec(old(self)@, AsyncMessage::PrMerged(n)).0,
            final(out)@ == old(out)@ + message_spec(old(self)@, AsyncMessage::PrMerged(n)).1,
    {
        self.close_merge_dialog(n);
        self.fetch_pr_detail(n, out);
        self.fetch_pr_comments(n, out);
        proof {
            let sp = message_spec(old(self)@, AsyncMessage::PrMerged(n));
            assert(out@ =~= old(out)@ + sp.1);
        }
    }

    fn on_pr_merge_error(&mut self, err: String)
        ensures
            final(self)@ == message_spec(old(self)@, AsyncMessage::PrMergeError(err)).0,
            message_spec(old(self)@, AsyncMessage::PrMergeError(err)).1 == Seq::<Dispatch>::empty(),
    {
        self.pr_detail.merge_in_progress = false;
        self.pr_detail.merge_dialog_open = false;
        self.error_popup = Some(ErrorPopup { title: PopupKind::Merge, message: err });
    }

    fn on_tags_loaded(&mut self, local_tags: Vec<LocalTagInfo>, remote_tags: Vec<String>)
        ensures
            final(self)@ == message_spec(old(self)@, AsyncMessage::TagsLoaded { local_tags, remote_tags }).0,
            message_spec(old(self)@, AsyncMessage::TagsLoaded { local_tags, remote_tags }).1 == Seq::<Dispatch>::empty(),
    {
        let n = local_tags.len();
        self.tags.local = local_tags;
        self.tags.remote = remote_tags;
        self.tags.loading = false;
        self.tags.fetched = true;
        self.tags.error = None;
        self.tags.selection = ListState::new(n);
        self.status_message = Some(StatusNote::LoadedTags(n as u64));
    }

    fn on_tags_error(&mut self, err: String)
        ensures
            final(self)@ == message_spec(old(self)@, AsyncMessage::TagsError(err)).0,
            message_spec(old(self)@, AsyncMessage::TagsError(err)).1 == Seq::<Dispatch>::empty(),
    {
        self.tags.loading = false;
        self.tags.error = Some(ListError::Message(err.clone()));
        self.status_message = Some(StatusNote::TagsFailed(err));
    }

    fn on_tag_created(&mut self, name: String, pushed: bool, out: &mut Vec<Dispatch>)
        ensures
            final(self)@ == message_spec(old(self)@, AsyncMessage::TagCreated { name, pushed }).0,
            final(out)@ == old(out)@ + message_spec(old(self)@, AsyncMessage::TagCreated { name, pushed }).1,
    {
        self.status_message = Some(StatusNote::TagCreated { name, pushed });
        self.tags.fetched = false;
        self.fetch_tags(out);
    }

    fn on_tag_deleted(&mut self, name: String, out: &mut Vec<Dispatch>)
        ensures
            final(self)@ == message_spec(old(self)@, AsyncMessage::TagDeleted { name }).0,
            final(out)@ == old(out)@ + message_spec(old(self)@, AsyncMessage::TagDeleted { name }).1,
    {
        self.status_message = Some(StatusNote::TagDeleted(name));
        self.tags.fetched = false;
        self.fetch_tags(out);
    }

    fn on_tag_pushed(&mut self, name: String, out: &mut Vec<Dispatch>)
        ensures
            final(self)@ == message_spec(old(self)@, AsyncMessage::TagPushed(name)).0,
            final(out)@ == old(out)@ + message_spec(old(self)@, AsyncMessage::TagPushed(name)).1,
    {
        self.status_message = Some(StatusNote::TagPushed(name));
        self.tags.fetched = false;
        self.fetch_tags(out);
    }

    fn on_update_available(&mut self, version: String, download_url: String, out: &mut Vec<Dispatch>)
        ensures
            final(self)@ == message_spec(old(self)@, AsyncMessage::UpdateAvailable { version, download_url }).0,
            final(out)@ == old(out)@ + message_spec(old(self)@, AsyncMessage::UpdateAvailable { version, download_url }).1,
    {
        self.update.state = UpdateState::Available(version.clone());
        self.update.available_version = Some(version);
        self.update.download_url = Some(download_url);
        self.start_update_download(out);
    }

    fn close_merge_dialog(&mut self, n: u64)
        ensures
            final(self)@ == merged_spec(old(self)@, n),
    {
        self.pr_detail.merge_in_progress = false;
        self.pr_detail.merge_dialog_open = false;
        self.status_message = Some(StatusNote::PrMerged(n));
    }

    fn popup(&mut self, title: PopupKind, message: String)
        ensures
            final(self)@ == (AppView {
                error_popup: Some(ErrorPopup { title, message }),
                ..old(self)@
            }),
    {
        self.error_popup = Some(ErrorPopup { title, message });
    }

    fn set_update_state(&mut self, state: UpdateState)
        ensures
            final(self)@ == (AppView { update: UpdateView { state, ..old(self)@.update }, ..old(self)@ }),
    {
        self.update.state = state;
    }

    /// Apply one background outcome; returns the operations it dispatches
    /// in turn.
    pub fn handle_async_message(&mut self, msg: AsyncMessage) -> (r: Vec<Dispatch>)
        ensures
            (final(self)@, r@) == message_spec(old(self)@, msg),
    {
        let mut out: Vec<Dispatch> = Vec::new();
        let ghost m = msg;
        match msg {
            AsyncMessage::PrListLoaded(prs) => self.on_pr_list_loaded(prs),
            AsyncMessage::PrListError(err) => self.on_pr_list_error(err, &mut out),
            AsyncMessage::PrLoaded(pr) => self.on_pr_loaded(pr, &mut out),
            AsyncMessage::PrError(err) => self.on_pr_error(err),
            AsyncMessage::AuthStatus { github, gemini } => {
                self.github_authenticated = github;
                self.gemini_configured = gemini;
            },
            AsyncMessage::BranchesLoaded(bs) => self.on_branches_loaded(bs),
            AsyncMessage::BranchesError(err) => self.on_branches_error(err),
            AsyncMessage::PrCreated(pr) => self.on_pr_created(pr),
            AsyncMessage::PrCreateError(err) => self.on_pr_create_error(err),
            AsyncMessage::AiContentGenerated { title, body } => self.on_ai_content(title, body),
            AsyncMessage::AiContentError(err) => self.on_ai_content_error(err),
            AsyncMessage::AiCommitMessageGenerated(m) => self.on_ai_commit_message(m),
            AsyncMessage::AiCommitMessageError(err) => self.on_ai_commit_error(err),
            AsyncMessage::PushCompleted(t) => self.on_push_completed(t),
            AsyncMessage::PushError(err) => self.on_push_error(err),
            AsyncMessage::WorkflowRunsLoaded { runs, preserve_selection_id } => {
                self.on_workflow_runs_loaded(runs, preserve_selection_id)
            },
            AsyncMessage::WorkflowRunsError(err) => self.on_workflow_runs_error(err),
            AsyncMessage::PrCommentsLoaded { number, comments } => {
                self.on_comments_loaded(number, comments)
            },
            AsyncMessage::PrCommentsError(err) => self.on_comments_error(err),
            AsyncMessage::PrCommentAdded(c) => self.on_comment_added(c),
            AsyncMessage::PrCommentAddError(err) => self.on_comment_add_error(err),
            AsyncMessage::PrWorkflowRunsLoaded { number, runs } => self.on_pr_runs_loaded(number, runs),
            AsyncMessage::PrWorkflowRunsError(err) => self.on_pr_runs_error(err),
            AsyncMessage::CommentReactionsLoaded { number, reactions } => {
                self.on_reactions_loaded(number, reactions)
            },
            AsyncMessage::ReactionAdded { comment_id, reaction } => {
                self.on_reaction_added(comment_id, reaction)
            },
            AsyncMessage::ReactionAddError(err) => self.on_reaction_add_error(err),
            AsyncMessage::ReactionRemoved { comment_id, reaction_id } => {
                self.on_reaction_removed(comment_id, reaction_id)
            },
            AsyncMessage::ReactionRemoveError(err) => self.on_reaction_remove_error(err),
            AsyncMessage::PrMerged(n) => self.on_pr_merged(n, &mut out),
            AsyncMessage::PrMergeError(err) => self.on_pr_merge_error(err),
            AsyncMessage::TagsLoaded { local_tags, remote_tags } => {
                self.on_tags_loaded(local_tags, remote_tags)
            },
            AsyncMessage::TagsError(err) => self.on_tags_error(err),
            AsyncMessage::TagCreated { name, pushed } => self.on_tag_created(name, pushed, &mut out),
            AsyncMessage::TagCreateError(err) => self.popup(PopupKind::TagCreation, err),
            AsyncMessage::TagDeleted { name } => self.on_tag_deleted(name, &mut out),
            AsyncMessage::TagDeleteError(err) => self.popup(PopupKind::TagDeletion, err),
            AsyncMessage::TagPushed(name) => self.on_tag_pushed(name, &mut out),
            AsyncMessage::TagPushError(err) => self.popup(PopupKind::TagPush, err),
            AsyncMessage::UpdateUpToDate => self.set_update_state(UpdateState::UpToDate),
            AsyncMessage::UpdateAvailable { version, download_url } => {
                self.on_update_available(version, download_url, &mut out)
            },
            AsyncMessage::UpdateDownloadProgress { downloaded, total } => {
                self.set_update_state(UpdateState::Downloading { downloaded, total })
            },
            AsyncMessage::UpdateDownloadComplete(v) => self.set_update_state(UpdateState::Ready(v)),
            AsyncMessage::UpdateFailed => self.set_update_state(UpdateState::Idle),
        }
        proof {
            assert(seq![] + message_spec(old(self)@, m).1 =~= message_spec(old(self)@, m).1);
            assert(out@ =~= message_spec(old(self)@, m).1);
        }
        out
    }
}

fn branch_index(bs: &Vec<BranchInfo>, name: &str) -> (r: usize)
    ensures
        r == branch_position(bs@, name@),
{
    let mut sel: usize = 0;
    let mut i: usize = 0;
    while i < bs.len()
        invariant
            i <= bs@.len(),
            sel == match last_named(bs@, name@, i as int) {
                Some(k) => k as usize,
                None => 0,
            },
        decreases bs@.len() - i,
    {
        if crate::text::str_eq(bs[i].name.as_str(), name) {
            sel = i;
        }
        i += 1;
    }
    sel
}

fn run_index(runs: &Vec<RunSummary>, keep: Option<u64>) -> (r: usize)
    ensures
        r == run_position(runs@, keep),
{
    let id = match keep {
        Some(id) => id,
        None => {
            return 0;
        },
    };
    let mut i: usize = 0;
    while i < runs.len()
        invariant
            i <= runs@.len(),
            find_run(runs@, id, 0) == find_run(runs@, id, i as int),
            keep == Some(id),
        decreases runs@.len() - i,
    {
        if runs[i].id == id {
            return i;
        }
        i += 1;
    }
    0
}

fn remove_reaction(rs: &Vec<CommentReaction>, comment_id: u64, reaction_id: u64) -> (r: Vec<
    CommentReaction,
>)
    ensures
        r@ == without_reaction(rs@, comment_id, reaction_id),
{
    let mut kept: Vec<CommentReaction> = Vec::new();
    let mut i: usize = 0;
    while i < rs.len()
        invariant
            i <= rs@.len(),
            kept@ == without_reaction(rs@.subrange(0, i as int), comment_id, reaction_id),
        decreases rs@.len() - i,
    {
        let x = &rs[i];
        proof {
            let pre = rs@.subrange(0, i + 1);
            assert(pre.drop_last() =~= rs@.subrange(0, i as int));
            assert(pre.last() == rs@[i as int]);
        }
        if !(x.comment_id == comment_id && x.reaction.id == reaction_id) {
            kept.push(x.duplicate());
        }
        i += 1;
    }
    assert(rs@.subrange(0, rs@.len() as int) =~= rs@);
    kept
}

/// Applying queued outcomes one after another, in arrival order.
pub open spec fn drain_spec(a: AppView, msgs: Seq<AsyncMessage>) -> Step
    decreases msgs.len(),
{
    if msgs.len() == 0 {
        (a, seq![])
    } else {
        let (b, d1) = message_spec(a, msgs[0]);
        let (c, d2) = drain_spec(b, msgs.drop_first());
        (c, d1 + d2)
    }
}

impl App {
    /// The first step of every tick: apply every queued outcome, in arrival
    /// order, so that the frame rendered next reflects all of them. The
    /// queue is left empty; returns the operations to dispatch.
    pub fn drain_messages(&mut self, bus: &mut VecDeque<AsyncMessage>) -> (r: Vec<Dispatch>)
        ensures
            final(bus)@.len() == 0,
            (final(self)@, r@) == drain_spec(old(self)@, old(bus)@),
    {
        let mut out: Vec<Dispatch> = Vec::new();
        while bus.len() > 0
            invariant
                drain_spec(old(self)@, old(bus)@) == (
                drain_spec(self@, bus@).0,
                out@ + drain_spec(self@, bus@).1,
                ),
            decreases bus@.len(),
        {
            let ghost before = self@;
            let ghost q = bus@;
            let ghost o = out@;
            match bus.pop_front() {
                Some(msg) => {
                    let mut ds = self.handle_async_message(msg);
                    out.append(&mut ds);
                    proof {
                        assert(q.drop_first() =~= bus@);
                        let (b, d1) = message_spec(before, q[0]);
                        let (c, d2) = drain_spec(b, q.drop_first());
                        assert(o + (d1 + d2) =~= (o + d1) + d2);
                    }
                },
                None => {},
            }
        }
        assert(out@ + seq![] =~= out@);
        out
    }
}

/// Message draining: draining a queue in one tick is the same as draining
/// any split of it over two ticks, so every queued outcome is applied
/// exactly once and in order; a tick that finds the queue empty changes
/// nothing.
pub proof fn lemma_drain_split(a: AppView, q1: Seq<AsyncMessage>, q2: Seq<AsyncMessage>)
    ensures
        drain_spec(a, q1 + q2) == ({
            let (b, d1) = drain_spec(a, q1);
            let (c, d2) = drain_spec(b, q2);
            (c, d1 + d2)
        }),
        drain_spec(a, seq![]) == (a, Seq::<Dispatch>::empty()),
    decreases q1.len(),
{
    if q1.len() > 0 {
        assert((q1 + q2)[0] == q1[0]);
        assert((q1 + q2).drop_first() =~= q1.drop_first() + q2);
        let (b, d1) = message_spec(a, q1[0]);
        lemma_drain_split(b, q1.drop_first(), q2);
        let (b2, e1) = drain_spec(b, q1.drop_first());
        let (c, e2) = drain_spec(b2, q2);
        assert(d1 + (e1 + e2) =~= (d1 + e1) + e2);
    } else {
        assert(q1 + q2 =~= q2);
        assert(drain_spec(a, q1).1 + drain_spec(drain_spec(a, q1).0, q2).1 =~= drain_spec(a, q2).1);
    }
}

/// Ticks between two automatic refreshes of active workflow runs.
pub const POLL_INTERVAL_TICKS: u64 = 28;

/// Ticks elapsed from `last` to `now` on a wrapping counter.
pub open spec fn ticks_since(now: u64, last: u64) -> int {
    if now >= last {
        now - last
    } else {
        now + 0x1_0000_0000_0000_0000int - last
    }
}

/// Some run on the workflow screen is still active.
pub open spec fn has_active_runs(runs: Seq<RunSummary>) -> bool {
    exists|i: int| 0 <= i < runs.len() && !(#[trigger] runs[i].status is Completed)
}

/// The automatic refresh of the workflow runs screen: while it is shown,
/// not loading, and some run is active, every `POLL_INTERVAL_TICKS` ticks
/// the runs are fetched again silently, keeping the selected run.
pub open spec fn poll_runs_spec(a: AppView) -> Step {
    if a.current_screen != Screen::WorkflowRuns || a.workflows.loading || !has_active_runs(
        a.workflows.runs,
    ) || ticks_since(a.tick_counter, a.workflows.last_poll_tick) < POLL_INTERVAL_TICKS
        || a.repository is None {
        (a, seq![])
    } else {
        let keep = if a.workflows.selection.selected < a.workflows.runs.len() {
            Some(a.workflows.runs[a.workflows.selection.selected as int].id)
        } else {
            None
        };
        (
            AppView {
                workflows: WorkflowView {
                    last_poll_tick: a.tick_counter,
                    loading: true,
                    error: None,
                    ..a.workflows
                },
                ..a
            },
            seq![
                Dispatch::FetchWorkflowRuns {
                    branch: a.workflows.branch_filter,
                    preserve_selection_id: keep,
                },
            ],
        )
    }
}

/// The session's one update check: skipped when already triggered; when
/// the last check is recent, a pending verified download is shown as ready;
/// otherwise the check is dispatched.
pub open spec fn update_check_spec(a: AppView, cp: UpdatePersistentState, now: i64) -> Step {
    if a.update.check_triggered {
        (a, seq![])
    } else if !should_check_spec(cp, now as int) {
        if pending_spec(cp) {
            (
                AppView {
                    update: UpdateView { state: UpdateState::Ready(cp.pending_version->0), ..a.update },
                    ..a
                },
                seq![],
            )
        } else {
            (a, seq![])
        }
    } else {
        (
            AppView {
                update: UpdateView { check_triggered: true, state: UpdateState::Checking, ..a.update },
                ..a
            },
            seq![Dispatch::CheckForUpdate],
        )
    }
}

/// A timer tick: the counter advances (wrapping), the workflow runs may be
/// refreshed, and the session's update check may start.
pub open spec fn tick_spec(a: AppView, cp: UpdatePersistentState, now: i64) -> Step {
    let a1 = AppView {
        tick_counter: if a.tick_counter == u64::MAX { 0 } else { (a.tick_counter + 1) as u64 },
        ..a
    };
    let (a2, d1) = poll_runs_spec(a1);
    let (a3, d2) = update_check_spec(a2, cp, now);
    (a3, d1 + d2)
}

impl App {
    fn has_active_workflow_runs(&self) -> (r: bool)
        ensures
            r == has_active_runs(self.workflows.runs@),
    {
        let mut i: usize = 0;
        while i < self.workflows.runs.len()
            invariant
                i <= self.workflows.runs@.len(),
                forall|k: int| 0 <= k < i ==> (#[trigger] self.workflows.runs@[k]).status is Completed,
            decreases self.workflows.runs@.len() - i,
        {
            if self.workflows.runs[i].status.is_active() {
                return true;
            }
            i += 1;
        }
        false
    }

    fn maybe_poll_workflow_runs(&mut self, out: &mut Vec<Dispatch>)
        ensures
            final(self)@ == poll_runs_spec(old(self)@).0,
            final(out)@ == old(out)@ + poll_runs_spec(old(self)@).1,
    {
        if self.current_screen != Screen::WorkflowRuns || self.workflows.loading
            || !self.has_active_workflow_runs() || self.repository.is_none() {
            assert(old(out)@ + seq![] =~= old(out)@);
            return;
        }
        let since: u64 = if self.tick_counter >= self.workflows.last_poll_tick {
            self.tick_counter - self.workflows.last_poll_tick
        } else {
            ((self.tick_counter as u128 + 0x1_0000_0000_0000_0000u128)
                - self.workflows.last_poll_tick as u128) as u64
        };
        if since < POLL_INTERVAL_TICKS {
            assert(old(out)@ + seq![] =~= old(out)@);
            return;
        }
        let sel = self.workflows.selection.selected;
        let keep = if sel < self.workflows.runs.len() {
            Some(self.workflows.runs[sel].id)
        } else {
            None
        };
        self.workflows.last_poll_tick = self.tick_counter;
        self.workflows.loading = true;
        self.workflows.error = None;
        let d = Dispatch::FetchWorkflowRuns {
            branch: opt_clone(&self.workflows.branch_filter),
            preserve_selection_id: keep,
        };
        out.push(d);
        assert(final(out)@ =~= old(out)@ + seq![d]);
    }

    /// Start the session's update check, given the update checkpoint and
    /// the time.
    pub fn spawn_update_check(
        &mut self,
        checkpoint: &UpdatePersistentState,
        now: i64,
        out: &mut Vec<Dispatch>,
    )
        ensures
            final(self)@ == update_check_spec(old(self)@, *checkpoint, now).0,
            final(out)@ == old(out)@ + update_check_spec(old(self)@, *checkpoint, now).1,
    {
        if self.update.check_triggered {
            assert(old(out)@ + seq![] =~= old(out)@);
            return;
        }
        if !checkpoint.should_check(now) {
            if checkpoint.has_pending_update() {
                match &checkpoint.pending_version {
                    Some(v) => {
                        self.update.state = UpdateState::Ready(v.clone());
                    },
                    None => {},
                }
            }
            assert(old(out)@ + seq![] =~= old(out)@);
            return;
        }
        self.update.check_triggered = true;
        self.update.state = UpdateState::Checking;
        out.push(Dispatch::CheckForUpdate);
        assert(final(out)@ =~= old(out)@ + seq![Dispatch::CheckForUpdate]);
    }

    /// A timer tick; returns the operations to dispatch.
    pub fn on_tick(&mut self, checkpoint: &UpdatePersistentState, now: i64) -> (r: Vec<Dispatch>)
        ensures
            (final(self)@, r@) == tick_spec(old(self)@, *checkpoint, now),
    {
        self.tick_counter = if self.tick_counter == u64::MAX {
            0
        } else {
            self.tick_counter + 1
        };
        let mut out: Vec<Dispatch> = Vec::new();
        self.maybe_poll_workflow_runs(&mut out);
        self.spawn_update_check(checkpoint, now, &mut out);
        proof {
            let a1 = AppView {
                tick_counter: if old(self).tick_counter == u64::MAX {
                    0
                } else {
                    (old(self).tick_counter + 1) as u64
                },
                ..old(self)@
            };
            let (a2, d1) = poll_runs_spec(a1);
            assert(seq![] + d1 =~= d1);
        }
        out
    }

    /// Stop the UI. Returns whether a download was under way: its
    /// checkpoint must then be marked abandoned.
    pub fn quit(&mut self) -> (r: bool)
        ensures
            final(self)@ == (AppView { running: false, ..old(self)@ }),
            r == (old(self).update.state is Downloading),
    {
        self.running = false;
        match self.update.state {
            UpdateState::Downloading { .. } => true,
            _ => false,
        }
    }
}

/// A key press, as the screens read it.
#[derive(PartialEq, Eq, Structural, Clone, Copy, Debug)]
pub enum Key {
    Char(char),
    Up,
    Down,
    Enter,
    Esc,
    Other,
}

pub open spec fn next_spec(l: ListState) -> ListState {
    if l.total > 0 {
        ListState { selected: ((l.selected + 1) % (l.total as int)) as usize, ..l }
    } else {
        l
    }
}

pub open spec fn previous_spec(l: ListState) -> ListState {
    if l.total == 0 {
        l
    } else if l.selected == 0 {
        ListState { selected: (l.total - 1) as usize, ..l }
    } else {
        ListState { selected: (l.selected - 1) as usize, ..l }
    }
}

/// Keys on the pull request list: `j`/down and `k`/up move, enter opens
/// the selected pull request, `n` opens the creation form, `r` reloads.
pub open spec fn pr_list_key_spec(a: AppView, key: Key) -> Step {
    if key == Key::Char('j') || key == Key::Down {
        (AppView { pr_list: PrListView { selection: next_spec(a.pr_list.selection), ..a.pr_list }, ..a }, seq![])
    } else if key == Key::Char('k') || key == Key::Up {
        (
            AppView {
                pr_list: PrListView { selection: previous_spec(a.pr_list.selection), ..a.pr_list },
                ..a
            },
            seq![],
        )
    } else if key == Key::Enter {
        if a.pr_list.selection.selected < a.pr_list.prs.len() {
            navigate_spec(a, Screen::PrDetail(a.pr_list.prs[a.pr_list.selection.selected as int].number))
        } else {
            (a, seq![])
        }
    } else if key == Key::Char('n') {
        navigate_spec(a, Screen::PrCreate)
    } else if key == Key::Char('r') {
        fetch_pr_list_spec(AppView { pr_list: PrListView { prs: seq![], fetched: false, ..a.pr_list }, ..a })
    } else {
        (a, seq![])
    }
}

/// Keys on the workflow runs screen: `j`/down and `k`/up move, `r`
/// reloads (and restarts the automatic refresh's interval).
pub open spec fn workflow_runs_key_spec(a: AppView, key: Key) -> Step {
    if key == Key::Char('j') || key == Key::Down {
        (
            AppView {
                workflows: WorkflowView { selection: next_spec(a.workflows.selection), ..a.workflows },
                ..a
            },
            seq![],
        )
    } else if key == Key::Char('k') || key == Key::Up {
        (
            AppView {
                workflows: WorkflowView { selection: previous_spec(a.workflows.selection), ..a.workflows },
                ..a
            },
            seq![],
        )
    } else if key == Key::Char('r') {
        fetch_workflow_runs_spec(
            AppView {
                workflows: WorkflowView {
                    last_poll_tick: a.tick_counter,
                    runs: seq![],
                    fetched: false,
                    ..a.workflows
                },
                ..a
            },
        )
    } else {
        (a, seq![])
    }
}

impl App {
    fn reset_pr_list(&mut self)
        ensures
            final(self)@ == (AppView {
                pr_list: PrListView { prs: seq![], fetched: false, ..old(self)@.pr_list },
                ..old(self)@
            }),
    {
        self.pr_list.prs.clear();
        self.pr_list.fetched = false;
        assert(self.pr_list@ =~= (PrListView { prs: seq![], fetched: false, ..old(self)@.pr_list }));
    }

    /// A key on the pull request list; returns the operations to dispatch.
    pub fn handle_pr_list_key(&mut self, key: Key) -> (r: Vec<Dispatch>)
        ensures
            (final(self)@, r@) == pr_list_key_spec(old(self)@, key),
    {
        let mut out: Vec<Dispatch> = Vec::new();
        if key == Key::Char('j') || key == Key::Down {
            self.pr_list.selection.next();
        } else if key == Key::Char('k') || key == Key::Up {
            self.pr_list.selection.previous();
        } else if key == Key::Enter {
            let sel = self.pr_list.selection.selected;
            if sel < self.pr_list.prs.len() {
                let n = self.pr_list.prs[sel].number;
                return self.navigate_to(Screen::PrDetail(n));
            }
        } else if key == Key::Char('n') {
            return self.navigate_to(Screen::PrCreate);
        } else if key == Key::Char('r') {
            self.reset_pr_list();
            self.fetch_pr_list(&mut out);
            assert(seq![] + out@ =~= out@);
        }
        out
    }

    fn reset_workflow_runs(&mut self)
        ensures
            final(self)@ == (AppView {
                workflows: WorkflowView {
                    last_poll_tick: old(self)@.tick_counter,
                    runs: seq![],
                    fetched: false,
                    ..old(self)@.workflows
                },
                ..old(self)@
            }),
    {
        self.workflows.last_poll_tick = self.tick_counter;
        self.workflows.runs.clear();
        self.workflows.fetched = false;
        assert(self.workflows@ =~= (WorkflowView {
            last_poll_tick: old(self)@.tick_counter,
            runs: seq![],
            fetched: false,
            ..old(self)@.workflows
        }));
    }

    /// A key on the workflow runs screen; returns the operations to
    /// dispatch.
    pub fn handle_workflow_runs_key(&mut self, key: Key) -> (r: Vec<Dispatch>)
        ensures
            (final(self)@, r@) == workflow_runs_key_spec(old(self)@, key),
    {
        let mut out: Vec<Dispatch> = Vec::new();
        if key == Key::Char('j') || key == Key::Down {
            self.workflows.selection.next();
        } else if key == Key::Char('k') || key == Key::Up {
            self.workflows.selection.previous();
        } else if key == Key::Char('r') {
            self.reset_workflow_runs();
            self.fetch_workflow_runs(&mut out);
            assert(seq![] + out@ =~= out@);
        }
        out
    }
}

} // verus!
