use std::collections::VecDeque;

use argo::github::{classify_github_error, format_duration, parse_conclusion, parse_status, status_icon, truncate, Reaction, ReactionType, WorkflowConclusion, WorkflowRunStatus};
use argo::error::GhrustError;
use argo::repository::RepositoryContext;
use argo::scheduler::{
    App, AsyncMessage, CommentInfo, CommentReaction, Dispatch, Key, ListError, PrSummary, RunSummary, Screen,
    StatusNote,
};
use argo::update::UpdateState;

fn repo() -> RepositoryContext {
    RepositoryContext {
        owner: "myorg".to_string(),
        name: "myrepo".to_string(),
        current_branch: "feature".to_string(),
        default_branch: "main".to_string(),
    }
}

fn pr(number: u64) -> PrSummary {
    PrSummary { number, title: format!("PR {}", number), head_branch: "feature".to_string() }
}

#[test]
fn five_messages_drained_in_one_tick() {
    let mut app = App::new(Some(repo()));
    let mut bus: VecDeque<AsyncMessage> = VecDeque::new();
    bus.push_back(AsyncMessage::PrListLoaded(vec![pr(1), pr(2)]));
    bus.push_back(AsyncMessage::AuthStatus { github: true, gemini: true });
    bus.push_back(AsyncMessage::AiCommitMessageGenerated("feat: x".to_string()));
    bus.push_back(AsyncMessage::UpdateUpToDate);
    bus.push_back(AsyncMessage::PushError("rejected".to_string()));
    let d = app.drain_messages(&mut bus);
    assert!(d.is_empty());
    assert!(bus.is_empty());
    assert_eq!(app.pr_list.prs.len(), 2);
    assert!(app.pr_list.fetched);
    assert!(app.github_authenticated && app.gemini_configured);
    assert_eq!(app.commit.message, "feat: x");
    assert!(matches!(app.update.state, UpdateState::UpToDate));
    assert!(app.error_popup.is_some());
    let d = app.drain_messages(&mut bus);
    assert!(d.is_empty());
    assert_eq!(app.pr_list.prs.len(), 2);
}

#[test]
fn navigation_fetches_once() {
    let mut app = App::new(Some(repo()));
    let d = app.navigate_to(Screen::PrList);
    assert!(matches!(d.as_slice(), [Dispatch::FetchPrList]));
    assert!(app.pr_list.loading);
    assert_eq!(app.current_screen, Screen::PrList);
    app.handle_async_message(AsyncMessage::PrListLoaded(vec![pr(7)]));
    assert!(matches!(app.status_message, Some(StatusNote::LoadedPullRequests(1))));
    app.go_back();
    assert_eq!(app.current_screen, Screen::Dashboard);
    let d = app.navigate_to(Screen::PrList);
    assert!(d.is_empty());
    app.go_back();
    app.go_back();
    assert_eq!(app.current_screen, Screen::Dashboard);
}

#[test]
fn stale_detail_is_discarded() {
    let mut app = App::new(Some(repo()));
    let d = app.navigate_to(Screen::PrDetail(5));
    assert!(matches!(d.as_slice(), [Dispatch::FetchPrDetail(5), Dispatch::FetchPrComments(5)]));
    app.go_back();
    app.navigate_to(Screen::PrList);
    let d = app.handle_async_message(AsyncMessage::PrLoaded(pr(5)));
    assert!(d.is_empty());
    assert!(app.pr_detail.selected.is_none());
    assert!(!app.pr_detail.loading);
    app.handle_async_message(AsyncMessage::PrCommentsLoaded {
        number: 5,
        comments: vec![CommentInfo { id: 1, author: "a".to_string(), body: "b".to_string() }],
    });
    assert!(app.pr_detail.comments.is_empty());
}

#[test]
fn current_detail_loads_and_fetches_runs() {
    let mut app = App::new(Some(repo()));
    app.navigate_to(Screen::PrDetail(5));
    let d = app.handle_async_message(AsyncMessage::PrLoaded(pr(5)));
    assert!(matches!(d.as_slice(), [Dispatch::FetchPrWorkflowRuns { number: 5, .. }]));
    assert_eq!(app.pr_detail.selected.as_ref().map(|p| p.number), Some(5));
}

#[test]
fn list_not_found_opens_install_page() {
    let mut app = App::new(Some(repo()));
    let d = app.handle_async_message(AsyncMessage::PrListError("HTTP 404 Not Found".to_string()));
    assert!(matches!(d.as_slice(), [Dispatch::OpenInstallPage]));
    assert!(matches!(app.pr_list.error, Some(ListError::AppNotInstalled { .. })));
    let mut app = App::new(None);
    app.handle_async_message(AsyncMessage::PrListError("Resource NOT FOUND".to_string()));
    assert!(matches!(app.status_message, Some(StatusNote::RepositoryNotFound)));
    app.handle_async_message(AsyncMessage::PrListError("timeout".to_string()));
    assert!(matches!(app.status_message, Some(StatusNote::Error(ref e)) if e == "timeout"));
}

#[test]
fn reactions_added_and_removed() {
    let mut app = App::new(Some(repo()));
    let r = |id: u64| Reaction { id, user: None, content: "heart".to_string() };
    app.handle_async_message(AsyncMessage::ReactionAdded { comment_id: 1, reaction: r(10) });
    app.handle_async_message(AsyncMessage::ReactionAdded { comment_id: 1, reaction: r(11) });
    app.handle_async_message(AsyncMessage::ReactionAdded { comment_id: 2, reaction: r(10) });
    app.handle_async_message(AsyncMessage::ReactionRemoved { comment_id: 1, reaction_id: 10 });
    let left: Vec<(u64, u64)> = app
        .pr_detail
        .reactions
        .iter()
        .map(|c: &CommentReaction| (c.comment_id, c.reaction.id))
        .collect();
    assert_eq!(left, vec![(1, 11), (2, 10)]);
}

#[test]
fn merge_refreshes_detail_and_tags_refetch() {
    let mut app = App::new(Some(repo()));
    let d = app.handle_async_message(AsyncMessage::PrMerged(9));
    assert!(matches!(d.as_slice(), [Dispatch::FetchPrDetail(9), Dispatch::FetchPrComments(9)]));
    let d = app.handle_async_message(AsyncMessage::TagPushed("v1".to_string()));
    assert!(matches!(d.as_slice(), [Dispatch::FetchTags]));
    let d = app.handle_async_message(AsyncMessage::TagPushed("v2".to_string()));
    assert!(d.is_empty());
}

#[test]
fn update_available_starts_download() {
    let mut app = App::new(Some(repo()));
    let d = app.handle_async_message(AsyncMessage::UpdateAvailable {
        version: "1.3.0".to_string(),
        download_url: "https://x/argo".to_string(),
    });
    assert!(matches!(d.as_slice(), [Dispatch::DownloadUpdate { .. }]));
    assert!(matches!(app.update.state, UpdateState::Downloading { downloaded: 0, total: 0 }));
    app.handle_async_message(AsyncMessage::UpdateFailed);
    assert!(matches!(app.update.state, UpdateState::Idle));
}

#[test]
fn workflow_runs_keep_selection() {
    let run = |id: u64| RunSummary {
        id,
        name: "ci".to_string(),
        status: WorkflowRunStatus::Completed,
        conclusion: Some(WorkflowConclusion::Success),
        head_branch: "main".to_string(),
    };
    let mut app = App::new(Some(repo()));
    app.handle_async_message(AsyncMessage::WorkflowRunsLoaded {
        runs: vec![run(1), run(2), run(3)],
        preserve_selection_id: Some(3),
    });
    assert_eq!(app.workflows.selection.selected, 2);
    app.handle_async_message(AsyncMessage::WorkflowRunsLoaded {
        runs: vec![run(1)],
        preserve_selection_id: Some(3),
    });
    assert_eq!(app.workflows.selection.selected, 0);
}

#[test]
fn error_classification() {
    let e = classify_github_error("the `acme` organization has enabled OAuth App access restrictions");
    assert!(matches!(e, GhrustError::OrgAccessRestricted { ref org_name, .. } if org_name == "acme"));
    assert!(matches!(classify_github_error("API rate limit exceeded"), GhrustError::GitHubApi(_)));
    assert_eq!(classify_github_error("boom"), GhrustError::GitHubApi("boom".to_string()));
}

#[test]
fn workflow_vocabulary() {
    assert_eq!(parse_status("in_progress"), WorkflowRunStatus::InProgress);
    assert_eq!(parse_status("unknown"), WorkflowRunStatus::Pending);
    assert_eq!(parse_conclusion("timed_out"), WorkflowConclusion::TimedOut);
    assert_eq!(parse_conclusion("?"), WorkflowConclusion::Neutral);
    assert_eq!(format_duration(-5), "0s");
    assert_eq!(format_duration(155), "2m 35s");
    assert_eq!(format_duration(7322), "2h 2m");
    assert_eq!(status_icon(WorkflowRunStatus::Queued, None), "⏳");
    assert_eq!(status_icon(WorkflowRunStatus::Completed, Some(WorkflowConclusion::Success)), "✓");
    assert_eq!(truncate("abcdef", 4), "abc…");
    assert_eq!(truncate("abc", 4), "abc");
    assert_eq!(ReactionType::Heart.content(), "heart");
    assert_eq!(ReactionType::all().len(), 4);
    let r = Reaction { id: 1, user: None, content: "rocket".to_string() };
    assert_eq!(r.emoji(), "🚀");
}

#[test]
fn repository_detection() {
    let ctx = RepositoryContext::detect("git@github.com:o/r.git", "dev".to_string()).unwrap();
    assert_eq!(ctx.full_name(), "o/r");
    assert_eq!(ctx.default_branch, "main");
    assert!(matches!(
        RepositoryContext::detect("https://github.com/onlyowner", "dev".to_string()),
        Err(GhrustError::InvalidGitHubUrl(_))
    ));
}

#[test]
fn list_keys_move_open_and_reload() {
    let mut app = App::new(Some(repo()));
    app.navigate_to(Screen::PrList);
    app.handle_async_message(AsyncMessage::PrListLoaded(vec![pr(3), pr(4)]));
    assert!(app.handle_pr_list_key(Key::Char('j')).is_empty());
    assert_eq!(app.pr_list.selection.selected, 1);
    app.handle_pr_list_key(Key::Down);
    assert_eq!(app.pr_list.selection.selected, 0);
    app.handle_pr_list_key(Key::Up);
    assert_eq!(app.pr_list.selection.selected, 1);
    let d = app.handle_pr_list_key(Key::Enter);
    assert_eq!(app.current_screen, Screen::PrDetail(4));
    assert!(matches!(d.as_slice(), [Dispatch::FetchPrDetail(4), Dispatch::FetchPrComments(4)]));
    app.go_back();
    let d = app.handle_pr_list_key(Key::Char('r'));
    assert!(matches!(d.as_slice(), [Dispatch::FetchPrList]));
    assert!(app.pr_list.prs.is_empty());
}

#[test]
fn runs_key_reload_resets_poll_timer() {
    let mut app = App::new(Some(repo()));
    app.navigate_to(Screen::WorkflowRuns);
    app.handle_async_message(AsyncMessage::WorkflowRunsError("x".to_string()));
    let d = app.handle_workflow_runs_key(Key::Char('r'));
    assert!(matches!(d.as_slice(), [Dispatch::FetchWorkflowRuns { branch: None, preserve_selection_id: None }]));
    assert!(app.workflows.loading);
    assert!(app.handle_workflow_runs_key(Key::Esc).is_empty());
}
