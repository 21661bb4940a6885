use argo::ai::{extract_json_from_markdown, trim};
use argo::prompts::{commit_message_prompt, pr_content_prompt};

#[test]
fn json_block_is_extracted() {
    let answer = "Here you go:\n```json\n{\"title\": \"T\", \"body\": \"B\"}\n```\nThanks";
    assert_eq!(extract_json_from_markdown(answer), "{\"title\": \"T\", \"body\": \"B\"}");
}

#[test]
fn unclosed_json_block_takes_the_rest() {
    let answer = "```json\n{\"title\": \"T\"}";
    assert_eq!(extract_json_from_markdown(answer), "{\"title\": \"T\"}");
}

#[test]
fn plain_fence_is_extracted() {
    let answer = "```\n{\"a\": 1}\n```";
    assert_eq!(extract_json_from_markdown(answer), "{\"a\": 1}");
}

#[test]
fn raw_object_is_extracted() {
    let answer = "The result is {\"a\": {\"b\": 2}} as requested.";
    assert_eq!(extract_json_from_markdown(answer), "{\"a\": {\"b\": 2}}");
}

#[test]
fn no_object_gives_trimmed_answer() {
    assert_eq!(extract_json_from_markdown("  nothing here \n"), "nothing here");
    assert_eq!(extract_json_from_markdown(""), "");
}

#[test]
fn trim_handles_unicode_space() {
    assert_eq!(trim("\u{3000} a b \t"), "a b");
    assert_eq!(trim("   "), "");
}

#[test]
fn prompts_embed_their_inputs() {
    let p = commit_message_prompt("+added line");
    assert!(p.starts_with("Analyze this git diff and generate a conventional commit message."));
    assert!(p.contains("```\n+added line\n```"));
    let p = pr_content_prompt("+x", "feature/login");
    assert!(p.contains("Branch name: feature/login\n"));
    assert!(p.contains("```\n+x\n```"));
    assert!(p.ends_with("\"body\": \"PR body here\"\n}"));
}

#[test]
fn pr_content_from_valid_json() {
    let c = argo::ai::parse_pr_content("```json\n{\"title\": \"Add login\", \"body\": \"Adds it.\"}\n```")
        .unwrap();
    assert_eq!(c.title, "Add login");
    assert_eq!(c.body, "Adds it.");
}

#[test]
fn pr_content_from_malformed_json() {
    let c = argo::ai::parse_pr_content("{\"title\": \"Fix \\\"bug\\\"\", \"body\": \"line1\\nline2").unwrap();
    assert_eq!(c.title, "Fix \"bug\"");
    assert_eq!(c.body, "line1\nline2");
    let c = argo::ai::parse_pr_content("{\"title\" : \"Only title\",").unwrap();
    assert_eq!(c.title, "Only title");
    assert_eq!(c.body, "");
}

#[test]
fn pr_content_errors() {
    let e = argo::ai::parse_pr_content("no json at all").unwrap_err();
    assert_eq!(
        e,
        argo::error::GhrustError::GeminiApi(
            "AI response doesn't contain valid JSON. Got: no json at all".to_string()
        )
    );
    let e = argo::ai::parse_pr_content("{\"summary\": 1}").unwrap_err();
    assert_eq!(
        e,
        argo::error::GhrustError::GeminiApi(
            "Failed to parse AI response. Preview: {\"summary\": 1}...".to_string()
        )
    );
}

#[test]
fn json_field_and_replace() {
    assert_eq!(argo::ai::extract_json_field("{\"body\":\"a\\tb\"}", "body"), Some("a\tb".to_string()));
    assert_eq!(argo::ai::extract_json_field("{\"x\": 1}", "body"), None);
    assert_eq!(argo::ai::replace_all("aaa", "aa", "b"), "ba");
}

const DIFF: &str = "diff --git a/src/a.rs b/src/a.rs\n--- a/src/a.rs\n+++ b/src/a.rs\n+one\n+two\n-three\ndiff --git a/img.png b/img.png\nBinary files a/img.png and b/img.png differ\n";

#[test]
fn diff_sections_are_parsed() {
    let secs = argo::ai::parse_diff_sections(DIFF);
    assert_eq!(secs.len(), 2);
    assert_eq!(secs[0].file_path, "src/a.rs");
    assert_eq!(secs[0].additions, 2);
    assert_eq!(secs[0].deletions, 1);
    assert!(!secs[0].is_binary);
    assert!(secs[0].content.starts_with("diff --git a/src/a.rs b/src/a.rs\n"));
    assert!(secs[0].content.ends_with("-three\n"));
    assert_eq!(secs[1].file_path, "img.png");
    assert!(secs[1].is_binary);
    assert!(argo::ai::parse_diff_sections("no header\n+x\n").is_empty());
}

#[test]
fn diff_truncated_by_lines() {
    assert_eq!(argo::ai::truncate_diff("short", 10), "short");
    assert_eq!(argo::ai::truncate_diff("aaaa\nbbbb\ncccc", 10), "aaaa\nbbbb\n... (diff truncated)");
    assert_eq!(argo::ai::truncate_diff("ab\r\ncd\r\nef\r\n", 11), "ab\ncd\nef");
}

#[test]
fn diff_summarized_when_too_large() {
    let out = argo::ai::smart_truncate_diff(DIFF, DIFF.chars().count());
    assert_eq!(out, DIFF);
    let out = argo::ai::smart_truncate_diff(DIFF, 40);
    assert_eq!(
        out,
        "\n--- FILES SUMMARIZED (diff too large) ---\nsrc/a.rs (+2/-1 lines)\nimg.png (binary file)\n"
    );
    let out = argo::ai::smart_truncate_diff("line one\nline two\n", 12);
    assert_eq!(out, "line one\n... (diff truncated)");
}

#[test]
fn string_value_and_error_classes_on_given_inputs() {
    assert_eq!(argo::ai::read_string_value("a\\\"b\\\\c\" rest"), "a\"b\\c");
    let e = argo::github::classify_error("anything", Some("org".to_string()));
    assert!(matches!(e, argo::error::GhrustError::OrgAccessRestricted { ref org_name, .. } if org_name == "org"));
    assert_eq!(
        argo::github::classify_error("HTTP 404", None),
        argo::error::GhrustError::GitHubApi(
            "Repository not found. It may be private or you may not have access.".to_string()
        )
    );
}
