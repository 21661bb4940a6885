//! Prompt texts for the AI-assisted commit message and pull request.

use vstd::prelude::*;

verus! {

/// The commit prompt's text before the diff.
pub const COMMIT_PROMPT_HEAD: &'static str = r#"Analyze this git diff and generate a conventional commit message.

Requirements:
1. Use conventional commit format: type(scope): description
2. Types: feat, fix, docs, style, refactor, test, chore
3. Keep the first line under 72 characters
4. Add a body if needed to explain the "why"

Diff:
```
"#;

/// The commit prompt's text after the diff.
pub const COMMIT_PROMPT_TAIL: &'static str = r#"
```

Generate only the commit message, no explanations:"#;

/// The pull request prompt's text before the branch name.
pub const PR_PROMPT_HEAD: &'static str = r#"Analyze this git diff and generate a pull request title and description.

Branch name: "#;

/// The pull request prompt's text between the branch name and the diff.
pub const PR_PROMPT_MIDDLE: &'static str = r#"

Requirements for title:
1. Clear and concise (max 72 characters)
2. Use imperative mood ("Add" not "Added")
3. No period at the end

Requirements for body:
1. Summary of changes (2-3 sentences)
2. List of key changes with bullet points
3. Any breaking changes or important notes

Diff:
```
"#;

/// The pull request prompt's text after the diff.
pub const PR_PROMPT_TAIL: &'static str = r#"
```

Respond in this exact JSON format:
{
  "title": "PR title here",
  "body": "PR body here"
}"#;

/// The prompt that asks for a conventional commit message for a diff.
pub fn commit_message_prompt(diff: &str) -> (r: String)
    ensures
        r@ == COMMIT_PROMPT_HEAD@ + diff@ + COMMIT_PROMPT_TAIL@,
{
    crate::text::join3(COMMIT_PROMPT_HEAD, diff, COMMIT_PROMPT_TAIL)
}

/// The prompt that asks for a pull request title and body, as JSON.
pub fn pr_content_prompt(diff: &str, branch_name: &str) -> (r: String)
    ensures
        r@ == PR_PROMPT_HEAD@ + branch_name@ + PR_PROMPT_MIDDLE@ + diff@ + PR_PROMPT_TAIL@,
{
    let mut r = crate::text::join3(PR_PROMPT_HEAD, branch_name, PR_PROMPT_MIDDLE);
    r.append(diff);
    r.append(PR_PROMPT_TAIL);
    r
}

/// A generated pull request title and body.
#[derive(Debug)]
pub struct PrContent {
    pub title: String,
    pub body: String,
}

} // verus!
