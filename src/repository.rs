//! The forge repository a working copy belongs to, read from its remote URL.

use vstd::prelude::*;
use crate::error::GhrustError;
use crate::text::{is_prefix, join3, occurs_at, starts_with, str_eq};

verus! {

/// Owner, name and branches of the repository being worked on.
pub struct RepositoryContext {
    /// Repository owner (user or organization).
    pub owner: String,
    /// Repository name.
    pub name: String,
    /// The branch checked out.
    pub current_branch: String,
    /// The repository's default branch.
    pub default_branch: String,
}

impl RepositoryContext {
    /// The context for a working copy, from its `origin` URL and its
    /// checked-out branch; the default branch is taken to be `main` until
    /// the remote API says otherwise.
    pub fn detect(remote_url: &str, current_branch: String) -> (r: Result<Self, GhrustError>)
        ensures
            match github_path(remote_url@) {
                None => r is Err && r->Err_0 is InvalidGitHubUrl && r->Err_0->InvalidGitHubUrl_0@
                    == remote_url@,
                Some(p) => match owner_repo(p) {
                    Some((o, n)) => r is Ok && r->Ok_0.owner@ == o && r->Ok_0.name@ == n
                        && r->Ok_0.current_branch == current_branch && r->Ok_0.default_branch@
                        == "main"@,
                    None => r is Err && r->Err_0 is InvalidGitHubUrl,
                },
            },
    {
        match parse_github_url(remote_url) {
            Ok((owner, name)) => Ok(
                RepositoryContext {
                    owner,
                    name,
                    current_branch,
                    default_branch: String::from_str("main"),
                },
            ),
            Err(e) => Err(e),
        }
    }

    /// `owner/name`.
    pub fn full_name(&self) -> (r: String)
        ensures
            r@ == self.owner@ + "/"@ + self.name@,
    {
        join3(self.owner.as_str(), "/", self.name.as_str())
    }

    /// The repository's web address.
    pub fn github_url(&self) -> (r: String)
        ensures
            r@ == "https://github.com/"@ + self.owner@ + "/"@ + self.name@,
    {
        let mut r = join3("https://github.com/", self.owner.as_str(), "/");
        r.append(self.name.as_str());
        r
    }

    /// Record the default branch that the remote API reported.
    pub fn set_default_branch(&mut self, branch: String)
        ensures
            *final(self) == (RepositoryContext { default_branch: branch, ..*old(self) }),
    {
        self.default_branch = branch;
    }

    /// A field-by-field copy.
    pub fn duplicate(&self) -> (r: Self)
        ensures
            r == *self,
    {
        RepositoryContext {
            owner: self.owner.clone(),
            name: self.name.clone(),
            current_branch: self.current_branch.clone(),
            default_branch: self.default_branch.clone(),
        }
    }
}

/// The host (if any) and path that the url crate reads from a text, or None
/// where it rejects the text as a URL.
pub uninterp spec fn url_host_path(s: Seq<char>) -> Option<(Option<Seq<char>>, Seq<char>)>;

pub open spec fn opt_view(o: Option<String>) -> Option<Seq<char>> {
    match o {
        Some(s) => Some(s@),
        None => None,
    }
}

/// Relies on url's `Url::parse`, `Url::host_str` and `Url::path`.
#[verifier::external_body]
fn parse_url(s: &str) -> (r: Option<(Option<String>, String)>)
    ensures
        match r {
            Some((h, p)) => url_host_path(s@) == Some((opt_view(h), p@)),
            None => url_host_path(s@) is None,
        },
{
    match url::Url::parse(s) {
        Ok(u) => {
            let host = match u.host_str() {
                Some(h) => Some(h.to_string()),
                None => None,
            };
            Some((host, u.path().to_string()))
        },
        Err(_) => None,
    }
}

/// A path with every trailing `.git` removed.
pub open spec fn strip_git(s: Seq<char>) -> Seq<char>
    decreases s.len(),
{
    if s.len() >= 4 && s.subrange(s.len() - 4, s.len() as int) == ".git"@ {
        strip_git(s.subrange(0, s.len() - 4))
    } else {
        s
    }
}

/// A path with every leading `/` removed.
pub open spec fn strip_slashes(s: Seq<char>) -> Seq<char>
    decreases s.len(),
{
    if s.len() > 0 && s[0] == '/' {
        strip_slashes(s.drop_first())
    } else {
        s
    }
}

/// The `owner/repo` part of a remote URL of the forge, with `.git` removed,
/// or None where the URL is not one of the forge's.
pub open spec fn github_path(url: Seq<char>) -> Option<Seq<char>> {
    if is_prefix("git@github.com:"@, url) {
        Some(strip_git(url.subrange(15, url.len() as int)))
    } else if is_prefix("ssh://git@github.com/"@, url) {
        Some(strip_git(url.subrange(21, url.len() as int)))
    } else {
        match url_host_path(url) {
            Some((Some(h), p)) => if h == "github.com"@ {
                Some(strip_git(strip_slashes(p)))
            } else {
                None
            },
            _ => None,
        }
    }
}

/// The end of the `/`-separated segment that starts at `from`.
pub open spec fn segment_end(s: Seq<char>, from: int) -> int
    decreases s.len() - from,
{
    if from < 0 || from >= s.len() || s[from] == '/' {
        if from < 0 { 0 } else { from }
    } else {
        segment_end(s, from + 1)
    }
}

/// The first two segments of a path, when there are two and neither is
/// empty.
pub open spec fn owner_repo(p: Seq<char>) -> Option<(Seq<char>, Seq<char>)> {
    let e1 = segment_end(p, 0);
    let e2 = segment_end(p, e1 + 1);
    if e1 < p.len() && e1 > 0 && e2 > e1 + 1 {
        Some((p.subrange(0, e1), p.subrange(e1 + 1, e2)))
    } else {
        None
    }
}

fn find_segment_end(s: &str, from: usize) -> (r: usize)
    requires
        from <= s@.len(),
    ensures
        r == segment_end(s@, from as int),
        from <= r <= s@.len(),
{
    let n = s.unicode_len();
    let mut i = from;
    while i < n && s.get_char(i) != '/'
        invariant
            from <= i <= n == s@.len(),
            segment_end(s@, from as int) == segment_end(s@, i as int),
        decreases n - i,
    {
        i += 1;
    }
    i
}

fn strip_git_suffix(s: &str) -> (r: &str)
    ensures
        r@ == strip_git(s@),
{
    proof {
        reveal_strlit(".git");
    }
    assert(".git"@ =~= seq!['.', 'g', 'i', 't']);
    let mut end = s.unicode_len();
    let mut done = false;
    assert(s@.subrange(0, end as int) =~= s@);
    while !done && end >= 4
        invariant
            end <= s@.len(),
            strip_git(s@) == strip_git(s@.subrange(0, end as int)),
            ".git"@ == seq!['.', 'g', 'i', 't'],
            done ==> end >= 4 && !occurs_at(s@, ".git"@, end - 4),
        decreases end + if done { 0int } else { 1int },
    {
        if crate::text::matches_at(s, ".git", end - 4) {
            let ghost t = s@.subrange(0, end as int);
            assert(t.subrange(t.len() - 4, t.len() as int) =~= s@.subrange(end - 4, end as int));
            assert(t.subrange(0, t.len() - 4) =~= s@.subrange(0, end - 4));
            end -= 4;
        } else {
            done = true;
        }
    }
    proof {
        let t = s@.subrange(0, end as int);
        if end >= 4 {
            assert(t.subrange(t.len() - 4, t.len() as int) =~= s@.subrange(end - 4, end as int));
        }
    }
    s.substring_char(0, end)
}

fn strip_leading_slashes(s: &str) -> (r: &str)
    ensures
        r@ == strip_slashes(s@),
{
    let n = s.unicode_len();
    let mut k: usize = 0;
    assert(s@.subrange(0, n as int) =~= s@);
    while k < n && s.get_char(k) == '/'
        invariant
            k <= n == s@.len(),
            strip_slashes(s@) == strip_slashes(s@.subrange(k as int, n as int)),
        decreases n - k,
    {
        assert(s@.subrange(k as int, n as int).drop_first() =~= s@.subrange(k + 1, n as int));
        k += 1;
    }
    s.substring_char(k, n)
}

/// Owner and repository from an `owner/repo[/...]` path.
pub fn parse_owner_repo_path(path: &str) -> (r: Result<(String, String), GhrustError>)
    ensures
        match owner_repo(path@) {
            Some((o, n)) => r is Ok && r->Ok_0.0@ == o && r->Ok_0.1@ == n,
            None => r is Err && r->Err_0 is InvalidGitHubUrl && r->Err_0->InvalidGitHubUrl_0@
                == path@,
        },
{
    let n = path.unicode_len();
    let e1 = find_segment_end(path, 0);
    if e1 < n && e1 > 0 {
        let e2 = find_segment_end(path, e1 + 1);
        if e2 > e1 + 1 {
            let owner = String::from_str(path.substring_char(0, e1));
            let repo = String::from_str(path.substring_char(e1 + 1, e2));
            return Ok((owner, repo));
        }
    }
    Err(GhrustError::InvalidGitHubUrl(String::from_str(path)))
}

/// Owner and repository from a remote URL of the forge, in any of its
/// HTTPS, SSH and `ssh://` forms, with or without `.git`.
pub fn parse_github_url(url: &str) -> (r: Result<(String, String), GhrustError>)
    ensures
        match github_path(url@) {
            None => r is Err && r->Err_0 is InvalidGitHubUrl && r->Err_0->InvalidGitHubUrl_0@
                == url@,
            Some(p) => match owner_repo(p) {
                Some((o, n)) => r is Ok && r->Ok_0.0@ == o && r->Ok_0.1@ == n,
                None => r is Err && r->Err_0 is InvalidGitHubUrl && r->Err_0->InvalidGitHubUrl_0@
                    == p,
            },
        },
{
    proof {
        reveal_strlit("git@github.com:");
        reveal_strlit("ssh://git@github.com/");
    }
    let n = url.unicode_len();
    if starts_with(url, "git@github.com:") {
        let path = strip_git_suffix(url.substring_char(15, n));
        return parse_owner_repo_path(path);
    }
    if starts_with(url, "ssh://git@github.com/") {
        let path = strip_git_suffix(url.substring_char(21, n));
        return parse_owner_repo_path(path);
    }
    if let Some((host, p)) = parse_url(url) {
        if let Some(h) = host {
            if str_eq(h.as_str(), "github.com") {
                let path = strip_git_suffix(strip_leading_slashes(p.as_str()));
                return parse_owner_repo_path(path);
            }
        }
    }
    Err(GhrustError::InvalidGitHubUrl(String::from_str(url)))
}

} // verus!
