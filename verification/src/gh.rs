//! GitHub data the bundle is built from, and the `gh` command lines that fetch
//! it.
//!
//! `gh pr view --json` answers with camelCase keys, `gh api` (REST) with
//! snake_case keys; the JSON is read outside the library, into these types.

use vstd::prelude::*;

use crate::process::{arg, invokes, Invocation};
use crate::text::{decimal, decimal_string};

verus! {

/// The fields asked of `gh pr view --json`.
pub const PR_VIEW_FIELDS: &'static str = "number,title,state,body,author,baseRefName,headRefName,headRepository,headRepositoryOwner,url,createdAt,isDraft,additions,deletions,changedFiles,mergeable,labels";

/// A GitHub user.
#[derive(Debug)]
pub struct Author {
    pub login: String,
}

/// A repository named by GitHub.
#[derive(Debug)]
pub struct NamedRepo {
    pub name: String,
}

/// A pull request label.
#[derive(Debug)]
pub struct Label {
    pub name: String,
}

/// Pull request metadata from `gh pr view --json`.
#[derive(Debug)]
pub struct PrInfo {
    pub number: u64,
    pub title: String,
    pub state: String,
    pub body: String,
    pub author: Author,
    pub base_ref_name: String,
    pub head_ref_name: String,
    pub head_repository: Option<NamedRepo>,
    pub head_repository_owner: Option<Author>,
    pub url: String,
    pub created_at: String,
    pub is_draft: bool,
    pub additions: u64,
    pub deletions: u64,
    pub changed_files: u64,
    pub mergeable: String,
    pub labels: Vec<Label>,
}

/// A top-level issue comment from `gh api .../issues/<n>/comments`.
#[derive(Debug)]
pub struct IssueComment {
    pub user: Author,
    pub body: String,
    pub created_at: String,
    pub html_url: String,
}

/// A review submission from `gh api .../pulls/<n>/reviews`.
#[derive(Debug)]
pub struct Review {
    pub user: Author,
    pub body: String,
    pub state: String,
    /// `None` for pending reviews.
    pub submitted_at: Option<String>,
    pub html_url: String,
}

/// An inline (code-anchored) review comment from `gh api .../pulls/<n>/comments`.
#[derive(Debug)]
pub struct ReviewComment {
    pub user: Author,
    pub body: String,
    pub created_at: String,
    pub path: String,
    pub line: Option<u64>,
    pub original_line: Option<u64>,
    pub diff_hunk: String,
    pub in_reply_to_id: Option<u64>,
    pub html_url: String,
}

/// The head repository's name, unless it is absent or empty.
pub open spec fn head_repo_spec(pr: PrInfo) -> Option<Seq<char>> {
    match pr.head_repository {
        Some(r) => if r.name@.len() > 0 {
            Some(r.name@)
        } else {
            None
        },
        None => None,
    }
}

/// The head repository owner's login, unless it is absent or empty.
pub open spec fn head_owner_spec(pr: PrInfo) -> Option<Seq<char>> {
    match pr.head_repository_owner {
        Some(o) => if o.login@.len() > 0 {
            Some(o.login@)
        } else {
            None
        },
        None => None,
    }
}

impl PrInfo {
    /// The head repository's name, or `fallback` when GitHub gave none.
    pub fn head_repo_name(&self, fallback: &str) -> (name: String)
        ensures
            name@ == match head_repo_spec(*self) {
                Some(n) => n,
                None => fallback@,
            },
    {
        match &self.head_repository {
            Some(r) => {
                if !r.name.as_str().is_empty() {
                    return r.name.clone();
                }
            },
            None => {},
        }
        arg(fallback)
    }

    /// The login of the head repository's owner, if known.
    pub fn head_owner(&self) -> (owner: Option<String>)
        ensures
            match head_owner_spec(*self) {
                Some(l) => owner is Some && owner->0@ == l,
                None => owner is None,
            },
    {
        match &self.head_repository_owner {
            Some(o) => {
                if !o.login.as_str().is_empty() {
                    return Some(o.login.clone());
                }
            },
            None => {},
        }
        None
    }
}

/// A `gh` invocation (run wherever the tool runs; the repository is always
/// named explicitly).
fn gh(args: Vec<String>) -> (r: Invocation)
    ensures
        invokes(r, "gh"@, args.deep_view(), None),
{
    Invocation { program: arg("gh"), args, cwd: None }
}

/// `gh pr view <pr> --repo <slug> --json <fields>`.
pub fn pr_view(slug: &str, pr: u64) -> (r: Invocation)
    ensures
        invokes(
            r,
            "gh"@,
            seq!["pr"@, "view"@, decimal(pr as nat), "--repo"@, slug@, "--json"@, PR_VIEW_FIELDS@],
            None,
        ),
{
    let mut a: Vec<String> = Vec::new();
    a.push(arg("pr"));
    a.push(arg("view"));
    a.push(decimal_string(pr));
    a.push(arg("--repo"));
    a.push(arg(slug));
    a.push(arg("--json"));
    a.push(arg(PR_VIEW_FIELDS));
    assert(a.deep_view() =~= seq![
        "pr"@,
        "view"@,
        decimal(pr as nat),
        "--repo"@,
        slug@,
        "--json"@,
        PR_VIEW_FIELDS@,
    ]);
    gh(a)
}

/// `gh pr diff <pr> --repo <slug>`: GitHub's view of the diff.
pub fn pr_diff(slug: &str, pr: u64) -> (r: Invocation)
    ensures
        invokes(r, "gh"@, seq!["pr"@, "diff"@, decimal(pr as nat), "--repo"@, slug@], None),
{
    let mut a: Vec<String> = Vec::new();
    a.push(arg("pr"));
    a.push(arg("diff"));
    a.push(decimal_string(pr));
    a.push(arg("--repo"));
    a.push(arg(slug));
    assert(a.deep_view() =~= seq!["pr"@, "diff"@, decimal(pr as nat), "--repo"@, slug@]);
    gh(a)
}

/// The REST endpoint `repos/<slug>/<path_suffix>`.
pub open spec fn endpoint(slug: Seq<char>, path_suffix: Seq<char>) -> Seq<char> {
    "repos/"@ + slug + "/"@ + path_suffix
}

/// `gh api --paginate repos/<slug>/<path_suffix>`: every page of a REST list.
pub fn api_list(slug: &str, path_suffix: &str) -> (r: Invocation)
    ensures
        invokes(r, "gh"@, seq!["api"@, "--paginate"@, endpoint(slug@, path_suffix@)], None),
{
    let mut e = arg("repos/");
    e.append(slug);
    e.append("/");
    e.append(path_suffix);
    let mut a: Vec<String> = Vec::new();
    a.push(arg("api"));
    a.push(arg("--paginate"));
    a.push(e);
    assert(a.deep_view() =~= seq!["api"@, "--paginate"@, endpoint(slug@, path_suffix@)]);
    gh(a)
}

/// `<kind>/<pr>/<what>`, the path of one of a pull request's lists.
pub open spec fn pr_list(kind: Seq<char>, pr: u64, what: Seq<char>) -> Seq<char> {
    kind + "/"@ + decimal(pr as nat) + "/"@ + what
}

/// `<kind>/<pr>/<what>`, the path of one of a pull request's lists.
fn pr_list_path(kind: &str, pr: u64, what: &str) -> (p: String)
    ensures
        p@ == pr_list(kind@, pr, what@),
{
    let mut p = arg(kind);
    p.append("/");
    let n = decimal_string(pr);
    p.append(n.as_str());
    p.append("/");
    p.append(what);
    p
}

/// The pull request's top-level comments.
pub fn issue_comments(slug: &str, pr: u64) -> (r: Invocation)
    ensures
        invokes(
            r,
            "gh"@,
            seq!["api"@, "--paginate"@, endpoint(slug@, pr_list("issues"@, pr, "comments"@))],
            None,
        ),
{
    let p = pr_list_path("issues", pr, "comments");
    api_list(slug, p.as_str())
}

/// The pull request's review submissions.
pub fn reviews(slug: &str, pr: u64) -> (r: Invocation)
    ensures
        invokes(
            r,
            "gh"@,
            seq!["api"@, "--paginate"@, endpoint(slug@, pr_list("pulls"@, pr, "reviews"@))],
            None,
        ),
{
    let p = pr_list_path("pulls", pr, "reviews");
    api_list(slug, p.as_str())
}

/// The pull request's inline review comments.
pub fn review_comments(slug: &str, pr: u64) -> (r: Invocation)
    ensures
        invokes(
            r,
            "gh"@,
            seq!["api"@, "--paginate"@, endpoint(slug@, pr_list("pulls"@, pr, "comments"@))],
            None,
        ),
{
    let p = pr_list_path("pulls", pr, "comments");
    api_list(slug, p.as_str())
}

} // verus!
