//! The decisions of a run, apart from the commands that carry them out:
//! bundle names, namespaces, and how the pull request's head is fetched.

use vstd::prelude::*;

use crate::error::{fails_with, Error, ErrorKind};
use crate::gh::{head_owner_spec, head_repo_spec, PrInfo};
use crate::paths::{file_name, file_name_of};
use crate::process::arg;
use crate::repo::{sibling_url_spec, RepoRef, TargetRepo};
use crate::text::{decimal, decimal_string, str_eq};

verus! {

/// The PR number the `pr` command was given.
pub fn pr_number(pr: Option<u64>) -> (r: Result<u64, Error>)
    ensures
        match pr {
            Some(n) => r == Ok::<u64, Error>(n),
            None => fails_with(
                r,
                (
                    ErrorKind::MissingPr,
                    "the `pr` command needs a PR number, e.g. `agent-review-helper pr 9464`"@,
                ),
            ),
        },
{
    match pr {
        Some(n) => Ok(n),
        None => Err(
            Error::new(
                ErrorKind::MissingPr,
                arg("the `pr` command needs a PR number, e.g. `agent-review-helper pr 9464`"),
            ),
        ),
    }
}

/// The bundle folder of a pull request: `pr-<n>`.
pub fn pr_bundle(pr: u64) -> (b: String)
    ensures
        b@ == "pr-"@ + decimal(pr as nat),
{
    let mut b = arg("pr-");
    let n = decimal_string(pr);
    b.append(n.as_str());
    b
}

/// The bundle folder of a range between two commit ids: `range-<from>-<to>`.
pub fn range_bundle(from_id: &str, to_id: &str) -> (b: String)
    ensures
        b@ == "range-"@ + from_id@ + "-"@ + to_id@,
{
    let mut b = arg("range-");
    b.append(from_id);
    b.append("-");
    b.append(to_id);
    b
}

/// The cache namespace of a GitHub repository: `<owner>-<repo>`.
pub fn repo_namespace(origin: &RepoRef) -> (n: String)
    ensures
        n@ == origin.owner@ + "-"@ + origin.repo@,
{
    let mut n = origin.owner.clone();
    n.append("-");
    n.append(origin.repo.as_str());
    n
}

/// The cache namespace of a local repository: the name of its root folder,
/// or `repo` when it has none.
pub fn range_namespace(root: &str) -> (n: String)
    ensures
        n@ == match file_name_of(root@) {
            Some(name) => name,
            None => "repo"@,
        },
{
    match file_name(root) {
        Some(name) => name,
        None => arg("repo"),
    }
}

/// How the pull request's head is fetched.
#[derive(Debug)]
pub struct HeadFetch {
    /// For a pull request from a fork: the fork remote (named after the fork's
    /// owner) and its URL, to be added unless a remote of that name exists.
    pub fork: Option<(String, String)>,
    /// The remote to fetch from.
    pub remote: String,
    /// The branch to fetch.
    pub branch: String,
    /// The revision that names the fetched head: `<branch>@<remote>`.
    pub revision: String,
}

/// Whether the pull request comes from a fork: its head owner is known and is
/// not the base repository's owner.
pub open spec fn from_fork(target: TargetRepo, pr: PrInfo) -> bool {
    head_owner_spec(pr) is Some && head_owner_spec(pr)->0 != target.origin.owner@
}

/// The fork's repository name: the head repository's, else the base's.
pub open spec fn fork_repo_spec(target: TargetRepo, pr: PrInfo) -> Seq<char> {
    match head_repo_spec(pr) {
        Some(n) => n,
        None => target.origin.repo@,
    }
}

/// Law: a pull request comes from a fork exactly when its head repository's
/// owner is known (a non-empty login) and differs from the base repository's
/// owner, whatever the head repository is called.
pub proof fn lemma_fork_exactly_when_owner_differs(target: TargetRepo, pr: PrInfo)
    ensures
        from_fork(target, pr) == match pr.head_repository_owner {
            Some(a) => a.login@.len() > 0 && a.login@ != target.origin.owner@,
            None => false,
        },
{
}

/// Where the pull request's head comes from: for a fork, a remote named after
/// its owner at the sibling URL of the fork; otherwise the base remote.
pub fn fetch_pr_head(target: &TargetRepo, pr: &PrInfo) -> (h: HeadFetch)
    ensures
        h.branch@ == pr.head_ref_name@,
        h.revision@ == pr.head_ref_name@ + "@"@ + h.remote@,
        from_fork(*target, *pr) ==> {
            &&& h.remote@ == head_owner_spec(*pr)->0
            &&& h.fork is Some
            &&& (h.fork->0).0@ == head_owner_spec(*pr)->0
            &&& (h.fork->0).1@ == sibling_url_spec(
                target.origin.host@,
                target.origin.style,
                head_owner_spec(*pr)->0,
                fork_repo_spec(*target, *pr),
            )
        },
        !from_fork(*target, *pr) ==> h.remote@ == target.remote@ && h.fork is None,
        match pr.head_repository_owner {
            Some(a) => if a.login@.len() > 0 && a.login@ != target.origin.owner@ {
                &&& h.remote@ == a.login@
                &&& h.fork is Some
                &&& (h.fork->0).0@ == a.login@
                &&& (h.fork->0).1@ == sibling_url_spec(
                    target.origin.host@,
                    target.origin.style,
                    a.login@,
                    match pr.head_repository {
                        Some(r) => if r.name@.len() > 0 {
                            r.name@
                        } else {
                            target.origin.repo@
                        },
                        None => target.origin.repo@,
                    },
                )
            } else {
                h.remote@ == target.remote@ && h.fork is None
            },
            None => h.remote@ == target.remote@ && h.fork is None,
        },
{
    let fork = match pr.head_owner() {
        Some(owner) => {
            if !str_eq(owner.as_str(), target.origin.owner.as_str()) {
                let fork_repo = pr.head_repo_name(target.origin.repo.as_str());
                let url = target.origin.sibling_url(owner.as_str(), fork_repo.as_str());
                Some((owner, url))
            } else {
                None
            }
        },
        None => None,
    };
    let remote = match &fork {
        Some((owner, _)) => owner.clone(),
        None => target.remote.clone(),
    };
    let branch = pr.head_ref_name.clone();
    let mut revision = pr.head_ref_name.clone();
    revision.append("@");
    revision.append(remote.as_str());
    HeadFetch { fork, remote, branch, revision }
}

} // verus!
