//! The resolved context handed to every artifact producer.

use vstd::prelude::*;

use crate::gh::PrInfo;
use crate::layout::Layout;
use crate::paths::{joined_path, path_join};
use crate::repo::RepoRef;

verus! {

/// Everything an artifact producer needs. Built once, then shared read-only.
#[derive(Debug)]
pub struct ReviewContext {
    pub pr: u64,
    /// The GitHub repository the pull request lives in (the base repository).
    pub repo: RepoRef,
    /// Root of the jj workspace the tool was invoked from.
    pub repo_root: String,
    /// Resolved on-disk locations for this pull request.
    pub layout: Layout,
    /// Pull request metadata from `gh pr view`.
    pub pr_info: PrInfo,
}

/// `owner/repo` of the context's repository.
pub open spec fn slug_of(ctx: ReviewContext) -> Seq<char> {
    ctx.repo.owner@ + "/"@ + ctx.repo.repo@
}

impl ReviewContext {
    /// `owner/repo` of the base repository.
    pub fn slug(&self) -> (s: String)
        ensures
            s@ == slug_of(*self),
    {
        self.repo.slug()
    }

    /// The root repository's cargo target directory, which builds in the PR
    /// workspace share so dependencies are not compiled again.
    pub fn shared_target_dir(&self) -> (d: String)
        ensures
            d@ == joined_path(self.repo_root@, "target"@),
    {
        path_join(self.repo_root.as_str(), "target")
    }
}

} // verus!
