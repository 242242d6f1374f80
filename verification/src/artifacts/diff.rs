//! Diff artifacts: the local merge-base diff (`jj pr-diff`) and GitHub's view
//! (`gh pr diff`), both kept so that one can be held against the other.

use vstd::prelude::*;

use super::{Artifact, Produced};
use crate::context::ReviewContext;
use crate::paths::{joined_path, path_join};
use crate::process::arg;

verus! {

/// `jj pr-diff` run in the PR workspace.
pub struct PrDiffArtifact;

/// `gh pr diff`: GitHub's computed diff.
pub struct UpstreamDiffArtifact;

impl Artifact for PrDiffArtifact {
    fn id(&self) -> (s: &'static str)
        ensures
            s@ == "pr-diff"@,
    {
        "pr-diff"
    }

    fn produced(&self, ctx: &ReviewContext) -> (p: Produced)
        ensures
            p.file@ == joined_path(ctx.layout.info@, "pr-diff.diff"@),
            p.description@ == "Local diff against the PR's fork point (`jj pr-diff`, git format)."@,
    {
        Produced {
            file: path_join(ctx.layout.info.as_str(), "pr-diff.diff"),
            description: arg("Local diff against the PR's fork point (`jj pr-diff`, git format)."),
        }
    }
}

impl Artifact for UpstreamDiffArtifact {
    fn id(&self) -> (s: &'static str)
        ensures
            s@ == "upstream-diff"@,
    {
        "upstream-diff"
    }

    fn produced(&self, ctx: &ReviewContext) -> (p: Produced)
        ensures
            p.file@ == joined_path(ctx.layout.info@, "upstream.diff"@),
            p.description@ == "GitHub's view of the PR diff (`gh pr diff`), for cross-checking."@,
    {
        Produced {
            file: path_join(ctx.layout.info.as_str(), "upstream.diff"),
            description: arg("GitHub's view of the PR diff (`gh pr diff`), for cross-checking."),
        }
    }
}

} // verus!
