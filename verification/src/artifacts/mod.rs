//! Artifact producers: each names the file it writes into the info folder
//! and describes it for the manifest.

use vstd::prelude::*;

use crate::context::ReviewContext;

pub mod conversation;
pub mod diff;

pub use conversation::ConversationArtifact;
pub use diff::{PrDiffArtifact, UpstreamDiffArtifact};

verus! {

/// One produced file plus a short description for the manifest.
#[derive(Debug)]
pub struct Produced {
    pub file: String,
    pub description: String,
}

/// A gather step that writes one file into the info folder.
pub trait Artifact {
    /// Stable identifier, used in logs.
    fn id(&self) -> &'static str;

    /// The file this step writes for `ctx`, with its description.
    fn produced(&self, ctx: &ReviewContext) -> Produced;
}

/// The artifacts of a pull request bundle.
#[derive(Debug, Clone, Copy, PartialEq, Eq, Structural)]
pub enum ArtifactKind {
    PrDiff,
    UpstreamDiff,
    Conversation,
}

impl ArtifactKind {
    /// The artifact's stable identifier.
    pub fn id(&self) -> (s: &'static str)
        ensures
            s@ == match *self {
                ArtifactKind::PrDiff => "pr-diff"@,
                ArtifactKind::UpstreamDiff => "upstream-diff"@,
                ArtifactKind::Conversation => "conversation"@,
            },
    {
        match self {
            ArtifactKind::PrDiff => PrDiffArtifact.id(),
            ArtifactKind::UpstreamDiff => UpstreamDiffArtifact.id(),
            ArtifactKind::Conversation => ConversationArtifact.id(),
        }
    }
}

/// The default set of artifacts, in production order.
pub fn default_registry() -> (v: Vec<ArtifactKind>)
    ensures
        v@ == seq![ArtifactKind::PrDiff, ArtifactKind::UpstreamDiff, ArtifactKind::Conversation],
{
    let mut v: Vec<ArtifactKind> = Vec::new();
    v.push(ArtifactKind::PrDiff);
    v.push(ArtifactKind::UpstreamDiff);
    v.push(ArtifactKind::Conversation);
    assert(v@ =~= seq![ArtifactKind::PrDiff, ArtifactKind::UpstreamDiff, ArtifactKind::Conversation]);
    v
}

} // verus!
