use agent_review_helper::artifacts::conversation::{
    body_or_placeholder, render, review_marker, text_lt, timeline, Event, Kind,
};
use agent_review_helper::artifacts::{
    default_registry, Artifact, ArtifactKind, ConversationArtifact, PrDiffArtifact,
    UpstreamDiffArtifact,
};
use agent_review_helper::context::ReviewContext;
use agent_review_helper::gh::{Author, IssueComment, Label, NamedRepo, PrInfo, Review, ReviewComment};
use agent_review_helper::layout::{Layout, Storage};
use agent_review_helper::repo::RepoRef;
use std::path::Path;

fn author(l: &str) -> Author {
    Author { login: l.into() }
}

fn ctx() -> ReviewContext {
    ReviewContext {
        pr: 9464,
        repo: RepoRef::parse_url("git@github.com:gfx-rs/wgpu.git").unwrap(),
        repo_root: "/repo".into(),
        layout: Layout::resolve(Storage::InRepo, "/repo", Some("/c"), "gfx-rs-wgpu", "pr-9464").unwrap(),
        pr_info: PrInfo {
            number: 9464,
            title: "Fix things".into(),
            state: "OPEN".into(),
            body: "  Body text.\n".into(),
            author: author("alice"),
            base_ref_name: "trunk".into(),
            head_ref_name: "fix".into(),
            head_repository: Some(NamedRepo { name: "wgpu".into() }),
            head_repository_owner: Some(author("alice")),
            url: "https://github.com/gfx-rs/wgpu/pull/9464".into(),
            created_at: "2024-01-01T00:00:00Z".into(),
            is_draft: true,
            additions: 10,
            deletions: 2,
            changed_files: 3,
            mergeable: "MERGEABLE".into(),
            labels: vec![Label { name: "bug".into() }, Label { name: "api".into() }],
        },
    }
}

fn issue(t: &str, who: &str, body: &str) -> IssueComment {
    IssueComment { user: author(who), body: body.into(), created_at: t.into(), html_url: format!("u/{t}") }
}

#[test]
fn markers_and_placeholders() {
    assert_eq!(review_marker("APPROVED"), "✅");
    assert_eq!(review_marker("CHANGES_REQUESTED"), "❌");
    assert_eq!(review_marker("DISMISSED"), "🚫");
    assert_eq!(review_marker("COMMENTED"), "🗒️");
    assert_eq!(body_or_placeholder("  \n "), "_(no text)_");
    assert_eq!(body_or_placeholder(" hi "), "hi");
}

#[test]
fn timestamps_order_lexically() {
    assert!(text_lt("2024-01-01T00:00:00Z", "2024-01-02T00:00:00Z"));
    assert!(!text_lt("2024-01-02T00:00:00Z", "2024-01-01T00:00:00Z"));
    assert!(!text_lt("a", "a"));
    assert!(text_lt("a", "ab"));
}

#[test]
fn timeline_merges_in_time_order_and_skips_pending() {
    let ics = vec![issue("2024-01-03", "bob", "late"), issue("2024-01-01", "carol", "early")];
    let rs = vec![
        Review { user: author("dan"), body: "".into(), state: "APPROVED".into(), submitted_at: Some("2024-01-02".into()), html_url: "".into() },
        Review { user: author("erin"), body: "x".into(), state: "PENDING".into(), submitted_at: None, html_url: "".into() },
    ];
    let rcs = vec![ReviewComment {
        user: author("fay"),
        body: "nit".into(),
        created_at: "2024-01-02".into(),
        path: "src/lib.rs".into(),
        line: None,
        original_line: Some(7),
        diff_hunk: "@@ -1 +1 @@".into(),
        in_reply_to_id: Some(1),
        html_url: "".into(),
    }];
    let ev = timeline(&ics, &rs, &rcs);
    let authors: Vec<&str> = ev.iter().map(|e| e.author.as_str()).collect();
    assert_eq!(authors, vec!["carol", "dan", "fay", "bob"]);
    match &ev[2].kind {
        Kind::Inline { line, is_reply, .. } => {
            assert_eq!(*line, Some(7));
            assert!(*is_reply);
        }
        _ => panic!("expected inline"),
    }
}

#[test]
fn renders_empty_timeline() {
    let c = ctx();
    let md = render(&c, &Vec::new());
    let expected = "# PR #9464 — Fix things\n\n- **Repo**: gfx-rs/wgpu\n- **Author**: @alice\n- **State**: OPEN (draft)\n- **Base ← Head**: `trunk` ← `fix`\n- **Mergeable**: MERGEABLE\n- **Changes**: +10 / -2 across 3 file(s)\n- **Labels**: bug, api\n- **URL**: https://github.com/gfx-rs/wgpu/pull/9464\n- **Opened**: 2024-01-01T00:00:00Z\n\n## Description\n\nBody text.\n\n## Timeline\n\n_No comments or reviews yet._\n";
    assert_eq!(md, expected);
}

#[test]
fn renders_events() {
    let c = ctx();
    let events = vec![
        Event { time: "T1".into(), author: "bob".into(), url: "https://x/1".into(), kind: Kind::Comment, body: "hello".into() },
        Event { time: "T2".into(), author: "dan".into(), url: "".into(), kind: Kind::Review { state: "APPROVED".into() }, body: "".into() },
        Event {
            time: "T3".into(),
            author: "fay".into(),
            url: "".into(),
            kind: Kind::Inline { path: "a.rs".into(), line: Some(7), diff_hunk: "@@ h".into(), is_reply: true },
            body: "nit".into(),
        },
    ];
    let md = render(&c, &events);
    let tail = "## Timeline\n\n### 💬 @bob — comment · T1\n\nhello\n\n<https://x/1>\n\n---\n\n### ✅ @dan — review (APPROVED) · T2\n\n_(no text)_\n\n---\n\n### 📝 @fay — inline on `a.rs:7` (reply) · T3\n\n```diff\n@@ h\n```\n\nnit\n\n---\n\n";
    assert!(md.ends_with(tail), "{md}");
}

#[test]
fn artifact_files_and_registry() {
    let c = ctx();
    let info = Path::new(&c.layout.info);
    assert_eq!(ConversationArtifact.id(), "conversation");
    assert_eq!(PrDiffArtifact.id(), "pr-diff");
    assert_eq!(UpstreamDiffArtifact.id(), "upstream-diff");
    assert_eq!(PrDiffArtifact.produced(&c).file, info.join("pr-diff.diff").to_string_lossy());
    assert_eq!(UpstreamDiffArtifact.produced(&c).file, info.join("upstream.diff").to_string_lossy());
    let (p, md) = ConversationArtifact.produce(&c, &vec![], &vec![], &vec![]);
    assert_eq!(p.file, info.join("conversation.md").to_string_lossy());
    assert!(md.ends_with("_No comments or reviews yet._\n"));
    assert_eq!(
        default_registry(),
        vec![ArtifactKind::PrDiff, ArtifactKind::UpstreamDiff, ArtifactKind::Conversation]
    );
    let ids: Vec<&str> = default_registry().iter().map(|k| k.id()).collect();
    assert_eq!(ids, vec!["pr-diff", "upstream-diff", "conversation"]);
    assert_eq!(c.shared_target_dir(), Path::new("/repo").join("target").to_string_lossy());
    assert_eq!(c.slug(), "gfx-rs/wgpu");
}
