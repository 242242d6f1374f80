use agent_review_helper::artifacts::Produced;
use agent_review_helper::context::ReviewContext;
use agent_review_helper::gh::{Author, PrInfo};
use agent_review_helper::layout::{Layout, Storage};
use agent_review_helper::manifest::write_range;
use agent_review_helper::range::gather;
use agent_review_helper::repo::RepoRef;
use std::path::Path;

fn layout() -> Layout {
    Layout::resolve(Storage::InRepo, "/repo", Some("/c"), "ns", "b").unwrap()
}

fn building(target: &str) -> String {
    format!("## Building / testing in the workspace\n\nWhen you run cargo in the workspace, set `CARGO_TARGET_DIR` to the root repo's target dir so dependencies aren't recompiled from scratch:\n\n```\nCARGO_TARGET_DIR={target}\n```\n\nSet it on every build/test/clippy invocation (PowerShell: `$env:CARGO_TARGET_DIR='{target}'`).\n")
}

#[test]
fn range_manifest_text() {
    let l = layout();
    let produced = gather(&l, "main", "feat");
    assert_eq!(produced[0].description, "Diff of the range (`jj diff -f main -t feat`, git format).");
    assert_eq!(produced[1].description, "Commit log of the range (`jj log -r main..feat`).");
    assert_eq!(produced[0].file, Path::new(&l.info).join("range.diff").to_string_lossy());
    assert_eq!(produced[1].file, Path::new(&l.info).join("commits.txt").to_string_lossy());
    let w = write_range(&l, "/repo", "main", "feat", &produced);
    assert_eq!(w.path, Path::new(&l.info).join("README.md").to_string_lossy());
    let target = Path::new("/repo").join("target").to_string_lossy().into_owned();
    let expected = format!(
        "# Review bundle — range `main` → `feat`\n\n- **From** (base): `main`\n- **To** (target): `feat`\n- **Workspace** (checkout at target): `{}`\n\n## Artifacts\n\n- `range.diff` — Diff of the range (`jj diff -f main -t feat`, git format).\n- `commits.txt` — Commit log of the range (`jj log -r main..feat`).\n\n## How to review\n\nThis is a local revision range, not a GitHub PR — there is no upstream conversation. Read `commits.txt` for the commit structure, then `range.diff` for the change. The target revision is checked out at the workspace path above if you need to build, run tests, or navigate surrounding code.\n\n{}",
        l.workspace,
        building(&target)
    );
    assert_eq!(w.contents, expected);
}

#[test]
fn pr_manifest_text() {
    let ctx = ReviewContext {
        pr: 5,
        repo: RepoRef::parse_url("https://github.com/o/r").unwrap(),
        repo_root: "/repo".into(),
        layout: layout(),
        pr_info: PrInfo {
            number: 5,
            title: "T".into(),
            state: "OPEN".into(),
            body: "".into(),
            author: Author { login: "a".into() },
            base_ref_name: "m".into(),
            head_ref_name: "h".into(),
            head_repository: None,
            head_repository_owner: None,
            url: "U".into(),
            created_at: "C".into(),
            is_draft: false,
            additions: 0,
            deletions: 0,
            changed_files: 0,
            mergeable: "".into(),
            labels: vec![],
        },
    };
    let produced = vec![Produced { file: "/x/info/pr-diff.diff".into(), description: "D".into() }];
    let w = agent_review_helper::manifest::write(&ctx, &produced);
    let target = Path::new("/repo").join("target").to_string_lossy().into_owned();
    let expected = format!(
        "# Review bundle — PR #5 (o/r)\n\n> T\n\n- **State**: OPEN\n- **Author**: @a\n- **URL**: U\n- **Workspace** (full checkout): `{}`\n\n## Artifacts\n\n- `pr-diff.diff` — D\n\n## How to review\n\nAll context needed to review this PR is in this folder. Read `conversation.md` for intent and discussion, then `pr-diff.diff` for the change. The full PR is checked out at the workspace path above if you need to build, run tests, or navigate surrounding code. Cross-check `upstream.diff` if the local diff looks off (e.g. trunk moved).\n\n{}",
        ctx.layout.workspace,
        building(&target)
    );
    assert_eq!(w.contents, expected);
}
