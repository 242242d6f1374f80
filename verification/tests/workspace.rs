use agent_review_helper::error::ErrorKind;
use agent_review_helper::layout::{Layout, Storage};
use agent_review_helper::workspace::{
    clean, ensure_ignored, git_exclude_path, prepare, teardown, workspace_name, FsStep,
};
use std::path::Path;

fn p(parts: &[&str]) -> String {
    let mut b = Path::new(parts[0]).to_path_buf();
    for s in &parts[1..] {
        b = b.join(s);
    }
    b.to_string_lossy().into_owned()
}

fn describe(steps: &[FsStep]) -> Vec<String> {
    steps
        .iter()
        .map(|s| match s {
            FsStep::ForgetWorkspace(n) => format!("forget {n}"),
            FsStep::RemoveDirIfExists(d) => format!("rm {d}"),
            FsStep::RemoveDirQuietly(d) => format!("rm? {d}"),
            FsStep::CreateDirAll(d) => format!("mkdir {d}"),
            FsStep::CreateDirAllQuietly(d) => format!("mkdir? {d}"),
        })
        .collect()
}

#[test]
fn workspace_names_are_prefixed() {
    assert_eq!(workspace_name("pr-9464"), "arh-pr-9464");
    assert_eq!(workspace_name("range-a-b"), "arh-range-a-b");
    assert_ne!(workspace_name("pr-1"), workspace_name("pr-10"));
}

#[test]
fn ensure_ignored_appends_once() {
    let first = ensure_ignored("").unwrap();
    assert_eq!(first, "# agent-review-helper artifacts\n.agent-review/\n");
    assert_eq!(ensure_ignored(&first), None);
    let second = ensure_ignored("target/").unwrap();
    assert_eq!(second, "target/\n# agent-review-helper artifacts\n.agent-review/\n");
    assert_eq!(ensure_ignored(&second), None);
    assert_eq!(ensure_ignored("x\n  .agent-review/  \r\ny\n"), None);
    assert_eq!(
        ensure_ignored("x\n").unwrap(),
        "x\n# agent-review-helper artifacts\n.agent-review/\n"
    );
}

#[test]
fn exclude_path_prefers_colocated() {
    assert_eq!(git_exclude_path("/r", true, true), Some(p(&["/r", ".git", "info", "exclude"])));
    assert_eq!(
        git_exclude_path("/r", false, true),
        Some(p(&["/r", ".jj", "repo", "store", "git", "info", "exclude"]))
    );
    assert_eq!(git_exclude_path("/r", false, false), None);
}

#[test]
fn teardown_steps() {
    let l = Layout::resolve(Storage::Split, "/repo", Some("/c"), "ns", "pr-1").unwrap();
    let steps = teardown(&l, "arh-pr-1", true);
    assert_eq!(
        describe(&steps),
        vec![
            "forget arh-pr-1".to_string(),
            format!("rm {}", l.roots[0]),
            format!("rm {}", l.roots[1]),
            format!("rm? {}", l.workspace),
        ]
    );
    let l = Layout::resolve(Storage::InRepo, "/repo", Some("/c"), "ns", "pr-1").unwrap();
    assert_eq!(describe(&teardown(&l, "arh-pr-1", false)), vec![format!("rm {}", l.roots[0])]);
}

#[test]
fn prepare_refuses_without_force() {
    let l = Layout::resolve(Storage::InRepo, "/repo", Some("/c"), "ns", "pr-1").unwrap();
    let e = prepare(&l, "arh-pr-1", true, false, false).err().unwrap();
    assert_eq!(e.kind, ErrorKind::ArtifactsExist);
    assert_eq!(
        e.message(),
        format!("artifacts already exist (e.g. {}). Re-run with --force to recreate.", l.roots[0])
    );
    let fresh = prepare(&l, "arh-pr-1", false, false, false).unwrap();
    assert_eq!(
        describe(&fresh),
        vec![format!("mkdir {}", l.info), format!("mkdir? {}", p(&["/repo", ".agent-review", "pr-1"]))]
    );
    let forced = prepare(&l, "arh-pr-1", true, true, true).unwrap();
    assert_eq!(describe(&forced)[0], "forget arh-pr-1");
    assert_eq!(describe(&forced).len(), 4);
}

#[test]
fn clean_only_when_something_exists() {
    let l = Layout::resolve(Storage::InRepo, "/repo", Some("/c"), "ns", "pr-1").unwrap();
    assert!(clean(&l, "arh-pr-1", false, false, false).is_none());
    assert_eq!(clean(&l, "arh-pr-1", false, false, true).unwrap().len(), 1);
    assert_eq!(clean(&l, "arh-pr-1", true, false, false).unwrap().len(), 2);
}
