use agent_review_helper::error::ErrorKind;
use agent_review_helper::layout::{cache_dir, Layout, Storage};
use std::path::Path;

fn p(parts: &[&str]) -> String {
    let mut b = Path::new(parts[0]).to_path_buf();
    for s in &parts[1..] {
        b = b.join(s);
    }
    b.to_string_lossy().into_owned()
}

#[test]
fn in_repo_layout() {
    let l = Layout::resolve(Storage::InRepo, "/repo", Some("/cache"), "gfx-rs-wgpu", "pr-9464").unwrap();
    assert_eq!(l.strategy, Storage::InRepo);
    assert_eq!(l.workspace, p(&["/repo", ".agent-review", "pr-9464", "workspace"]));
    assert_eq!(l.info, p(&["/repo", ".agent-review", "pr-9464", "info"]));
    assert_eq!(l.roots, vec![p(&["/repo", ".agent-review", "pr-9464"])]);
}

#[test]
fn cache_layout() {
    let l = Layout::resolve(Storage::Cache, "/repo", Some("/cache"), "gfx-rs-wgpu", "pr-1").unwrap();
    let root = p(&["/cache", "agent-review-helper", "gfx-rs-wgpu", "pr-1"]);
    assert_eq!(l.workspace, p(&[&root, "workspace"]));
    assert_eq!(l.info, p(&[&root, "info"]));
    assert_eq!(l.roots, vec![root]);
}

#[test]
fn split_layout() {
    let l = Layout::resolve(Storage::Split, "/repo", Some("/cache"), "ns", "pr-1").unwrap();
    let repo_root = p(&["/repo", ".agent-review", "pr-1"]);
    let cache_root = p(&["/cache", "agent-review-helper", "ns", "pr-1"]);
    assert_eq!(l.workspace, p(&[&cache_root, "workspace"]));
    assert_eq!(l.info, p(&[&repo_root, "info"]));
    assert_eq!(l.roots, vec![repo_root, cache_root]);
    assert!(l.any_root_exists(&vec![false, true]));
    assert!(!l.any_root_exists(&vec![false, false]));
}

#[test]
fn layout_needs_a_cache_dir() {
    let e = Layout::resolve(Storage::InRepo, "/repo", None, "ns", "pr-1").err().unwrap();
    assert_eq!(e.kind, ErrorKind::NoCacheDir);
    assert_eq!(e.message(), "could not determine a home directory for the cache location");
}

#[test]
fn cache_dir_preference() {
    assert_eq!(cache_dir(Some("L"), Some("X"), Some("/h"), None, true).as_deref(), Some("L"));
    assert_eq!(cache_dir(Some("L"), Some("X"), Some("/h"), None, false).as_deref(), Some("X"));
    assert_eq!(cache_dir(None, None, Some("/h"), Some("/u"), false), Some(p(&["/h", ".cache"])));
    assert_eq!(cache_dir(None, None, None, Some("/u"), false), Some(p(&["/u", ".cache"])));
    assert_eq!(cache_dir(None, None, None, None, true), None);
}
