use agent_review_helper::error::ErrorKind;
use agent_review_helper::gh::{Author, NamedRepo, PrInfo};
use agent_review_helper::plan::{fetch_pr_head, pr_bundle, pr_number, range_bundle, range_namespace, repo_namespace};
use agent_review_helper::repo::{discover, RepoRef, UrlStyle};

fn pr(owner: Option<&str>, repo: Option<&str>) -> PrInfo {
    PrInfo {
        number: 1,
        title: "t".into(),
        state: "OPEN".into(),
        body: "".into(),
        author: Author { login: "a".into() },
        base_ref_name: "trunk".into(),
        head_ref_name: "feature".into(),
        head_repository: repo.map(|n| NamedRepo { name: n.into() }),
        head_repository_owner: owner.map(|l| Author { login: l.into() }),
        url: "".into(),
        created_at: "".into(),
        is_draft: false,
        additions: 0,
        deletions: 0,
        changed_files: 0,
        mergeable: "".into(),
        labels: vec![],
    }
}

fn target() -> agent_review_helper::repo::TargetRepo {
    let remotes = vec![("upstream".to_string(), "git@github.com:gfx-rs/wgpu.git".to_string())];
    discover("/r".into(), &remotes, None, None).unwrap()
}

#[test]
fn fork_head_gets_its_own_remote() {
    let t = target();
    let h = fetch_pr_head(&t, &pr(Some("teoxoy"), Some("wgpu-fork")));
    assert_eq!(h.remote, "teoxoy");
    assert_eq!(h.fork, Some(("teoxoy".to_string(), "git@github.com:teoxoy/wgpu-fork.git".to_string())));
    assert_eq!(h.branch, "feature");
    assert_eq!(h.revision, "feature@teoxoy");
}

#[test]
fn same_repo_head_uses_base_remote() {
    let t = target();
    for p in [pr(Some("gfx-rs"), None), pr(None, None), pr(Some(""), None)] {
        let h = fetch_pr_head(&t, &p);
        assert_eq!(h.remote, "upstream");
        assert_eq!(h.fork, None);
        assert_eq!(h.revision, "feature@upstream");
    }
}

#[test]
fn fork_repo_name_falls_back_to_base() {
    let h = fetch_pr_head(&target(), &pr(Some("me"), None));
    assert_eq!(h.fork.unwrap().1, "git@github.com:me/wgpu.git");
}

#[test]
fn bundle_names() {
    assert_eq!(pr_bundle(9464), "pr-9464");
    assert_eq!(range_bundle("abc", "def"), "range-abc-def");
    let r = RepoRef::parse_url("https://github.com/gfx-rs/wgpu").unwrap();
    assert_eq!(repo_namespace(&r), "gfx-rs-wgpu");
    assert_eq!(range_namespace("/home/me/wgpu"), "wgpu");
    assert_eq!(range_namespace("/"), "repo");
    assert_eq!(pr_number(Some(3)).unwrap(), 3);
    let e = pr_number(None).unwrap_err();
    assert_eq!(e.kind, ErrorKind::MissingPr);
}

#[test]
fn discover_applies_slug_override() {
    let remotes = vec![("origin".to_string(), "git@example.com:a/b.git".to_string())];
    let t = discover("/r".into(), &remotes, Some("c/d"), None).unwrap();
    assert_eq!(t.remote, "origin");
    assert_eq!(t.origin.host, "example.com");
    assert_eq!(t.origin.owner, "c");
    assert_eq!(t.origin.repo, "d");
    assert_eq!(t.origin.style, UrlStyle::Ssh);
    assert_eq!(t.root, "/r");
    let e = discover("/r".into(), &vec![], None, None).err().unwrap();
    assert_eq!(e.kind, ErrorKind::NoRemotes);
    let e = discover("/r".into(), &remotes, Some("justowner"), None).err().unwrap();
    assert_eq!(e.kind, ErrorKind::BadOwnerRepo);
    assert_eq!(e.message(), "could not parse owner/repo from `justowner`");
}

#[test]
fn remote_error_messages() {
    let remotes = vec![("a".to_string(), "u1".to_string()), ("b".to_string(), "u2".to_string())];
    let e = agent_review_helper::repo::pick_base_remote(&remotes, Some("missing")).unwrap_err();
    assert_eq!(e.kind, ErrorKind::RemoteNotFound);
    assert_eq!(e.message(), "remote `missing` not found; available: a, b");
    let e = agent_review_helper::repo::pick_base_remote(&remotes, None).unwrap_err();
    assert_eq!(e.kind, ErrorKind::AmbiguousRemotes);
    assert_eq!(
        e.message(),
        "no `origin` or `upstream` remote, and multiple remotes exist (a, b). Pass --remote <name> to pick the PR's base repo."
    );
    let e = RepoRef::parse_url("  ftp://x/y ").unwrap_err();
    assert_eq!(e.kind, ErrorKind::UnrecognizedUrl);
    assert_eq!(e.message(), "unrecognized remote URL form: ftp://x/y");
}

#[test]
fn sibling_url_round_trips() {
    let r = RepoRef::parse_url("ssh://git@github.com/gfx-rs/wgpu.git").unwrap();
    let u = r.sibling_url("me", "fork");
    let back = RepoRef::parse_url(&u).unwrap();
    assert_eq!((back.host.as_str(), back.owner.as_str(), back.repo.as_str(), back.style), ("github.com", "me", "fork", UrlStyle::Ssh));
    let with = RepoRef::parse_url("https://h/a/b").unwrap().with_slug("x/y").unwrap();
    assert_eq!(with.slug(), "x/y");
}
