use agent_review_helper::gh::{self, Author, NamedRepo, PrInfo};

pub fn pr_info() -> PrInfo {
    PrInfo {
        number: 9464,
        title: "Fix things".into(),
        state: "OPEN".into(),
        body: "  Body text.\n".into(),
        author: Author { login: "alice".into() },
        base_ref_name: "trunk".into(),
        head_ref_name: "fix".into(),
        head_repository: Some(NamedRepo { name: "wgpu-fork".into() }),
        head_repository_owner: Some(Author { login: "alice".into() }),
        url: "https://github.com/gfx-rs/wgpu/pull/9464".into(),
        created_at: "2024-01-01T00:00:00Z".into(),
        is_draft: false,
        additions: 10,
        deletions: 2,
        changed_files: 3,
        mergeable: String::new(),
        labels: Vec::new(),
    }
}

#[test]
fn head_names_fall_back() {
    let mut p = pr_info();
    assert_eq!(p.head_repo_name("wgpu"), "wgpu-fork");
    assert_eq!(p.head_owner().as_deref(), Some("alice"));
    p.head_repository = Some(NamedRepo { name: String::new() });
    p.head_repository_owner = Some(Author { login: String::new() });
    assert_eq!(p.head_repo_name("wgpu"), "wgpu");
    assert_eq!(p.head_owner(), None);
    p.head_repository = None;
    p.head_repository_owner = None;
    assert_eq!(p.head_repo_name("wgpu"), "wgpu");
    assert_eq!(p.head_owner(), None);
}

#[test]
fn gh_command_lines() {
    let v = gh::pr_view("gfx-rs/wgpu", 9464);
    assert_eq!(v.program, "gh");
    assert_eq!(v.cwd, None);
    assert_eq!(v.args, vec!["pr", "view", "9464", "--repo", "gfx-rs/wgpu", "--json", gh::PR_VIEW_FIELDS]);
    assert_eq!(gh::pr_diff("o/r", 7).args, vec!["pr", "diff", "7", "--repo", "o/r"]);
    assert_eq!(gh::issue_comments("o/r", 7).args, vec!["api", "--paginate", "repos/o/r/issues/7/comments"]);
    assert_eq!(gh::reviews("o/r", 7).args, vec!["api", "--paginate", "repos/o/r/pulls/7/reviews"]);
    assert_eq!(gh::review_comments("o/r", 7).args, vec!["api", "--paginate", "repos/o/r/pulls/7/comments"]);
}
