use agent_review_helper::repo::{pick_base_remote, RepoRef, UrlStyle};

#[test]
fn parses_https() {
    let r = RepoRef::parse_url("https://github.com/gfx-rs/wgpu.git").unwrap();
    assert_eq!(r.host, "github.com");
    assert_eq!(r.owner, "gfx-rs");
    assert_eq!(r.repo, "wgpu");
    assert_eq!(r.style, UrlStyle::Https);
}

#[test]
fn parses_https_without_suffix() {
    let r = RepoRef::parse_url("https://github.com/gfx-rs/wgpu").unwrap();
    assert_eq!(r.repo, "wgpu");
}

#[test]
fn parses_scp_ssh() {
    let r = RepoRef::parse_url("git@github.com:gfx-rs/wgpu.git").unwrap();
    assert_eq!(r.host, "github.com");
    assert_eq!(r.owner, "gfx-rs");
    assert_eq!(r.repo, "wgpu");
    assert_eq!(r.style, UrlStyle::Ssh);
}

#[test]
fn parses_ssh_url() {
    let r = RepoRef::parse_url("ssh://git@github.com/gfx-rs/wgpu.git").unwrap();
    assert_eq!(r.owner, "gfx-rs");
    assert_eq!(r.style, UrlStyle::Ssh);
}

#[test]
fn sibling_url_matches_style() {
    let https = RepoRef::parse_url("https://github.com/gfx-rs/wgpu.git").unwrap();
    assert_eq!(
        https.sibling_url("contributor", "wgpu"),
        "https://github.com/contributor/wgpu.git"
    );
    let ssh = RepoRef::parse_url("git@github.com:gfx-rs/wgpu.git").unwrap();
    assert_eq!(
        ssh.sibling_url("contributor", "wgpu"),
        "git@github.com:contributor/wgpu.git"
    );
}

#[test]
fn with_slug_preserves_host_and_style() {
    let r = RepoRef::parse_url("git@example.com:a/b.git")
        .unwrap()
        .with_slug("c/d")
        .unwrap();
    assert_eq!(r.host, "example.com");
    assert_eq!(r.owner, "c");
    assert_eq!(r.repo, "d");
    assert_eq!(r.style, UrlStyle::Ssh);
}

#[test]
fn rejects_garbage() {
    assert!(RepoRef::parse_url("not-a-url").is_err());
    assert!(RepoRef::parse_url("https://github.com/onlyowner").is_err());
}

fn remotes(pairs: &[(&str, &str)]) -> Vec<(String, String)> {
    pairs.iter().map(|(n, u)| (n.to_string(), u.to_string())).collect()
}

#[test]
fn base_remote_prefers_origin() {
    let r = remotes(&[("upstream", "git@github.com:gfx-rs/wgpu.git"), ("origin", "u2")]);
    assert_eq!(pick_base_remote(&r, None).unwrap().0, "origin");
}

#[test]
fn base_remote_falls_back_to_upstream() {
    // wgpu-style: no `origin`, fork remotes named after owners.
    let r = remotes(&[
        ("teoxoy", "git@ssh.github.com:teoxoy/wgpu"),
        ("upstream", "git@github.com:gfx-rs/wgpu.git"),
        ("cwfitzgerald", "git@github.com:cwfitzgerald/wgpu.git"),
    ]);
    let (name, url) = pick_base_remote(&r, None).unwrap();
    assert_eq!(name, "upstream");
    assert_eq!(url, "git@github.com:gfx-rs/wgpu.git");
}

#[test]
fn base_remote_uses_sole_remote() {
    let r = remotes(&[("weird", "git@github.com:a/b.git")]);
    assert_eq!(pick_base_remote(&r, None).unwrap().0, "weird");
}

#[test]
fn base_remote_override_wins() {
    let r = remotes(&[("origin", "u1"), ("teoxoy", "u2")]);
    assert_eq!(pick_base_remote(&r, Some("teoxoy")).unwrap().0, "teoxoy");
}

#[test]
fn base_remote_ambiguous_errors() {
    let r = remotes(&[("a", "u1"), ("b", "u2")]);
    assert!(pick_base_remote(&r, None).is_err());
    assert!(pick_base_remote(&r, Some("missing")).is_err());
}
