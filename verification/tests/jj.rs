use agent_review_helper::jj;

#[test]
fn parses_remote_listing() {
    let listing = "origin git@github.com:gfx-rs/wgpu.git\nteoxoy  https://github.com/teoxoy/wgpu\n\nbroken\n";
    let r = jj::parse_remotes(listing);
    assert_eq!(
        r,
        vec![
            ("origin".to_string(), "git@github.com:gfx-rs/wgpu.git".to_string()),
            ("teoxoy".to_string(), "https://github.com/teoxoy/wgpu".to_string()),
        ]
    );
    assert!(jj::remote_exists(&r, "teoxoy"));
    assert!(!jj::remote_exists(&r, "broken"));
}

#[test]
fn parses_workspace_listing() {
    let listing = "default: qpvuntsm 1234 (no description)\narh-pr-9464: abc def\n  : nothing\n";
    let names = jj::parse_workspace_names(listing);
    assert_eq!(names, vec!["default".to_string(), "arh-pr-9464".to_string()]);
    assert!(jj::contains_name(&names, "arh-pr-9464"));
    assert!(!jj::contains_name(&names, "arh-pr-1"));
}

#[test]
fn root_output_is_trimmed() {
    assert_eq!(jj::parse_root("/home/me/wgpu\n"), "/home/me/wgpu");
}

#[test]
fn jj_command_lines() {
    let f = jj::fetch("/r", "origin", Some("feature"));
    assert_eq!(f.program, "jj");
    assert_eq!(f.args, vec!["git", "fetch", "--remote", "origin", "--branch", "feature"]);
    assert_eq!(f.cwd.as_deref(), Some("/r"));
    let f = jj::fetch("/r", "origin", None);
    assert_eq!(f.args, vec!["git", "fetch", "--remote", "origin"]);
    let w = jj::workspace_add("/r", "arh-pr-1", "/r/.agent-review/pr-1/workspace", "b@origin");
    assert_eq!(
        w.args,
        vec!["workspace", "add", "--name", "arh-pr-1", "--revision", "b@origin", "/r/.agent-review/pr-1/workspace"]
    );
    assert_eq!(jj::remote_add("/r", "me", "u").args, vec!["git", "remote", "add", "me", "u"]);
    assert_eq!(jj::workspace_forget("/r", "n").args, vec!["workspace", "forget", "n"]);
    assert_eq!(jj::workspace_names("/r").args, vec!["workspace", "list"]);
    assert_eq!(jj::remotes("/r").args, vec!["git", "remote", "list"]);
    assert_eq!(jj::workspace_root("/x").args, vec!["root"]);
    let d = jj::pr_diff("/ws");
    assert_eq!(d.args, vec!["pr-diff", "--git", "--no-pager"]);
    assert_eq!(d.cwd.as_deref(), Some("/ws"));
    assert_eq!(jj::log_range("/r", "a", "b").args, vec!["log", "-r", "a..b", "--no-pager"]);
}
