//! `jj` operations: the command line of each, and how its output is read.

use vstd::prelude::*;

use crate::process::{arg, invokes, Invocation};
use crate::text::{before, lines, lines_of, split_once_char, str_eq, trim, trimmed, words, words_of};

verus! {

/// A `jj` invocation with the given arguments, run in `dir`.
fn jj_in(dir: &str, args: Vec<String>) -> (r: Invocation)
    ensures
        invokes(r, "jj"@, args.deep_view(), Some(dir@)),
{
    Invocation { program: arg("jj"), args, cwd: Some(arg(dir)) }
}

/// `jj root` in `cwd`: prints the root of the workspace containing it.
pub fn workspace_root(cwd: &str) -> (r: Invocation)
    ensures
        invokes(r, "jj"@, seq!["root"@], Some(cwd@)),
{
    let mut a: Vec<String> = Vec::new();
    a.push(arg("root"));
    assert(a.deep_view() =~= seq!["root"@]);
    jj_in(cwd, a)
}

/// The workspace root that `jj root` printed.
pub fn parse_root(output: &str) -> (root: String)
    ensures
        root@ == trimmed(output@),
{
    trim(output)
}

/// `jj git remote list`: one `name url` line per remote.
pub fn remotes(root: &str) -> (r: Invocation)
    ensures
        invokes(r, "jj"@, seq!["git"@, "remote"@, "list"@], Some(root@)),
{
    let mut a: Vec<String> = Vec::new();
    a.push(arg("git"));
    a.push(arg("remote"));
    a.push(arg("list"));
    assert(a.deep_view() =~= seq!["git"@, "remote"@, "list"@]);
    jj_in(root, a)
}

/// The remote a listing line names: its first two words.
pub open spec fn remote_of_line(l: Seq<char>) -> Option<(Seq<char>, Seq<char>)> {
    if words(l).len() >= 2 {
        Some((words(l)[0], words(l)[1]))
    } else {
        None
    }
}

/// The remotes that listing lines name, in order.
pub open spec fn remotes_of_lines(ls: Seq<Seq<char>>) -> Seq<(Seq<char>, Seq<char>)>
    decreases ls.len(),
{
    if ls.len() == 0 {
        Seq::empty()
    } else {
        match remote_of_line(ls.last()) {
            Some(p) => remotes_of_lines(ls.drop_last()).push(p),
            None => remotes_of_lines(ls.drop_last()),
        }
    }
}

/// The `(name, url)` pairs of a `jj git remote list` listing; lines with
/// fewer than two words are skipped.
pub fn parse_remotes(listing: &str) -> (r: Vec<(String, String)>)
    ensures
        r.deep_view() == remotes_of_lines(lines(listing@)),
{
    let ls = lines_of(listing);
    let ghost lv = ls.deep_view();
    let mut r: Vec<(String, String)> = Vec::new();
    let mut i: usize = 0;
    assert(lv.take(0) =~= Seq::<Seq<char>>::empty());
    while i < ls.len()
        invariant
            i <= ls@.len(),
            lv == ls.deep_view(),
            r.deep_view() == remotes_of_lines(lv.take(i as int)),
        decreases ls@.len() - i,
    {
        let ws = words_of(ls[i].as_str());
        assert(lv.take(i + 1).drop_last() =~= lv.take(i as int));
        assert(lv.take(i + 1).last() == ls@[i as int]@);
        if ws.len() >= 2 {
            let ghost prev = r.deep_view();
            r.push((ws[0].clone(), ws[1].clone()));
            assert(ws.deep_view()[0] == ws@[0]@);
            assert(ws.deep_view()[1] == ws@[1]@);
            assert(r.deep_view() =~= prev.push((ws@[0]@, ws@[1]@)));
        }
        i = i + 1;
    }
    assert(lv.take(i as int) =~= lv);
    r
}

/// Whether a remote called `name` is among `remotes`.
pub fn remote_exists(remotes: &Vec<(String, String)>, name: &str) -> (b: bool)
    ensures
        b == exists|i: int| 0 <= i < remotes@.len() && #[trigger] remotes@[i].0@ == name@,
{
    let mut i: usize = 0;
    while i < remotes.len()
        invariant
            i <= remotes@.len(),
            forall|j: int| 0 <= j < i ==> #[trigger] remotes@[j].0@ != name@,
        decreases remotes@.len() - i,
    {
        if str_eq(remotes[i].0.as_str(), name) {
            return true;
        }
        i = i + 1;
    }
    false
}

/// `jj git remote add <name> <url>`.
pub fn remote_add(root: &str, name: &str, url: &str) -> (r: Invocation)
    ensures
        invokes(r, "jj"@, seq!["git"@, "remote"@, "add"@, name@, url@], Some(root@)),
{
    let mut a: Vec<String> = Vec::new();
    a.push(arg("git"));
    a.push(arg("remote"));
    a.push(arg("add"));
    a.push(arg(name));
    a.push(arg(url));
    assert(a.deep_view() =~= seq!["git"@, "remote"@, "add"@, name@, url@]);
    jj_in(root, a)
}

/// The arguments of a fetch from `remote`, optionally of one branch.
pub open spec fn fetch_args(remote: Seq<char>, branch: Option<&str>) -> Seq<Seq<char>> {
    match branch {
        Some(b) => seq!["git"@, "fetch"@, "--remote"@, remote, "--branch"@, b@],
        None => seq!["git"@, "fetch"@, "--remote"@, remote],
    }
}

/// `jj git fetch --remote <remote> [--branch <branch>]`.
pub fn fetch(root: &str, remote: &str, branch: Option<&str>) -> (r: Invocation)
    ensures
        invokes(r, "jj"@, fetch_args(remote@, branch), Some(root@)),
{
    let mut a: Vec<String> = Vec::new();
    a.push(arg("git"));
    a.push(arg("fetch"));
    a.push(arg("--remote"));
    a.push(arg(remote));
    if let Some(b) = branch {
        a.push(arg("--branch"));
        a.push(arg(b));
    }
    assert(a.deep_view() =~= fetch_args(remote@, branch));
    jj_in(root, a)
}

/// `jj workspace add --name <name> --revision <revision> <dest>`.
pub fn workspace_add(root: &str, name: &str, dest: &str, revision: &str) -> (r: Invocation)
    ensures
        invokes(
            r,
            "jj"@,
            seq!["workspace"@, "add"@, "--name"@, name@, "--revision"@, revision@, dest@],
            Some(root@),
        ),
{
    let mut a: Vec<String> = Vec::new();
    a.push(arg("workspace"));
    a.push(arg("add"));
    a.push(arg("--name"));
    a.push(arg(name));
    a.push(arg("--revision"));
    a.push(arg(revision));
    a.push(arg(dest));
    assert(a.deep_view() =~= seq![
        "workspace"@,
        "add"@,
        "--name"@,
        name@,
        "--revision"@,
        revision@,
        dest@,
    ]);
    jj_in(root, a)
}

/// `jj workspace forget <name>`.
pub fn workspace_forget(root: &str, name: &str) -> (r: Invocation)
    ensures
        invokes(r, "jj"@, seq!["workspace"@, "forget"@, name@], Some(root@)),
{
    let mut a: Vec<String> = Vec::new();
    a.push(arg("workspace"));
    a.push(arg("forget"));
    a.push(arg(name));
    assert(a.deep_view() =~= seq!["workspace"@, "forget"@, name@]);
    jj_in(root, a)
}

/// `jj workspace list`: one `name: ...` line per workspace.
pub fn workspace_names(root: &str) -> (r: Invocation)
    ensures
        invokes(r, "jj"@, seq!["workspace"@, "list"@], Some(root@)),
{
    let mut a: Vec<String> = Vec::new();
    a.push(arg("workspace"));
    a.push(arg("list"));
    assert(a.deep_view() =~= seq!["workspace"@, "list"@]);
    jj_in(root, a)
}

/// The workspace name a listing line names: what precedes its first colon,
/// trimmed.
pub open spec fn name_of_line(l: Seq<char>) -> Seq<char> {
    trimmed(before(l, ':'))
}

/// The non-empty workspace names of listing lines, in order.
pub open spec fn names_of_lines(ls: Seq<Seq<char>>) -> Seq<Seq<char>>
    decreases ls.len(),
{
    if ls.len() == 0 {
        Seq::empty()
    } else if name_of_line(ls.last()).len() > 0 {
        names_of_lines(ls.drop_last()).push(name_of_line(ls.last()))
    } else {
        names_of_lines(ls.drop_last())
    }
}

/// The workspace names in a `jj workspace list` listing.
pub fn parse_workspace_names(listing: &str) -> (r: Vec<String>)
    ensures
        r.deep_view() == names_of_lines(lines(listing@)),
{
    let ls = lines_of(listing);
    let ghost lv = ls.deep_view();
    let mut r: Vec<String> = Vec::new();
    let mut i: usize = 0;
    assert(lv.take(0) =~= Seq::<Seq<char>>::empty());
    while i < ls.len()
        invariant
            i <= ls@.len(),
            lv == ls.deep_view(),
            r.deep_view() == names_of_lines(lv.take(i as int)),
        decreases ls@.len() - i,
    {
        let (head, _) = split_once_char(ls[i].as_str(), ':');
        let name = trim(head.as_str());
        assert(lv.take(i + 1).drop_last() =~= lv.take(i as int));
        assert(lv.take(i + 1).last() == ls@[i as int]@);
        if !name.as_str().is_empty() {
            let ghost prev = r.deep_view();
            r.push(name);
            assert(r.deep_view() =~= prev.push(name_of_line(ls@[i as int]@)));
        }
        i = i + 1;
    }
    assert(lv.take(i as int) =~= lv);
    r
}

/// Whether `name` is among `names`.
pub fn contains_name(names: &Vec<String>, name: &str) -> (b: bool)
    ensures
        b == names.deep_view().contains(name@),
{
    let mut i: usize = 0;
    while i < names.len()
        invariant
            i <= names@.len(),
            forall|j: int| 0 <= j < i ==> names.deep_view()[j] != name@,
        decreases names@.len() - i,
    {
        assert(names.deep_view()[i as int] == names@[i as int]@);
        if str_eq(names[i].as_str(), name) {
            return true;
        }
        i = i + 1;
    }
    false
}

/// `jj pr-diff --git --no-pager` in the PR workspace: the user's alias for the
/// diff against the fork point.
pub fn pr_diff(workspace: &str) -> (r: Invocation)
    ensures
        invokes(r, "jj"@, seq!["pr-diff"@, "--git"@, "--no-pager"@], Some(workspace@)),
{
    let mut a: Vec<String> = Vec::new();
    a.push(arg("pr-diff"));
    a.push(arg("--git"));
    a.push(arg("--no-pager"));
    assert(a.deep_view() =~= seq!["pr-diff"@, "--git"@, "--no-pager"@]);
    jj_in(workspace, a)
}

/// `jj log --no-graph -r <revision> -T commit_id`: the commit id a revision
/// resolves to.
pub fn commit_id(root: &str, revision: &str) -> (r: Invocation)
    ensures
        invokes(
            r,
            "jj"@,
            seq!["log"@, "--no-graph"@, "--no-pager"@, "-r"@, revision@, "-T"@, "commit_id"@],
            Some(root@),
        ),
{
    let mut a: Vec<String> = Vec::new();
    a.push(arg("log"));
    a.push(arg("--no-graph"));
    a.push(arg("--no-pager"));
    a.push(arg("-r"));
    a.push(arg(revision));
    a.push(arg("-T"));
    a.push(arg("commit_id"));
    assert(a.deep_view() =~= seq![
        "log"@,
        "--no-graph"@,
        "--no-pager"@,
        "-r"@,
        revision@,
        "-T"@,
        "commit_id"@,
    ]);
    jj_in(root, a)
}

/// The commit id that `commit_id` printed.
pub fn parse_commit_id(output: &str) -> (id: String)
    ensures
        id@ == trimmed(output@),
{
    trim(output)
}

/// `jj diff -f <from> -t <to> --git --no-pager`: the diff of a range.
pub fn diff_range(root: &str, from: &str, to: &str) -> (r: Invocation)
    ensures
        invokes(
            r,
            "jj"@,
            seq!["diff"@, "-f"@, from@, "-t"@, to@, "--git"@, "--no-pager"@],
            Some(root@),
        ),
{
    let mut a: Vec<String> = Vec::new();
    a.push(arg("diff"));
    a.push(arg("-f"));
    a.push(arg(from));
    a.push(arg("-t"));
    a.push(arg(to));
    a.push(arg("--git"));
    a.push(arg("--no-pager"));
    assert(a.deep_view() =~= seq!["diff"@, "-f"@, from@, "-t"@, to@, "--git"@, "--no-pager"@]);
    jj_in(root, a)
}

/// `jj log -r <from>..<to> --no-pager`: the commits of a range.
pub fn log_range(root: &str, from: &str, to: &str) -> (r: Invocation)
    ensures
        invokes(r, "jj"@, seq!["log"@, "-r"@, from@ + ".."@ + to@, "--no-pager"@], Some(root@)),
{
    let mut range = arg(from);
    range.append("..");
    range.append(to);
    let mut a: Vec<String> = Vec::new();
    a.push(arg("log"));
    a.push(arg("-r"));
    a.push(range);
    a.push(arg("--no-pager"));
    assert(a.deep_view() =~= seq!["log"@, "-r"@, from@ + ".."@ + to@, "--no-pager"@]);
    jj_in(root, a)
}

} // verus!
