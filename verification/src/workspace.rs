//! Filesystem-side setup, decided here and carried out by the caller: keeping
//! the artifact folder out of version control, and preparing, recreating or
//! removing a bundle's folders and jj workspace.

use vstd::prelude::*;

use crate::error::{fails_with, Error, ErrorKind};
use crate::layout::{Layout, Storage};
use crate::paths::{joined_path, parent, parent_of, path_join};
use crate::process::arg;
use crate::text::{
    lemma_lines_append, lemma_lines_single, lines, lines_of, str_eq, strip_cr,
    trim, trim_end, trim_start, trimmed,
};

verus! {

// ---------------------------------------------------------------------------
// Workspace names
// ---------------------------------------------------------------------------

/// The jj workspace name of a bundle (e.g. `arh-pr-9464`), fixed so that
/// `--force` and `--clean` can find it again.
pub fn workspace_name(bundle: &str) -> (name: String)
    ensures
        name@ == "arh-"@ + bundle@,
{
    let mut s = arg("arh-");
    s.append(bundle);
    s
}

/// Law: different bundles get different workspace names, so `--force` and
/// `--clean` never forget another bundle's workspace.
pub proof fn lemma_workspace_names_distinct(a: Seq<char>, b: Seq<char>)
    requires
        a != b,
    ensures
        "arh-"@ + a != "arh-"@ + b,
{
    let p = "arh-"@;
    if p + a == p + b {
        assert((p + a).skip(p.len() as int) =~= a);
        assert((p + b).skip(p.len() as int) =~= b);
    }
}

// ---------------------------------------------------------------------------
// The git exclude file
// ---------------------------------------------------------------------------

/// The line that keeps the artifact folder out of version control.
pub open spec fn ignore_entry() -> Seq<char> {
    ".agent-review/"@
}

/// Whether some line of `contents`, trimmed, is the ignore entry.
pub open spec fn is_ignored(contents: Seq<char>) -> bool {
    exists|i: int| 0 <= i < lines(contents).len() && trimmed(#[trigger] lines(contents)[i]) == ignore_entry()
}

/// `contents` with the commented ignore entry appended on lines of their own.
pub open spec fn with_ignore_entry(contents: Seq<char>) -> Seq<char> {
    let sep = if contents.len() > 0 && contents.last() != '\n' {
        "\n"@
    } else {
        Seq::empty()
    };
    contents + sep + "# agent-review-helper artifacts\n"@ + ignore_entry() + "\n"@
}

/// The new contents of the git exclude file, or `None` when `existing`
/// already ignores the artifact folder.
pub fn ensure_ignored(existing: &str) -> (r: Option<String>)
    ensures
        is_ignored(existing@) ==> r is None,
        !is_ignored(existing@) ==> r is Some && r->0@ == with_ignore_entry(existing@),
{
    let ls = lines_of(existing);
    let mut i: usize = 0;
    while i < ls.len()
        invariant
            i <= ls@.len(),
            ls.deep_view() == lines(existing@),
            forall|j: int| 0 <= j < i ==> trimmed(#[trigger] lines(existing@)[j]) != ignore_entry(),
        decreases ls@.len() - i,
    {
        let t = trim(ls[i].as_str());
        assert(ls.deep_view()[i as int] == ls@[i as int]@);
        if str_eq(t.as_str(), ".agent-review/") {
            return None;
        }
        i = i + 1;
    }
    let mut contents = arg(existing);
    let n = contents.as_str().unicode_len();
    if n > 0 && contents.as_str().get_char(n - 1) != '\n' {
        contents.append("\n");
    }
    contents.append("# agent-review-helper artifacts\n");
    contents.append(".agent-review/");
    contents.append("\n");
    Some(contents)
}

/// Law: adding the ignore entry keeps the existing contents as they were and
/// leaves a file that counts as ignoring the artifact folder, so a second
/// `ensure_ignored` changes nothing.
pub proof fn lemma_ensure_ignored_is_idempotent(contents: Seq<char>)
    ensures
        with_ignore_entry(contents).take(contents.len() as int) == contents,
        is_ignored(with_ignore_entry(contents)),
{
    reveal_strlit("\n");
    reveal_strlit("# agent-review-helper artifacts\n");
    reveal_strlit(".agent-review/");
    let sep = if contents.len() > 0 && contents.last() != '\n' {
        "\n"@
    } else {
        Seq::empty()
    };
    let q = contents + sep;
    let h = "# agent-review-helper artifacts\n"@;
    let e = ignore_entry();
    let nl = "\n"@;
    let qh = q + h;
    let all = with_ignore_entry(contents);
    assert(all =~= qh + (e + nl));
    assert(all.take(contents.len() as int) =~= contents);
    assert(qh.last() == '\n');
    lemma_lines_append(qh, e + nl);
    assert(forall|j: int| 0 <= j < e.len() ==> e[j] != '\n');
    lemma_lines_single(e);
    assert(strip_cr(e) == e);
    assert(trim_start(e) == e);
    assert(trim_end(e) == e);
    let k = lines(qh).len() as int;
    assert(lines(all)[k] == e);
    assert(trimmed(lines(all)[k]) == ignore_entry());
}

/// `dir/info/exclude`.
pub open spec fn exclude_in(dir: Seq<char>) -> Seq<char> {
    joined_path(joined_path(dir, "info"@), "exclude"@)
}

/// The git folder of a colocated repository: `<repo>/.git`.
pub open spec fn colocated_git_dir(repo_root: Seq<char>) -> Seq<char> {
    joined_path(repo_root, ".git"@)
}

/// The git store behind a jj repository: `<repo>/.jj/repo/store/git`.
pub open spec fn backing_git_dir(repo_root: Seq<char>) -> Seq<char> {
    joined_path(joined_path(joined_path(joined_path(repo_root, ".jj"@), "repo"@), "store"@), "git"@)
}

/// The two git folders that may hold the exclude file, colocated first.
pub fn git_dirs(repo_root: &str) -> (r: (String, String))
    ensures
        r.0@ == colocated_git_dir(repo_root@),
        r.1@ == backing_git_dir(repo_root@),
{
    let colocated = path_join(repo_root, ".git");
    let a = path_join(repo_root, ".jj");
    let b = path_join(a.as_str(), "repo");
    let c = path_join(b.as_str(), "store");
    let backing = path_join(c.as_str(), "git");
    (colocated, backing)
}

/// The git exclude file to write: the colocated repository's when its git
/// folder is a directory, else the backing store's, else none.
pub fn git_exclude_path(repo_root: &str, colocated_is_dir: bool, backing_is_dir: bool) -> (r: Option<String>)
    ensures
        colocated_is_dir ==> r is Some && r->0@ == exclude_in(colocated_git_dir(repo_root@)),
        !colocated_is_dir && backing_is_dir ==> r is Some && r->0@ == exclude_in(
            backing_git_dir(repo_root@),
        ),
        !colocated_is_dir && !backing_is_dir ==> r is None,
{
    let (colocated, backing) = git_dirs(repo_root);
    let dir = if colocated_is_dir {
        colocated
    } else if backing_is_dir {
        backing
    } else {
        return None;
    };
    let info = path_join(dir.as_str(), "info");
    Some(path_join(info.as_str(), "exclude"))
}

// ---------------------------------------------------------------------------
// Folder and workspace steps
// ---------------------------------------------------------------------------

/// One filesystem or jj step for the caller to carry out, in order.
#[derive(Debug)]
pub enum FsStep {
    /// `jj workspace forget <name>`; a failure is an error.
    ForgetWorkspace(String),
    /// Remove the folder and all it holds if it exists then; a failure is an
    /// error.
    RemoveDirIfExists(String),
    /// Remove the folder and all it holds if it exists then; a failure is
    /// ignored.
    RemoveDirQuietly(String),
    /// Create the folder and its parents; a failure is an error.
    CreateDirAll(String),
    /// Create the folder and its parents; a failure is ignored.
    CreateDirAllQuietly(String),
}

/// A step, with its path or name as a character sequence.
pub enum StepSpec {
    ForgetWorkspace(Seq<char>),
    RemoveDirIfExists(Seq<char>),
    RemoveDirQuietly(Seq<char>),
    CreateDirAll(Seq<char>),
    CreateDirAllQuietly(Seq<char>),
}

impl View for FsStep {
    type V = StepSpec;

    open spec fn view(&self) -> StepSpec {
        match self {
            FsStep::ForgetWorkspace(s) => StepSpec::ForgetWorkspace(s@),
            FsStep::RemoveDirIfExists(s) => StepSpec::RemoveDirIfExists(s@),
            FsStep::RemoveDirQuietly(s) => StepSpec::RemoveDirQuietly(s@),
            FsStep::CreateDirAll(s) => StepSpec::CreateDirAll(s@),
            FsStep::CreateDirAllQuietly(s) => StepSpec::CreateDirAllQuietly(s@),
        }
    }
}

/// The views of a list of steps.
pub open spec fn steps_view(v: Seq<FsStep>) -> Seq<StepSpec> {
    v.map_values(|s: FsStep| s@)
}

/// Removal of each root, in order.
pub open spec fn remove_roots(roots: Seq<Seq<char>>) -> Seq<StepSpec> {
    roots.map_values(|r: Seq<char>| StepSpec::RemoveDirIfExists(r))
}

/// The steps that remove a bundle: forget its workspace if jj lists it,
/// remove each root, and for `Split` also the workspace folder.
pub open spec fn teardown_spec(l: Layout, ws_name: Seq<char>, ws_listed: bool) -> Seq<StepSpec> {
    let forget = if ws_listed {
        seq![StepSpec::ForgetWorkspace(ws_name)]
    } else {
        Seq::empty()
    };
    let split = if l.strategy == Storage::Split {
        seq![StepSpec::RemoveDirQuietly(l.workspace@)]
    } else {
        Seq::empty()
    };
    forget + remove_roots(l.roots.deep_view()) + split
}

/// The steps that remove a bundle's folders and jj workspace. `ws_listed`
/// says whether `jj workspace list` names `ws_name` (false when listing
/// failed).
pub fn teardown(layout: &Layout, ws_name: &str, ws_listed: bool) -> (steps: Vec<FsStep>)
    ensures
        steps_view(steps@) == teardown_spec(*layout, ws_name@, ws_listed),
{
    let mut steps: Vec<FsStep> = Vec::new();
    if ws_listed {
        steps.push(FsStep::ForgetWorkspace(arg(ws_name)));
    }
    let ghost first = steps_view(steps@);
    let mut i: usize = 0;
    while i < layout.roots.len()
        invariant
            i <= layout.roots@.len(),
            first == (if ws_listed {
                seq![StepSpec::ForgetWorkspace(ws_name@)]
            } else {
                Seq::empty()
            }),
            steps_view(steps@) =~= first + remove_roots(layout.roots.deep_view().take(i as int)),
        decreases layout.roots@.len() - i,
    {
        let ghost prev = steps_view(steps@);
        steps.push(FsStep::RemoveDirIfExists(layout.roots[i].clone()));
        assert(steps_view(steps@) =~= prev.push(
            StepSpec::RemoveDirIfExists(layout.roots.deep_view()[i as int]),
        ));
        assert(layout.roots.deep_view().take(i + 1) =~= layout.roots.deep_view().take(i as int).push(
            layout.roots.deep_view()[i as int],
        ));
        i = i + 1;
    }
    assert(layout.roots.deep_view().take(i as int) =~= layout.roots.deep_view());
    if layout.strategy == Storage::Split {
        let ghost prev = steps_view(steps@);
        steps.push(FsStep::RemoveDirQuietly(layout.workspace.clone()));
        assert(steps_view(steps@) =~= prev.push(StepSpec::RemoveDirQuietly(layout.workspace@)));
    }
    steps
}

/// The message when a bundle's folders already exist.
pub open spec fn artifacts_exist_message(l: Layout) -> Seq<char> {
    "artifacts already exist (e.g. "@ + l.roots.deep_view()[0] + "). Re-run with --force to recreate."@
}

/// The steps that create a bundle's folders: the info folder, and quietly the
/// workspace's parent.
pub open spec fn create_spec(l: Layout) -> Seq<StepSpec> {
    seq![StepSpec::CreateDirAll(l.info@)] + match parent_of(l.workspace@) {
        Some(p) => seq![StepSpec::CreateDirAllQuietly(p)],
        None => Seq::empty(),
    }
}

/// Prepare a bundle's folders. `roots_exist` says whether any root exists (so
/// there is a root). An existing bundle is refused unless `force`, in which
/// case it is torn down first.
pub fn prepare(layout: &Layout, ws_name: &str, roots_exist: bool, ws_listed: bool, force: bool) -> (r: Result<Vec<FsStep>, Error>)
    requires
        roots_exist ==> layout.roots@.len() > 0,
    ensures
        roots_exist && !force ==> fails_with(r, (ErrorKind::ArtifactsExist, artifacts_exist_message(*layout))),
        !(roots_exist && !force) ==> r is Ok && steps_view(r->Ok_0@) == (if roots_exist {
            teardown_spec(*layout, ws_name@, ws_listed)
        } else {
            Seq::empty()
        }) + create_spec(*layout),
{
    if roots_exist && !force {
        let mut m = arg("artifacts already exist (e.g. ");
        m.append(layout.roots[0].as_str());
        m.append("). Re-run with --force to recreate.");
        assert(layout.roots.deep_view()[0] == layout.roots@[0]@);
        return Err(Error::new(ErrorKind::ArtifactsExist, m));
    }
    let mut steps = if roots_exist {
        teardown(layout, ws_name, ws_listed)
    } else {
        Vec::new()
    };
    let ghost prev = steps_view(steps@);
    steps.push(FsStep::CreateDirAll(layout.info.clone()));
    assert(steps_view(steps@) =~= prev + seq![StepSpec::CreateDirAll(layout.info@)]);
    match parent(layout.workspace.as_str()) {
        Some(p) => {
            let ghost mid = steps_view(steps@);
            steps.push(FsStep::CreateDirAllQuietly(p));
            assert(steps_view(steps@) =~= mid.push(
                StepSpec::CreateDirAllQuietly(parent_of(layout.workspace@)->0),
            ));
        },
        None => {},
    }
    assert(steps_view(steps@) =~= prev + create_spec(*layout));
    Ok(steps)
}

/// What `--clean` does: nothing (`None`) when jj lists no such workspace and
/// neither a root nor the workspace folder exists; else the teardown steps.
pub fn clean(layout: &Layout, ws_name: &str, ws_listed: bool, roots_exist: bool, workspace_exists: bool) -> (r: Option<Vec<FsStep>>)
    ensures
        !ws_listed && !roots_exist && !workspace_exists ==> r is None,
        ws_listed || roots_exist || workspace_exists ==> r is Some && steps_view(r->0@) == teardown_spec(
            *layout,
            ws_name@,
            ws_listed,
        ),
{
    if !ws_listed && !(roots_exist || workspace_exists) {
        return None;
    }
    Some(teardown(layout, ws_name, ws_listed))
}

} // verus!
