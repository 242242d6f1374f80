//! Target-repository identity: which GitHub repository a git remote points
//! at, and which remote is the pull request's base.

use vstd::prelude::*;

use crate::error::{fails_with, Error, ErrorKind, Failure};
use crate::text::{
    after, before, ends_with, is_ws, join, lemma_index_of_at, lemma_index_of_bounds, split_once_char, starts_with,
    str_eq, strip_prefix, trim, trim_end_char, trim_end_char_of, trim_end_str, trim_end_str_of,
    trimmed,
};

verus! {

/// Protocol style of a git remote URL, so fork URLs are rebuilt in kind.
#[derive(Debug, Clone, Copy, PartialEq, Eq, Structural)]
pub enum UrlStyle {
    Https,
    Ssh,
}

/// A GitHub repository reference, plus the host and protocol of the remote
/// it came from.
#[derive(Debug, Clone)]
pub struct RepoRef {
    pub host: String,
    pub owner: String,
    pub repo: String,
    pub style: UrlStyle,
}

/// The parts of a repository reference, as character sequences.
pub type RepoParts = (Seq<char>, Seq<char>, Seq<char>, UrlStyle);

/// The parts of `r`.
pub open spec fn parts_of(r: RepoRef) -> RepoParts {
    (r.host@, r.owner@, r.repo@, r.style)
}

/// `r` is `Ok` with exactly the parts `p`.
pub open spec fn yields_parts(r: Result<RepoRef, Error>, p: RepoParts) -> bool {
    match r {
        Ok(v) => parts_of(v) == p,
        Err(_) => false,
    }
}

// ---------------------------------------------------------------------------
// Specifications
// ---------------------------------------------------------------------------

/// `path` without trailing slashes.
pub open spec fn clean_path(path: Seq<char>) -> Seq<char> {
    trim_end_char(path, '/')
}

/// The owner in an `owner/repo` path.
pub open spec fn owner_of(path: Seq<char>) -> Seq<char> {
    before(clean_path(path), '/')
}

/// The repository name in an `owner/repo(.git)` path.
pub open spec fn repo_of(path: Seq<char>) -> Seq<char> {
    trim_end_str(after(clean_path(path), '/'), ".git"@)
}

/// What splitting `path` into owner and repository gives.
pub open spec fn split_owner_repo_spec(path: Seq<char>) -> Result<(Seq<char>, Seq<char>), Failure> {
    if owner_of(path).len() > 0 && repo_of(path).len() > 0 {
        Ok((owner_of(path), repo_of(path)))
    } else {
        Err(
            (
                ErrorKind::BadOwnerRepo,
                "could not parse owner/repo from `"@ + clean_path(path) + "`"@,
            ),
        )
    }
}

/// The host, owner/repo path and style that a remote URL names, if it has one
/// of the three recognised forms.
pub open spec fn url_parts(url: Seq<char>) -> Option<(Seq<char>, Seq<char>, UrlStyle)> {
    let u = trimmed(url);
    if starts_with(u, "https://"@) {
        let rest = u.skip("https://"@.len() as int);
        Some((before(rest, '/'), after(rest, '/'), UrlStyle::Https))
    } else if starts_with(u, "git@"@) {
        let rest = u.skip("git@"@.len() as int);
        Some((before(rest, ':'), after(rest, ':'), UrlStyle::Ssh))
    } else if starts_with(u, "ssh://git@"@) {
        let rest = u.skip("ssh://git@"@.len() as int);
        Some((before(rest, '/'), after(rest, '/'), UrlStyle::Ssh))
    } else {
        None
    }
}

/// What parsing a remote URL gives.
pub open spec fn parse_url_spec(url: Seq<char>) -> Result<RepoParts, Failure> {
    match url_parts(url) {
        None => Err((ErrorKind::UnrecognizedUrl, "unrecognized remote URL form: "@ + trimmed(url))),
        Some((host, path, style)) => match split_owner_repo_spec(path) {
            Ok((owner, repo)) => Ok((host, owner, repo, style)),
            Err(f) => Err(f),
        },
    }
}

/// The clone URL of `owner/repo` on `host` in the given style.
pub open spec fn sibling_url_spec(host: Seq<char>, style: UrlStyle, owner: Seq<char>, repo: Seq<char>) -> Seq<char> {
    match style {
        UrlStyle::Https => "https://"@ + host + "/"@ + owner + "/"@ + repo + ".git"@,
        UrlStyle::Ssh => "git@"@ + host + ":"@ + owner + "/"@ + repo + ".git"@,
    }
}

/// The first remote called `name`.
pub open spec fn find_remote(rs: Seq<(Seq<char>, Seq<char>)>, name: Seq<char>) -> Option<(Seq<char>, Seq<char>)>
    decreases rs.len(),
{
    if rs.len() == 0 {
        None
    } else if rs[0].0 == name {
        Some(rs[0])
    } else {
        find_remote(rs.drop_first(), name)
    }
}

/// The remotes' names joined with `", "`.
pub open spec fn remote_names_spec(rs: Seq<(Seq<char>, Seq<char>)>) -> Seq<char> {
    join(rs.map_values(|p: (Seq<char>, Seq<char>)| p.0), ", "@)
}

/// Which remote is the pull request's base: the override when given, else
/// `origin`, else `upstream`, else the only remote.
pub open spec fn pick_base_remote_spec(
    rs: Seq<(Seq<char>, Seq<char>)>,
    over: Option<Seq<char>>,
) -> Result<(Seq<char>, Seq<char>), Failure> {
    match over {
        Some(name) => match find_remote(rs, name) {
            Some(p) => Ok(p),
            None => Err(
                (
                    ErrorKind::RemoteNotFound,
                    "remote `"@ + name + "` not found; available: "@ + remote_names_spec(rs),
                ),
            ),
        },
        None => if find_remote(rs, "origin"@) is Some {
            Ok(find_remote(rs, "origin"@)->0)
        } else if find_remote(rs, "upstream"@) is Some {
            Ok(find_remote(rs, "upstream"@)->0)
        } else if rs.len() == 1 {
            Ok(rs[0])
        } else if rs.len() == 0 {
            Err(
                (
                    ErrorKind::NoRemotes,
                    "no git remotes found; the repo needs an `origin`/`upstream` to identify the PR's source"@,
                ),
            )
        } else {
            Err(
                (
                    ErrorKind::AmbiguousRemotes,
                    "no `origin` or `upstream` remote, and multiple remotes exist ("@
                        + remote_names_spec(rs)
                        + "). Pass --remote <name> to pick the PR's base repo."@,
                ),
            )
        },
    }
}

/// The view of an optional string argument.
pub open spec fn opt_view(o: Option<&str>) -> Option<Seq<char>> {
    match o {
        Some(s) => Some(s@),
        None => None,
    }
}

// ---------------------------------------------------------------------------
// Executable functions
// ---------------------------------------------------------------------------

/// Split an `owner/repo(.git)` path into owner and repository name.
pub fn split_owner_repo(path: &str) -> (r: Result<(String, String), Error>)
    ensures
        match split_owner_repo_spec(path@) {
            Ok((o, n)) => r is Ok && r->Ok_0.0@ == o && r->Ok_0.1@ == n,
            Err(f) => fails_with(r, f),
        },
{
    let path = trim_end_char_of(path, '/');
    let (owner, rest) = split_once_char(path.as_str(), '/');
    let rest = match rest {
        Some(x) => x,
        None => String::new(),
    };
    proof {
        lemma_index_of_bounds(path@, '/');
    }
    assert(rest@ == after(path@, '/'));
    let repo = trim_end_str_of(rest.as_str(), ".git");
    if owner.as_str().is_empty() || repo.as_str().is_empty() {
        let mut m = String::from_str("could not parse owner/repo from `");
        m.append(path.as_str());
        m.append("`");
        return Err(Error::new(ErrorKind::BadOwnerRepo, m));
    }
    Ok((owner, repo))
}

/// Host and path of a URL with the given prefix and host separator.
fn host_and_path(rest: &str, sep: char) -> (r: (String, String))
    ensures
        r.0@ == before(rest@, sep),
        r.1@ == after(rest@, sep),
{
    let (host, path) = split_once_char(rest, sep);
    let path = match path {
        Some(x) => x,
        None => String::new(),
    };
    proof {
        lemma_index_of_bounds(rest@, sep);
    }
    (host, path)
}

impl RepoRef {
    /// `owner/repo`, the form `gh --repo` expects.
    pub fn slug(&self) -> (s: String)
        ensures
            s@ == self.owner@ + "/"@ + self.repo@,
    {
        let mut s = self.owner.clone();
        s.append("/");
        s.append(self.repo.as_str());
        s
    }

    /// The clone URL of `fork_owner/fork_repo` on this host, in this style.
    pub fn sibling_url(&self, fork_owner: &str, fork_repo: &str) -> (u: String)
        ensures
            u@ == sibling_url_spec(self.host@, self.style, fork_owner@, fork_repo@),
    {
        let mut u = match self.style {
            UrlStyle::Https => String::from_str("https://"),
            UrlStyle::Ssh => String::from_str("git@"),
        };
        u.append(self.host.as_str());
        match self.style {
            UrlStyle::Https => u.append("/"),
            UrlStyle::Ssh => u.append(":"),
        }
        u.append(fork_owner);
        u.append("/");
        u.append(fork_repo);
        u.append(".git");
        u
    }

    /// Parse a git remote URL (https, scp-like ssh, or `ssh://git@`).
    pub fn parse_url(url: &str) -> (r: Result<RepoRef, Error>)
        ensures
            match parse_url_spec(url@) {
                Ok(p) => yields_parts(r, p),
                Err(f) => fails_with(r, f),
            },
    {
        let u = trim(url);
        let (rest, sep, style) = match strip_prefix(u.as_str(), "https://") {
            Some(rest) => (rest, '/', UrlStyle::Https),
            None => match strip_prefix(u.as_str(), "git@") {
                Some(rest) => (rest, ':', UrlStyle::Ssh),
                None => match strip_prefix(u.as_str(), "ssh://git@") {
                    Some(rest) => (rest, '/', UrlStyle::Ssh),
                    None => {
                        let mut m = String::from_str("unrecognized remote URL form: ");
                        m.append(u.as_str());
                        return Err(Error::new(ErrorKind::UnrecognizedUrl, m));
                    },
                },
            },
        };
        let (host, path) = host_and_path(rest.as_str(), sep);
        match split_owner_repo(path.as_str()) {
            Ok((owner, repo)) => Ok(RepoRef { host, owner, repo, style }),
            Err(e) => Err(e),
        }
    }

    /// Replace owner and repository (from an `owner/repo` slug), keeping host
    /// and style.
    pub fn with_slug(self, slug: &str) -> (r: Result<RepoRef, Error>)
        ensures
            match split_owner_repo_spec(slug@) {
                Ok((o, n)) => yields_parts(r, (self.host@, o, n, self.style)),
                Err(f) => fails_with(r, f),
            },
    {
        match split_owner_repo(slug) {
            Ok((owner, repo)) => Ok(RepoRef { host: self.host, owner, repo, style: self.style }),
            Err(e) => Err(e),
        }
    }
}

/// The discovered context of the repository the tool was invoked in.
#[derive(Debug)]
pub struct TargetRepo {
    /// The jj workspace root.
    pub root: String,
    /// Name of the base remote.
    pub remote: String,
    /// GitHub reference derived from the base remote.
    pub origin: RepoRef,
}

/// The first remote called `name`, by position.
fn find_remote_index(remotes: &Vec<(String, String)>, name: &str) -> (r: Option<usize>)
    ensures
        match find_remote(remotes.deep_view(), name@) {
            Some(p) => r is Some && r->0 < remotes@.len() && remotes.deep_view()[r->0 as int] == p,
            None => r is None,
        },
{
    let ghost rs = remotes.deep_view();
    let mut i: usize = 0;
    assert(rs.skip(0) =~= rs);
    while i < remotes.len()
        invariant
            i <= remotes@.len() == rs.len(),
            rs == remotes.deep_view(),
            find_remote(rs, name@) == find_remote(rs.skip(i as int), name@),
        decreases remotes@.len() - i,
    {
        assert(rs[i as int].0 == remotes@[i as int].0@);
        if str_eq(remotes[i].0.as_str(), name) {
            return Some(i);
        }
        assert(rs.skip(i as int).drop_first() =~= rs.skip(i + 1));
        i = i + 1;
    }
    None
}

/// The names of the remotes joined with `", "`.
pub fn remote_names(remotes: &Vec<(String, String)>) -> (s: String)
    ensures
        s@ == remote_names_spec(remotes.deep_view()),
{
    let mut names: Vec<String> = Vec::new();
    let mut i: usize = 0;
    while i < remotes.len()
        invariant
            i <= remotes@.len(),
            names.deep_view() =~= remotes.deep_view().take(i as int).map_values(
                |p: (Seq<char>, Seq<char>)| p.0,
            ),
        decreases remotes@.len() - i,
    {
        let ghost before_push = names.deep_view();
        names.push(remotes[i].0.clone());
        assert(names.deep_view() =~= before_push.push(remotes.deep_view()[i as int].0));
        assert(remotes.deep_view().take(i + 1) =~= remotes.deep_view().take(i as int).push(
            remotes.deep_view()[i as int],
        ));
        i = i + 1;
    }
    assert(remotes.deep_view().take(i as int) =~= remotes.deep_view());
    crate::text::join_with(&names, ", ")
}

/// A copy of a remote pair.
fn clone_pair(p: &(String, String)) -> (r: (String, String))
    ensures
        r.0@ == p.0@,
        r.1@ == p.1@,
{
    (p.0.clone(), p.1.clone())
}

/// Choose which remote is the pull request's base, returning `(name, url)`.
pub fn pick_base_remote(remotes: &Vec<(String, String)>, remote_override: Option<&str>) -> (r: Result<(String, String), Error>)
    ensures
        match pick_base_remote_spec(remotes.deep_view(), opt_view(remote_override)) {
            Ok(p) => r is Ok && (r->Ok_0.0@, r->Ok_0.1@) == p,
            Err(f) => fails_with(r, f),
        },
{
    let ghost rs = remotes.deep_view();
    if let Some(name) = remote_override {
        match find_remote_index(remotes, name) {
            Some(i) => {
                return Ok(clone_pair(&remotes[i]));
            },
            None => {
                let mut m = String::from_str("remote `");
                m.append(name);
                m.append("` not found; available: ");
                let names = remote_names(remotes);
                m.append(names.as_str());
                return Err(Error::new(ErrorKind::RemoteNotFound, m));
            },
        }
    }
    match find_remote_index(remotes, "origin") {
        Some(i) => {
            return Ok(clone_pair(&remotes[i]));
        },
        None => {},
    }
    match find_remote_index(remotes, "upstream") {
        Some(i) => {
            return Ok(clone_pair(&remotes[i]));
        },
        None => {},
    }
    if remotes.len() == 1 {
        return Ok(clone_pair(&remotes[0]));
    }
    if remotes.len() == 0 {
        let m = String::from_str(
            "no git remotes found; the repo needs an `origin`/`upstream` to identify the PR's source",
        );
        return Err(Error::new(ErrorKind::NoRemotes, m));
    }
    let mut m = String::from_str("no `origin` or `upstream` remote, and multiple remotes exist (");
    let names = remote_names(remotes);
    m.append(names.as_str());
    m.append("). Pass --remote <name> to pick the PR's base repo.");
    Err(Error::new(ErrorKind::AmbiguousRemotes, m))
}

/// The base remote and repository reference that discovery arrives at.
pub open spec fn discover_spec(
    rs: Seq<(Seq<char>, Seq<char>)>,
    slug_override: Option<Seq<char>>,
    remote_override: Option<Seq<char>>,
) -> Result<(Seq<char>, RepoParts), Failure> {
    match pick_base_remote_spec(rs, remote_override) {
        Err(f) => Err(f),
        Ok((name, url)) => match parse_url_spec(url) {
            Err(f) => Err(f),
            Ok(p) => match slug_override {
                None => Ok((name, p)),
                Some(slug) => match split_owner_repo_spec(slug) {
                    Err(f) => Err(f),
                    Ok((owner, repo)) => Ok((name, (p.0, owner, repo, p.3))),
                },
            },
        },
    }
}

/// The base GitHub reference of the workspace at `root`, from its remotes.
/// The base remote is the one [`pick_base_remote`] chooses; `slug_override`
/// (from `--repo`) replaces the parsed owner/repo while keeping host and
/// protocol for fork URLs.
pub fn discover(
    root: String,
    remotes: &Vec<(String, String)>,
    slug_override: Option<&str>,
    remote_override: Option<&str>,
) -> (r: Result<TargetRepo, Error>)
    ensures
        match discover_spec(remotes.deep_view(), opt_view(slug_override), opt_view(remote_override)) {
            Ok((name, p)) => match r {
                Ok(t) => t.root@ == root@ && t.remote@ == name && parts_of(t.origin) == p,
                Err(_) => false,
            },
            Err(f) => fails_with(r, f),
        },
{
    let (remote, url) = match pick_base_remote(remotes, remote_override) {
        Ok(p) => p,
        Err(e) => {
            return Err(e);
        },
    };
    let mut origin = match RepoRef::parse_url(url.as_str()) {
        Ok(o) => o,
        Err(e) => {
            return Err(e);
        },
    };
    if let Some(slug) = slug_override {
        origin = match origin.with_slug(slug) {
            Ok(o) => o,
            Err(e) => {
                return Err(e);
            },
        };
    }
    Ok(TargetRepo { root, remote, origin })
}

// ---------------------------------------------------------------------------
// Laws
// ---------------------------------------------------------------------------

/// A string that starts and ends with non-whitespace is its own trim.
proof fn lemma_trimmed_unchanged(s: Seq<char>)
    requires
        s.len() > 0,
        !is_ws(s[0]),
        !is_ws(s.last()),
    ensures
        trimmed(s) == s,
{
}

/// Splitting at the first `c`, when it stands at `k`.
proof fn lemma_split_at(s: Seq<char>, c: char, k: int)
    requires
        0 <= k < s.len(),
        s[k] == c,
        forall|j: int| 0 <= j < k ==> s[j] != c,
    ensures
        before(s, c) == s.take(k),
        after(s, c) == s.skip(k + 1),
{
    lemma_index_of_at(s, c, k);
}

/// `owner/rest` splits into `owner` and `rest` without its `.git` suffixes,
/// when `owner` is non-empty and slash-free and `rest` does not end in a
/// slash.
proof fn lemma_owner_repo_path(owner: Seq<char>, rest: Seq<char>)
    requires
        owner.len() > 0,
        forall|j: int| 0 <= j < owner.len() ==> owner[j] != '/',
        rest.len() > 0,
        rest.last() != '/',
    ensures
        owner_of(owner + "/"@ + rest) == owner,
        repo_of(owner + "/"@ + rest) == trim_end_str(rest, ".git"@),
{
    reveal_strlit("/");
    let path = owner + "/"@ + rest;
    assert(path.last() == rest.last());
    assert(clean_path(path) == path);
    lemma_split_at(path, '/', owner.len() as int);
    assert(path.take(owner.len() as int) =~= owner);
    assert(path.skip(owner.len() as int + 1) =~= rest);
}

/// `rest.git` loses exactly its `.git` when `rest` does not end in `.git`.
proof fn lemma_strip_git(rest: Seq<char>)
    requires
        !ends_with(rest, ".git"@),
    ensures
        trim_end_str(rest + ".git"@, ".git"@) == rest,
{
    reveal_strlit(".git");
    let s = rest + ".git"@;
    assert(s.skip(s.len() - 4) =~= ".git"@);
    assert(s.take(s.len() - 4) =~= rest);
    assert(ends_with(s, ".git"@));
    assert(trim_end_str(rest, ".git"@) == rest);
    assert(trim_end_str(s, ".git"@) == trim_end_str(s.take(s.len() - 4), ".git"@));
}

/// `owner/repo.git` splits back into `owner` and `repo`.
proof fn lemma_canonical_path(owner: Seq<char>, repo: Seq<char>)
    requires
        owner.len() > 0,
        forall|j: int| 0 <= j < owner.len() ==> owner[j] != '/',
        repo.len() > 0,
        !ends_with(repo, ".git"@),
    ensures
        split_owner_repo_spec(owner + "/"@ + (repo + ".git"@)) == Ok::<(Seq<char>, Seq<char>), Failure>(
            (owner, repo),
        ),
{
    reveal_strlit(".git");
    let rest = repo + ".git"@;
    assert(rest.last() == 't');
    lemma_owner_repo_path(owner, rest);
    lemma_strip_git(repo);
}

/// A well-formed `owner/repo` slug.
pub open spec fn is_plain_slug(owner: Seq<char>, repo: Seq<char>) -> bool {
    &&& owner.len() > 0
    &&& forall|j: int| 0 <= j < owner.len() ==> owner[j] != '/'
    &&& repo.len() > 0
    &&& repo.last() != '/'
    &&& !ends_with(repo, ".git"@)
}

/// Law: a plain `owner/repo` slug splits into exactly that owner and
/// repository, so `with_slug` with it gives a reference whose `slug` is the
/// slug given (host and protocol being kept by its contract).
pub proof fn lemma_with_slug_keeps_slug(owner: Seq<char>, repo: Seq<char>)
    requires
        is_plain_slug(owner, repo),
    ensures
        split_owner_repo_spec(owner + "/"@ + repo) == Ok::<(Seq<char>, Seq<char>), Failure>(
            (owner, repo),
        ),
{
    lemma_owner_repo_path(owner, repo);
    assert(trim_end_str(repo, ".git"@) == repo);
}

/// A host that can stand in a URL of the given style: free of the character
/// that ends it there.
pub open spec fn is_plain_host(host: Seq<char>, style: UrlStyle) -> bool {
    let stop = match style {
        UrlStyle::Https => '/',
        UrlStyle::Ssh => ':',
    };
    &&& forall|j: int| 0 <= j < host.len() ==> host[j] != stop
}

/// Law: the URL that `sibling_url` builds for a fork parses back to the same
/// host and protocol style, with the fork's owner and repository.
pub proof fn lemma_sibling_url_parses_back(host: Seq<char>, style: UrlStyle, owner: Seq<char>, repo: Seq<char>)
    requires
        is_plain_host(host, style),
        owner.len() > 0,
        forall|j: int| 0 <= j < owner.len() ==> owner[j] != '/',
        repo.len() > 0,
        !ends_with(repo, ".git"@),
    ensures
        parse_url_spec(sibling_url_spec(host, style, owner, repo)) == Ok::<RepoParts, Failure>(
            (host, owner, repo, style),
        ),
{
    reveal_strlit("https://");
    reveal_strlit("git@");
    reveal_strlit("ssh://git@");
    reveal_strlit("/");
    reveal_strlit(":");
    reveal_strlit(".git");
    lemma_canonical_path(owner, repo);
    let path = owner + "/"@ + (repo + ".git"@);
    let url = sibling_url_spec(host, style, owner, repo);
    match style {
        UrlStyle::Https => {
            let pre = "https://"@;
            let rest = host + "/"@ + path;
            assert(url =~= pre + rest);
            assert(url[0] == 'h');
            assert(url.last() == 't');
            lemma_trimmed_unchanged(url);
            assert(url.take(8) =~= pre);
            assert(url.skip(8) =~= rest);
            assert(rest[host.len() as int] == '/');
            lemma_split_at(rest, '/', host.len() as int);
            assert(rest.take(host.len() as int) =~= host);
            assert(rest.skip(host.len() as int + 1) =~= path);
        },
        UrlStyle::Ssh => {
            let pre = "git@"@;
            let rest = host + ":"@ + path;
            assert(url =~= pre + rest);
            assert(url[0] == 'g');
            assert(url.last() == 't');
            lemma_trimmed_unchanged(url);
            assert(!starts_with(url, "https://"@)) by {
                if url.len() >= 8 {
                    assert(url.take(8)[0] != "https://"@[0]);
                }
            }
            assert(url.take(4) =~= pre);
            assert(url.skip(4) =~= rest);
            assert(rest[host.len() as int] == ':');
            lemma_split_at(rest, ':', host.len() as int);
            assert(rest.take(host.len() as int) =~= host);
            assert(rest.skip(host.len() as int + 1) =~= path);
        },
    }
}

/// Law: the base remote chosen is always one of the repository's remotes.
pub proof fn lemma_base_remote_is_listed(rs: Seq<(Seq<char>, Seq<char>)>, over: Option<Seq<char>>)
    ensures
        match pick_base_remote_spec(rs, over) {
            Ok(p) => rs.contains(p),
            Err(_) => true,
        },
{
    match over {
        Some(name) => lemma_found_remote_is_listed(rs, name),
        None => {
            lemma_found_remote_is_listed(rs, "origin"@);
            lemma_found_remote_is_listed(rs, "upstream"@);
            if rs.len() == 1 {
                assert(rs[0] == rs[0]);
            }
        },
    }
}

/// A remote found by name is one of the remotes, and has that name.
pub proof fn lemma_found_remote_is_listed(rs: Seq<(Seq<char>, Seq<char>)>, name: Seq<char>)
    ensures
        match find_remote(rs, name) {
            Some(p) => rs.contains(p) && p.0 == name,
            None => forall|i: int| 0 <= i < rs.len() ==> rs[i].0 != name,
        },
    decreases rs.len(),
{
    if rs.len() > 0 {
        lemma_found_remote_is_listed(rs.drop_first(), name);
        if rs[0].0 != name {
            match find_remote(rs.drop_first(), name) {
                Some(p) => {
                    let k = choose|k: int| 0 <= k < rs.drop_first().len() && rs.drop_first()[k] == p;
                    assert(rs[k + 1] == p);
                },
                None => {
                    assert forall|i: int| 0 <= i < rs.len() implies rs[i].0 != name by {
                        if i > 0 {
                            assert(rs[i] == rs.drop_first()[i - 1]);
                        }
                    }
                },
            }
        } else {
            assert(rs[0] == rs[0]);
        }
    }
}

} // verus!
