//! Where a bundle's artifacts and its workspace live on disk.
//!
//! This is the only place that decides paths: the gather logic takes a
//! resolved [`Layout`] and never reasons about storage.

use vstd::prelude::*;

use crate::error::{fails_with, Error, ErrorKind};
use crate::paths::{joined_path, path_join};
use crate::process::arg;

verus! {

/// Storage strategy.
#[derive(Debug, Clone, Copy, PartialEq, Eq, Structural)]
pub enum Storage {
    /// Everything under `<repo>/.agent-review/<bundle>/`.
    InRepo,
    /// Everything under `<cache>/agent-review-helper/<namespace>/<bundle>/`.
    Cache,
    /// Workspace in the cache, info folder in the repository.
    Split,
}

/// Resolved paths for one bundle.
#[derive(Debug)]
pub struct Layout {
    pub strategy: Storage,
    /// The workspace checkout.
    pub workspace: String,
    /// The folder of info artifacts (diffs, conversation, README).
    pub info: String,
    /// The folders that make up the bundle, for existence and `--force`
    /// checks: one, or two for `Split`.
    pub roots: Vec<String>,
}

/// `<repo>/.agent-review/<bundle>`.
pub open spec fn in_repo_root(repo_root: Seq<char>, bundle: Seq<char>) -> Seq<char> {
    joined_path(joined_path(repo_root, ".agent-review"@), bundle)
}

/// `<cache>/agent-review-helper/<namespace>/<bundle>`.
pub open spec fn cache_root(cache: Seq<char>, namespace: Seq<char>, bundle: Seq<char>) -> Seq<char> {
    joined_path(joined_path(joined_path(cache, "agent-review-helper"@), namespace), bundle)
}

/// `l` has the given strategy, workspace, info folder and roots.
pub open spec fn layout_is(
    l: Layout,
    strategy: Storage,
    workspace: Seq<char>,
    info: Seq<char>,
    roots: Seq<Seq<char>>,
) -> bool {
    &&& l.strategy == strategy
    &&& l.workspace@ == workspace
    &&& l.info@ == info
    &&& l.roots.deep_view() == roots
}

/// The layout of a bundle under each strategy, given the two candidate roots.
pub open spec fn layout_spec(l: Layout, strategy: Storage, repo_side: Seq<char>, cache_side: Seq<char>) -> bool {
    match strategy {
        Storage::InRepo => layout_is(
            l,
            strategy,
            joined_path(repo_side, "workspace"@),
            joined_path(repo_side, "info"@),
            seq![repo_side],
        ),
        Storage::Cache => layout_is(
            l,
            strategy,
            joined_path(cache_side, "workspace"@),
            joined_path(cache_side, "info"@),
            seq![cache_side],
        ),
        Storage::Split => layout_is(
            l,
            strategy,
            joined_path(cache_side, "workspace"@),
            joined_path(repo_side, "info"@),
            seq![repo_side, cache_side],
        ),
    }
}

/// The message when no cache directory can be found.
pub open spec fn no_cache_dir_message() -> Seq<char> {
    "could not determine a home directory for the cache location"@
}

/// The per-user cache directory: `%LOCALAPPDATA%` on Windows when set, else
/// `$XDG_CACHE_HOME`, else `.cache` in the home directory (`$HOME`, or
/// `%USERPROFILE%`).
pub open spec fn cache_dir_spec(
    local_app_data: Option<Seq<char>>,
    xdg_cache_home: Option<Seq<char>>,
    home: Option<Seq<char>>,
    user_profile: Option<Seq<char>>,
    windows: bool,
) -> Option<Seq<char>> {
    if windows && local_app_data is Some {
        local_app_data
    } else if xdg_cache_home is Some {
        xdg_cache_home
    } else if home is Some {
        Some(joined_path(home->0, ".cache"@))
    } else if user_profile is Some {
        Some(joined_path(user_profile->0, ".cache"@))
    } else {
        None
    }
}

/// The view of an optional string argument.
pub open spec fn opt_str(o: Option<&str>) -> Option<Seq<char>> {
    match o {
        Some(s) => Some(s@),
        None => None,
    }
}

/// The per-user cache directory, from the environment's values.
pub fn cache_dir(
    local_app_data: Option<&str>,
    xdg_cache_home: Option<&str>,
    home: Option<&str>,
    user_profile: Option<&str>,
    windows: bool,
) -> (r: Option<String>)
    ensures
        match cache_dir_spec(
            opt_str(local_app_data),
            opt_str(xdg_cache_home),
            opt_str(home),
            opt_str(user_profile),
            windows,
        ) {
            Some(d) => r is Some && r->0@ == d,
            None => r is None,
        },
{
    if windows {
        if let Some(l) = local_app_data {
            return Some(arg(l));
        }
    }
    if let Some(x) = xdg_cache_home {
        return Some(arg(x));
    }
    let h = match home {
        Some(h) => h,
        None => match user_profile {
            Some(u) => u,
            None => {
                return None;
            },
        },
    };
    Some(path_join(h, ".cache"))
}

impl Layout {
    /// Resolve the paths of one bundle. `namespace` is the per-repository
    /// cache folder (e.g. `owner-repo`), `bundle` the per-change folder (e.g.
    /// `pr-9464`). Fails when no cache directory is known, whatever the
    /// strategy.
    pub fn resolve(
        strategy: Storage,
        repo_root: &str,
        cache_dir: Option<&str>,
        namespace: &str,
        bundle: &str,
    ) -> (r: Result<Layout, Error>)
        ensures
            match cache_dir {
                None => fails_with(r, (ErrorKind::NoCacheDir, no_cache_dir_message())),
                Some(c) => r is Ok && layout_spec(
                    r->Ok_0,
                    strategy,
                    in_repo_root(repo_root@, bundle@),
                    cache_root(c@, namespace@, bundle@),
                ),
            },
    {
        let in_repo_base = path_join(repo_root, ".agent-review");
        let in_repo = path_join(in_repo_base.as_str(), bundle);
        let cache = match cache_dir {
            Some(c) => c,
            None => {
                return Err(
                    Error::new(
                        ErrorKind::NoCacheDir,
                        arg("could not determine a home directory for the cache location"),
                    ),
                );
            },
        };
        let c1 = path_join(cache, "agent-review-helper");
        let c2 = path_join(c1.as_str(), namespace);
        let cache_side = path_join(c2.as_str(), bundle);
        let layout = match strategy {
            Storage::InRepo => {
                let workspace = path_join(in_repo.as_str(), "workspace");
                let info = path_join(in_repo.as_str(), "info");
                let mut roots: Vec<String> = Vec::new();
                roots.push(in_repo);
                assert(roots.deep_view() =~= seq![in_repo_root(repo_root@, bundle@)]);
                Layout { strategy, workspace, info, roots }
            },
            Storage::Cache => {
                let workspace = path_join(cache_side.as_str(), "workspace");
                let info = path_join(cache_side.as_str(), "info");
                let mut roots: Vec<String> = Vec::new();
                roots.push(cache_side);
                assert(roots.deep_view() =~= seq![cache_root(cache@, namespace@, bundle@)]);
                Layout { strategy, workspace, info, roots }
            },
            Storage::Split => {
                let workspace = path_join(cache_side.as_str(), "workspace");
                let info = path_join(in_repo.as_str(), "info");
                let mut roots: Vec<String> = Vec::new();
                roots.push(in_repo);
                roots.push(cache_side);
                assert(roots.deep_view() =~= seq![
                    in_repo_root(repo_root@, bundle@),
                    cache_root(cache@, namespace@, bundle@),
                ]);
                Layout { strategy, workspace, info, roots }
            },
        };
        Ok(layout)
    }

    /// Whether any root exists, given whether each one does (`present[i]` for
    /// `roots[i]`).
    pub fn any_root_exists(&self, present: &Vec<bool>) -> (b: bool)
        ensures
            b == exists|i: int| 0 <= i < present@.len() && #[trigger] present@[i],
    {
        let mut i: usize = 0;
        while i < present.len()
            invariant
                i <= present@.len(),
                forall|j: int| 0 <= j < i ==> !#[trigger] present@[j],
            decreases present@.len() - i,
        {
            if present[i] {
                return true;
            }
            i = i + 1;
        }
        false
    }
}

} // verus!
