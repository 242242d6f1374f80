//! Filesystem paths, held as strings, and the three `std::path` operations
//! the library relies on.
//!
//! Paths are joined, split and shown exactly as `std::path::Path` does it on
//! the platform the crate is compiled for; what that gives is named here
//! rather than restated, since it differs between platforms (separator,
//! prefixes, roots).

use vstd::prelude::*;

verus! {

/// What `Path::join` gives for `base` and `segment` on the target platform.
pub uninterp spec fn joined_path(base: Seq<char>, segment: Seq<char>) -> Seq<char>;

/// What `Path::file_name` gives for `path` on the target platform.
pub uninterp spec fn file_name_of(path: Seq<char>) -> Option<Seq<char>>;

/// What `Path::parent` gives for `path` on the target platform.
pub uninterp spec fn parent_of(path: Seq<char>) -> Option<Seq<char>>;

/// `std::path::Path::join`: `segment` adjoined to `base`. Both arguments are
/// UTF-8, so the joined path is too and the conversion back to a string loses
/// nothing. The contract names the result; it does not restate how the
/// platform joins.
#[verifier::external_body]
pub(crate) fn path_join(base: &str, segment: &str) -> (r: String)
    ensures
        r@ == joined_path(base@, segment@),
{
    std::path::Path::new(base).join(segment).to_string_lossy().into_owned()
}

/// `std::path::Path::file_name`: the final component of `path`, if it has
/// one. The contract names the result; it does not restate the platform's
/// rules for components.
#[verifier::external_body]
pub(crate) fn file_name(path: &str) -> (r: Option<String>)
    ensures
        match file_name_of(path@) {
            Some(n) => r is Some && r->0@ == n,
            None => r is None,
        },
{
    match std::path::Path::new(path).file_name() {
        Some(n) => Some(n.to_string_lossy().into_owned()),
        None => None,
    }
}

/// `std::path::Path::parent`: `path` without its final component, if it has
/// one. The contract names the result; it does not restate the platform's
/// rules for components.
#[verifier::external_body]
pub(crate) fn parent(path: &str) -> (r: Option<String>)
    ensures
        match parent_of(path@) {
            Some(p) => r is Some && r->0@ == p,
            None => r is None,
        },
{
    match std::path::Path::new(path).parent() {
        Some(p) => Some(p.to_string_lossy().into_owned()),
        None => None,
    }
}

} // verus!
