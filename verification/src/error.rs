//! The library's error type: a kind to match on and the message a user sees.

use vstd::prelude::*;

verus! {

/// What went wrong.
#[derive(Debug, Clone, Copy, PartialEq, Eq, Structural)]
pub enum ErrorKind {
    /// A remote URL in none of the https, scp-like ssh or `ssh://` forms.
    UnrecognizedUrl,
    /// A path or slug without a non-empty owner and repo.
    BadOwnerRepo,
    /// The remote named with `--remote` does not exist.
    RemoteNotFound,
    /// The repository has no remotes at all.
    NoRemotes,
    /// No `origin`/`upstream` remote and more than one other remote.
    AmbiguousRemotes,
    /// No directory to hold the cache could be determined.
    NoCacheDir,
    /// A bundle's folders already exist and `--force` was not given.
    ArtifactsExist,
    /// The `pr` command was given no PR number.
    MissingPr,
    /// A child process exited unsuccessfully.
    CommandFailed,
}

/// An error: its kind and its message.
#[derive(Debug)]
pub struct Error {
    pub kind: ErrorKind,
    pub message: String,
}

/// The expected failure of an operation: kind and message text.
pub type Failure = (ErrorKind, Seq<char>);

/// `r` is an error with the given kind and message.
pub open spec fn fails_with<T>(r: Result<T, Error>, f: Failure) -> bool {
    match r {
        Ok(_) => false,
        Err(e) => e.kind == f.0 && e.message@ == f.1,
    }
}

impl Error {
    /// A new error.
    pub fn new(kind: ErrorKind, message: String) -> (e: Error)
        ensures
            e.kind == kind,
            e.message@ == message@,
    {
        Error { kind, message }
    }

    /// The text shown to the user.
    pub fn message(&self) -> (m: &str)
        ensures
            m@ == self.message@,
    {
        self.message.as_str()
    }
}

} // verus!
