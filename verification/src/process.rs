//! Child processes as values: what to run, and how its outcome is read.
//!
//! Every external interaction is described by an [`Invocation`]. The caller
//! runs it and hands the [`Outcome`] to [`run`] or [`run_status`], which decide
//! success and word the failure.

use vstd::prelude::*;

use crate::error::{fails_with, Error, ErrorKind};
use crate::text::{join, join_with, trim, trimmed};

verus! {

/// A program to run: its name, arguments and working directory.
#[derive(Debug)]
pub struct Invocation {
    pub program: String,
    pub args: Vec<String>,
    pub cwd: Option<String>,
}

/// How a child process ended.
#[derive(Debug)]
pub struct Outcome {
    /// Whether it exited with status zero.
    pub success: bool,
    /// Its exit status as the platform describes it.
    pub status: String,
    /// Captured standard output.
    pub stdout: String,
    /// Captured standard error.
    pub stderr: String,
}

/// The view of an optional string.
pub open spec fn opt_string_view(o: Option<String>) -> Option<Seq<char>> {
    match o {
        Some(s) => Some(s@),
        None => None,
    }
}

/// `inv` runs `program` with `args` in `cwd`.
pub open spec fn invokes(
    inv: Invocation,
    program: Seq<char>,
    args: Seq<Seq<char>>,
    cwd: Option<Seq<char>>,
) -> bool {
    &&& inv.program@ == program
    &&& inv.args.deep_view() == args
    &&& opt_string_view(inv.cwd) == cwd
}

/// The message for a command that exited unsuccessfully.
pub open spec fn failure_message(inv: Invocation, out: Outcome) -> Seq<char> {
    "`"@ + inv.program@ + " "@ + join(inv.args.deep_view(), " "@) + "` failed ("@ + out.status@
        + ")\nstderr:\n"@ + trimmed(out.stderr@)
}

/// A new string with the characters of `s`.
pub fn arg(s: &str) -> (r: String)
    ensures
        r@ == s@,
{
    String::from_str(s)
}

/// The outcome of running `inv`: its standard output when it succeeded.
pub fn run(inv: &Invocation, out: Outcome) -> (r: Result<String, Error>)
    ensures
        out.success ==> r is Ok && r->Ok_0@ == out.stdout@,
        !out.success ==> fails_with(r, (ErrorKind::CommandFailed, failure_message(*inv, out))),
{
    if out.success {
        return Ok(out.stdout);
    }
    let mut m = String::from_str("`");
    m.append(inv.program.as_str());
    m.append(" ");
    let joined = join_with(&inv.args, " ");
    m.append(joined.as_str());
    m.append("` failed (");
    m.append(out.status.as_str());
    m.append(")\nstderr:\n");
    let err = trim(out.stderr.as_str());
    m.append(err.as_str());
    Err(Error::new(ErrorKind::CommandFailed, m))
}

/// The outcome of running `inv` for its side effects.
pub fn run_status(inv: &Invocation, out: Outcome) -> (r: Result<(), Error>)
    ensures
        out.success ==> r is Ok,
        !out.success ==> fails_with(r, (ErrorKind::CommandFailed, failure_message(*inv, out))),
{
    match run(inv, out) {
        Ok(_) => Ok(()),
        Err(e) => Err(e),
    }
}

} // verus!
