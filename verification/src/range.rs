//! Range mode: a local jj revision range gathered into a bundle, like the pull
//! request artifacts minus everything GitHub-specific.

use vstd::prelude::*;

use crate::artifacts::Produced;
use crate::layout::Layout;
use crate::paths::{joined_path, path_join};
use crate::process::arg;

verus! {

/// The files of a range bundle: the range diff (`range.diff`) and the commit
/// log (`commits.txt`) in the info folder, with their descriptions. The
/// caller writes the output of `jj::diff_range` and `jj::log_range` to them.
pub fn gather(layout: &Layout, from: &str, to: &str) -> (v: Vec<Produced>)
    ensures
        v@.len() == 2,
        v@[0].file@ == joined_path(layout.info@, "range.diff"@),
        v@[0].description@ == "Diff of the range (`jj diff -f "@ + from@ + " -t "@ + to@
            + "`, git format)."@,
        v@[1].file@ == joined_path(layout.info@, "commits.txt"@),
        v@[1].description@ == "Commit log of the range (`jj log -r "@ + from@ + ".."@ + to@
            + "`)."@,
{
    let mut d = arg("Diff of the range (`jj diff -f ");
    d.append(from);
    d.append(" -t ");
    d.append(to);
    d.append("`, git format).");
    let mut l = arg("Commit log of the range (`jj log -r ");
    l.append(from);
    l.append("..");
    l.append(to);
    l.append("`).");
    let mut v: Vec<Produced> = Vec::new();
    v.push(Produced { file: path_join(layout.info.as_str(), "range.diff"), description: d });
    v.push(Produced { file: path_join(layout.info.as_str(), "commits.txt"), description: l });
    v
}

} // verus!
