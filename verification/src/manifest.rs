//! The `README.md` of a bundle: what the folder holds and how to review from
//! it, so a reader is oriented without further calls.

use vstd::prelude::*;

use crate::artifacts::Produced;
use crate::context::{slug_of, ReviewContext};
use crate::layout::Layout;
use crate::paths::{file_name, file_name_of, joined_path, path_join};
use crate::process::arg;
use crate::text::{
    decimal, decimal_string, lemma_decimal_plain, lemma_lines_append, lemma_lines_cons,
    lemma_plain_concat, lines, plain_line,
};
use vstd::seq_lib::lemma_concat_associative;

verus! {

/// A file to write: where, and what.
#[derive(Debug)]
pub struct FileWrite {
    pub path: String,
    pub contents: String,
}

/// How to review a pull request bundle.
pub open spec fn pr_review_text() -> Seq<char> {
    "All context needed to review this PR is in this folder. Read `conversation.md` for intent and discussion, then `pr-diff.diff` for the change. The full PR is checked out at the workspace path above if you need to build, run tests, or navigate surrounding code. Cross-check `upstream.diff` if the local diff looks off (e.g. trunk moved)."@
}

/// How to review a range bundle.
pub open spec fn range_review_text() -> Seq<char> {
    "This is a local revision range, not a GitHub PR — there is no upstream conversation. Read `commits.txt` for the commit structure, then `range.diff` for the change. The target revision is checked out at the workspace path above if you need to build, run tests, or navigate surrounding code."@
}

/// The name a produced file is listed under: its final path component.
pub open spec fn listed_name(file: Seq<char>) -> Seq<char> {
    match file_name_of(file) {
        Some(n) => n,
        None => ""@,
    }
}

/// The list entry of one produced file.
pub open spec fn artifact_line(p: Produced) -> Seq<char> {
    "- `"@ + listed_name(p.file@) + "` — "@ + p.description@ + "\n"@
}

/// The list entries of produced files, in order.
pub open spec fn artifact_lines(ps: Seq<Produced>) -> Seq<char>
    decreases ps.len(),
{
    if ps.len() == 0 {
        Seq::empty()
    } else {
        artifact_lines(ps.drop_last()) + artifact_line(ps.last())
    }
}

/// The artifacts section.
pub open spec fn artifacts_spec(ps: Seq<Produced>) -> Seq<char> {
    "## Artifacts\n"@ + "\n"@ + artifact_lines(ps) + "\n"@
}

/// The section on building in the workspace against a shared target folder.
pub open spec fn building_spec(target_dir: Seq<char>) -> Seq<char> {
    "## Building / testing in the workspace\n"@ + "\n"@
        + "When you run cargo in the workspace, set `CARGO_TARGET_DIR` to the root repo's target dir so dependencies aren't recompiled from scratch:\n"@
        + "\n"@ + "```\n"@ + "CARGO_TARGET_DIR="@ + target_dir + "\n"@ + "```\n"@ + "\n"@
        + "Set it on every build/test/clippy invocation (PowerShell: `$env:CARGO_TARGET_DIR='"@
        + target_dir + "'`).\n"@
}

/// The README of a pull request bundle.
pub open spec fn pr_manifest_spec(ctx: ReviewContext, ps: Seq<Produced>) -> Seq<char> {
    let pr = ctx.pr_info;
    "# Review bundle — PR #"@ + decimal(pr.number as nat) + " ("@ + slug_of(ctx) + ")\n"@ + "\n"@
        + "> "@ + pr.title@ + "\n"@ + "\n"@ + "- **State**: "@ + pr.state@ + (if pr.is_draft {
        " (draft)"@
    } else {
        ""@
    }) + "\n"@ + "- **Author**: @"@ + pr.author.login@ + "\n"@ + "- **URL**: "@ + pr.url@ + "\n"@
        + "- **Workspace** (full checkout): `"@ + ctx.layout.workspace@ + "`\n"@ + "\n"@
        + artifacts_spec(ps) + "## How to review\n"@ + "\n"@ + pr_review_text() + "\n"@ + "\n"@
        + building_spec(joined_path(ctx.repo_root@, "target"@))
}

/// The first five lines of a pull request README, up to the State line.
spec fn pr_manifest_head(ctx: ReviewContext) -> Seq<char> {
    let pr = ctx.pr_info;
    "# Review bundle — PR #"@ + decimal(pr.number as nat) + " ("@ + slug_of(ctx) + ")\n"@ + "\n"@
        + "> "@ + pr.title@ + "\n"@ + "\n"@ + "- **State**: "@ + pr.state@ + (if pr.is_draft {
        " (draft)"@
    } else {
        ""@
    }) + "\n"@
}

/// A pull request README is its first five lines followed by the rest.
#[verifier::rlimit(60)]
proof fn lemma_pr_manifest_split(ctx: ReviewContext, ps: Seq<Produced>)
    ensures
        pr_manifest_spec(ctx, ps) == pr_manifest_head(ctx) + pr_manifest_spec(ctx, ps).skip(
            pr_manifest_head(ctx).len() as int,
        ),
{
    let pr = ctx.pr_info;
    let a = pr_manifest_head(ctx);
    let t0 = "- **Author**: @"@;
    lemma_concat_associative(a, t0, pr.author.login@);
    let t1 = t0 + pr.author.login@;
    lemma_concat_associative(a, t1, "\n"@);
    let t2 = t1 + "\n"@;
    lemma_concat_associative(a, t2, "- **URL**: "@);
    let t3 = t2 + "- **URL**: "@;
    lemma_concat_associative(a, t3, pr.url@);
    let t4 = t3 + pr.url@;
    lemma_concat_associative(a, t4, "\n"@);
    let t5 = t4 + "\n"@;
    lemma_concat_associative(a, t5, "- **Workspace** (full checkout): `"@);
    let t6 = t5 + "- **Workspace** (full checkout): `"@;
    lemma_concat_associative(a, t6, ctx.layout.workspace@);
    let t7 = t6 + ctx.layout.workspace@;
    lemma_concat_associative(a, t7, "`\n"@);
    let t8 = t7 + "`\n"@;
    lemma_concat_associative(a, t8, "\n"@);
    let t9 = t8 + "\n"@;
    lemma_concat_associative(a, t9, artifacts_spec(ps));
    let t10 = t9 + artifacts_spec(ps);
    lemma_concat_associative(a, t10, "## How to review\n"@);
    let t11 = t10 + "## How to review\n"@;
    lemma_concat_associative(a, t11, "\n"@);
    let t12 = t11 + "\n"@;
    lemma_concat_associative(a, t12, pr_review_text());
    let t13 = t12 + pr_review_text();
    lemma_concat_associative(a, t13, "\n"@);
    let t14 = t13 + "\n"@;
    lemma_concat_associative(a, t14, "\n"@);
    let t15 = t14 + "\n"@;
    lemma_concat_associative(a, t15, building_spec(joined_path(ctx.repo_root@, "target"@)));
    let t16 = t15 + building_spec(joined_path(ctx.repo_root@, "target"@));
    assert(pr_manifest_spec(ctx, ps) == a + t16);
    assert((a + t16).skip(a.len() as int) =~= t16);
}

/// Law: the fifth line of a pull request README is the State line, which
/// ends in ` (draft)` exactly when the pull request is a draft (when the
/// texts on the first lines hold no line breaks).
#[verifier::rlimit(60)]
pub proof fn lemma_pr_manifest_state_line(ctx: ReviewContext, ps: Seq<Produced>)
    requires
        plain_line(ctx.pr_info.title@),
        plain_line(ctx.repo.owner@),
        plain_line(ctx.repo.repo@),
        plain_line(ctx.pr_info.state@),
    ensures
        lines(pr_manifest_spec(ctx, ps)).len() > 4,
        lines(pr_manifest_spec(ctx, ps))[4] == (if ctx.pr_info.is_draft {
            "- **State**: "@ + ctx.pr_info.state@ + " (draft)"@
        } else {
            "- **State**: "@ + ctx.pr_info.state@
        }),
{
    reveal_strlit("# Review bundle — PR #");
    reveal_strlit(" (");
    reveal_strlit(")\n");
    reveal_strlit(")");
    reveal_strlit("\n");
    reveal_strlit("> ");
    reveal_strlit("/");
    reveal_strlit("- **State**: ");
    reveal_strlit(" (draft)");
    reveal_strlit("");
    let pr = ctx.pr_info;
    lemma_decimal_plain(pr.number as nat);
    let e = Seq::<char>::empty();
    let draft = if pr.is_draft {
        " (draft)"@
    } else {
        ""@
    };
    lemma_plain_concat(ctx.repo.owner@, "/"@);
    lemma_plain_concat(ctx.repo.owner@ + "/"@, ctx.repo.repo@);
    let l0 = "# Review bundle — PR #"@ + decimal(pr.number as nat) + " ("@ + slug_of(ctx) + ")"@;
    lemma_plain_concat("# Review bundle — PR #"@, decimal(pr.number as nat));
    lemma_plain_concat("# Review bundle — PR #"@ + decimal(pr.number as nat), " ("@);
    lemma_plain_concat("# Review bundle — PR #"@ + decimal(pr.number as nat) + " ("@, slug_of(ctx));
    lemma_plain_concat(
        "# Review bundle — PR #"@ + decimal(pr.number as nat) + " ("@ + slug_of(ctx),
        ")"@,
    );
    let l2 = "> "@ + pr.title@;
    lemma_plain_concat("> "@, pr.title@);
    let l4 = "- **State**: "@ + pr.state@ + draft;
    lemma_plain_concat("- **State**: "@, pr.state@);
    lemma_plain_concat("- **State**: "@ + pr.state@, draft);
    let a = pr_manifest_head(ctx);
    let h = pr_manifest_spec(ctx, ps);
    lemma_pr_manifest_split(ctx, ps);
    let rest = h.skip(a.len() as int);
    assert(a.last() == '\n');
    lemma_lines_append(a, rest);
    assert(a =~= l0 + "\n"@ + (e + "\n"@ + (l2 + "\n"@ + (e + "\n"@ + (l4 + "\n"@ + e)))));
    lemma_lines_cons(l4, e);
    lemma_lines_cons(e, l4 + "\n"@ + e);
    lemma_lines_cons(l2, e + "\n"@ + (l4 + "\n"@ + e));
    lemma_lines_cons(e, l2 + "\n"@ + (e + "\n"@ + (l4 + "\n"@ + e)));
    lemma_lines_cons(l0, e + "\n"@ + (l2 + "\n"@ + (e + "\n"@ + (l4 + "\n"@ + e))));
    assert(lines(e) =~= Seq::<Seq<char>>::empty());
    assert(lines(a) =~= seq![l0, e, l2, e, l4]);
    assert(lines(h)[4] == l4);
    if !pr.is_draft {
        assert(l4 =~= "- **State**: "@ + pr.state@);
    }
}

/// The README of a range bundle.
pub open spec fn range_manifest_spec(
    l: Layout,
    repo_root: Seq<char>,
    from: Seq<char>,
    to: Seq<char>,
    ps: Seq<Produced>,
) -> Seq<char> {
    "# Review bundle — range `"@ + from + "` → `"@ + to + "`\n"@ + "\n"@ + "- **From** (base): `"@
        + from + "`\n"@ + "- **To** (target): `"@ + to + "`\n"@
        + "- **Workspace** (checkout at target): `"@ + l.workspace@ + "`\n"@ + "\n"@
        + artifacts_spec(ps) + "## How to review\n"@ + "\n"@ + range_review_text() + "\n"@ + "\n"@
        + building_spec(joined_path(repo_root, "target"@))
}

/// The artifacts section: one entry per produced file.
pub fn artifacts_section(out: &mut String, produced: &Vec<Produced>)
    ensures
        final(out)@ == old(out)@ + artifacts_spec(produced@),
{
    let ghost start = out@;
    out.append("## Artifacts\n");
    out.append("\n");
    let ghost head = out@;
    let mut i: usize = 0;
    assert(produced@.take(0) =~= Seq::<Produced>::empty());
    assert(head + artifact_lines(produced@.take(0)) =~= head);
    while i < produced.len()
        invariant
            i <= produced@.len(),
            out@ == head + artifact_lines(produced@.take(i as int)),
        decreases produced@.len() - i,
    {
        let p = &produced[i];
        let name = match file_name(p.file.as_str()) {
            Some(n) => n,
            None => arg(""),
        };
        let mut line = arg("- `");
        line.append(name.as_str());
        line.append("` — ");
        line.append(p.description.as_str());
        line.append("\n");
        assert(line@ =~= artifact_line(produced@[i as int]));
        out.append(line.as_str());
        assert(produced@.take(i + 1).drop_last() =~= produced@.take(i as int));
        assert(out@ =~= head + artifact_lines(produced@.take(i + 1)));
        i = i + 1;
    }
    assert(produced@.take(i as int) =~= produced@);
    out.append("\n");
    assert(out@ =~= start + artifacts_spec(produced@));
}

/// The section on building in the workspace against a shared target folder.
pub fn building_section(out: &mut String, target_dir: &str)
    ensures
        final(out)@ == old(out)@ + building_spec(target_dir@),
{
    let mut s = arg("## Building / testing in the workspace\n");
    s.append("\n");
    s.append(
        "When you run cargo in the workspace, set `CARGO_TARGET_DIR` to the root repo's target dir so dependencies aren't recompiled from scratch:\n",
    );
    s.append("\n");
    s.append("```\n");
    s.append("CARGO_TARGET_DIR=");
    s.append(target_dir);
    s.append("\n");
    s.append("```\n");
    s.append("\n");
    s.append("Set it on every build/test/clippy invocation (PowerShell: `$env:CARGO_TARGET_DIR='");
    s.append(target_dir);
    s.append("'`).\n");
    out.append(s.as_str());
}

/// The README of a pull request bundle: `README.md` in the info folder.
pub fn write(ctx: &ReviewContext, produced: &Vec<Produced>) -> (w: FileWrite)
    ensures
        w.path@ == joined_path(ctx.layout.info@, "README.md"@),
        w.contents@ == pr_manifest_spec(*ctx, produced@),
{
    let pr = &ctx.pr_info;
    let mut out = arg("# Review bundle — PR #");
    let n = decimal_string(pr.number);
    out.append(n.as_str());
    out.append(" (");
    let slug = ctx.slug();
    out.append(slug.as_str());
    out.append(")\n");
    out.append("\n");
    out.append("> ");
    out.append(pr.title.as_str());
    out.append("\n");
    out.append("\n");
    out.append("- **State**: ");
    out.append(pr.state.as_str());
    out.append(
        if pr.is_draft {
            " (draft)"
        } else {
            ""
        },
    );
    out.append("\n");
    out.append("- **Author**: @");
    out.append(pr.author.login.as_str());
    out.append("\n");
    out.append("- **URL**: ");
    out.append(pr.url.as_str());
    out.append("\n");
    out.append("- **Workspace** (full checkout): `");
    out.append(ctx.layout.workspace.as_str());
    out.append("`\n");
    out.append("\n");
    artifacts_section(&mut out, produced);
    out.append("## How to review\n");
    out.append("\n");
    out.append(
        "All context needed to review this PR is in this folder. Read `conversation.md` for intent and discussion, then `pr-diff.diff` for the change. The full PR is checked out at the workspace path above if you need to build, run tests, or navigate surrounding code. Cross-check `upstream.diff` if the local diff looks off (e.g. trunk moved).",
    );
    out.append("\n");
    out.append("\n");
    let target = ctx.shared_target_dir();
    building_section(&mut out, target.as_str());
    FileWrite { path: path_join(ctx.layout.info.as_str(), "README.md"), contents: out }
}

/// The README of a range bundle: `README.md` in the info folder.
/// `repo_root` is the repository whose `target/` folder the workspace shares.
pub fn write_range(
    layout: &Layout,
    repo_root: &str,
    from: &str,
    to: &str,
    produced: &Vec<Produced>,
) -> (w: FileWrite)
    ensures
        w.path@ == joined_path(layout.info@, "README.md"@),
        w.contents@ == range_manifest_spec(*layout, repo_root@, from@, to@, produced@),
{
    let mut out = arg("# Review bundle — range `");
    out.append(from);
    out.append("` → `");
    out.append(to);
    out.append("`\n");
    out.append("\n");
    out.append("- **From** (base): `");
    out.append(from);
    out.append("`\n");
    out.append("- **To** (target): `");
    out.append(to);
    out.append("`\n");
    out.append("- **Workspace** (checkout at target): `");
    out.append(layout.workspace.as_str());
    out.append("`\n");
    out.append("\n");
    artifacts_section(&mut out, produced);
    out.append("## How to review\n");
    out.append("\n");
    out.append(
        "This is a local revision range, not a GitHub PR — there is no upstream conversation. Read `commits.txt` for the commit structure, then `range.diff` for the change. The target revision is checked out at the workspace path above if you need to build, run tests, or navigate surrounding code.",
    );
    out.append("\n");
    out.append("\n");
    let target = path_join(repo_root, "target");
    building_section(&mut out, target.as_str());
    FileWrite { path: path_join(layout.info.as_str(), "README.md"), contents: out }
}

} // verus!
