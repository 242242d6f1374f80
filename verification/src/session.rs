//! The order of a run, as a state machine: each stage names the work to do
//! next, and the stage after it follows from the stage and the command-line
//! flags. The caller does each stage's work and asks for the next.

use vstd::prelude::*;

verus! {

/// Stages of gathering a pull request.
#[derive(Debug, Clone, Copy, PartialEq, Eq, Structural)]
pub enum PrStage {
    /// Find the repository, its base remote and the bundle's layout.
    Discover,
    /// Remove the bundle's workspace and folders (`--clean`).
    Clean,
    /// Fetch the base remote.
    FetchBase,
    /// Leave the base remote as it is (`--no-fetch`).
    SkipFetch,
    /// Load the pull request's metadata.
    LoadPr,
    /// Keep the artifact folder ignored and prepare the bundle's folders.
    Prepare,
    /// Fetch the pull request's head, adding a fork remote if needed.
    FetchHead,
    /// Create the workspace checkout at the head.
    AddWorkspace,
    /// Produce the artifact at this position of the registry.
    Produce(u8),
    /// Write the bundle's README.
    WriteManifest,
    /// Nothing left to do.
    Done,
}

/// The flags that steer a pull request run.
#[derive(Debug, Clone, Copy, PartialEq, Eq, Structural)]
pub struct PrFlags {
    pub clean: bool,
    pub no_fetch: bool,
}

/// The stage that follows `s`, for a registry of `artifacts` producers.
pub open spec fn next_pr_spec(s: PrStage, f: PrFlags, artifacts: u8) -> PrStage {
    match s {
        PrStage::Discover => if f.clean {
            PrStage::Clean
        } else if f.no_fetch {
            PrStage::SkipFetch
        } else {
            PrStage::FetchBase
        },
        PrStage::Clean => PrStage::Done,
        PrStage::FetchBase => PrStage::LoadPr,
        PrStage::SkipFetch => PrStage::LoadPr,
        PrStage::LoadPr => PrStage::Prepare,
        PrStage::Prepare => PrStage::FetchHead,
        PrStage::FetchHead => PrStage::AddWorkspace,
        PrStage::AddWorkspace => if artifacts > 0 {
            PrStage::Produce(0)
        } else {
            PrStage::WriteManifest
        },
        PrStage::Produce(i) => if i + 1 < artifacts {
            PrStage::Produce((i + 1) as u8)
        } else {
            PrStage::WriteManifest
        },
        PrStage::WriteManifest => PrStage::Done,
        PrStage::Done => PrStage::Done,
    }
}

/// The stage after `s`.
pub fn next_pr_stage(s: PrStage, flags: PrFlags, artifacts: u8) -> (n: PrStage)
    ensures
        n == next_pr_spec(s, flags, artifacts),
{
    match s {
        PrStage::Discover => if flags.clean {
            PrStage::Clean
        } else if flags.no_fetch {
            PrStage::SkipFetch
        } else {
            PrStage::FetchBase
        },
        PrStage::Clean => PrStage::Done,
        PrStage::FetchBase => PrStage::LoadPr,
        PrStage::SkipFetch => PrStage::LoadPr,
        PrStage::LoadPr => PrStage::Prepare,
        PrStage::Prepare => PrStage::FetchHead,
        PrStage::FetchHead => PrStage::AddWorkspace,
        PrStage::AddWorkspace => if artifacts > 0 {
            PrStage::Produce(0)
        } else {
            PrStage::WriteManifest
        },
        PrStage::Produce(i) => if i < 255 && i + 1 < artifacts {
            PrStage::Produce(i + 1)
        } else {
            PrStage::WriteManifest
        },
        PrStage::WriteManifest => PrStage::Done,
        PrStage::Done => PrStage::Done,
    }
}

/// The stage reached from `s` after `k` steps.
pub open spec fn pr_after(s: PrStage, f: PrFlags, artifacts: u8, k: nat) -> PrStage
    decreases k,
{
    if k == 0 {
        s
    } else {
        pr_after(next_pr_spec(s, f, artifacts), f, artifacts, (k - 1) as nat)
    }
}

/// Law: with `--clean`, a run removes the bundle and stops: nothing is
/// fetched, prepared or produced.
pub proof fn lemma_clean_run_only_cleans(f: PrFlags, artifacts: u8)
    requires
        f.clean,
    ensures
        pr_after(PrStage::Discover, f, artifacts, 1) == PrStage::Clean,
        forall|k: nat| k >= 2 ==> #[trigger] pr_after(PrStage::Discover, f, artifacts, k) == PrStage::Done,
{
    reveal_with_fuel(pr_after, 2);
    assert forall|k: nat| k >= 2 implies #[trigger] pr_after(PrStage::Discover, f, artifacts, k)
        == PrStage::Done by {
        lemma_done_stays(f, artifacts, (k - 2) as nat);
        assert(pr_after(PrStage::Discover, f, artifacts, k) == pr_after(
            PrStage::Clean,
            f,
            artifacts,
            (k - 1) as nat,
        ));
        assert(pr_after(PrStage::Clean, f, artifacts, (k - 1) as nat) == pr_after(
            PrStage::Done,
            f,
            artifacts,
            (k - 2) as nat,
        ));
    }
}

/// A finished run stays finished.
pub proof fn lemma_done_stays(f: PrFlags, artifacts: u8, k: nat)
    ensures
        pr_after(PrStage::Done, f, artifacts, k) == PrStage::Done,
    decreases k,
{
    if k > 0 {
        lemma_done_stays(f, artifacts, (k - 1) as nat);
    }
}

/// The stage `Produce(i)` reaches after `k` more steps, while artifacts
/// remain.
proof fn lemma_produce_steps(f: PrFlags, artifacts: u8, i: u8, k: nat)
    requires
        i as int + k < artifacts,
    ensures
        pr_after(PrStage::Produce(i), f, artifacts, k) == PrStage::Produce((i + k) as u8),
    decreases k,
{
    if k > 0 {
        assert(next_pr_spec(PrStage::Produce(i), f, artifacts) == PrStage::Produce((i + 1) as u8));
        lemma_produce_steps(f, artifacts, (i + 1) as u8, (k - 1) as nat);
    }
}

/// Law: without `--clean`, a run fetches (unless `--no-fetch`), loads the
/// pull request, prepares the folders, fetches the head, creates the
/// workspace, produces every artifact in registry order, writes the README
/// and is done.
pub proof fn lemma_full_run(f: PrFlags, artifacts: u8)
    requires
        !f.clean,
        artifacts > 0,
    ensures
        pr_after(PrStage::Discover, f, artifacts, 1) == (if f.no_fetch {
            PrStage::SkipFetch
        } else {
            PrStage::FetchBase
        }),
        pr_after(PrStage::Discover, f, artifacts, 2) == PrStage::LoadPr,
        pr_after(PrStage::Discover, f, artifacts, 3) == PrStage::Prepare,
        pr_after(PrStage::Discover, f, artifacts, 4) == PrStage::FetchHead,
        pr_after(PrStage::Discover, f, artifacts, 5) == PrStage::AddWorkspace,
        forall|i: nat| i < artifacts ==> #[trigger] pr_after(PrStage::Discover, f, artifacts, 6 + i)
            == PrStage::Produce(i as u8),
        pr_after(PrStage::Discover, f, artifacts, 6 + artifacts as nat) == PrStage::WriteManifest,
        pr_after(PrStage::Discover, f, artifacts, 7 + artifacts as nat) == PrStage::Done,
{
    reveal_with_fuel(pr_after, 7);
    let s1 = next_pr_spec(PrStage::Discover, f, artifacts);
    assert(pr_after(PrStage::Discover, f, artifacts, 1) == s1);
    assert(pr_after(PrStage::Discover, f, artifacts, 2) == pr_after(s1, f, artifacts, 1));
    assert(pr_after(PrStage::Discover, f, artifacts, 3) == pr_after(PrStage::LoadPr, f, artifacts, 1));
    assert(pr_after(PrStage::Discover, f, artifacts, 4) == pr_after(PrStage::Prepare, f, artifacts, 1));
    assert(pr_after(PrStage::Discover, f, artifacts, 5) == pr_after(
        PrStage::FetchHead,
        f,
        artifacts,
        1,
    ));
    assert forall|i: nat| i < artifacts implies #[trigger] pr_after(
        PrStage::Discover,
        f,
        artifacts,
        6 + i,
    ) == PrStage::Produce(i as u8) by {
        lemma_prefix_steps(f, artifacts, i);
        lemma_produce_steps(f, artifacts, 0, i);
    }
    let last = (artifacts - 1) as u8;
    lemma_prefix_steps(f, artifacts, (artifacts - 1) as nat);
    lemma_produce_steps(f, artifacts, 0, (artifacts - 1) as nat);
    assert(pr_after(PrStage::Discover, f, artifacts, 6 + artifacts as nat) == pr_after(
        PrStage::Produce(last),
        f,
        artifacts,
        1,
    )) by {
        lemma_after_split(PrStage::Discover, f, artifacts, 5 + artifacts as nat, 1);
    }
    assert(pr_after(PrStage::Discover, f, artifacts, 7 + artifacts as nat) == pr_after(
        PrStage::WriteManifest,
        f,
        artifacts,
        1,
    )) by {
        lemma_after_split(PrStage::Discover, f, artifacts, 6 + artifacts as nat, 1);
    }
}

/// `k + m` steps are `k` steps and then `m` more.
proof fn lemma_after_split(s: PrStage, f: PrFlags, artifacts: u8, k: nat, m: nat)
    ensures
        pr_after(s, f, artifacts, k + m) == pr_after(pr_after(s, f, artifacts, k), f, artifacts, m),
    decreases k,
{
    if k > 0 {
        lemma_after_split(next_pr_spec(s, f, artifacts), f, artifacts, (k - 1) as nat, m);
        assert((k + m - 1) as nat == (k - 1) as nat + m);
    }
}

/// Six steps from the start reach the first artifact, and `6 + i` steps are
/// `i` steps from there.
proof fn lemma_prefix_steps(f: PrFlags, artifacts: u8, i: nat)
    requires
        !f.clean,
        artifacts > 0,
    ensures
        pr_after(PrStage::Discover, f, artifacts, 6 + i) == pr_after(PrStage::Produce(0), f, artifacts, i),
{
    reveal_with_fuel(pr_after, 7);
    lemma_after_split(PrStage::Discover, f, artifacts, 6, i);
    let s1 = next_pr_spec(PrStage::Discover, f, artifacts);
    assert(pr_after(PrStage::Discover, f, artifacts, 6) == pr_after(s1, f, artifacts, 5));
    assert(pr_after(s1, f, artifacts, 5) == pr_after(PrStage::LoadPr, f, artifacts, 4));
    assert(pr_after(PrStage::LoadPr, f, artifacts, 4) == pr_after(PrStage::Prepare, f, artifacts, 3));
    assert(pr_after(PrStage::Prepare, f, artifacts, 3) == pr_after(PrStage::FetchHead, f, artifacts, 2));
    assert(pr_after(PrStage::FetchHead, f, artifacts, 2) == pr_after(
        PrStage::AddWorkspace,
        f,
        artifacts,
        1,
    ));
    assert(pr_after(PrStage::AddWorkspace, f, artifacts, 1) == pr_after(
        PrStage::Produce(0),
        f,
        artifacts,
        0,
    ));
}

/// Stages of gathering a local revision range.
#[derive(Debug, Clone, Copy, PartialEq, Eq, Structural)]
pub enum RangeStage {
    /// Find the repository, resolve both ends and the bundle's layout.
    Discover,
    /// Remove the bundle's workspace and folders (`--clean`).
    Clean,
    /// Keep the artifact folder ignored and prepare the bundle's folders.
    Prepare,
    /// Create the workspace checkout at the range's target.
    AddWorkspace,
    /// Write the range diff and commit log.
    Gather,
    /// Write the bundle's README.
    WriteManifest,
    /// Nothing left to do.
    Done,
}

/// The stage after `s` in range mode.
pub fn next_range_stage(s: RangeStage, clean: bool) -> (n: RangeStage)
    ensures
        n == match s {
            RangeStage::Discover => if clean {
                RangeStage::Clean
            } else {
                RangeStage::Prepare
            },
            RangeStage::Clean => RangeStage::Done,
            RangeStage::Prepare => RangeStage::AddWorkspace,
            RangeStage::AddWorkspace => RangeStage::Gather,
            RangeStage::Gather => RangeStage::WriteManifest,
            RangeStage::WriteManifest => RangeStage::Done,
            RangeStage::Done => RangeStage::Done,
        },
{
    match s {
        RangeStage::Discover => if clean {
            RangeStage::Clean
        } else {
            RangeStage::Prepare
        },
        RangeStage::Clean => RangeStage::Done,
        RangeStage::Prepare => RangeStage::AddWorkspace,
        RangeStage::AddWorkspace => RangeStage::Gather,
        RangeStage::Gather => RangeStage::WriteManifest,
        RangeStage::WriteManifest => RangeStage::Done,
        RangeStage::Done => RangeStage::Done,
    }
}

} // verus!
