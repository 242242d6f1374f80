use agent_review_helper::session::{next_pr_stage, next_range_stage, PrFlags, PrStage, RangeStage};

fn walk(flags: PrFlags, artifacts: u8) -> Vec<PrStage> {
    let mut s = PrStage::Discover;
    let mut seen = vec![s];
    while s != PrStage::Done {
        s = next_pr_stage(s, flags, artifacts);
        seen.push(s);
        assert!(seen.len() < 50);
    }
    seen
}

#[test]
fn pr_run_order() {
    assert_eq!(
        walk(PrFlags { clean: false, no_fetch: false }, 3),
        vec![PrStage::Discover, PrStage::FetchBase, PrStage::LoadPr, PrStage::Prepare, PrStage::FetchHead, PrStage::AddWorkspace, PrStage::Produce(0), PrStage::Produce(1), PrStage::Produce(2), PrStage::WriteManifest, PrStage::Done]
    );
    assert_eq!(walk(PrFlags { clean: false, no_fetch: true }, 1)[1], PrStage::SkipFetch);
    assert_eq!(walk(PrFlags { clean: true, no_fetch: false }, 3), vec![PrStage::Discover, PrStage::Clean, PrStage::Done]);
}

#[test]
fn range_run_order() {
    let mut s = RangeStage::Discover;
    let mut seen = vec![s];
    while s != RangeStage::Done {
        s = next_range_stage(s, false);
        seen.push(s);
    }
    assert_eq!(seen, vec![RangeStage::Discover, RangeStage::Prepare, RangeStage::AddWorkspace, RangeStage::Gather, RangeStage::WriteManifest, RangeStage::Done]);
    assert_eq!(next_range_stage(RangeStage::Discover, true), RangeStage::Clean);
    assert_eq!(next_range_stage(RangeStage::Clean, true), RangeStage::Done);
}
