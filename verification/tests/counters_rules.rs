use loki_fuzzer::counters::{
    more_from_draw, mutate_block_count, mutate_proposal_round, mutate_proposal_timestamp, nudge,
    redraw_epoch, retrieval_status_from_draw, COUNTER_STEP, TIMESTAMP_STEP,
};
use loki_fuzzer::model::BlockRetrievalStatus;

#[test]
fn nudge_raises_by_draw_modulo_step() {
    assert_eq!(nudge(100, 8, COUNTER_STEP), 108);
    assert_eq!(nudge(100, 24, COUNTER_STEP), 104);
    assert_eq!(nudge(500_000, 12_344, TIMESTAMP_STEP), 502_344);
}

#[test]
fn nudge_lowers_only_above_step() {
    assert_eq!(nudge(100, 13, COUNTER_STEP), 97);
    assert_eq!(nudge(11, 29, COUNTER_STEP), 2);
    // At or below the step the counter is kept.
    assert_eq!(nudge(10, 13, COUNTER_STEP), 10);
    assert_eq!(nudge(5, 13, COUNTER_STEP), 5);
    assert_eq!(nudge(10_000, 1, TIMESTAMP_STEP), 10_000);
}

#[test]
fn nudge_takes_or_keeps() {
    assert_eq!(nudge(100, 6, COUNTER_STEP), 6);
    assert_eq!(nudge(100, u64::MAX - 1, COUNTER_STEP), u64::MAX - 1);
    assert_eq!(nudge(100, 7, COUNTER_STEP), 100);
    assert_eq!(nudge(u64::MAX, 7, COUNTER_STEP), u64::MAX);
}

#[test]
fn proposal_timestamp_rules() {
    assert_eq!(mutate_proposal_timestamp(50_000, 10_004), 50_004);
    assert_eq!(mutate_proposal_timestamp(50_000, 12_345), 47_655);
    assert_eq!(mutate_proposal_timestamp(9_000, 12_345), 9_000);
    assert_eq!(mutate_proposal_timestamp(50_000, 10_006), 50_006);
    assert_eq!(mutate_proposal_timestamp(50_000, 10_123), 50_000);
}

#[test]
fn proposal_round_rules() {
    assert_eq!(mutate_proposal_round(20, 3), 30);
    assert_eq!(mutate_proposal_round(20, 4), 10);
    assert_eq!(mutate_proposal_round(10, 4), 10);
    assert_eq!(mutate_proposal_round(20, 5), 5);
}

#[test]
fn block_count_rules() {
    assert_eq!(mutate_block_count(7, 0), 8);
    assert_eq!(mutate_block_count(7, 1), 6);
    assert_eq!(mutate_block_count(7, 42), 42);
    assert_eq!(mutate_block_count(7, 3), 7);
}

#[test]
fn epoch_redraw_rules() {
    assert_eq!(redraw_epoch(3, 77, 5, 9), 77);
    assert_eq!(redraw_epoch(13, 77, 5, 9), 3);
    assert_eq!(redraw_epoch(14, 77, 5, 9), 5);
    assert_eq!(redraw_epoch(0, 0, 0, 0), 0);
}

#[test]
fn retrieval_status_by_draw() {
    assert_eq!(retrieval_status_from_draw(0), BlockRetrievalStatus::IdNotFound);
    assert_eq!(retrieval_status_from_draw(4), BlockRetrievalStatus::NotEnoughBlocks);
    assert_eq!(retrieval_status_from_draw(8), BlockRetrievalStatus::Succeeded);
}

#[test]
fn more_by_draw() {
    assert!(more_from_draw(0));
    assert!(more_from_draw(254));
    assert!(!more_from_draw(1));
    assert!(!more_from_draw(255));
}
