use loki_fuzzer::generate::{
    block_response_with, generate_BlockRetrievalRequest, generate_BlockRetrievalResponse,
    generate_EpochChangeProof, generate_EpochRetrievalRequest, generate_proposal_draft,
    generate_signer_seed, generate_vote_draft, vote_draft_outcome_of, vote_draft_with, VoteDraft,
};
use loki_fuzzer::model::{BlockRetrievalStatus, HashValue};

#[test]
fn vote_draft_parent_is_previous_round() {
    assert_eq!(vote_draft_with(5, 9), VoteDraft { round: 5, parent_round: 4, validator_seed: 9 });
    assert_eq!(vote_draft_with(1, 0).parent_round, 0);
    assert_eq!(vote_draft_outcome_of(0, 3), None);
    assert_eq!(vote_draft_outcome_of(2, 3), Some(VoteDraft { round: 2, parent_round: 1, validator_seed: 3 }));
    if let Some(d) = generate_vote_draft() {
        assert_eq!(d.parent_round + 1, d.round);
    }
}

#[test]
fn made_up_block_request_keeps_id() {
    let id = HashValue { bytes: [4; 32] };
    assert_eq!(generate_BlockRetrievalRequest(id).block_id, id);
}

#[test]
fn made_up_response_has_no_blocks() {
    let r = block_response_with::<u8>(1);
    assert_eq!(r.status, BlockRetrievalStatus::NotEnoughBlocks);
    assert!(r.blocks.is_empty());
    let r = generate_BlockRetrievalResponse::<u8>();
    assert!(r.blocks.is_empty());
}

#[test]
fn made_up_epoch_change_proof_keeps_ledger_infos() {
    let p = generate_EpochChangeProof(vec![1u8, 2]);
    assert_eq!(p.ledger_info_with_sigs, vec![1, 2]);
}

#[test]
fn made_up_drafts_vary() {
    let a = generate_proposal_draft();
    let b = generate_proposal_draft();
    let c = generate_EpochRetrievalRequest();
    let d = generate_EpochRetrievalRequest();
    // Two 64-bit draws coincide with negligible probability.
    assert!(a.timestamp_usecs != b.timestamp_usecs || c.start_epoch != d.start_epoch);
    let _ = generate_signer_seed();
}
