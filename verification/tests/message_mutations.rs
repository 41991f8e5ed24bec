use loki_fuzzer::model::{
    Author, BlockInfo, BlockRetrievalRequest, BlockRetrievalResponse, BlockRetrievalStatus,
    EpochChangeProof, EpochRetrievalRequest, HashValue, ProposalMsg, VoteMsg,
};
use loki_fuzzer::mutate::{
    block_info_outcome_of, block_request_outcome_of, check_block_info_overflows,
    epoch_request_outcome_of, proposal_outcome_of, vote_outcome_of, check_nudge_overflows,
    check_proposal_overflows, mutate_blockInfo, mutate_BlockRetrievalRequest,
    mutate_BlockRetrievalResponse, mutate_EpochChangeProof, mutate_EpochRetrievalRequest,
    mutate_block_info_with, mutate_block_request_with, mutate_block_response_with,
    mutate_epoch_change_proof_with, mutate_epoch_request_with, mutate_proposal,
    mutate_proposal_with, mutate_vote, mutate_vote_with, BlockInfoDraws, EpochDraws,
    ProposalDraws, VoteDraws,
};

fn hash(b: u8) -> HashValue {
    HashValue { bytes: [b; 32] }
}

fn block(epoch: u64, round: u64, version: u64, ts: u64) -> BlockInfo<Option<u32>> {
    BlockInfo {
        epoch,
        round,
        id: hash(1),
        executed_state_id: hash(2),
        version,
        timestamp_usecs: ts,
        next_epoch_state: Some(77),
    }
}

#[test]
fn block_info_with_draws() {
    let b = block(50, 60, 70, 80_000);
    let d = BlockInfoDraws { epoch: 8, round: 13, version: 6, timestamp: 12_347 };
    let m = mutate_block_info_with(b, &d);
    assert_eq!(m, BlockInfo {
        epoch: 58,
        round: 57,
        id: hash(1),
        executed_state_id: hash(2),
        version: 6,
        timestamp_usecs: 80_000,
        next_epoch_state: Some(77),
    });
}

#[test]
fn block_info_idle_draws_keep_it() {
    let b = block(50, 60, 70, 80_000);
    let d = BlockInfoDraws { epoch: 3, round: 7, version: 11, timestamp: 15 };
    assert_eq!(block_info_outcome_of(b, &d), Some(b));
}

#[test]
fn block_info_overflow_gives_none() {
    let b = block(u64::MAX, 60, 70, 80_000);
    let d = BlockInfoDraws { epoch: 4, round: 3, version: 3, timestamp: 3 };
    assert!(check_block_info_overflows(&b, &d));
    assert_eq!(block_info_outcome_of(b, &d), None);
    // A raise by zero does not overflow.
    let d0 = BlockInfoDraws { epoch: 0, round: 3, version: 3, timestamp: 3 };
    assert_eq!(block_info_outcome_of(b, &d0), Some(b));
    assert!(check_nudge_overflows(u64::MAX - 7, 8, 10));
    assert!(!check_nudge_overflows(u64::MAX - 8, 8, 10));
    assert!(!check_nudge_overflows(u64::MAX, 9, 10));
}

#[test]
fn block_info_fresh_draws_keep_ids() {
    let b = block(500, 600, 700, 800_000);
    let mut changed = false;
    for _ in 0..64 {
        let m = mutate_blockInfo(b).expect("headroom");
        assert_eq!(m.id, b.id);
        assert_eq!(m.executed_state_id, b.executed_state_id);
        assert_eq!(m.next_epoch_state, b.next_epoch_state);
        if m != b {
            changed = true;
        }
    }
    assert!(changed);
}

fn proposal(round: u64, ts: u64) -> ProposalMsg<&'static str, u32, char> {
    ProposalMsg {
        author: None,
        round,
        timestamp_usecs: ts,
        payload: Some("txns"),
        quorum_cert: 5,
        failed_authors: vec![(3, Author { bytes: [1; 32] })],
        sync_info: 's',
    }
}

#[test]
fn proposal_with_draws() {
    let p = proposal(20, 50_000);
    let a = Author { bytes: [7; 32] };
    let m = mutate_proposal_with(p.clone(), a, &ProposalDraws { timestamp: 12_345, round: 3 });
    assert_eq!(m, ProposalMsg {
        author: Some(a),
        round: 30,
        timestamp_usecs: 47_655,
        payload: Some("txns"),
        quorum_cert: 5,
        failed_authors: vec![],
        sync_info: 's',
    });
    let m = mutate_proposal_with(p, a, &ProposalDraws { timestamp: 10_006, round: 5 });
    assert_eq!((m.round, m.timestamp_usecs), (5, 50_006));
}

#[test]
fn proposal_without_payload_fails() {
    let mut p = proposal(20, 50_000);
    p.payload = None;
    let a = Author { bytes: [7; 32] };
    assert_eq!(proposal_outcome_of(p.clone(), a, &ProposalDraws { timestamp: 3, round: 4 }), None);
    assert_eq!(mutate_proposal(p, a), None);
}

#[test]
fn proposal_overflow_detected() {
    let p = proposal(u64::MAX - 5, 0);
    assert!(check_proposal_overflows(&p, &ProposalDraws { timestamp: 3, round: 3 }));
    assert!(!check_proposal_overflows(&p, &ProposalDraws { timestamp: 3, round: 4 }));
    let a = Author { bytes: [7; 32] };
    assert_eq!(proposal_outcome_of(p, a, &ProposalDraws { timestamp: 3, round: 3 }), None);
    let q = proposal(0, u64::MAX - 50);
    assert!(check_proposal_overflows(&q, &ProposalDraws { timestamp: 98, round: 1 }));
    assert!(!check_proposal_overflows(&q, &ProposalDraws { timestamp: 46, round: 1 }));
}

#[test]
fn proposal_fresh_draws() {
    let p = proposal(1_000, 1_000_000);
    let a = Author { bytes: [9; 32] };
    let mut rounds = std::collections::HashSet::new();
    for _ in 0..64 {
        let m = mutate_proposal(p.clone(), a).expect("headroom and payload");
        assert_eq!(m.author, Some(a));
        assert_eq!(m.payload, p.payload);
        assert_eq!(m.quorum_cert, p.quorum_cert);
        assert_eq!(m.sync_info, p.sync_info);
        assert!(m.failed_authors.is_empty());
        assert!(m.timestamp_usecs > 990_000 && m.timestamp_usecs < 1_010_000);
        rounds.insert(m.round);
    }
    assert!(rounds.len() > 1);
}

fn vote() -> VoteMsg<Option<u32>, u64, char, u8> {
    VoteMsg {
        proposed: block(5, 20, 30, 40_000),
        parent: block(5, 19, 29, 39_000),
        commit_info: block(4, 10, 20, 30_000),
        author: Author { bytes: [6; 32] },
        signature: 99,
        sync_info: 'y',
        two_chain_timeout: Some(1),
    }
}

#[test]
fn vote_with_draws() {
    let v = vote();
    let keep = BlockInfoDraws { epoch: 3, round: 3, version: 3, timestamp: 3 };
    let d = VoteDraws {
        proposed: BlockInfoDraws { epoch: 4, round: 3, version: 3, timestamp: 3 },
        parent: keep,
        commit_info: BlockInfoDraws { epoch: 3, round: 3, version: 3, timestamp: 2 },
    };
    let m = mutate_vote_with(v, &d);
    assert_eq!(m.proposed.epoch, 5 + 4 % 10);
    assert_eq!(m.parent, v.parent);
    assert_eq!(m.commit_info.timestamp_usecs, 2);
    assert_eq!(m.commit_info.round, 10);
    assert_eq!((m.author, m.signature, m.sync_info), (v.author, v.signature, v.sync_info));
    assert_eq!(m.two_chain_timeout, None);
    let mut big = vote();
    big.parent.round = u64::MAX;
    let raise = VoteDraws { proposed: keep, parent: BlockInfoDraws { round: 8, ..keep }, commit_info: keep };
    assert_eq!(vote_outcome_of(big, &raise), None);
}

#[test]
fn vote_fresh_draws() {
    let v = vote();
    let m = mutate_vote(v).expect("headroom");
    assert_eq!(m.proposed.id, v.proposed.id);
    assert_eq!(m.commit_info.executed_state_id, v.commit_info.executed_state_id);
    assert_eq!(m.signature, v.signature);
    assert_eq!(m.two_chain_timeout, None);
}

#[test]
fn block_request_with_draw() {
    let r = BlockRetrievalRequest { block_id: hash(3), num_blocks: 7 };
    assert_eq!(mutate_block_request_with(&r, 4).num_blocks, 8);
    assert_eq!(mutate_block_request_with(&r, 5).num_blocks, 6);
    assert_eq!(mutate_block_request_with(&r, 6).num_blocks, 6);
    assert_eq!(mutate_block_request_with(&r, 10).num_blocks, 10);
    assert_eq!(mutate_block_request_with(&r, 11), r);
    let full = BlockRetrievalRequest { block_id: hash(3), num_blocks: u64::MAX };
    assert_eq!(block_request_outcome_of(&full, 4), None);
    assert_eq!(block_request_outcome_of(&full, 5).map(|m| m.num_blocks), Some(u64::MAX - 1));
    let none = BlockRetrievalRequest { block_id: hash(3), num_blocks: 0 };
    assert_eq!(block_request_outcome_of(&none, 5), None);
}

#[test]
fn block_request_fresh_draws() {
    let r = BlockRetrievalRequest { block_id: hash(3), num_blocks: 7 };
    let m = mutate_BlockRetrievalRequest(r).expect("count strictly inside the range");
    assert_eq!(m.block_id, r.block_id);
}

#[test]
fn block_response_keeps_blocks() {
    let resp = BlockRetrievalResponse { status: BlockRetrievalStatus::Succeeded, blocks: vec![1, 2, 3] };
    let m = mutate_block_response_with(resp, 3);
    assert_eq!(m.status, BlockRetrievalStatus::IdNotFound);
    assert_eq!(m.blocks, vec![1, 2, 3]);
    let m = mutate_BlockRetrievalResponse(m);
    assert_eq!(m.blocks, vec![1, 2, 3]);
}

#[test]
fn epoch_request_with_draws() {
    let r = EpochRetrievalRequest { start_epoch: 5, end_epoch: 9 };
    let m = mutate_epoch_request_with(&r, &EpochDraws { start: 13, end: 14 });
    assert_eq!(m, EpochRetrievalRequest { start_epoch: 3, end_epoch: 5 });
    let m = mutate_epoch_request_with(&r, &EpochDraws { start: 3, end: 6 });
    assert_eq!(m, r);
    let z = EpochRetrievalRequest { start_epoch: 0, end_epoch: 9 };
    assert_eq!(epoch_request_outcome_of(&z, &EpochDraws { start: 13, end: 3 }), None);
    assert_eq!(
        epoch_request_outcome_of(&z, &EpochDraws { start: 14, end: 3 }),
        Some(EpochRetrievalRequest { start_epoch: 5, end_epoch: 9 })
    );
}

#[test]
fn epoch_request_fresh_draws() {
    let r = EpochRetrievalRequest { start_epoch: 5, end_epoch: 9 };
    for _ in 0..32 {
        let m = mutate_EpochRetrievalRequest(r).expect("positive epochs");
        assert!(m.start_epoch == 5 || m.start_epoch < 9);
        assert!(m.end_epoch == 9 || m.end_epoch < 9);
    }
    // A zero epoch fails only on the draws that divide by it.
    let z = EpochRetrievalRequest { start_epoch: 0, end_epoch: 0 };
    for _ in 0..32 {
        if let Some(m) = mutate_EpochRetrievalRequest(z) {
            assert_eq!(m, z);
        }
    }
}

#[test]
fn epoch_change_proof_keeps_ledger_infos() {
    let p = EpochChangeProof { ledger_info_with_sigs: vec!["a", "b"], more: false };
    let m = mutate_epoch_change_proof_with(p, 4);
    assert!(m.more);
    assert_eq!(m.ledger_info_with_sigs, vec!["a", "b"]);
    let m = mutate_epoch_change_proof_with(m, 5);
    assert!(!m.more);
    let m = mutate_EpochChangeProof(m);
    assert_eq!(m.ledger_info_with_sigs, vec!["a", "b"]);
}
