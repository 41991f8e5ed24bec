//! Fresh messages built from random draws.
//!
//! These are the plain parts of the messages the fuzzer can make up from
//! nothing; the caller wraps them into signed consensus messages.
use vstd::prelude::*;
use crate::counters::{more_for, more_from_draw, retrieval_status_for, retrieval_status_from_draw};
use crate::model::{
    BlockRetrievalRequest, BlockRetrievalResponse, EpochChangeProof, EpochRetrievalRequest,
    HashValue,
};
use crate::random::{random_u64, random_u8};

verus! {

/// The drawn parts of a made-up proposal.
#[derive(Clone, Copy, Debug, PartialEq, Eq)]
pub struct ProposalDraft {
    pub round: u64,
    pub timestamp_usecs: u64,
    /// Seed of the validator signer that signs the proposal.
    pub validator_seed: u8,
}

/// The drawn parts of a made-up vote: the round of the voted block, that of
/// its parent, and the seed of the signer.
#[derive(Clone, Copy, Debug, PartialEq, Eq)]
pub struct VoteDraft {
    pub round: u64,
    pub parent_round: u64,
    pub validator_seed: u8,
}

/// Draws the round, timestamp and signer seed of a proposal.
pub fn generate_proposal_draft() -> (r: ProposalDraft) {
    let round = random_u64();
    let timestamp_usecs = random_u64();
    let validator_seed = random_u8();
    ProposalDraft { round, timestamp_usecs, validator_seed }
}

/// The vote draft of a drawn round and seed: the parent is the round
/// before; a round of zero has none.
pub open spec fn vote_draft_for(round: u64, seed: u8) -> Option<VoteDraft> {
    if round == 0 {
        None
    } else {
        Some(VoteDraft { round, parent_round: (round - 1) as u64, validator_seed: seed })
    }
}

/// The vote draft of the given round and seed.
pub fn vote_draft_with(round: u64, seed: u8) -> (r: VoteDraft)
    requires
        round > 0,
    ensures
        Some(r) == vote_draft_for(round, seed),
{
    VoteDraft { round, parent_round: round - 1, validator_seed: seed }
}

/// The vote draft of a given round and seed: `None` for round zero.
pub fn vote_draft_outcome_of(round: u64, seed: u8) -> (r: Option<VoteDraft>)
    ensures
        r == vote_draft_for(round, seed),
{
    if round == 0 {
        None
    } else {
        Some(vote_draft_with(round, seed))
    }
}

/// Draws a vote draft: `None` where the drawn round is zero, which has no
/// parent round.
pub fn generate_vote_draft() -> (r: Option<VoteDraft>)
    ensures
        exists|round: u64, seed: u8| r == #[trigger] vote_draft_for(round, seed),
{
    let round = random_u64();
    let seed = random_u8();
    let r = vote_draft_outcome_of(round, seed);
    assert(r == vote_draft_for(round, seed));
    r
}

/// Draws the seed of the validator signer of a made-up commit vote.
pub fn generate_signer_seed() -> (r: u8) {
    random_u8()
}

/// A request for a drawn number of blocks ending at `block_id`.
pub fn generate_BlockRetrievalRequest(block_id: HashValue) -> (r: BlockRetrievalRequest)
    ensures
        r.block_id == block_id,
{
    let block_num = random_u64();
    BlockRetrievalRequest { block_id, num_blocks: block_num }
}

/// A response without blocks, with the status of the given draw.
pub fn block_response_with<B>(d: u64) -> (r: BlockRetrievalResponse<B>)
    ensures
        r.status == retrieval_status_for(d),
        r.blocks@.len() == 0,
{
    BlockRetrievalResponse { status: retrieval_status_from_draw(d), blocks: Vec::new() }
}

/// A response without blocks, with a drawn status.
pub fn generate_BlockRetrievalResponse<B>() -> (r: BlockRetrievalResponse<B>)
    ensures
        exists|d: u64| r.status == #[trigger] retrieval_status_for(d),
        r.blocks@.len() == 0,
{
    let d = random_u64();
    let r = block_response_with(d);
    assert(r.status == retrieval_status_for(d));
    r
}

/// A request between two drawn epochs.
pub fn generate_EpochRetrievalRequest() -> (r: EpochRetrievalRequest) {
    let start = random_u64();
    let end = random_u64();
    EpochRetrievalRequest { start_epoch: start, end_epoch: end }
}

/// An epoch change proof of the given ledger infos, `more` as drawn.
pub fn generate_EpochChangeProof<L>(ledger_info_with_sigs: Vec<L>) -> (r: EpochChangeProof<L>)
    ensures
        exists|d: u8| r.more == #[trigger] more_for(d),
        r.ledger_info_with_sigs@ == ledger_info_with_sigs@,
{
    let d = random_u8();
    let more = more_from_draw(d);
    EpochChangeProof { ledger_info_with_sigs, more }
}

} // verus!
