//! The mutation rules: how the fuzzer rewrites a message it has seen.
//!
//! For each message there is a spec function of the message and the draws,
//! an executable function that applies it to given draws (on the draws for
//! which the fuzzer's arithmetic does not overflow or divide by zero), and
//! the mutation itself, which takes fresh draws and answers `None` exactly
//! where those draws would have made the arithmetic fail (and, for a
//! proposal, where its block has no payload).
use vstd::prelude::*;
use crate::counters::{
    block_count, epoch_redraw_divides_by_zero, more_for, more_from_draw, mutate_block_count,
    mutate_proposal_round, mutate_proposal_timestamp, nudge, nudged, proposal_round,
    proposal_timestamp, redraw_epoch, redrawn_epoch, retrieval_status_for,
    retrieval_status_from_draw, COUNTER_STEP, TIMESTAMP_STEP,
};
use crate::model::{
    Author, BlockInfo, BlockRetrievalRequest, BlockRetrievalResponse, EpochChangeProof,
    EpochRetrievalRequest, ProposalMsg, VoteMsg,
};
use crate::random::{random_u64, random_u8};

verus! {

// ---------------------------------------------------------------------------
// Block infos
// ---------------------------------------------------------------------------

/// The four draws that mutate a block info, in the order they are taken.
#[derive(Clone, Copy, Debug, PartialEq, Eq)]
pub struct BlockInfoDraws {
    pub epoch: u64,
    pub round: u64,
    pub version: u64,
    pub timestamp: u64,
}

/// Whether nudging `x` by draw `d` with step `m` leaves the `u64` range.
pub open spec fn nudge_overflows(x: u64, d: u64, m: u64) -> bool {
    nudged(x as int, d as int, m as int) > u64::MAX
}

/// Whether one of the counters of `b` overflows under draws `d`.
pub open spec fn block_info_overflows<E>(b: BlockInfo<E>, d: BlockInfoDraws) -> bool {
    ||| nudge_overflows(b.epoch, d.epoch, COUNTER_STEP)
    ||| nudge_overflows(b.round, d.round, COUNTER_STEP)
    ||| nudge_overflows(b.version, d.version, COUNTER_STEP)
    ||| nudge_overflows(b.timestamp_usecs, d.timestamp, TIMESTAMP_STEP)
}

/// The block info that draws `d` make of `b`: epoch, round and version
/// nudged with step 10, the timestamp with step 10000, the ids and the next
/// epoch state kept.
pub open spec fn mutated_block_info<E>(b: BlockInfo<E>, d: BlockInfoDraws) -> BlockInfo<E> {
    BlockInfo {
        epoch: nudged(b.epoch as int, d.epoch as int, COUNTER_STEP as int) as u64,
        round: nudged(b.round as int, d.round as int, COUNTER_STEP as int) as u64,
        id: b.id,
        executed_state_id: b.executed_state_id,
        version: nudged(b.version as int, d.version as int, COUNTER_STEP as int) as u64,
        timestamp_usecs: nudged(
            b.timestamp_usecs as int,
            d.timestamp as int,
            TIMESTAMP_STEP as int,
        ) as u64,
        next_epoch_state: b.next_epoch_state,
    }
}

/// What mutating `b` with draws `d` gives: `None` where it overflows.
pub open spec fn block_info_outcome<E>(b: BlockInfo<E>, d: BlockInfoDraws) -> Option<BlockInfo<E>> {
    if block_info_overflows(b, d) {
        None
    } else {
        Some(mutated_block_info(b, d))
    }
}

/// Decides [`nudge_overflows`].
pub fn check_nudge_overflows(x: u64, d: u64, m: u64) -> (r: bool)
    requires
        m > 0,
    ensures
        r == nudge_overflows(x, d, m),
{
    d % 4 == 0 && x > u64::MAX - d % m
}

/// Decides [`block_info_overflows`].
pub fn check_block_info_overflows<E>(b: &BlockInfo<E>, d: &BlockInfoDraws) -> (r: bool)
    ensures
        r == block_info_overflows(*b, *d),
{
    check_nudge_overflows(b.epoch, d.epoch, COUNTER_STEP)
        || check_nudge_overflows(b.round, d.round, COUNTER_STEP)
        || check_nudge_overflows(b.version, d.version, COUNTER_STEP)
        || check_nudge_overflows(b.timestamp_usecs, d.timestamp, TIMESTAMP_STEP)
}

/// Mutates a block info with the given draws.
pub fn mutate_block_info_with<E>(cur_info: BlockInfo<E>, d: &BlockInfoDraws) -> (r: BlockInfo<E>)
    requires
        !block_info_overflows(cur_info, *d),
    ensures
        r == mutated_block_info(cur_info, *d),
{
    BlockInfo {
        epoch: nudge(cur_info.epoch, d.epoch, COUNTER_STEP),
        round: nudge(cur_info.round, d.round, COUNTER_STEP),
        id: cur_info.id,
        executed_state_id: cur_info.executed_state_id,
        version: nudge(cur_info.version, d.version, COUNTER_STEP),
        timestamp_usecs: nudge(cur_info.timestamp_usecs, d.timestamp, TIMESTAMP_STEP),
        next_epoch_state: cur_info.next_epoch_state,
    }
}

/// Draws the four values that mutate a block info.
fn draw_block_info() -> (d: BlockInfoDraws) {
    let epoch = random_u64();
    let round = random_u64();
    let version = random_u64();
    let timestamp = random_u64();
    BlockInfoDraws { epoch, round, version, timestamp }
}

/// Applies the outcome of given draws: `None` where they overflow.
pub fn block_info_outcome_of<E>(cur_info: BlockInfo<E>, d: &BlockInfoDraws) -> (r: Option<
    BlockInfo<E>,
>)
    ensures
        r == block_info_outcome(cur_info, *d),
{
    if check_block_info_overflows(&cur_info, d) {
        None
    } else {
        Some(mutate_block_info_with(cur_info, d))
    }
}

/// Whether every counter of `b` has room for any raise a mutation makes:
/// at most one less than the step.
pub open spec fn block_info_has_headroom<E>(b: BlockInfo<E>) -> bool {
    &&& b.epoch + (COUNTER_STEP - 1) <= u64::MAX
    &&& b.round + (COUNTER_STEP - 1) <= u64::MAX
    &&& b.version + (COUNTER_STEP - 1) <= u64::MAX
    &&& b.timestamp_usecs + (TIMESTAMP_STEP - 1) <= u64::MAX
}

/// Mutates a block info with fresh draws.  `None` where the draws overflow
/// a counter; never so for a block info with headroom.
pub fn mutate_blockInfo<E>(cur_info: BlockInfo<E>) -> (r: Option<BlockInfo<E>>)
    ensures
        exists|d: BlockInfoDraws| r == #[trigger] block_info_outcome(cur_info, d),
        block_info_has_headroom(cur_info) ==> r is Some,
{
    let ghost b = cur_info;
    let d = draw_block_info();
    let r = block_info_outcome_of(cur_info, &d);
    assert(r == block_info_outcome(b, d));
    r
}

// ---------------------------------------------------------------------------
// Proposals
// ---------------------------------------------------------------------------

/// The two draws that mutate a proposal: the timestamp's, then the round's.
#[derive(Clone, Copy, Debug, PartialEq, Eq)]
pub struct ProposalDraws {
    pub timestamp: u64,
    pub round: u64,
}

/// Whether the proposal's timestamp or round overflows under draws `d`.
pub open spec fn proposal_overflows<P, Q, Y>(p: ProposalMsg<P, Q, Y>, d: ProposalDraws) -> bool {
    ||| proposal_timestamp(p.timestamp_usecs as int, d.timestamp as int) > u64::MAX
    ||| proposal_round(p.round as int, d.round as int) > u64::MAX
}

/// Whether mutating `p` with draws `d` fails: it overflows, or the
/// proposed block has no payload to carry into the new block.
pub open spec fn proposal_fails<P, Q, Y>(p: ProposalMsg<P, Q, Y>, d: ProposalDraws) -> bool {
    proposal_overflows(p, d) || p.payload is None
}

/// `m` is the proposal that draws `d` make of `p`, for `author`: a block by
/// `author` at the mutated round and timestamp, with no failed authors,
/// carrying the payload and quorum certificate of `p`'s block and `p`'s
/// sync info.
pub open spec fn is_mutated_proposal<P, Q, Y>(
    m: ProposalMsg<P, Q, Y>,
    p: ProposalMsg<P, Q, Y>,
    author: Author,
    d: ProposalDraws,
) -> bool {
    &&& m.author == Some(author)
    &&& m.round == proposal_round(p.round as int, d.round as int)
    &&& m.timestamp_usecs == proposal_timestamp(p.timestamp_usecs as int, d.timestamp as int)
    &&& m.payload == p.payload
    &&& m.quorum_cert == p.quorum_cert
    &&& m.failed_authors@.len() == 0
    &&& m.sync_info == p.sync_info
}

/// `r` is what mutating `p` with draws `d` gives: `None` where it fails,
/// otherwise the mutated proposal.
pub open spec fn proposal_outcome<P, Q, Y>(
    r: Option<ProposalMsg<P, Q, Y>>,
    p: ProposalMsg<P, Q, Y>,
    author: Author,
    d: ProposalDraws,
) -> bool {
    if proposal_fails(p, d) {
        r is None
    } else {
        r matches Some(m) && is_mutated_proposal(m, p, author, d)
    }
}

/// Decides [`proposal_overflows`].
pub fn check_proposal_overflows<P, Q, Y>(p: &ProposalMsg<P, Q, Y>, d: &ProposalDraws) -> (r: bool)
    ensures
        r == proposal_overflows(*p, *d),
{
    let ts = p.timestamp_usecs;
    (d.timestamp % 4 == 0 && ts > u64::MAX - d.timestamp % 10000)
        || (d.timestamp % 4 == 2 && ts > u64::MAX - d.timestamp % 100)
        || (d.round % 3 == 0 && p.round > u64::MAX - 10)
}

/// Mutates a proposal with the given draws: a new proposal by `author`, at
/// the mutated round and timestamp.
pub fn mutate_proposal_with<P, Q, Y>(cur_pro: ProposalMsg<P, Q, Y>, author: Author, d: &ProposalDraws) -> (r:
    ProposalMsg<P, Q, Y>)
    requires
        !proposal_fails(cur_pro, *d),
    ensures
        is_mutated_proposal(r, cur_pro, author, *d),
{
    let timestamp_usecs = mutate_proposal_timestamp(cur_pro.timestamp_usecs, d.timestamp);
    let round = mutate_proposal_round(cur_pro.round, d.round);
    ProposalMsg {
        author: Some(author),
        round,
        timestamp_usecs,
        payload: cur_pro.payload,
        quorum_cert: cur_pro.quorum_cert,
        failed_authors: Vec::new(),
        sync_info: cur_pro.sync_info,
    }
}

/// Applies the outcome of given draws: `None` where they fail.
pub fn proposal_outcome_of<P, Q, Y>(cur_pro: ProposalMsg<P, Q, Y>, author: Author, d: &ProposalDraws) -> (r:
    Option<ProposalMsg<P, Q, Y>>)
    ensures
        proposal_outcome(r, cur_pro, author, *d),
{
    if check_proposal_overflows(&cur_pro, d) || cur_pro.payload.is_none() {
        None
    } else {
        Some(mutate_proposal_with(cur_pro, author, d))
    }
}

/// Whether the round and timestamp of `p` have room for any raise: ten
/// rounds, and 9999 microseconds.
pub open spec fn proposal_has_headroom<P, Q, Y>(p: ProposalMsg<P, Q, Y>) -> bool {
    &&& p.round + 10 <= u64::MAX
    &&& p.timestamp_usecs + (TIMESTAMP_STEP - 1) <= u64::MAX
}

/// Mutates a proposal with fresh draws, re-authoring it for `author`.
/// `None` where the draws overflow or the block has no payload; never so
/// for a proposal with headroom and a payload.
pub fn mutate_proposal<P, Q, Y>(cur_pro: ProposalMsg<P, Q, Y>, author: Author) -> (r: Option<
    ProposalMsg<P, Q, Y>,
>)
    ensures
        exists|d: ProposalDraws| #[trigger] proposal_outcome(r, cur_pro, author, d),
        proposal_has_headroom(cur_pro) && cur_pro.payload is Some ==> r is Some,
{
    let ghost p = cur_pro;
    let timestamp = random_u64();
    let round = random_u64();
    let d = ProposalDraws { timestamp, round };
    let r = proposal_outcome_of(cur_pro, author, &d);
    assert(proposal_outcome(r, p, author, d));
    r
}

// ---------------------------------------------------------------------------
// Votes
// ---------------------------------------------------------------------------

/// The draws that mutate a vote: those of the proposed block info, of the
/// parent, and of the commit info, in that order.
#[derive(Clone, Copy, Debug, PartialEq, Eq)]
pub struct VoteDraws {
    pub proposed: BlockInfoDraws,
    pub parent: BlockInfoDraws,
    pub commit_info: BlockInfoDraws,
}

/// Whether one of the three block infos of `v` overflows under `d`.
pub open spec fn vote_overflows<E, S, Y, T>(v: VoteMsg<E, S, Y, T>, d: VoteDraws) -> bool {
    ||| block_info_overflows(v.proposed, d.proposed)
    ||| block_info_overflows(v.parent, d.parent)
    ||| block_info_overflows(v.commit_info, d.commit_info)
}

/// The vote that draws `d` make of `v`: each block info mutated; the
/// voter, the signature and the sync info kept; no timeout certificate.
pub open spec fn mutated_vote<E, S, Y, T>(v: VoteMsg<E, S, Y, T>, d: VoteDraws) -> VoteMsg<E, S, Y, T> {
    VoteMsg {
        proposed: mutated_block_info(v.proposed, d.proposed),
        parent: mutated_block_info(v.parent, d.parent),
        commit_info: mutated_block_info(v.commit_info, d.commit_info),
        author: v.author,
        signature: v.signature,
        sync_info: v.sync_info,
        two_chain_timeout: None,
    }
}

/// What mutating `v` with draws `d` gives: `None` where it overflows.
pub open spec fn vote_outcome<E, S, Y, T>(v: VoteMsg<E, S, Y, T>, d: VoteDraws) -> Option<VoteMsg<E, S, Y, T>> {
    if vote_overflows(v, d) {
        None
    } else {
        Some(mutated_vote(v, d))
    }
}

/// Decides [`vote_overflows`].
pub fn check_vote_overflows<E, S, Y, T>(v: &VoteMsg<E, S, Y, T>, d: &VoteDraws) -> (r: bool)
    ensures
        r == vote_overflows(*v, *d),
{
    check_block_info_overflows(&v.proposed, &d.proposed)
        || check_block_info_overflows(&v.parent, &d.parent)
        || check_block_info_overflows(&v.commit_info, &d.commit_info)
}

/// Mutates a vote with the given draws.
pub fn mutate_vote_with<E, S, Y, T>(cur_pro: VoteMsg<E, S, Y, T>, d: &VoteDraws) -> (r: VoteMsg<E, S, Y, T>)
    requires
        !vote_overflows(cur_pro, *d),
    ensures
        r == mutated_vote(cur_pro, *d),
{
    VoteMsg {
        proposed: mutate_block_info_with(cur_pro.proposed, &d.proposed),
        parent: mutate_block_info_with(cur_pro.parent, &d.parent),
        commit_info: mutate_block_info_with(cur_pro.commit_info, &d.commit_info),
        author: cur_pro.author,
        signature: cur_pro.signature,
        sync_info: cur_pro.sync_info,
        two_chain_timeout: None,
    }
}

/// Applies the outcome of given draws: `None` where they overflow.
pub fn vote_outcome_of<E, S, Y, T>(cur_pro: VoteMsg<E, S, Y, T>, d: &VoteDraws) -> (r: Option<VoteMsg<E, S, Y, T>>)
    ensures
        r == vote_outcome(cur_pro, *d),
{
    if check_vote_overflows(&cur_pro, d) {
        None
    } else {
        Some(mutate_vote_with(cur_pro, d))
    }
}

/// Mutates a vote with fresh draws.  `None` where the draws overflow; never
/// so when all three block infos have headroom.
pub fn mutate_vote<E, S, Y, T>(cur_pro: VoteMsg<E, S, Y, T>) -> (r: Option<VoteMsg<E, S, Y, T>>)
    ensures
        exists|d: VoteDraws| r == #[trigger] vote_outcome(cur_pro, d),
        block_info_has_headroom(cur_pro.proposed) && block_info_has_headroom(cur_pro.parent)
            && block_info_has_headroom(cur_pro.commit_info) ==> r is Some,
{
    let ghost v = cur_pro;
    let proposed = draw_block_info();
    let parent = draw_block_info();
    let commit_info = draw_block_info();
    let d = VoteDraws { proposed, parent, commit_info };
    let r = vote_outcome_of(cur_pro, &d);
    assert(r == vote_outcome(v, d));
    r
}

// ---------------------------------------------------------------------------
// Block retrieval requests and responses
// ---------------------------------------------------------------------------

/// Whether draw `d` takes the block count of `req` out of the `u64` range.
pub open spec fn block_request_out_of_range(req: BlockRetrievalRequest, d: u64) -> bool {
    !(0 <= block_count(req.num_blocks as int, d as int) <= u64::MAX)
}

/// The request that draw `d` makes of `req`: same block id, new count.
pub open spec fn mutated_block_request(req: BlockRetrievalRequest, d: u64) -> BlockRetrievalRequest {
    BlockRetrievalRequest {
        block_id: req.block_id,
        num_blocks: block_count(req.num_blocks as int, d as int) as u64,
    }
}

/// What mutating `req` with draw `d` gives: `None` out of range.
pub open spec fn block_request_outcome(req: BlockRetrievalRequest, d: u64) -> Option<
    BlockRetrievalRequest,
> {
    if block_request_out_of_range(req, d) {
        None
    } else {
        Some(mutated_block_request(req, d))
    }
}

/// Mutates a block retrieval request with the given draw.
pub fn mutate_block_request_with(cur_pro: &BlockRetrievalRequest, d: u64) -> (r:
    BlockRetrievalRequest)
    requires
        !block_request_out_of_range(*cur_pro, d),
    ensures
        r == mutated_block_request(*cur_pro, d),
{
    BlockRetrievalRequest {
        block_id: cur_pro.block_id,
        num_blocks: mutate_block_count(cur_pro.num_blocks, d),
    }
}

/// Applies the outcome of a given draw: `None` out of range.
pub fn block_request_outcome_of(cur_pro: &BlockRetrievalRequest, d: u64) -> (r: Option<
    BlockRetrievalRequest,
>)
    ensures
        r == block_request_outcome(*cur_pro, d),
{
    if (d % 4 == 0 && cur_pro.num_blocks == u64::MAX) || (d % 4 == 1 && cur_pro.num_blocks == 0) {
        None
    } else {
        Some(mutate_block_request_with(cur_pro, d))
    }
}

/// Mutates a block retrieval request with a fresh draw.  `None` where the
/// draw would raise a count of `u64::MAX` or lower a count of zero; never
/// so for a count strictly between them.
pub fn mutate_BlockRetrievalRequest(cur_pro: BlockRetrievalRequest) -> (r: Option<
    BlockRetrievalRequest,
>)
    ensures
        exists|d: u64| r == #[trigger] block_request_outcome(cur_pro, d),
        0 < cur_pro.num_blocks < u64::MAX ==> r is Some,
{
    let d = random_u64();
    let r = block_request_outcome_of(&cur_pro, d);
    assert(r == block_request_outcome(cur_pro, d));
    r
}

/// Mutates a block retrieval response with the given draw: the status that
/// the draw gives, the same blocks.
pub fn mutate_block_response_with<B>(cur_pro: BlockRetrievalResponse<B>, d: u64) -> (r:
    BlockRetrievalResponse<B>)
    ensures
        r.status == retrieval_status_for(d),
        r.blocks@ == cur_pro.blocks@,
{
    BlockRetrievalResponse { status: retrieval_status_from_draw(d), blocks: cur_pro.blocks }
}

/// Mutates a block retrieval response with a fresh draw: a status drawn
/// anew, the same blocks.
pub fn mutate_BlockRetrievalResponse<B>(cur_pro: BlockRetrievalResponse<B>) -> (r:
    BlockRetrievalResponse<B>)
    ensures
        exists|d: u64| r.status == #[trigger] retrieval_status_for(d),
        r.blocks@ == cur_pro.blocks@,
{
    let d = random_u64();
    let r = mutate_block_response_with(cur_pro, d);
    assert(r.status == retrieval_status_for(d));
    r
}

// ---------------------------------------------------------------------------
// Epoch retrieval requests and epoch change proofs
// ---------------------------------------------------------------------------

/// The two draws that mutate an epoch retrieval request.
#[derive(Clone, Copy, Debug, PartialEq, Eq)]
pub struct EpochDraws {
    pub start: u64,
    pub end: u64,
}

/// Whether draws `d` make the mutation of `req` divide by a zero epoch.
pub open spec fn epoch_request_divides_by_zero(req: EpochRetrievalRequest, d: EpochDraws) -> bool {
    ||| epoch_redraw_divides_by_zero(d.start, req.start_epoch, req.end_epoch)
    ||| epoch_redraw_divides_by_zero(d.end, req.start_epoch, req.end_epoch)
}

/// The request that draws `d` make of `req`: each bound kept, or a draw
/// taken modulo the original start or end epoch.
pub open spec fn mutated_epoch_request(req: EpochRetrievalRequest, d: EpochDraws) -> EpochRetrievalRequest {
    EpochRetrievalRequest {
        start_epoch: redrawn_epoch(d.start, req.start_epoch, req.start_epoch, req.end_epoch),
        end_epoch: redrawn_epoch(d.end, req.end_epoch, req.start_epoch, req.end_epoch),
    }
}

/// What mutating `req` with draws `d` gives: `None` on a division by zero.
pub open spec fn epoch_request_outcome(req: EpochRetrievalRequest, d: EpochDraws) -> Option<
    EpochRetrievalRequest,
> {
    if epoch_request_divides_by_zero(req, d) {
        None
    } else {
        Some(mutated_epoch_request(req, d))
    }
}

/// Mutates an epoch retrieval request with the given draws.
pub fn mutate_epoch_request_with(cur_req: &EpochRetrievalRequest, d: &EpochDraws) -> (r:
    EpochRetrievalRequest)
    requires
        !epoch_request_divides_by_zero(*cur_req, *d),
    ensures
        r == mutated_epoch_request(*cur_req, *d),
{
    EpochRetrievalRequest {
        start_epoch: redraw_epoch(d.start, cur_req.start_epoch, cur_req.start_epoch, cur_req.end_epoch),
        end_epoch: redraw_epoch(d.end, cur_req.end_epoch, cur_req.start_epoch, cur_req.end_epoch),
    }
}

/// Applies the outcome of given draws: `None` on a division by zero.
pub fn epoch_request_outcome_of(cur_req: &EpochRetrievalRequest, d: &EpochDraws) -> (r: Option<
    EpochRetrievalRequest,
>)
    ensures
        r == epoch_request_outcome(*cur_req, *d),
{
    let s0 = cur_req.start_epoch == 0;
    let e0 = cur_req.end_epoch == 0;
    let divides_by_zero = (d.start % 3 == 1 && s0) || (d.start % 3 == 2 && e0) || (d.end % 3 == 1
        && s0) || (d.end % 3 == 2 && e0);
    if divides_by_zero {
        None
    } else {
        Some(mutate_epoch_request_with(cur_req, d))
    }
}

/// Mutates an epoch retrieval request with fresh draws.  `None` where a
/// draw asks for a remainder modulo a zero epoch; never so when both epochs
/// are positive.
pub fn mutate_EpochRetrievalRequest(cur_req: EpochRetrievalRequest) -> (r: Option<
    EpochRetrievalRequest,
>)
    ensures
        exists|d: EpochDraws| r == #[trigger] epoch_request_outcome(cur_req, d),
        cur_req.start_epoch > 0 && cur_req.end_epoch > 0 ==> r is Some,
{
    let start = random_u64();
    let end = random_u64();
    let d = EpochDraws { start, end };
    let r = epoch_request_outcome_of(&cur_req, &d);
    assert(r == epoch_request_outcome(cur_req, d));
    r
}

/// Mutates an epoch change proof with the given drawn byte: the same ledger
/// infos, `more` as the byte says.
pub fn mutate_epoch_change_proof_with<L>(proof: EpochChangeProof<L>, d: u8) -> (r: EpochChangeProof<L>)
    ensures
        r.more == more_for(d),
        r.ledger_info_with_sigs@ == proof.ledger_info_with_sigs@,
{
    EpochChangeProof { ledger_info_with_sigs: proof.ledger_info_with_sigs, more: more_from_draw(d) }
}

/// Mutates an epoch change proof with a fresh byte: the same ledger infos,
/// `more` drawn anew.
pub fn mutate_EpochChangeProof<L>(proof: EpochChangeProof<L>) -> (r: EpochChangeProof<L>)
    ensures
        exists|d: u8| r.more == #[trigger] more_for(d),
        r.ledger_info_with_sigs@ == proof.ledger_info_with_sigs@,
{
    let d = random_u8();
    let r = mutate_epoch_change_proof_with(proof, d);
    assert(r.more == more_for(d));
    r
}

} // verus!
