//! Properties that hold of every mutation and every turn of the fuzzer.
use vstd::prelude::*;
use crate::counters::{more_for, nudged, proposal_round, retrieval_status_for, COUNTER_STEP, TIMESTAMP_STEP};
use crate::model::{
    Author, BlockInfo, BlockRetrievalRequest, BlockRetrievalStatus, EpochRetrievalRequest,
    ProposalMsg, VoteMsg,
};
use crate::mutate::{
    block_info_has_headroom, block_info_outcome, block_info_overflows, block_request_out_of_range,
    epoch_request_divides_by_zero, is_mutated_proposal, mutated_block_info, mutated_block_request,
    mutated_epoch_request, proposal_has_headroom, proposal_overflows,
    mutated_vote, vote_outcome, vote_overflows, BlockInfoDraws, EpochDraws, ProposalDraws,
    VoteDraws,
};
use crate::schedule::{
    action_for, buffer_len_after, planned_step, run_buffer, run_step,
    valid_choice, valid_run, MsgKind, BUFFER_LIMIT,
};

verus! {

/// A counter `y` is a nudge of `x` by draw `d` with step `m`: the same, less
/// than `m` away, or the draw itself.
pub open spec fn near_or_drawn(x: int, y: int, d: int, m: int) -> bool {
    ||| y == x
    ||| (x - m < y < x + m)
    ||| y == d
}

proof fn lemma_nudge_near_or_drawn(x: int, d: int, m: int)
    requires
        m > 0,
        d >= 0,
    ensures
        near_or_drawn(x, nudged(x, d, m), d, m),
        d % 4 == 3 ==> nudged(x, d, m) == x,
        x + (m - 1) <= u64::MAX ==> nudged(x, d, m) <= u64::MAX || d > u64::MAX,
{
}

/// Mutating a block info keeps its id, executed state id and next epoch state, and moves each
/// counter by less than its step (10, or 10000 for the timestamp) unless it
/// replaces it by its draw.  Draws that are 3 modulo 4 change nothing, and
/// a block info with headroom never overflows.
pub proof fn lemma_block_info_mutation<E>(b: BlockInfo<E>, d: BlockInfoDraws)
    ensures
        block_info_has_headroom(b) ==> !block_info_overflows(b, d),
        !block_info_overflows(b, d) ==> {
            let m = mutated_block_info(b, d);
            &&& m.id == b.id
            &&& m.executed_state_id == b.executed_state_id
            &&& m.next_epoch_state == b.next_epoch_state
            &&& near_or_drawn(b.epoch as int, m.epoch as int, d.epoch as int, COUNTER_STEP as int)
            &&& near_or_drawn(b.round as int, m.round as int, d.round as int, COUNTER_STEP as int)
            &&& near_or_drawn(b.version as int, m.version as int, d.version as int, COUNTER_STEP as int)
            &&& near_or_drawn(
                b.timestamp_usecs as int,
                m.timestamp_usecs as int,
                d.timestamp as int,
                TIMESTAMP_STEP as int,
            )
        },
        d.epoch % 4 == 3 && d.round % 4 == 3 && d.version % 4 == 3 && d.timestamp % 4 == 3
            ==> block_info_outcome(b, d) == Some(b),
{
    lemma_nudge_near_or_drawn(b.epoch as int, d.epoch as int, COUNTER_STEP as int);
    lemma_nudge_near_or_drawn(b.round as int, d.round as int, COUNTER_STEP as int);
    lemma_nudge_near_or_drawn(b.version as int, d.version as int, COUNTER_STEP as int);
    lemma_nudge_near_or_drawn(b.timestamp_usecs as int, d.timestamp as int, TIMESTAMP_STEP as int);
}

/// Mutating a vote is mutating each of its three block infos with its own
/// draws: it succeeds exactly when all three do, and gives their results,
/// with the voter, signature and sync info of the original vote and no
/// timeout certificate.
pub proof fn lemma_vote_mutation_is_per_block_info<E, S, Y, T>(v: VoteMsg<E, S, Y, T>, d: VoteDraws)
    ensures
        vote_outcome(v, d) == match (
            block_info_outcome(v.proposed, d.proposed),
            block_info_outcome(v.parent, d.parent),
            block_info_outcome(v.commit_info, d.commit_info),
        ) {
            (Some(p), Some(q), Some(c)) => Some(
                VoteMsg {
                    proposed: p,
                    parent: q,
                    commit_info: c,
                    author: v.author,
                    signature: v.signature,
                    sync_info: v.sync_info,
                    two_chain_timeout: Option::<T>::None,
                },
            ),
            _ => None,
        },
{
}

/// A mutated proposal is by the given author; its round is ten later, ten
/// earlier, the same or the draw; its timestamp is less than 10000 away.
/// A proposal with headroom never overflows.
pub proof fn lemma_proposal_mutation<P, Q, Y>(
    m: ProposalMsg<P, Q, Y>,
    p: ProposalMsg<P, Q, Y>,
    author: Author,
    d: ProposalDraws,
)
    ensures
        proposal_has_headroom(p) ==> !proposal_overflows(p, d),
        !proposal_overflows(p, d) && is_mutated_proposal(m, p, author, d) ==> {
            &&& m.author == Some(author)
            &&& (m.round == p.round + 10 || m.round == p.round - 10 || m.round == p.round
                || m.round == d.round)
            &&& p.timestamp_usecs - 10000 < m.timestamp_usecs < p.timestamp_usecs + 10000
        },
{
}

/// A mutated block retrieval request asks for the same block, and for one
/// block more, one fewer, as many, or the drawn number.
pub proof fn lemma_block_request_mutation(req: BlockRetrievalRequest, d: u64)
    ensures
        !block_request_out_of_range(req, d) ==> {
            let m = mutated_block_request(req, d);
            &&& m.block_id == req.block_id
            &&& (m.num_blocks == req.num_blocks + 1 || m.num_blocks == req.num_blocks - 1
                || m.num_blocks == req.num_blocks || m.num_blocks == d)
        },
        0 < req.num_blocks < u64::MAX ==> !block_request_out_of_range(req, d),
{
}

/// Each bound of a mutated epoch retrieval request is either the original
/// bound or below the larger of the original start and end epochs.
pub proof fn lemma_epoch_request_mutation(req: EpochRetrievalRequest, d: EpochDraws)
    ensures
        !epoch_request_divides_by_zero(req, d) ==> {
            let m = mutated_epoch_request(req, d);
            let top = if req.start_epoch >= req.end_epoch {
                req.start_epoch
            } else {
                req.end_epoch
            };
            &&& (m.start_epoch == req.start_epoch || m.start_epoch < top)
            &&& (m.end_epoch == req.end_epoch || m.end_epoch < top)
        },
        req.start_epoch > 0 && req.end_epoch > 0 ==> !epoch_request_divides_by_zero(req, d),
{
}

/// A turn that sends a message leaves at most ten messages buffered; a
/// buffer of at most ten messages is never cleared, nor one on which
/// nothing is sent.
pub proof fn lemma_turn_bounds_buffer(kinds: Seq<MsgKind>, chosen: Option<usize>)
    requires
        valid_choice(kinds, chosen),
    ensures
        planned_step(kinds, chosen).action is Some ==> buffer_len_after(
            kinds.len(),
            planned_step(kinds, chosen),
        ) <= BUFFER_LIMIT,
        kinds.len() <= BUFFER_LIMIT ==> !planned_step(kinds, chosen).clear_buffer,
        planned_step(kinds, chosen).action is None ==> !planned_step(kinds, chosen).clear_buffer,
{
}

/// The loop goes on without waiting exactly when it picked a message that
/// it does not replay.
pub proof fn lemma_turn_skips_wait_only_on_other(kinds: Seq<MsgKind>, chosen: Option<usize>)
    requires
        valid_choice(kinds, chosen),
    ensures
        !planned_step(kinds, chosen).wait <==> (chosen matches Some(i) && kinds[i as int]
            == MsgKind::Other),
{
}

// ---------------------------------------------------------------------------
// Runs of the fuzzing loop
// ---------------------------------------------------------------------------

/// At every turn of a run the buffer is its starting buffer or empty.
pub proof fn lemma_run_buffer_start_or_empty(
    start: Seq<MsgKind>,
    choices: Seq<Option<usize>>,
    n: nat,
)
    ensures
        run_buffer(start, choices, n) == start || run_buffer(start, choices, n).len() == 0,
    decreases n,
{
    if n > 0 {
        lemma_run_buffer_start_or_empty(start, choices, (n - 1) as nat);
    }
}

/// Once a run's buffer is empty it stays empty.
pub proof fn lemma_run_buffer_stays_empty(
    start: Seq<MsgKind>,
    choices: Seq<Option<usize>>,
    m: nat,
    n: nat,
)
    requires
        m <= n,
        run_buffer(start, choices, m).len() == 0,
    ensures
        run_buffer(start, choices, n).len() == 0,
    decreases n - m,
{
    if m < n {
        lemma_run_buffer_stays_empty(start, choices, m, (n - 1) as nat);
    }
}

/// A turn of a valid run on an empty buffer sends nothing.
proof fn lemma_empty_turn_sends_nothing(start: Seq<MsgKind>, choices: Seq<Option<usize>>, n: nat)
    requires
        valid_run(start, choices),
        n < choices.len(),
        run_buffer(start, choices, n).len() == 0,
    ensures
        run_step(start, choices, n).action is None,
        run_buffer(start, choices, n + 1).len() == 0,
{
    assert(valid_choice(run_buffer(start, choices, n), choices[n as int]));
}

/// A run that starts on an empty buffer sends nothing, and its buffer stays
/// empty.
pub proof fn lemma_run_from_empty_buffer(start: Seq<MsgKind>, choices: Seq<Option<usize>>, n: nat)
    requires
        valid_run(start, choices),
        start.len() == 0,
        n <= choices.len(),
    ensures
        run_buffer(start, choices, n).len() == 0,
        n < choices.len() ==> run_step(start, choices, n).action is None,
{
    lemma_run_buffer_stays_empty(start, choices, 0, n);
    if n < choices.len() {
        lemma_empty_turn_sends_nothing(start, choices, n);
    }
}

/// The buffer changes on a turn only when that turn sends a message from a
/// buffer of more than ten, and then it is emptied.  Throughout a run the
/// buffer is its starting buffer or empty, and a starting buffer of at
/// most ten messages is never changed.
pub proof fn lemma_run_buffer_changes(start: Seq<MsgKind>, choices: Seq<Option<usize>>, n: nat)
    requires
        valid_run(start, choices),
        n < choices.len(),
    ensures
        run_buffer(start, choices, n) == start || run_buffer(start, choices, n).len() == 0,
        run_buffer(start, choices, n + 1) != run_buffer(start, choices, n) ==> {
            &&& run_step(start, choices, n).action is Some
            &&& run_buffer(start, choices, n).len() > BUFFER_LIMIT
            &&& run_buffer(start, choices, n + 1).len() == 0
        },
        start.len() <= BUFFER_LIMIT ==> run_buffer(start, choices, n + 1) == start,
    decreases n,
{
    lemma_run_buffer_start_or_empty(start, choices, n);
    assert(valid_choice(run_buffer(start, choices, n), choices[n as int]));
    if n > 0 {
        lemma_run_buffer_changes(start, choices, (n - 1) as nat);
    }
    if start.len() <= BUFFER_LIMIT {
        if run_buffer(start, choices, n).len() == 0 {
            assert(run_buffer(start, choices, n + 1) =~= run_buffer(start, choices, n));
        }
    }
}

/// Every message a run sends is one of its starting buffer: on a turn that
/// sends, the buffer is the starting one, the chosen index lies in it, and
/// the action is that of the chosen message's kind.
pub proof fn lemma_run_sends_from_start(start: Seq<MsgKind>, choices: Seq<Option<usize>>, n: nat)
    requires
        valid_run(start, choices),
        n < choices.len(),
        run_step(start, choices, n).action is Some,
    ensures
        run_buffer(start, choices, n) == start,
        run_step(start, choices, n).chosen matches Some(i) && i < start.len()
            && run_step(start, choices, n).action == action_for(start[i as int]),
{
    lemma_run_buffer_start_or_empty(start, choices, n);
    assert(valid_choice(run_buffer(start, choices, n), choices[n as int]));
}

/// A run that starts on more than ten messages sends at most once: after
/// a send the buffer is empty, and no later turn sends.
pub proof fn lemma_large_buffer_sends_at_most_once(
    start: Seq<MsgKind>,
    choices: Seq<Option<usize>>,
    i: nat,
    j: nat,
)
    requires
        valid_run(start, choices),
        start.len() > BUFFER_LIMIT,
        i < j < choices.len(),
        run_step(start, choices, i).action is Some,
    ensures
        run_buffer(start, choices, i + 1).len() == 0,
        run_step(start, choices, j).action is None,
{
    lemma_run_sends_from_start(start, choices, i);
    lemma_run_buffer_stays_empty(start, choices, i + 1, j);
    lemma_empty_turn_sends_nothing(start, choices, j);
}

/// A run that starts on messages the fuzzer does not replay never sends
/// and never changes its buffer, however large.
pub proof fn lemma_run_of_unreplayed_messages(
    start: Seq<MsgKind>,
    choices: Seq<Option<usize>>,
    n: nat,
)
    requires
        valid_run(start, choices),
        forall|k: int| 0 <= k < start.len() ==> start[k] == MsgKind::Other,
        n <= choices.len(),
    ensures
        run_buffer(start, choices, n) == start,
        n < choices.len() ==> run_step(start, choices, n).action is None,
    decreases n,
{
    if n > 0 {
        lemma_run_of_unreplayed_messages(start, choices, (n - 1) as nat);
        assert(valid_choice(run_buffer(start, choices, (n - 1) as nat), choices[n - 1]));
    }
    if n < choices.len() {
        assert(valid_choice(run_buffer(start, choices, n), choices[n as int]));
    }
}

// ---------------------------------------------------------------------------
// The rule of each draw, case by case
// ---------------------------------------------------------------------------

/// Counter `new` is what draw `d` makes of counter `old` with step `step`,
/// case by case on `d % 4`: raised by `d % step`; lowered by `d % step`
/// when `old` exceeds `step`, kept when it does not; replaced by `d`; kept.
pub open spec fn counter_rule_holds(old: int, new: int, d: int, step: int) -> bool {
    &&& d % 4 == 0 ==> new == old + d % step
    &&& d % 4 == 1 && old > step ==> new == old - d % step
    &&& d % 4 == 1 && old <= step ==> new == old
    &&& d % 4 == 2 ==> new == d
    &&& d % 4 == 3 ==> new == old
}

/// Raising counter `x` by draw `d` with step `step` goes past `u64::MAX`:
/// the only way a counter rule can fail.
pub open spec fn counter_raise_overflows(x: int, d: int, step: int) -> bool {
    d % 4 == 0 && x + d % step > 0xffff_ffff_ffff_ffff
}

/// Each counter of a mutated block info follows its rule by its own draw:
/// epoch, round and version with step 10, the timestamp with step 10000.
/// The mutation overflows exactly when one of the four raises does.
pub proof fn lemma_block_info_counter_rules<E>(b: BlockInfo<E>, d: BlockInfoDraws)
    ensures
        block_info_overflows(b, d) <==> (counter_raise_overflows(b.epoch as int, d.epoch as int, 10)
            || counter_raise_overflows(b.round as int, d.round as int, 10)
            || counter_raise_overflows(b.version as int, d.version as int, 10)
            || counter_raise_overflows(b.timestamp_usecs as int, d.timestamp as int, 10000)),
        !block_info_overflows(b, d) ==> {
            let m = mutated_block_info(b, d);
            &&& counter_rule_holds(b.epoch as int, m.epoch as int, d.epoch as int, 10)
            &&& counter_rule_holds(b.round as int, m.round as int, d.round as int, 10)
            &&& counter_rule_holds(b.version as int, m.version as int, d.version as int, 10)
            &&& counter_rule_holds(
                b.timestamp_usecs as int,
                m.timestamp_usecs as int,
                d.timestamp as int,
                10000,
            )
        },
{
}

/// Each block info of a mutated vote follows the counter rules by its own
/// draws.
pub proof fn lemma_vote_counter_rules<E, S, Y, T>(v: VoteMsg<E, S, Y, T>, d: VoteDraws)
    ensures
        !vote_overflows(v, d) ==> {
            let m = mutated_vote(v, d);
            &&& counter_rule_holds(v.proposed.round as int, m.proposed.round as int, d.proposed.round as int, 10)
            &&& counter_rule_holds(v.proposed.epoch as int, m.proposed.epoch as int, d.proposed.epoch as int, 10)
            &&& counter_rule_holds(v.proposed.version as int, m.proposed.version as int, d.proposed.version as int, 10)
            &&& counter_rule_holds(v.proposed.timestamp_usecs as int, m.proposed.timestamp_usecs as int, d.proposed.timestamp as int, 10000)
            &&& counter_rule_holds(v.parent.round as int, m.parent.round as int, d.parent.round as int, 10)
            &&& counter_rule_holds(v.parent.epoch as int, m.parent.epoch as int, d.parent.epoch as int, 10)
            &&& counter_rule_holds(v.parent.version as int, m.parent.version as int, d.parent.version as int, 10)
            &&& counter_rule_holds(v.parent.timestamp_usecs as int, m.parent.timestamp_usecs as int, d.parent.timestamp as int, 10000)
            &&& counter_rule_holds(v.commit_info.round as int, m.commit_info.round as int, d.commit_info.round as int, 10)
            &&& counter_rule_holds(v.commit_info.epoch as int, m.commit_info.epoch as int, d.commit_info.epoch as int, 10)
            &&& counter_rule_holds(v.commit_info.version as int, m.commit_info.version as int, d.commit_info.version as int, 10)
            &&& counter_rule_holds(v.commit_info.timestamp_usecs as int, m.commit_info.timestamp_usecs as int, d.commit_info.timestamp as int, 10000)
        },
{
    lemma_block_info_counter_rules(v.proposed, d.proposed);
    lemma_block_info_counter_rules(v.parent, d.parent);
    lemma_block_info_counter_rules(v.commit_info, d.commit_info);
}

/// The round of a mutated proposal, case by case on the draw modulo 3: ten
/// later; ten earlier when above ten, the same otherwise; the draw itself.
pub open spec fn proposal_round_rule_holds(old: int, new: int, d: int) -> bool {
    &&& d % 3 == 0 ==> new == old + 10
    &&& d % 3 == 1 && old > 10 ==> new == old - 10
    &&& d % 3 == 1 && old <= 10 ==> new == old
    &&& d % 3 == 2 ==> new == d
}

/// The timestamp of a mutated proposal, case by case on the draw modulo 4:
/// raised by the draw modulo 10000; lowered by it when above 10000, the
/// same otherwise; raised by the draw modulo 100; the same.
pub open spec fn proposal_timestamp_rule_holds(old: int, new: int, d: int) -> bool {
    &&& d % 4 == 0 ==> new == old + d % 10000
    &&& d % 4 == 1 && old > 10000 ==> new == old - d % 10000
    &&& d % 4 == 1 && old <= 10000 ==> new == old
    &&& d % 4 == 2 ==> new == old + d % 100
    &&& d % 4 == 3 ==> new == old
}

/// The round rule of a proposal, for every round and draw.
pub proof fn lemma_proposal_round_rule(round: u64, d: u64)
    ensures
        proposal_round_rule_holds(round as int, proposal_round(round as int, d as int), d as int),
{
}

/// A mutated proposal's round follows the round rule by the round draw and
/// its timestamp the timestamp rule by the timestamp draw.  The mutation
/// overflows exactly when a round draw of 0 modulo 3 raises a round above
/// `u64::MAX - 10`, or a timestamp draw of 0 (or 2) modulo 4 raises the
/// timestamp past `u64::MAX` by its remainder modulo 10000 (or 100).
pub proof fn lemma_proposal_rules<P, Q, Y>(
    m: ProposalMsg<P, Q, Y>,
    p: ProposalMsg<P, Q, Y>,
    author: Author,
    d: ProposalDraws,
)
    ensures
        proposal_overflows(p, d) <==> ((d.round % 3 == 0 && p.round + 10 > 0xffff_ffff_ffff_ffffu64)
            || (d.timestamp % 4 == 0 && p.timestamp_usecs + d.timestamp % 10000
            > 0xffff_ffff_ffff_ffffu64) || (d.timestamp % 4 == 2 && p.timestamp_usecs + d.timestamp
            % 100 > 0xffff_ffff_ffff_ffffu64)),
        is_mutated_proposal(m, p, author, d) ==> {
            &&& proposal_round_rule_holds(p.round as int, m.round as int, d.round as int)
            &&& proposal_timestamp_rule_holds(
                p.timestamp_usecs as int,
                m.timestamp_usecs as int,
                d.timestamp as int,
            )
        },
{
}

/// Each bound of a mutated epoch retrieval request, case by case on its
/// own draw modulo 3: the original bound; the draw modulo the original
/// start epoch; the draw modulo the original end epoch.  The mutation
/// fails exactly when a draw asks for a remainder modulo a zero epoch.
pub proof fn lemma_epoch_request_rules(req: EpochRetrievalRequest, d: EpochDraws)
    ensures
        epoch_request_divides_by_zero(req, d) <==> ((d.start % 3 == 1 || d.end % 3 == 1)
            && req.start_epoch == 0 || (d.start % 3 == 2 || d.end % 3 == 2) && req.end_epoch == 0),
        !epoch_request_divides_by_zero(req, d) ==> {
            let m = mutated_epoch_request(req, d);
            &&& d.start % 3 == 0 ==> m.start_epoch == req.start_epoch
            &&& d.start % 3 == 1 ==> m.start_epoch == d.start % req.start_epoch
            &&& d.start % 3 == 2 ==> m.start_epoch == d.start % req.end_epoch
            &&& d.end % 3 == 0 ==> m.end_epoch == req.end_epoch
            &&& d.end % 3 == 1 ==> m.end_epoch == d.end % req.start_epoch
            &&& d.end % 3 == 2 ==> m.end_epoch == d.end % req.end_epoch
        },
{
}

/// The block count of a mutated retrieval request, case by case on the
/// draw modulo 4: one more; one fewer; the draw; the same.  The mutation
/// fails exactly when it would raise `u64::MAX` or lower zero.
pub proof fn lemma_block_request_rules(req: BlockRetrievalRequest, d: u64)
    ensures
        block_request_out_of_range(req, d) <==> ((d % 4 == 0 && req.num_blocks == u64::MAX) || (d
            % 4 == 1 && req.num_blocks == 0)),
        !block_request_out_of_range(req, d) ==> {
            let m = mutated_block_request(req, d);
            &&& d % 4 == 0 ==> m.num_blocks == req.num_blocks + 1
            &&& d % 4 == 1 ==> m.num_blocks == req.num_blocks - 1
            &&& d % 4 == 2 ==> m.num_blocks == d
            &&& d % 4 == 3 ==> m.num_blocks == req.num_blocks
        },
{
}

/// The status of a drawn or mutated block retrieval response, by the draw
/// modulo 3: `IdNotFound`, `NotEnoughBlocks`, `Succeeded`.
pub proof fn lemma_retrieval_status_rule(d: u64)
    ensures
        d % 3 == 0 ==> retrieval_status_for(d) == BlockRetrievalStatus::IdNotFound,
        d % 3 == 1 ==> retrieval_status_for(d) == BlockRetrievalStatus::NotEnoughBlocks,
        d % 3 == 2 ==> retrieval_status_for(d) == BlockRetrievalStatus::Succeeded,
{
}

/// An epoch change proof says that more follow exactly on an even drawn
/// byte.
pub proof fn lemma_more_rule(d: u8)
    ensures
        more_for(d) <==> d % 2 == 0,
{
}

} // verus!
