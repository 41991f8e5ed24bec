//! How one random draw rewrites one counter.
//!
//! Each rule is a spec function over mathematical integers, so that a value
//! above `u64::MAX` (or below zero) shows where the fuzzer's own `u64`
//! arithmetic would overflow, and an executable function that applies it to
//! the inputs on which it does not.
use vstd::prelude::*;
use crate::model::BlockRetrievalStatus;

verus! {

/// The step below which a block-info counter is never lowered, and the bound
/// of the amount by which it is moved.
pub const COUNTER_STEP: u64 = 10;

/// The same for timestamps, in microseconds.
pub const TIMESTAMP_STEP: u64 = 10000;

/// By `d % 4`: raise `x` by `d % m`; lower it by `d % m` when it exceeds
/// `m`; replace it by the draw `d`; or keep it.
pub open spec fn nudged(x: int, d: int, m: int) -> int {
    if d % 4 == 0 {
        x + d % m
    } else if d % 4 == 1 && x > m {
        x - d % m
    } else if d % 4 == 2 {
        d
    } else {
        x
    }
}

/// Applies [`nudged`] to a `u64` counter.
pub fn nudge(x: u64, d: u64, m: u64) -> (r: u64)
    requires
        m > 0,
        nudged(x as int, d as int, m as int) <= u64::MAX,
    ensures
        r == nudged(x as int, d as int, m as int),
{
    if d % 4 == 0 {
        x + d % m
    } else if d % 4 == 1 && x > m {
        x - d % m
    } else if d % 4 == 2 {
        d
    } else {
        x
    }
}

/// The new timestamp of a mutated proposal, by `d % 4`: raised by
/// `d % 10000`; lowered by `d % 10000` when above 10000; raised by
/// `d % 100`; or kept.
pub open spec fn proposal_timestamp(ts: int, d: int) -> int {
    if d % 4 == 0 {
        ts + d % 10000
    } else if d % 4 == 1 && ts > 10000 {
        ts - d % 10000
    } else if d % 4 == 2 {
        ts + d % 100
    } else {
        ts
    }
}

/// Applies [`proposal_timestamp`] to a `u64` timestamp.
pub fn mutate_proposal_timestamp(ts: u64, d: u64) -> (r: u64)
    requires
        proposal_timestamp(ts as int, d as int) <= u64::MAX,
    ensures
        r == proposal_timestamp(ts as int, d as int),
{
    if d % 4 == 0 {
        ts + d % 10000
    } else if d % 4 == 1 && ts > 10000 {
        ts - d % 10000
    } else if d % 4 == 2 {
        ts + d % 100
    } else {
        ts
    }
}

/// The new round of a mutated proposal, by `d % 3`: ten rounds later; ten
/// rounds earlier when above ten; or the draw itself.  A round of at most
/// ten with `d % 3 == 1` is kept.
pub open spec fn proposal_round(round: int, d: int) -> int {
    if d % 3 == 0 {
        round + 10
    } else if d % 3 == 1 && round > 10 {
        round - 10
    } else if d % 3 == 2 {
        d
    } else {
        round
    }
}

/// Applies [`proposal_round`] to a `u64` round.
pub fn mutate_proposal_round(round: u64, d: u64) -> (r: u64)
    requires
        proposal_round(round as int, d as int) <= u64::MAX,
    ensures
        r == proposal_round(round as int, d as int),
{
    if d % 3 == 0 {
        round + 10
    } else if d % 3 == 1 && round > 10 {
        round - 10
    } else if d % 3 == 2 {
        d
    } else {
        round
    }
}

/// The new block count of a mutated retrieval request, by `d % 4`: one
/// more; one fewer; the draw itself; or kept.  Below zero or above
/// `u64::MAX` where the count has no room.
pub open spec fn block_count(n: int, d: int) -> int {
    if d % 4 == 0 {
        n + 1
    } else if d % 4 == 1 {
        n - 1
    } else if d % 4 == 2 {
        d
    } else {
        n
    }
}

/// Applies [`block_count`] to a `u64` count.
pub fn mutate_block_count(n: u64, d: u64) -> (r: u64)
    requires
        0 <= block_count(n as int, d as int) <= u64::MAX,
    ensures
        r == block_count(n as int, d as int),
{
    if d % 4 == 0 {
        n + 1
    } else if d % 4 == 1 {
        n - 1
    } else if d % 4 == 2 {
        d
    } else {
        n
    }
}

/// Whether [`redrawn_epoch`] divides by zero for this draw.
pub open spec fn epoch_redraw_divides_by_zero(d: u64, start: u64, end: u64) -> bool {
    (d % 3 == 1 && start == 0) || (d % 3 == 2 && end == 0)
}

/// A bound of a mutated epoch retrieval request, by `d % 3`: the bound
/// `kept` of the original request; the draw modulo the original start
/// epoch; or the draw modulo the original end epoch.
pub open spec fn redrawn_epoch(d: u64, kept: u64, start: u64, end: u64) -> u64 {
    if d % 3 == 0 {
        kept
    } else if d % 3 == 1 {
        (d % start) as u64
    } else {
        (d % end) as u64
    }
}

/// Applies [`redrawn_epoch`].
pub fn redraw_epoch(d: u64, kept: u64, start: u64, end: u64) -> (r: u64)
    requires
        !epoch_redraw_divides_by_zero(d, start, end),
    ensures
        r == redrawn_epoch(d, kept, start, end),
{
    if d % 3 == 0 {
        kept
    } else if d % 3 == 1 {
        d % start
    } else {
        d % end
    }
}

/// The status that a draw gives a block retrieval response, by `d % 3`.
pub open spec fn retrieval_status_for(d: u64) -> BlockRetrievalStatus {
    if d % 3 == 0 {
        BlockRetrievalStatus::IdNotFound
    } else if d % 3 == 1 {
        BlockRetrievalStatus::NotEnoughBlocks
    } else {
        BlockRetrievalStatus::Succeeded
    }
}

/// Computes [`retrieval_status_for`].
pub fn retrieval_status_from_draw(d: u64) -> (r: BlockRetrievalStatus)
    ensures
        r == retrieval_status_for(d),
{
    if d % 3 == 0 {
        BlockRetrievalStatus::IdNotFound
    } else if d % 3 == 1 {
        BlockRetrievalStatus::NotEnoughBlocks
    } else {
        BlockRetrievalStatus::Succeeded
    }
}

/// Whether a drawn byte says that more epoch change proofs follow.
pub open spec fn more_for(d: u8) -> bool {
    d % 2 == 0
}

/// Computes [`more_for`].
pub fn more_from_draw(d: u8) -> (r: bool)
    ensures
        r == more_for(d),
{
    d % 2 == 0
}

} // verus!
