//! The decisions of the fuzzing loop.
//!
//! The loop keeps a buffer of the consensus messages the node has seen.  On
//! each turn it picks one of them at random and, by its kind, sends a
//! mutated copy (proposals, votes), resends it as it is (sync infos, commit
//! votes, commit decisions), or skips it and starts the next turn at once.
//! After sending it clears a buffer of more than ten messages, then waits.
//! The library decides the turn; the caller sends, clears and waits.
use vstd::prelude::*;
use crate::random::choose_from;

verus! {

/// How long the fuzzer waits before its first turn, in milliseconds.
pub const STARTUP_DELAY_MS: u64 = 10000;

/// How long the fuzzer waits after a turn, in milliseconds.
pub const TURN_DELAY_MS: u64 = 100;

/// A buffer of more messages than this is cleared after a message is sent.
pub const BUFFER_LIMIT: usize = 10;

/// The kind of a buffered consensus message.
#[derive(Clone, Copy, Debug, PartialEq, Eq)]
pub enum MsgKind {
    Proposal,
    SyncInfo,
    Vote,
    CommitVote,
    CommitDecision,
    /// Any other consensus message; the fuzzer does not replay it.
    Other,
}

/// What the fuzzer sends on a turn, from the chosen buffered message.
#[derive(Clone, Copy, Debug, PartialEq, Eq)]
pub enum FuzzAction {
    /// Mutate the proposal and send it to the other validators.
    SendMutatedProposal,
    /// Send the sync info unchanged.
    ResendSyncInfo,
    /// Mutate the vote and send it.
    SendMutatedVote,
    /// Send the commit vote unchanged.
    ResendCommitVote,
    /// Send the commit decision unchanged.
    ResendCommitDecision,
}

/// One turn of the fuzzing loop.
#[derive(Clone, Copy, Debug, PartialEq, Eq)]
pub struct FuzzStep {
    /// The index of the buffered message chosen, if the buffer held any.
    pub chosen: Option<usize>,
    /// What to send, if anything.
    pub action: Option<FuzzAction>,
    /// Whether to empty the buffer after sending.
    pub clear_buffer: bool,
    /// Whether to wait [`TURN_DELAY_MS`] before the next turn.
    pub wait: bool,
}

/// The action for a message of kind `k`; none for other messages.
pub open spec fn action_for(k: MsgKind) -> Option<FuzzAction> {
    match k {
        MsgKind::Proposal => Some(FuzzAction::SendMutatedProposal),
        MsgKind::SyncInfo => Some(FuzzAction::ResendSyncInfo),
        MsgKind::Vote => Some(FuzzAction::SendMutatedVote),
        MsgKind::CommitVote => Some(FuzzAction::ResendCommitVote),
        MsgKind::CommitDecision => Some(FuzzAction::ResendCommitDecision),
        MsgKind::Other => None,
    }
}

/// Whether `chosen` is a choice the loop can make on buffer `kinds`: none
/// for an empty buffer, an index into it otherwise.
pub open spec fn valid_choice(kinds: Seq<MsgKind>, chosen: Option<usize>) -> bool {
    match chosen {
        None => kinds.len() == 0,
        Some(i) => i < kinds.len(),
    }
}

/// The turn taken on buffer `kinds` when `chosen` is picked.  With an
/// empty buffer it sends nothing and waits; on another message it sends
/// nothing, keeps the buffer and does not wait; otherwise it sends the
/// action of the message's kind, clears a buffer of more than ten
/// messages, and waits.
pub open spec fn planned_step(kinds: Seq<MsgKind>, chosen: Option<usize>) -> FuzzStep {
    match chosen {
        None => FuzzStep { chosen: None, action: None, clear_buffer: false, wait: true },
        Some(i) => match action_for(kinds[i as int]) {
            None => FuzzStep { chosen: Some(i), action: None, clear_buffer: false, wait: false },
            Some(a) => FuzzStep {
                chosen: Some(i),
                action: Some(a),
                clear_buffer: kinds.len() > BUFFER_LIMIT,
                wait: true,
            },
        },
    }
}

/// Computes [`action_for`].
pub fn action_for_kind(k: MsgKind) -> (r: Option<FuzzAction>)
    ensures
        r == action_for(k),
{
    match k {
        MsgKind::Proposal => Some(FuzzAction::SendMutatedProposal),
        MsgKind::SyncInfo => Some(FuzzAction::ResendSyncInfo),
        MsgKind::Vote => Some(FuzzAction::SendMutatedVote),
        MsgKind::CommitVote => Some(FuzzAction::ResendCommitVote),
        MsgKind::CommitDecision => Some(FuzzAction::ResendCommitDecision),
        MsgKind::Other => None,
    }
}

/// Plans the turn on buffer `kinds` for the given choice.
pub fn plan_fuzz_step(kinds: &Vec<MsgKind>, chosen: Option<usize>) -> (r: FuzzStep)
    requires
        valid_choice(kinds@, chosen),
    ensures
        r == planned_step(kinds@, chosen),
{
    match chosen {
        None => FuzzStep { chosen: None, action: None, clear_buffer: false, wait: true },
        Some(i) => match action_for_kind(kinds[i]) {
            None => FuzzStep { chosen: Some(i), action: None, clear_buffer: false, wait: false },
            Some(a) => FuzzStep {
                chosen: Some(i),
                action: Some(a),
                clear_buffer: kinds.len() > BUFFER_LIMIT,
                wait: true,
            },
        },
    }
}

/// The indices `0..n` in order.
fn index_list(n: usize) -> (r: Vec<usize>)
    ensures
        r@.len() == n,
        forall|i: int| 0 <= i < n ==> r@[i] == i,
{
    let mut r: Vec<usize> = Vec::with_capacity(n);
    let mut k: usize = 0;
    while k < n
        invariant
            k <= n,
            r@.len() == k,
            forall|i: int| 0 <= i < k ==> r@[i] == i,
        decreases n - k,
    {
        r.push(k);
        k = k + 1;
    }
    r
}

/// Takes one turn on buffer `kinds`, choosing the message at random: the
/// turn is that of some valid choice.
pub fn next_fuzz_step(kinds: &Vec<MsgKind>) -> (r: FuzzStep)
    ensures
        exists|c: Option<usize>| valid_choice(kinds@, c) && r == #[trigger] planned_step(kinds@, c),
{
    let indices = index_list(kinds.len());
    let chosen = choose_from(indices.as_slice());
    proof {
        if let Some(i) = chosen {
            let j = choose|j: int| 0 <= j < indices@.len() && indices@[j] == i;
            assert(indices@[j] == j);
        }
    }
    let r = plan_fuzz_step(kinds, chosen);
    assert(valid_choice(kinds@, chosen) && r == planned_step(kinds@, chosen));
    r
}

/// The number of buffered messages left after `step` on `n` of them.
pub open spec fn buffer_len_after(n: nat, step: FuzzStep) -> nat {
    if step.clear_buffer {
        0
    } else {
        n
    }
}

/// Ends a turn on the buffer itself: empties it where the turn says so,
/// leaves it as it was otherwise.
pub fn finish_fuzz_step<M>(buffer: &mut Vec<M>, step: &FuzzStep)
    ensures
        step.clear_buffer ==> final(buffer)@.len() == 0,
        !step.clear_buffer ==> final(buffer)@ == old(buffer)@,
{
    if step.clear_buffer {
        buffer.clear();
    }
}

/// The buffer after turn `step` on buffer `kinds`: emptied where the turn
/// clears it, as it was otherwise.
pub open spec fn buffer_after_step(kinds: Seq<MsgKind>, step: FuzzStep) -> Seq<MsgKind> {
    if step.clear_buffer {
        Seq::empty()
    } else {
        kinds
    }
}

/// The buffer before turn `n` of a run that starts on buffer `start` and
/// makes the choices `choices`, one per turn.  Nothing else adds to or
/// takes from the buffer during the run.
pub open spec fn run_buffer(start: Seq<MsgKind>, choices: Seq<Option<usize>>, n: nat) -> Seq<
    MsgKind,
>
    decreases n,
{
    if n == 0 {
        start
    } else {
        let prev = run_buffer(start, choices, (n - 1) as nat);
        buffer_after_step(prev, planned_step(prev, choices[n - 1]))
    }
}

/// Turn `n` of that run.
pub open spec fn run_step(start: Seq<MsgKind>, choices: Seq<Option<usize>>, n: nat) -> FuzzStep {
    planned_step(run_buffer(start, choices, n), choices[n as int])
}

/// Whether each choice of the run is one the loop can make on the buffer it
/// has at that turn.
pub open spec fn valid_run(start: Seq<MsgKind>, choices: Seq<Option<usize>>) -> bool {
    forall|n: nat|
        n < choices.len() ==> valid_choice(#[trigger] run_buffer(start, choices, n), choices[n as int])
}

} // verus!
