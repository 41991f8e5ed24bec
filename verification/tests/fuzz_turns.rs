use loki_fuzzer::schedule::{
    action_for_kind, finish_fuzz_step, next_fuzz_step, plan_fuzz_step, FuzzAction, FuzzStep,
    MsgKind, BUFFER_LIMIT,
};

#[test]
fn empty_buffer_waits() {
    let step = plan_fuzz_step(&vec![], None);
    assert_eq!(step, FuzzStep { chosen: None, action: None, clear_buffer: false, wait: true });
    assert_eq!(next_fuzz_step(&vec![]), step);
}

#[test]
fn actions_by_kind() {
    assert_eq!(action_for_kind(MsgKind::Proposal), Some(FuzzAction::SendMutatedProposal));
    assert_eq!(action_for_kind(MsgKind::SyncInfo), Some(FuzzAction::ResendSyncInfo));
    assert_eq!(action_for_kind(MsgKind::Vote), Some(FuzzAction::SendMutatedVote));
    assert_eq!(action_for_kind(MsgKind::CommitVote), Some(FuzzAction::ResendCommitVote));
    assert_eq!(action_for_kind(MsgKind::CommitDecision), Some(FuzzAction::ResendCommitDecision));
    assert_eq!(action_for_kind(MsgKind::Other), None);
}

#[test]
fn other_message_skips_without_waiting() {
    let kinds = vec![MsgKind::Vote, MsgKind::Other];
    let step = plan_fuzz_step(&kinds, Some(1));
    assert_eq!(step, FuzzStep { chosen: Some(1), action: None, clear_buffer: false, wait: false });
}

#[test]
fn small_buffer_is_kept() {
    let kinds = vec![MsgKind::Proposal; BUFFER_LIMIT];
    let step = plan_fuzz_step(&kinds, Some(3));
    assert_eq!(step, FuzzStep {
        chosen: Some(3),
        action: Some(FuzzAction::SendMutatedProposal),
        clear_buffer: false,
        wait: true,
    });
}

#[test]
fn large_buffer_is_cleared_after_sending() {
    let mut kinds = vec![MsgKind::SyncInfo; BUFFER_LIMIT + 1];
    kinds[4] = MsgKind::Other;
    let step = plan_fuzz_step(&kinds, Some(0));
    assert_eq!(step.action, Some(FuzzAction::ResendSyncInfo));
    assert!(step.clear_buffer);
    let mut buffer: Vec<u32> = (0..11).collect();
    finish_fuzz_step(&mut buffer, &step);
    assert!(buffer.is_empty());
    // Skipping an unreplayed message keeps even a large buffer.
    let skip = plan_fuzz_step(&kinds, Some(4));
    assert!(!skip.clear_buffer);
    let mut buffer: Vec<u32> = (0..11).collect();
    finish_fuzz_step(&mut buffer, &skip);
    assert_eq!(buffer.len(), 11);
}

#[test]
fn random_turn_picks_inside_buffer() {
    let kinds = vec![
        MsgKind::Proposal,
        MsgKind::SyncInfo,
        MsgKind::Vote,
        MsgKind::CommitVote,
        MsgKind::CommitDecision,
        MsgKind::Other,
    ];
    let mut seen = std::collections::HashSet::new();
    for _ in 0..200 {
        let step = next_fuzz_step(&kinds);
        let i = step.chosen.expect("non-empty buffer");
        assert!(i < kinds.len());
        assert_eq!(step, plan_fuzz_step(&kinds, Some(i)));
        seen.insert(i);
    }
    assert!(seen.len() > 1);
}

/// Runs the turns with the given choices on a buffer of `kinds`, as the
/// loop does, and returns the indices of the messages sent.
fn run(buffer: &mut Vec<MsgKind>, choices: &[Option<usize>]) -> Vec<usize> {
    let mut sent = Vec::new();
    for c in choices {
        let c = if buffer.is_empty() { None } else { c.map(|i| i % buffer.len()) };
        let step = plan_fuzz_step(buffer, c);
        if step.action.is_some() {
            sent.push(step.chosen.unwrap());
        }
        let before = buffer.clone();
        finish_fuzz_step(buffer, &step);
        assert!(*buffer == before || buffer.is_empty());
    }
    sent
}

#[test]
fn run_from_empty_buffer_sends_nothing() {
    let mut buffer = vec![];
    assert!(run(&mut buffer, &[Some(0), None, Some(3)]).is_empty());
    assert!(buffer.is_empty());
}

#[test]
fn run_on_large_buffer_sends_once() {
    let mut buffer = vec![MsgKind::Vote; BUFFER_LIMIT + 1];
    buffer[0] = MsgKind::Other;
    let sent = run(&mut buffer, &[Some(0), Some(0), Some(2), Some(5), Some(1)]);
    assert_eq!(sent, vec![2]);
    assert!(buffer.is_empty());
}

#[test]
fn run_on_small_buffer_keeps_it() {
    let start = vec![MsgKind::Proposal, MsgKind::CommitVote, MsgKind::Other];
    let mut buffer = start.clone();
    let sent = run(&mut buffer, &[Some(0), Some(1), Some(2), Some(1)]);
    assert_eq!(sent, vec![0, 1, 1]);
    assert_eq!(buffer, start);
}

#[test]
fn run_of_unreplayed_messages_changes_nothing() {
    let start = vec![MsgKind::Other; BUFFER_LIMIT + 5];
    let mut buffer = start.clone();
    assert!(run(&mut buffer, &[Some(0), Some(7), Some(14)]).is_empty());
    assert_eq!(buffer, start);
}
