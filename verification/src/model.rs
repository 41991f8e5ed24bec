//! Plain-value models of the consensus messages that the fuzzer rewrites.
use vstd::prelude::*;

verus! {

/// A 32-byte cryptographic hash (a block id, an executed state id).
#[derive(Clone, Copy, Debug, PartialEq, Eq)]
pub struct HashValue {
    pub bytes: [u8; 32],
}

/// The account address of a validator.
#[derive(Clone, Copy, Debug, PartialEq, Eq)]
pub struct Author {
    pub bytes: [u8; 32],
}

/// The fields of a block info that the fuzzer reads or carries over.
/// `E` is the type of the next epoch state, which the fuzzer only carries.
#[derive(Clone, Copy, Debug, PartialEq, Eq)]
pub struct BlockInfo<E> {
    pub epoch: u64,
    pub round: u64,
    pub id: HashValue,
    pub executed_state_id: HashValue,
    pub version: u64,
    pub timestamp_usecs: u64,
    pub next_epoch_state: E,
}

/// A proposal message, as the fuzzer sees it: the author, round and
/// timestamp of the proposed block, the authors whose proposals failed
/// before it (with their rounds), and the parts it only carries: the
/// block's payload (of type `P`, absent from blocks that have none), its
/// quorum certificate (`Q`) and the message's sync info (`Y`).
#[derive(Clone, Debug, PartialEq, Eq)]
pub struct ProposalMsg<P, Q, Y> {
    pub author: Option<Author>,
    pub round: u64,
    pub timestamp_usecs: u64,
    pub payload: Option<P>,
    pub quorum_cert: Q,
    pub failed_authors: Vec<(u64, Author)>,
    pub sync_info: Y,
}

/// A vote message, as the fuzzer sees it: the block infos of the voted
/// block, of its parent and of the commit info of the vote's ledger info;
/// the voter; and the parts it only carries: the signature (`S`), the sync
/// info (`Y`) and the vote's timeout certificate, if any (`T`).
#[derive(Clone, Copy, Debug, PartialEq, Eq)]
pub struct VoteMsg<E, S, Y, T> {
    pub proposed: BlockInfo<E>,
    pub parent: BlockInfo<E>,
    pub commit_info: BlockInfo<E>,
    pub author: Author,
    pub signature: S,
    pub sync_info: Y,
    pub two_chain_timeout: Option<T>,
}

/// A request for `num_blocks` blocks ending at `block_id`.
#[derive(Clone, Copy, Debug, PartialEq, Eq)]
pub struct BlockRetrievalRequest {
    pub block_id: HashValue,
    pub num_blocks: u64,
}

/// The status of a block retrieval response.
#[derive(Clone, Copy, Debug, PartialEq, Eq)]
pub enum BlockRetrievalStatus {
    Succeeded,
    IdNotFound,
    NotEnoughBlocks,
}

/// A block retrieval response: a status and the blocks it carries.
#[derive(Debug)]
pub struct BlockRetrievalResponse<B> {
    pub status: BlockRetrievalStatus,
    pub blocks: Vec<B>,
}

/// A request for the epoch change proofs from `start_epoch` to `end_epoch`.
#[derive(Clone, Copy, Debug, PartialEq, Eq)]
pub struct EpochRetrievalRequest {
    pub start_epoch: u64,
    pub end_epoch: u64,
}

/// An epoch change proof: signed ledger infos and whether more follow.
#[derive(Debug)]
pub struct EpochChangeProof<L> {
    pub ledger_info_with_sigs: Vec<L>,
    pub more: bool,
}

} // verus!
