use vstd::prelude::*;
use crate::block::block::Block;
use crate::block::block_consensus::ConsensusError;
use crate::miner::answer::Answer;
use crate::miner::challenge::Challenge;
use crate::miner::challenge::ChallengeView;
use crate::node::config::Settings;
use crate::node::service::Blocks;
use crate::node::service::HostError;
use crate::node::service::ServiceError;
use crate::work::Elapsed;
use crate::work::ElapsedView;
use crate::work::Pace;

verus! {

/// What the validator tells the engine.
#[derive(Debug)]
pub enum Update {
    /// A peer has connected.
    PeerConnected,
    /// A peer is gone.
    PeerDisconnected,
    /// A peer has sent a message.
    PeerMessage,
    /// A block has arrived.
    BlockNew(Block),
    /// The block under this id has passed the validator's checks.
    BlockValid(Vec<u8>),
    /// The block under this id has failed them.
    BlockInvalid(Vec<u8>),
    /// The block under this id is the new head of the chain.
    BlockCommit(Vec<u8>),
    /// The engine is to stop.
    Shutdown,
}

/// Why the node gave up on what it was doing.
#[derive(Clone, Copy, Debug, PartialEq, Eq, Structural)]
pub enum NodeError {
    /// A call to the validator failed.
    Host(HostError),
    /// The validator does not have a block that was asked for.
    BlockNotFound,
    /// The payload of the block to mine on cannot be read.
    Consensus(ConsensusError),
    /// The clock gave what is no numeral of a real number.
    InvalidTime,
    /// The node was handed an answer to another call than the one it made.
    Unexpected,
}

/// What the node asks to have done for it.
#[derive(Debug)]
pub enum HostCall {
    /// Look up the block under this id.
    GetBlock(Vec<u8>),
    /// Read the engine's settings as of the block under this id.
    GetSettings(Vec<u8>),
    /// Read the clock.
    Now,
    /// Compare the time from the span's oldest timestamp to this one with
    /// the time that the span should have taken.
    ComparePace(Elapsed, Vec<u8>),
    /// Hand this order to the worker.
    SendChallenge(Challenge),
    /// Take from the worker the answers it has given.
    DrainAnswers,
    /// Start a block on the block under this id, or on the head.
    InitializeBlock(Option<Vec<u8>>),
    /// Close the block that is being built and sum it up.
    SummarizeBlock,
    /// Put this payload into the block and sign it.
    FinalizeBlock(Vec<u8>),
    /// Drop the block that is being built.
    CancelBlock,
    /// Have the block under this id checked.
    CheckBlocks(Vec<u8>),
    /// Make the block under this id the head.
    CommitBlock(Vec<u8>),
    /// Pass over the block under this id.
    IgnoreBlock(Vec<u8>),
    /// Mark the block under this id as failed.
    FailBlock(Vec<u8>),
}

/// A call as plain values.
pub ghost enum HostCallView {
    GetBlock(Seq<u8>),
    GetSettings(Seq<u8>),
    Now,
    ComparePace(ElapsedView, Seq<u8>),
    SendChallenge(ChallengeView),
    DrainAnswers,
    InitializeBlock(Option<Seq<u8>>),
    SummarizeBlock,
    FinalizeBlock(Seq<u8>),
    CancelBlock,
    CheckBlocks(Seq<u8>),
    CommitBlock(Seq<u8>),
    IgnoreBlock(Seq<u8>),
    FailBlock(Seq<u8>),
}

/// An id that may be missing, as plain values.
pub open spec fn id_view(id: Option<Vec<u8>>) -> Option<Seq<u8>> {
    match id {
        Some(bytes) => Some(bytes@),
        None => None,
    }
}

impl View for HostCall {
    type V = HostCallView;

    open spec fn view(&self) -> HostCallView {
        match self {
            HostCall::GetBlock(id) => HostCallView::GetBlock(id@),
            HostCall::GetSettings(id) => HostCallView::GetSettings(id@),
            HostCall::Now => HostCallView::Now,
            HostCall::ComparePace(elapsed, now) => HostCallView::ComparePace(elapsed@, now@),
            HostCall::SendChallenge(challenge) => HostCallView::SendChallenge(challenge@),
            HostCall::DrainAnswers => HostCallView::DrainAnswers,
            HostCall::InitializeBlock(id) => HostCallView::InitializeBlock(id_view(*id)),
            HostCall::SummarizeBlock => HostCallView::SummarizeBlock,
            HostCall::FinalizeBlock(payload) => HostCallView::FinalizeBlock(payload@),
            HostCall::CancelBlock => HostCallView::CancelBlock,
            HostCall::CheckBlocks(id) => HostCallView::CheckBlocks(id@),
            HostCall::CommitBlock(id) => HostCallView::CommitBlock(id@),
            HostCall::IgnoreBlock(id) => HostCallView::IgnoreBlock(id@),
            HostCall::FailBlock(id) => HostCallView::FailBlock(id@),
        }
    }
}

/// What came of a call.
#[derive(Debug)]
pub enum Reply {
    /// Of `GetBlock`: the blocks that the validator answered with.
    Blocks(Result<Blocks, HostError>),
    /// Of `GetSettings`.
    Settings(Result<Settings, HostError>),
    /// Of `Now`: the time as the numeral of a real number of seconds.
    Time(Vec<u8>),
    /// Of `ComparePace`.
    Pace(Pace),
    /// Of `SendChallenge`.
    Sent,
    /// Of `DrainAnswers`: the answers, oldest first.
    Answers(Vec<Answer>),
    /// Of `InitializeBlock`, `CancelBlock`, `CheckBlocks`, `CommitBlock`,
    /// `IgnoreBlock` and `FailBlock`.
    Unit(Result<(), HostError>),
    /// Of `SummarizeBlock`.
    Summary(Result<Vec<u8>, HostError>),
    /// Of `FinalizeBlock`.
    BlockId(Result<Vec<u8>, HostError>),
}

/// The node's error for a block that could not be had.
pub open spec fn service_failure(error: ServiceError) -> NodeError {
    match error {
        ServiceError::Host(host) => NodeError::Host(host),
        ServiceError::BlockNotFound => NodeError::BlockNotFound,
    }
}

/// The node's error for a block that could not be had.
pub fn from_service(error: ServiceError) -> (failure: NodeError)
    ensures
        failure == service_failure(error),
{
    match error {
        ServiceError::Host(host) => NodeError::Host(host),
        ServiceError::BlockNotFound => NodeError::BlockNotFound,
    }
}

} // verus!
