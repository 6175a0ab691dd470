use vstd::prelude::*;
use crate::block::block::Block;
use crate::block::block::BlockView;
use crate::utils::bytes::bytes_eq;

verus! {

/// The ways in which a call to the validator fails.
#[derive(Clone, Copy, Debug, PartialEq, Eq, Structural)]
pub enum HostError {
    EncodingError,
    SendError,
    ReceiveError,
    InvalidState,
    UnknownBlock,
    UnknownPeer,
    NoChainHead,
    BlockNotReady,
}

/// Why a block could not be had from the validator.
#[derive(Clone, Copy, Debug, PartialEq, Eq, Structural)]
pub enum ServiceError {
    /// The call failed.
    Host(HostError),
    /// The call went through, and the block was not in the answer.
    BlockNotFound,
}

/// The blocks that the validator answers a query with, each under its id.
pub type Blocks = Vec<(Vec<u8>, Block)>;

/// The position of the first entry under the id, or the number of entries
/// where there is none.
pub open spec fn position_of(blocks: Seq<(Vec<u8>, Block)>, block_id: Seq<u8>) -> int
    decreases blocks.len(),
{
    if blocks.len() == 0 {
        0
    } else if blocks[0].0@ == block_id {
        0
    } else {
        1 + position_of(blocks.skip(1), block_id)
    }
}

/// The block, as plain values, that an answer holds under an id.
pub open spec fn block_in(blocks: Seq<(Vec<u8>, Block)>, block_id: Seq<u8>) -> Option<BlockView> {
    let at = position_of(blocks, block_id);
    if 0 <= at < blocks.len() {
        Some(blocks[at].1@)
    } else {
        None
    }
}

/// What asking for one block comes to: the failure of the call, the block
/// under the id that was asked for, or `BlockNotFound` where the answer holds
/// none under it.
pub open spec fn block_outcome(
    answer: Result<Blocks, HostError>,
    block_id: Seq<u8>,
) -> Result<BlockView, ServiceError> {
    match answer {
        Err(error) => Err(ServiceError::Host(error)),
        Ok(blocks) => match block_in(blocks@, block_id) {
            Some(block) => Ok(block),
            None => Err(ServiceError::BlockNotFound),
        },
    }
}

/// What cancelling a block comes to: there being nothing to cancel is no
/// failure.
pub open spec fn cancel_outcome(answer: Result<(), HostError>) -> Result<(), HostError> {
    match answer {
        Ok(_) => Ok(()),
        Err(error) => if error == HostError::InvalidState {
            Ok(())
        } else {
            Err(error)
        },
    }
}

/// The entry under an id is found at its position, and no entry before it is
/// under that id.
pub proof fn lemma_position_of(blocks: Seq<(Vec<u8>, Block)>, block_id: Seq<u8>)
    ensures
        0 <= position_of(blocks, block_id) <= blocks.len(),
        forall|i: int| 0 <= i < position_of(blocks, block_id) ==> blocks[i].0@ != block_id,
        position_of(blocks, block_id) < blocks.len() ==> blocks[position_of(
            blocks,
            block_id,
        )].0@ == block_id,
    decreases blocks.len(),
{
    if blocks.len() == 0 || blocks[0].0@ == block_id {
    } else {
        let rest = blocks.skip(1);
        lemma_position_of(rest, block_id);
        assert forall|i: int| 0 <= i < position_of(blocks, block_id) implies blocks[i].0@
            != block_id by {
            if i > 0 {
                assert(rest[i - 1] == blocks[i]);
            }
        }
        if position_of(rest, block_id) < rest.len() {
            assert(rest[position_of(rest, block_id)] == blocks[position_of(blocks, block_id)]);
        }
    }
}

/// Settles the answer to cancelling a block.
pub fn settle_cancel(answer: Result<(), HostError>) -> (outcome: Result<(), HostError>)
    ensures
        outcome == cancel_outcome(answer),
{
    match answer {
        Ok(()) => Ok(()),
        Err(HostError::InvalidState) => Ok(()),
        Err(error) => Err(error),
    }
}

/// Picks the block that was asked for out of the validator's answer.
pub fn find_block(answer: Result<Blocks, HostError>, block_id: &[u8]) -> (outcome: Result<
    Block,
    ServiceError,
>)
    ensures
        match block_outcome(answer, block_id@) {
            Ok(view) => outcome.is_ok() && outcome.unwrap()@ == view,
            Err(error) => outcome == Err::<Block, ServiceError>(error),
        },
{
    let mut blocks: Blocks = match answer {
        Ok(blocks) => blocks,
        Err(error) => {
            return Err(ServiceError::Host(error));
        },
    };
    let ghost all = blocks@;
    proof {
        lemma_position_of(all, block_id@);
    }
    let n: usize = blocks.len();
    let mut i: usize = 0;
    while i < n
        invariant
            i <= n,
            n == blocks@.len(),
            blocks@ == all,
            answer.is_ok(),
            answer.unwrap()@ == all,
            i <= position_of(all, block_id@),
        decreases n - i,
    {
        proof {
            lemma_position_of(all, block_id@);
        }
        if bytes_eq(blocks[i].0.as_slice(), block_id) {
            let (_, block) = blocks.swap_remove(i);
            return Ok(block);
        }
        i = i + 1;
    }
    proof {
        lemma_position_of(all, block_id@);
    }
    Err(ServiceError::BlockNotFound)
}

} // verus!
