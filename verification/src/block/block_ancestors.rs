use vstd::prelude::*;
use crate::block::block::Block;
use crate::block::block::BlockView;
use crate::block::block_header::header_of;
use crate::block::block_header::BlockHeader;
use crate::block::block_header::HeaderView;
use crate::utils::bytes::copy_bytes;

verus! {

/// What the validator knows: blocks by their ids.
pub type Chain = Map<Seq<u8>, BlockView>;

/// The block under an id.
pub open spec fn lookup(chain: Chain, block_id: Seq<u8>) -> Option<BlockView> {
    if chain.contains_key(block_id) {
        Some(chain[block_id])
    } else {
        None
    }
}

/// The header of the block under an id, where there is such a block and its
/// payload can be read.
pub open spec fn header_at(chain: Chain, block_id: Seq<u8>) -> Option<HeaderView> {
    match lookup(chain, block_id) {
        Some(block) => match header_of(block) {
            Ok(header) => Some(header),
            Err(_) => None,
        },
        None => None,
    }
}

/// The headers met on the way from a block up its parents: the block under
/// `block_id` first, at most `limit` of them, ending before the first block
/// that is missing or cannot be read.
pub open spec fn ancestors(chain: Chain, block_id: Seq<u8>, limit: nat) -> Seq<HeaderView>
    decreases limit,
{
    if limit == 0 {
        Seq::empty()
    } else {
        match header_at(chain, block_id) {
            Some(header) => seq![header] + ancestors(
                chain,
                header.block.previous_id,
                (limit - 1) as nat,
            ),
            None => Seq::empty(),
        }
    }
}

/// A walk from a block up its parents. The walk itself looks nothing up: it
/// names the block it needs next, and is handed what the lookup gave.
#[derive(Debug)]
pub struct BlockAncestors {
    block: Option<Vec<u8>>,
}

impl View for BlockAncestors {
    type V = Option<Seq<u8>>;

    closed spec fn view(&self) -> Option<Seq<u8>> {
        match self.block {
            Some(id) => Some(id@),
            None => None,
        }
    }
}

impl BlockAncestors {
    /// A walk that starts at the block under `block`.
    pub fn new(block: &[u8]) -> (walk: BlockAncestors)
        ensures
            walk@ == Some(block@),
    {
        BlockAncestors { block: Some(copy_bytes(block)) }
    }

    /// A walk that has ended.
    pub fn ended() -> (walk: BlockAncestors)
        ensures
            walk@.is_none(),
    {
        BlockAncestors { block: None }
    }

    /// The id of the block that the walk needs next; `None` once it has ended.
    pub fn wanted(&self) -> (block_id: Option<&Vec<u8>>)
        ensures
            match block_id {
                Some(id) => self@ == Some(id@),
                None => self@.is_none(),
            },
    {
        match &self.block {
            Some(id) => Some(id),
            None => None,
        }
    }

    /// The next header of the walk, given what looking up the wanted block
    /// gave. The walk ends where it had ended before, where the block is
    /// missing, and where its header cannot be read; else it goes on at the
    /// block's parent.
    pub fn next(&mut self, fetched: Option<Block>) -> (header: Option<BlockHeader>)
        ensures
            match (old(self)@, fetched) {
                (Some(_), Some(block)) => match header_of(block@) {
                    Ok(view) => header.is_some() && header.unwrap()@ == view && final(self)@
                        == Some(block@.previous_id),
                    Err(_) => header.is_none() && final(self)@.is_none(),
                },
                _ => header.is_none() && final(self)@.is_none(),
            },
    {
        let was: Option<Vec<u8>> = self.block.take();
        let header: Option<BlockHeader> = match (was, fetched) {
            (Some(_), Some(block)) => match BlockHeader::owned(block) {
                Ok(header) => Some(header),
                Err(_) => None,
            },
            _ => None,
        };
        self.block = match &header {
            Some(found) => Some(copy_bytes(found.block().previous_id.as_slice())),
            None => None,
        };
        header
    }
}

/// A walk fed from a chain gives the chain's ancestors: the headers from a
/// block on are the header that `next` gives for that block, then those from
/// its parent on, and none where `next` gives none.
pub proof fn lemma_ancestors_unfold(chain: Chain, block_id: Seq<u8>, limit: nat)
    requires
        limit > 0,
    ensures
        ancestors(chain, block_id, limit) == match lookup(chain, block_id) {
            Some(block) => match header_of(block) {
                Ok(header) => seq![header] + ancestors(
                    chain,
                    block.previous_id,
                    (limit - 1) as nat,
                ),
                Err(_) => Seq::empty(),
            },
            None => Seq::empty(),
        },
{
}

} // verus!
