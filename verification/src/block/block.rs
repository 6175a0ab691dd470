use vstd::prelude::*;
use crate::utils::bytes::copy_bytes;

verus! {

/// A block as the validator hands it over.
#[derive(Clone, Debug)]
pub struct Block {
    /// The block's own id.
    pub block_id: Vec<u8>,
    /// The id of the block before it.
    pub previous_id: Vec<u8>,
    /// Who made the block.
    pub signer_id: Vec<u8>,
    /// The height of the block; the first block has height 0.
    pub block_num: u64,
    /// The consensus payload.
    pub payload: Vec<u8>,
}

/// A block as plain values.
pub ghost struct BlockView {
    pub block_id: Seq<u8>,
    pub previous_id: Seq<u8>,
    pub signer_id: Seq<u8>,
    pub block_num: u64,
    pub payload: Seq<u8>,
}

impl View for Block {
    type V = BlockView;

    open spec fn view(&self) -> BlockView {
        BlockView {
            block_id: self.block_id@,
            previous_id: self.previous_id@,
            signer_id: self.signer_id@,
            block_num: self.block_num,
            payload: self.payload@,
        }
    }
}

impl Block {
    /// A copy of the block.
    pub fn duplicate(&self) -> (copy: Block)
        ensures
            copy@ == self@,
    {
        Block {
            block_id: copy_bytes(self.block_id.as_slice()),
            previous_id: copy_bytes(self.previous_id.as_slice()),
            signer_id: copy_bytes(self.signer_id.as_slice()),
            block_num: self.block_num,
            payload: copy_bytes(self.payload.as_slice()),
        }
    }
}

} // verus!
