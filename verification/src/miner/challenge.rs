use vstd::prelude::*;
use crate::utils::bytes::copy_bytes;

verus! {

/// A work order for the miner: find a nonce for this block and this signer
/// whose hash scores at least the difficulty.
#[derive(Debug)]
pub struct Challenge {
    /// The score to reach.
    pub difficulty: u32,
    /// When the order was made: the numeral of a real number of seconds.
    pub timestamp: Vec<u8>,
    /// The id of the block to build on.
    pub block_id: Vec<u8>,
    /// The id of the signer.
    pub peer_id: Vec<u8>,
}

/// A work order as plain values.
pub ghost struct ChallengeView {
    pub difficulty: u32,
    pub timestamp: Seq<u8>,
    pub block_id: Seq<u8>,
    pub peer_id: Seq<u8>,
}

impl View for Challenge {
    type V = ChallengeView;

    open spec fn view(&self) -> ChallengeView {
        ChallengeView {
            difficulty: self.difficulty,
            timestamp: self.timestamp@,
            block_id: self.block_id@,
            peer_id: self.peer_id@,
        }
    }
}

impl Challenge {
    /// A copy of the order.
    pub fn duplicate(&self) -> (copy: Challenge)
        ensures
            copy@ == self@,
    {
        Challenge {
            difficulty: self.difficulty,
            timestamp: copy_bytes(self.timestamp.as_slice()),
            block_id: copy_bytes(self.block_id.as_slice()),
            peer_id: copy_bytes(self.peer_id.as_slice()),
        }
    }
}

} // verus!
