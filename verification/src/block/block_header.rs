use vstd::prelude::*;
use std::borrow::Cow;
use vstd::arithmetic::power2::pow2;
use crate::block::block::Block;
use crate::block::block::BlockView;
use crate::block::block_consensus::decode;
use crate::block::block_consensus::empty_consensus;
use crate::block::block_consensus::pow_tag;
use crate::block::block_consensus::BlockConsensus;
use crate::block::block_consensus::ConsensusError;
use crate::block::block_consensus::ConsensusView;
use crate::work::digest_score;
use crate::work::get_hasher;
use crate::work::mkhash;
use crate::work::pow_hash;
use crate::work::score;

verus! {

/// A block together with its consensus payload, read.
#[derive(Debug)]
pub struct BlockHeader {
    /// The block.
    pub block: Block,
    /// Its payload, read; the empty payload for the first block.
    pub consensus: BlockConsensus,
}

/// A header as plain values.
pub ghost struct HeaderView {
    pub block: BlockView,
    pub consensus: ConsensusView,
}

impl View for BlockHeader {
    type V = HeaderView;

    open spec fn view(&self) -> HeaderView {
        HeaderView { block: self.block@, consensus: self.consensus@ }
    }
}

/// Why a header's proof of work was refused: the score its hash reached, and
/// the difficulty it had to reach.
#[derive(Clone, Copy, Debug, PartialEq, Eq, Structural)]
pub struct InvalidProofOfWork {
    pub score: u32,
    pub difficulty: u32,
}

/// The header of a block: the first block has the empty payload, every other
/// block the payload that its bytes read as.
pub open spec fn header_of(block: BlockView) -> Result<HeaderView, ConsensusError> {
    if block.block_num == 0 {
        Ok(HeaderView { block, consensus: empty_consensus() })
    } else {
        match decode(block.payload) {
            Ok(consensus) => Ok(HeaderView { block, consensus }),
            Err(error) => Err(error),
        }
    }
}

/// The work that a difficulty stands for: two to its power, and the greatest
/// 64-bit number from 63 on.
pub open spec fn work_of(difficulty: u32) -> nat {
    if difficulty < 63 {
        pow2(difficulty as nat)
    } else {
        u64::MAX as nat
    }
}

/// The score of the hash that a header's proof of work is judged by.
pub open spec fn header_score(header: HeaderView) -> nat {
    score(pow_hash(header.block.previous_id, header.block.signer_id, header.consensus.nonce))
}

/// Whether a header stands: the first block always, any other where its hash
/// scores at least its difficulty.
pub open spec fn header_valid(header: HeaderView) -> bool {
    header.block.block_num == 0 || header_score(header) >= header.consensus.difficulty
}

/// Work is two to the power of the difficulty, as long as that fits: below 63
/// the power and its cap at 63 are the same.
pub proof fn lemma_work_is_power(difficulty: u32)
    requires
        difficulty < 63,
    ensures
        work_of(difficulty) == pow2(vstd::math::min(difficulty as int, 63) as nat),
        work_of(difficulty) < u64::MAX,
{
    vstd::bits::lemma_u64_pow2_no_overflow(difficulty as nat);
}

/// More difficulty is never less work.
pub proof fn lemma_work_monotone(lower: u32, higher: u32)
    requires
        lower <= higher,
    ensures
        work_of(lower) <= work_of(higher),
{
    if lower < 63 {
        vstd::bits::lemma_u64_pow2_no_overflow(lower as nat);
        if lower < higher && higher < 63 {
            vstd::arithmetic::power2::lemma_pow2_strictly_increases(lower as nat, higher as nat);
        }
    }
}

impl BlockHeader {
    /// The header of a block.
    pub fn owned(block: Block) -> (result: Result<BlockHeader, ConsensusError>)
        ensures
            match header_of(block@) {
                Ok(view) => result.is_ok() && result.unwrap()@ == view,
                Err(error) => result == Err::<BlockHeader, ConsensusError>(error),
            },
    {
        let consensus: BlockConsensus = if block.block_num == 0 {
            BlockConsensus::new()
        } else {
            match BlockConsensus::deserialize(block.payload.as_slice()) {
                Ok(consensus) => consensus,
                Err(error) => {
                    return Err(error);
                },
            }
        };
        Ok(BlockHeader { block, consensus })
    }

    /// The header of a block, which is copied.
    pub fn borrowed(block: &Block) -> (result: Result<BlockHeader, ConsensusError>)
        ensures
            match header_of(block@) {
                Ok(view) => result.is_ok() && result.unwrap()@ == view,
                Err(error) => result == Err::<BlockHeader, ConsensusError>(error),
            },
    {
        Self::owned(block.duplicate())
    }

    /// The header of a block that is either lent or handed over.
    pub fn from_cow(block: Cow<'_, Block>) -> (result: Result<BlockHeader, ConsensusError>)
        ensures
            match header_of(block@) {
                Ok(view) => result.is_ok() && result.unwrap()@ == view,
                Err(error) => result == Err::<BlockHeader, ConsensusError>(error),
            },
    {
        match block {
            Cow::Borrowed(lent) => Self::borrowed(lent),
            Cow::Owned(owned) => Self::owned(owned),
        }
    }

    /// The block under the header.
    pub fn block(&self) -> (block: &Block)
        ensures
            block@ == self@.block,
    {
        &self.block
    }

    /// A copy of the header.
    pub fn duplicate(&self) -> (copy: BlockHeader)
        ensures
            copy@ == self@,
    {
        BlockHeader { block: self.block.duplicate(), consensus: self.consensus.duplicate() }
    }

    /// Whether the payload is tagged as proof of work.
    pub fn is_pow(&self) -> (pow: bool)
        ensures
            pow <==> self@.consensus.tag == pow_tag(),
    {
        self.consensus.is_pow()
    }

    /// Whether this is the first block.
    pub fn is_genesis(&self) -> (genesis: bool)
        ensures
            genesis <==> self@.block.block_num == 0,
    {
        self.block.block_num == 0
    }

    /// The work that the header's difficulty stands for.
    pub fn work(&self) -> (work: u64)
        ensures
            work == work_of(self@.consensus.difficulty),
    {
        let difficulty: u32 = self.consensus.difficulty;
        if difficulty < 63 {
            proof {
                vstd::bits::lemma_u64_pow2_no_overflow(difficulty as nat);
                vstd::bits::lemma_u64_shl_is_mul(1u64, difficulty as u64);
            }
            1u64 << (difficulty as u64)
        } else {
            u64::MAX
        }
    }

    /// Checks the header's proof of work. The first block always stands; any
    /// other is refused, with the score that its hash reached, where that is
    /// below its difficulty.
    pub fn validate(&self) -> (result: Result<(), InvalidProofOfWork>)
        ensures
            header_valid(self@) ==> result.is_ok(),
            !header_valid(self@) ==> result == Err::<(), InvalidProofOfWork>(
                InvalidProofOfWork {
                    score: header_score(self@) as u32,
                    difficulty: self@.consensus.difficulty,
                },
            ),
    {
        if self.is_genesis() {
            return Ok(());
        }
        self.validate_proof_of_work()
    }

    fn validate_proof_of_work(&self) -> (result: Result<(), InvalidProofOfWork>)
        ensures
            header_score(self@) >= self@.consensus.difficulty ==> result.is_ok(),
            header_score(self@) < self@.consensus.difficulty ==> result == Err::<
                (),
                InvalidProofOfWork,
            >(
                InvalidProofOfWork {
                    score: header_score(self@) as u32,
                    difficulty: self@.consensus.difficulty,
                },
            ),
    {
        let mut hasher = get_hasher();
        let hash = mkhash(
            &mut hasher,
            self.block.previous_id.as_slice(),
            self.block.signer_id.as_slice(),
            self.consensus.nonce,
        );
        let reached: u32 = digest_score(&hash);
        if reached >= self.consensus.difficulty {
            Ok(())
        } else {
            Err(InvalidProofOfWork { score: reached, difficulty: self.consensus.difficulty })
        }
    }
}

} // verus!
