use vstd::prelude::*;
use crate::miner::challenge::Challenge;
use crate::miner::challenge::ChallengeView;
use crate::work::pow_hash;
use crate::work::score;

verus! {

/// A work order together with a nonce found for it.
#[derive(Debug)]
pub struct Answer {
    pub challenge: Challenge,
    pub nonce: u64,
}

/// An answer as plain values.
pub ghost struct AnswerView {
    pub challenge: ChallengeView,
    pub nonce: u64,
}

impl View for Answer {
    type V = AnswerView;

    open spec fn view(&self) -> AnswerView {
        AnswerView { challenge: self.challenge@, nonce: self.nonce }
    }
}

/// Whether a nonce solves a work order: the hash of the order's block, its
/// signer and the nonce scores at least the order's difficulty.
pub open spec fn solves(challenge: ChallengeView, nonce: u64) -> bool {
    score(pow_hash(challenge.block_id, challenge.peer_id, nonce)) >= challenge.difficulty
}

impl Answer {
    /// A copy of the answer.
    pub fn duplicate(&self) -> (copy: Answer)
        ensures
            copy@ == self@,
    {
        Answer { challenge: self.challenge.duplicate(), nonce: self.nonce }
    }
}

} // verus!
