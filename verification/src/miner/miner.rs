use vstd::prelude::*;
use crate::block::block_consensus::encode;
use crate::block::block_consensus::BlockConsensus;
use crate::miner::answer::Answer;
use crate::miner::answer::AnswerView;
use crate::miner::challenge::Challenge;
use crate::miner::challenge::ChallengeView;
use crate::utils::bytes::copy_bytes;

verus! {

/// The node's side of the miner: the latest answer that the worker gave.
#[derive(Debug)]
pub struct Miner {
    answer: Option<Answer>,
}

impl View for Miner {
    type V = Option<AnswerView>;

    closed spec fn view(&self) -> Option<AnswerView> {
        match self.answer {
            Some(answer) => Some(answer@),
            None => None,
        }
    }
}

/// The answer that is kept after the worker's answers were taken in: the
/// last of them, or the one kept before where there were none.
pub open spec fn latest(kept: Option<AnswerView>, drained: Seq<Answer>) -> Option<AnswerView> {
    if drained.len() > 0 {
        Some(drained.last()@)
    } else {
        kept
    }
}

/// The payload that an answer makes: its order's difficulty and timestamp
/// with its nonce.
pub open spec fn answer_payload(answer: AnswerView) -> Seq<u8> {
    encode(answer.challenge.difficulty, answer.challenge.timestamp, answer.nonce)
}

impl Miner {
    /// A miner that has no answer.
    pub fn new() -> (miner: Miner)
        ensures
            miner@.is_none(),
    {
        Miner { answer: None }
    }

    /// Takes in the answers that the worker has given since the last call,
    /// oldest first, keeps the latest, and makes the payload of the answer
    /// that is kept. The answer stays: the next call gives the same payload
    /// unless a newer answer has come.
    pub fn try_create_consensus(&mut self, drained: Vec<Answer>) -> (payload: Option<Vec<u8>>)
        ensures
            final(self)@ == latest(old(self)@, drained@),
            match final(self)@ {
                Some(answer) => payload.is_some() && payload.unwrap()@ == answer_payload(answer),
                None => payload.is_none(),
            },
    {
        let mut drained = drained;
        match drained.pop() {
            Some(answer) => {
                self.answer = Some(answer);
            },
            None => {},
        }
        match &self.answer {
            Some(answer) => Some(
                BlockConsensus::serialize(
                    answer.challenge.difficulty,
                    answer.challenge.timestamp.as_slice(),
                    answer.nonce,
                ),
            ),
            None => None,
        }
    }

    /// Forgets the answer.
    pub fn reset(&mut self)
        ensures
            final(self)@.is_none(),
    {
        self.clear_answer();
    }

    /// Makes the order to mine on a block at a difficulty, and forgets the
    /// answer to any order before it.
    pub fn mine(&mut self, block_id: &[u8], peer_id: &[u8], difficulty: u32, timestamp: &[u8]) -> (challenge:
        Challenge)
        ensures
            final(self)@.is_none(),
            challenge@ == (ChallengeView {
                difficulty,
                timestamp: timestamp@,
                block_id: block_id@,
                peer_id: peer_id@,
            }),
    {
        let challenge = Challenge {
            difficulty,
            timestamp: copy_bytes(timestamp),
            block_id: copy_bytes(block_id),
            peer_id: copy_bytes(peer_id),
        };
        self.clear_answer();
        challenge
    }

    fn clear_answer(&mut self)
        ensures
            final(self)@.is_none(),
    {
        self.answer = None;
    }
}

} // verus!
