use vstd::prelude::*;
use crate::miner::answer::solves;
use crate::miner::answer::Answer;
use crate::miner::answer::AnswerView;
use crate::miner::challenge::Challenge;
use crate::miner::challenge::ChallengeView;
use crate::primitives::H256;
use crate::work::is_valid_proof_of_work;
use crate::work::mkhash_into;
use crate::work::Hasher;

verus! {

/// What the worker is sent.
#[derive(Debug)]
pub enum Message {
    /// Stop.
    Shutdown,
    /// Drop what you are doing and work on this.
    Challenge(Challenge),
}

/// `rand::Rng::gen_range` on `rand::thread_rng()`, from 0 to the greatest
/// 64-bit number: a number below that bound. Which one is left open.
#[verifier::external_body]
fn random_nonce() -> (nonce: u64)
    ensures
        nonce < u64::MAX,
{
    rand::Rng::gen_range(&mut rand::thread_rng(), 0, u64::MAX)
}

/// The worker's search for a nonce: the order it works on and the nonce it
/// will try next.
#[derive(Debug)]
pub struct Search {
    challenge: Challenge,
    nonce: u64,
}

/// A search as plain values.
pub ghost struct SearchView {
    pub challenge: ChallengeView,
    pub nonce: u64,
}

impl View for Search {
    type V = SearchView;

    closed spec fn view(&self) -> SearchView {
        SearchView { challenge: self.challenge@, nonce: self.nonce }
    }
}

/// What one try of a nonce came to.
#[derive(Debug)]
pub enum Turn {
    /// The nonce solves the order.
    Found(Answer),
    /// It does not.
    Missed(Search),
}

/// How the search goes on after a look at the worker's inbox.
#[derive(Debug)]
pub enum Polled {
    /// With this search.
    Searching(Search),
    /// Not at all: the worker was told to stop.
    Shutdown,
}

impl Search {
    /// The search that a message starts: none for `Shutdown`, and for an order
    /// a search for it from a nonce picked at random.
    pub fn received(message: Message) -> (search: Option<Search>)
        ensures
            match message {
                Message::Shutdown => search.is_none(),
                Message::Challenge(challenge) => search.is_some() && search.unwrap()@.challenge
                    == challenge@ && search.unwrap()@.nonce < u64::MAX,
            },
    {
        match message {
            Message::Shutdown => None,
            Message::Challenge(challenge) => Some(Search { challenge, nonce: random_nonce() }),
        }
    }

    /// A search for an order from a given nonce.
    pub fn from_nonce(challenge: Challenge, nonce: u64) -> (search: Search)
        ensures
            search@ == (SearchView { challenge: challenge@, nonce }),
    {
        Search { challenge, nonce }
    }

    /// The order that is worked on.
    pub fn challenge(&self) -> (challenge: &Challenge)
        ensures
            challenge@ == self@.challenge,
    {
        &self.challenge
    }

    /// The nonce that is tried next.
    pub fn nonce(&self) -> (nonce: u64)
        ensures
            nonce == self@.nonce,
    {
        self.nonce
    }

    /// Tries the nonce at hand: hashes it with the order's block and signer
    /// into `output`, and gives the answer where the hash scores at least the
    /// order's difficulty, the search unchanged where it does not.
    pub fn turn(self, hasher: &mut Hasher, output: &mut H256) -> (turn: Turn)
        ensures
            final(output)@ == crate::work::pow_hash(
                self@.challenge.block_id,
                self@.challenge.peer_id,
                self@.nonce,
            ),
            solves(self@.challenge, self@.nonce) ==> (turn matches Turn::Found(answer) && answer@
                == (AnswerView { challenge: self@.challenge, nonce: self@.nonce })),
            !solves(self@.challenge, self@.nonce) ==> (turn matches Turn::Missed(search)
                && search@ == self@),
    {
        mkhash_into(
            hasher,
            output,
            self.challenge.block_id.as_slice(),
            self.challenge.peer_id.as_slice(),
            self.nonce,
        );
        if is_valid_proof_of_work(output, self.challenge.difficulty) {
            Turn::Found(Answer { challenge: self.challenge, nonce: self.nonce })
        } else {
            Turn::Missed(self)
        }
    }

    /// Goes on after a try that missed, given what a look at the inbox gave.
    /// A new order takes the place of the old one at once, with a nonce picked
    /// at random; `Shutdown` ends the search; with an empty inbox the next
    /// nonce is tried, the first one again after the last.
    pub fn polled(self, message: Option<Message>) -> (next: Polled)
        ensures
            match message {
                Some(Message::Challenge(update)) => next matches Polled::Searching(search)
                    && search@.challenge == update@ && search@.nonce < u64::MAX,
                Some(Message::Shutdown) => next is Shutdown,
                None => next matches Polled::Searching(search) && search@ == (SearchView {
                    challenge: self@.challenge,
                    nonce: if self@.nonce == u64::MAX {
                        0
                    } else {
                        (self@.nonce + 1) as u64
                    },
                }),
            },
    {
        match message {
            Some(Message::Challenge(update)) => Polled::Searching(
                Search { challenge: update, nonce: random_nonce() },
            ),
            Some(Message::Shutdown) => Polled::Shutdown,
            None => Polled::Searching(
                Search { challenge: self.challenge, nonce: self.nonce.wrapping_add(1) },
            ),
        }
    }
}

} // verus!
