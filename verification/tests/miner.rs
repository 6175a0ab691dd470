use ccconsensus::block::BlockConsensus;
use ccconsensus::miner::Answer;
use ccconsensus::miner::Challenge;
use ccconsensus::miner::Message;
use ccconsensus::miner::Miner;
use ccconsensus::miner::Polled;
use ccconsensus::miner::Search;
use ccconsensus::miner::Turn;
use ccconsensus::primitives::H256;
use ccconsensus::work::digest_score;
use ccconsensus::work::get_hasher;
use ccconsensus::work::mkhash;

fn challenge(difficulty: u32, block: u8) -> Challenge {
    Challenge {
        difficulty,
        timestamp: b"1603123456.25".to_vec(),
        block_id: vec![block; 3],
        peer_id: vec![9, 9],
    }
}

fn answer(difficulty: u32, nonce: u64) -> Answer {
    Answer { challenge: challenge(difficulty, 1), nonce }
}

#[test]
fn miner_keeps_the_latest_answer() {
    let mut miner = Miner::new();
    assert_eq!(miner.try_create_consensus(vec![]), None);
    let payload = miner.try_create_consensus(vec![answer(5, 1), answer(6, 2), answer(7, 3)]);
    assert_eq!(payload, Some(b"PoW:7:3:1603123456.25".to_vec()));
    assert_eq!(miner.try_create_consensus(vec![]), Some(b"PoW:7:3:1603123456.25".to_vec()));
    assert_eq!(miner.try_create_consensus(vec![]), Some(b"PoW:7:3:1603123456.25".to_vec()));
    assert_eq!(
        miner.try_create_consensus(vec![answer(8, 4)]),
        Some(b"PoW:8:4:1603123456.25".to_vec())
    );
    miner.reset();
    assert_eq!(miner.try_create_consensus(vec![]), None);
}

#[test]
fn payload_of_an_answer_reads_back() {
    let mut miner = Miner::new();
    let payload = miner.try_create_consensus(vec![answer(22, 18446744073709551615)]).unwrap();
    let read = BlockConsensus::deserialize(&payload).unwrap();
    assert_eq!(read.difficulty, 22);
    assert_eq!(read.nonce, u64::MAX);
    assert_eq!(read.timestamp, b"1603123456.25".to_vec());
}

#[test]
fn mine_makes_the_order_and_forgets_the_answer() {
    let mut miner = Miner::new();
    assert!(miner.try_create_consensus(vec![answer(5, 1)]).is_some());
    let order = miner.mine(&[1, 2], &[3], 30, b"12.5");
    assert_eq!(order.difficulty, 30);
    assert_eq!(order.timestamp, b"12.5".to_vec());
    assert_eq!(order.block_id, vec![1, 2]);
    assert_eq!(order.peer_id, vec![3]);
    assert_eq!(miner.try_create_consensus(vec![]), None);
    let copy = order.duplicate();
    assert_eq!(copy.block_id, order.block_id);
    let kept = Answer { challenge: order, nonce: 4 }.duplicate();
    assert_eq!(kept.nonce, 4);
    assert_eq!(kept.challenge.difficulty, 30);
}

#[test]
fn a_message_starts_or_ends_the_search() {
    assert!(Search::received(Message::Shutdown).is_none());
    for _ in 0..50 {
        let search = Search::received(Message::Challenge(challenge(3, 1))).unwrap();
        assert_eq!(search.challenge().difficulty, 3);
        assert_eq!(search.challenge().block_id, vec![1; 3]);
        assert!(search.nonce() < u64::MAX);
    }
    let first = Search::received(Message::Challenge(challenge(3, 1))).unwrap().nonce();
    let mut differs: bool = false;
    for _ in 0..20 {
        if Search::received(Message::Challenge(challenge(3, 1))).unwrap().nonce() != first {
            differs = true;
        }
    }
    assert!(differs);
}

#[test]
fn a_turn_finds_exactly_the_nonces_that_score() {
    let mut hasher = get_hasher();
    let mut output = H256::new();
    let mut found: u32 = 0;
    for nonce in 0..200u64 {
        let reached: u32 = digest_score(&mkhash(&mut hasher, &[1; 3], &[9, 9], nonce));
        let search = Search::from_nonce(challenge(3, 1), nonce);
        match search.turn(&mut hasher, &mut output) {
            Turn::Found(answer) => {
                assert!(reached >= 3);
                assert_eq!(answer.nonce, nonce);
                assert_eq!(answer.challenge.difficulty, 3);
                assert_eq!(answer.challenge.block_id, vec![1; 3]);
                found += 1;
            }
            Turn::Missed(search) => {
                assert!(reached < 3);
                assert_eq!(search.nonce(), nonce);
                assert_eq!(search.challenge().peer_id, vec![9, 9]);
            }
        }
        assert_eq!(digest_score(&output), reached);
    }
    assert!(found > 0);
    assert!(found < 200);
}

#[test]
fn difficulty_zero_is_met_at_once() {
    let mut hasher = get_hasher();
    let mut output = H256::new();
    match Search::from_nonce(challenge(0, 1), 77).turn(&mut hasher, &mut output) {
        Turn::Found(answer) => assert_eq!(answer.nonce, 77),
        Turn::Missed(_) => panic!("missed"),
    }
}

#[test]
fn a_poll_goes_on_replaces_or_stops() {
    match Search::from_nonce(challenge(3, 1), 41).polled(None) {
        Polled::Searching(search) => {
            assert_eq!(search.nonce(), 42);
            assert_eq!(search.challenge().block_id, vec![1; 3]);
        }
        Polled::Shutdown => panic!("stopped"),
    }
    match Search::from_nonce(challenge(3, 1), u64::MAX).polled(None) {
        Polled::Searching(search) => assert_eq!(search.nonce(), 0),
        Polled::Shutdown => panic!("stopped"),
    }
    match Search::from_nonce(challenge(3, 1), 41).polled(Some(Message::Challenge(challenge(4, 2)))) {
        Polled::Searching(search) => {
            assert_eq!(search.challenge().difficulty, 4);
            assert_eq!(search.challenge().block_id, vec![2; 3]);
            assert!(search.nonce() < u64::MAX);
        }
        Polled::Shutdown => panic!("stopped"),
    }
    match Search::from_nonce(challenge(3, 1), 41).polled(Some(Message::Shutdown)) {
        Polled::Searching(_) => panic!("went on"),
        Polled::Shutdown => {}
    }
}

#[test]
fn a_new_order_is_the_one_that_is_answered() {
    let mut hasher = get_hasher();
    let mut output = H256::new();
    let mut search = Search::from_nonce(challenge(200, 1), 0);
    let mut sent: bool = false;
    let mut turns: u32 = 0;
    let answer = loop {
        turns += 1;
        assert!(turns < 100000);
        match search.turn(&mut hasher, &mut output) {
            Turn::Found(answer) => break answer,
            Turn::Missed(missed) => {
                let message: Option<Message> = if sent {
                    None
                } else {
                    sent = true;
                    Some(Message::Challenge(challenge(4, 2)))
                };
                search = match missed.polled(message) {
                    Polled::Searching(next) => next,
                    Polled::Shutdown => panic!("stopped"),
                };
            }
        }
    };
    assert_eq!(answer.challenge.difficulty, 4);
    assert_eq!(answer.challenge.block_id, vec![2; 3]);
    let reached: u32 = digest_score(&mkhash(&mut hasher, &[2; 3], &[9, 9], answer.nonce));
    assert!(reached >= 4);
}
