use ccconsensus::block::Block;
use ccconsensus::block::BlockAncestors;
use ccconsensus::block::BlockConsensus;
use ccconsensus::node::fork::choose_by_work;
use ccconsensus::node::fork::sum_work;
use ccconsensus::node::ForkChoice;
use ccconsensus::node::ForkStep;
use ccconsensus::node::HostError;
use ccconsensus::node::ServiceError;
use ccconsensus::node::Verdict;
use ccconsensus::block::BlockHeader;
use std::collections::HashMap;

type Chain = HashMap<Vec<u8>, Block>;

fn block(id: &str, parent: &str, block_num: u64, payload: &[u8]) -> Block {
    Block {
        block_id: id.as_bytes().to_vec(),
        previous_id: parent.as_bytes().to_vec(),
        signer_id: b"signer".to_vec(),
        block_num,
        payload: payload.to_vec(),
    }
}

fn pow(id: &str, parent: &str, block_num: u64, difficulty: u32) -> Block {
    block(id, parent, block_num, &BlockConsensus::serialize(difficulty, b"1000.5", 1))
}

fn chain_of(blocks: Vec<Block>) -> Chain {
    let mut chain: Chain = HashMap::new();
    for entry in blocks {
        chain.insert(entry.block_id.clone(), entry.duplicate());
    }
    chain
}

fn lookup(chain: &Chain, id: &[u8]) -> Result<Block, ServiceError> {
    match chain.get(id) {
        Some(found) => Ok(found.duplicate()),
        None => Err(ServiceError::BlockNotFound),
    }
}

fn decide(chain: &Chain, cur: &str, new: &str) -> (Result<Verdict, ServiceError>, Vec<String>) {
    let cur_head: Block = lookup(chain, cur.as_bytes()).unwrap();
    let new_head: Block = lookup(chain, new.as_bytes()).unwrap();
    let mut asked: Vec<String> = Vec::new();
    let mut step: ForkStep = ForkChoice::compare_forks(&cur_head, &new_head);
    loop {
        match step {
            ForkStep::Fetch(choice) => {
                assert_eq!(choice.new_id(), &new_head.block_id);
                asked.push(String::from_utf8(choice.wanted().clone()).unwrap());
                assert!(asked.len() < 1000);
                let fetched = lookup(chain, choice.wanted());
                step = choice.step(fetched);
            }
            ForkStep::Decided(verdict) => return (Ok(verdict), asked),
            ForkStep::Failed(error) => return (Err(error), asked),
        }
    }
}

fn trunk() -> Vec<Block> {
    let mut blocks: Vec<Block> = vec![block("g0", "", 0, b"")];
    let mut parent: String = "g0".to_string();
    for height in 1..=9u64 {
        let id: String = format!("t{}", height);
        blocks.push(pow(&id, &parent, height, 20));
        parent = id;
    }
    blocks
}

fn branch(blocks: &mut Vec<Block>, name: &str, from: &str, heights: std::ops::RangeInclusive<u64>, difficulty: u32) {
    let mut parent: String = from.to_string();
    for height in heights {
        let id: String = format!("{}{}", name, height);
        blocks.push(pow(&id, &parent, height, difficulty));
        parent = id;
    }
}

#[test]
fn fast_path_commit() {
    let chain = chain_of(vec![pow("\u{aa}", "p", 10, 20), pow("n", "\u{aa}", 11, 20)]);
    assert_eq!(decide(&chain, "\u{aa}", "n"), (Ok(Verdict::Commit), vec![]));
}

#[test]
fn heavier_fork() {
    let mut blocks = trunk();
    branch(&mut blocks, "c", "t9", 10..=12, 20);
    branch(&mut blocks, "n", "t9", 10..=12, 21);
    let chain = chain_of(blocks);
    let (verdict, asked) = decide(&chain, "c12", "n12");
    assert_eq!(verdict, Ok(Verdict::Commit));
    assert_eq!(asked, vec!["c12", "n12", "c11", "n11", "c10", "n10", "t9", "t9"]);
    let cur_side: Vec<BlockHeader> = ["c12", "c11", "c10"]
        .iter()
        .map(|id| BlockHeader::owned(lookup(&chain, id.as_bytes()).unwrap()).unwrap())
        .collect();
    let new_side: Vec<BlockHeader> = ["n12", "n11", "n10"]
        .iter()
        .map(|id| BlockHeader::owned(lookup(&chain, id.as_bytes()).unwrap()).unwrap())
        .collect();
    assert_eq!(sum_work(&cur_side), 3 * (1u128 << 20));
    assert_eq!(sum_work(&new_side), 3 * (1u128 << 21));
    assert_eq!(choose_by_work(&cur_side, &new_side), Verdict::Commit);
    assert_eq!(choose_by_work(&new_side, &cur_side), Verdict::Ignore);
    assert_eq!(choose_by_work(&cur_side, &cur_side), Verdict::Ignore);
    assert_eq!(sum_work(&Vec::new()), 0);
}

#[test]
fn lighter_fork_is_ignored() {
    let mut blocks = trunk();
    branch(&mut blocks, "c", "t9", 10..=12, 21);
    branch(&mut blocks, "n", "t9", 10..=12, 20);
    let chain = chain_of(blocks);
    assert_eq!(decide(&chain, "c12", "n12").0, Ok(Verdict::Ignore));
}

#[test]
fn equal_work_leaves_the_head() {
    let mut blocks = trunk();
    branch(&mut blocks, "c", "t9", 10..=12, 20);
    branch(&mut blocks, "n", "t9", 10..=12, 20);
    let chain = chain_of(blocks);
    assert_eq!(decide(&chain, "c12", "n12").0, Ok(Verdict::Ignore));
}

#[test]
fn non_pow_interloper() {
    let mut blocks = trunk();
    branch(&mut blocks, "c", "t9", 10..=12, 20);
    blocks.push(block("x13", "c12", 13, b"XYZ:1:2:3"));
    blocks.push(block("x5", "t4", 5, b"XYZ"));
    blocks.push(block("x99", "c12", 99, b""));
    let chain = chain_of(blocks);
    assert_eq!(decide(&chain, "c12", "x13"), (Ok(Verdict::Ignore), vec![]));
    assert_eq!(decide(&chain, "c12", "x5"), (Ok(Verdict::Ignore), vec![]));
    assert_eq!(decide(&chain, "c12", "x99"), (Ok(Verdict::Ignore), vec![]));
    assert_eq!(decide(&chain, "x13", "x5"), (Ok(Verdict::Ignore), vec![]));
}

#[test]
fn longer_new_chain_gathers_its_upper_blocks_first() {
    let mut blocks = trunk();
    branch(&mut blocks, "c", "t9", 10..=11, 20);
    branch(&mut blocks, "n", "t9", 10..=14, 20);
    let chain = chain_of(blocks);
    let (verdict, asked) = decide(&chain, "c11", "n14");
    assert_eq!(asked, vec!["n13", "n12", "n11", "c11", "n11", "c10", "n10", "t9", "t9"]);
    assert_eq!(verdict, Ok(Verdict::Commit));
}

#[test]
fn longer_head_chain_gathers_its_upper_blocks_first() {
    let mut blocks = trunk();
    branch(&mut blocks, "c", "t9", 10..=13, 20);
    branch(&mut blocks, "n", "t9", 10..=11, 22);
    let chain = chain_of(blocks);
    let (verdict, asked) = decide(&chain, "c13", "n11");
    assert_eq!(asked, vec!["c12", "c11", "c11", "n11", "c10", "n10", "t9", "t9"]);
    // head: c12 + c11 gathered, then c11 + c10 in step = 4 * 2^20; new: n11 + n10 = 2 * 2^22
    assert_eq!(verdict, Ok(Verdict::Commit));
    let mut blocks = trunk();
    branch(&mut blocks, "c", "t9", 10..=13, 20);
    branch(&mut blocks, "n", "t9", 10..=11, 21);
    let chain = chain_of(blocks);
    // head: 4 * 2^20; new: 2 * 2^21: equal, so the head stays
    assert_eq!(decide(&chain, "c13", "n11").0, Ok(Verdict::Ignore));
}

#[test]
fn a_parent_one_higher_on_another_block_is_chosen_by_work() {
    let mut blocks = trunk();
    branch(&mut blocks, "c", "t9", 10..=10, 20);
    branch(&mut blocks, "n", "t9", 10..=11, 20);
    let chain = chain_of(blocks);
    let (verdict, asked) = decide(&chain, "c10", "n11");
    assert_eq!(asked, vec!["n10", "c10", "n10", "t9", "t9"]);
    // new: n10 gathered, then n10 in step = 2 * 2^20; head: c10 = 2^20
    assert_eq!(verdict, Ok(Verdict::Commit));
}

#[test]
fn missing_blocks_end_the_walks_quietly() {
    let chain = chain_of(vec![pow("c", "gone", 12, 20), pow("n", "lost", 12, 21)]);
    let (verdict, asked) = decide(&chain, "c", "n");
    assert_eq!(asked, vec!["c", "n", "gone"]);
    assert_eq!(verdict, Ok(Verdict::Commit));
    let chain = chain_of(vec![pow("c", "gone", 12, 20), pow("n", "lost", 15, 21)]);
    let (verdict, asked) = decide(&chain, "c", "n");
    assert_eq!(asked, vec!["lost", "c", "n", "gone"]);
    assert_eq!(verdict, Ok(Verdict::Commit));
}

#[test]
fn walks_in_step_stop_at_the_first_block() {
    let chain = chain_of(vec![
        block("g", "", 0, b""),
        pow("c1", "g", 1, 20),
        pow("n1", "h", 1, 19),
        block("h", "", 0, b""),
    ]);
    let (verdict, asked) = decide(&chain, "c1", "n1");
    assert_eq!(asked, vec!["c1", "n1", "g", "h"]);
    assert_eq!(verdict, Ok(Verdict::Ignore));
}

#[test]
fn head_without_proof_of_work_is_bridged() {
    let chain = chain_of(vec![
        block("d5", "d4", 5, b"Devmode"),
        pow("n6", "d5", 6, 20),
        pow("n7", "n6", 7, 20),
        pow("n8", "n7", 8, 20),
        block("o5", "d4", 5, b"Devmode"),
        pow("m6", "o5", 6, 20),
        pow("m7", "m6", 7, 20),
        pow("q7", "absent", 7, 20),
    ]);
    assert_eq!(decide(&chain, "d5", "n6"), (Ok(Verdict::Commit), vec![]));
    assert_eq!(
        decide(&chain, "d5", "n8"),
        (Ok(Verdict::Commit), vec!["n7".to_string(), "n6".to_string()])
    );
    assert_eq!(
        decide(&chain, "d5", "m7"),
        (Ok(Verdict::Ignore), vec!["m6".to_string(), "o5".to_string()])
    );
    assert_eq!(
        decide(&chain, "d5", "q7"),
        (Err(ServiceError::BlockNotFound), vec!["absent".to_string()])
    );
}

#[test]
fn a_failed_call_fails_the_bridge() {
    let cur = block("d5", "d4", 5, b"Devmode");
    let new = pow("n8", "n7", 8, 20);
    let choice = match ForkChoice::compare_forks(&cur, &new) {
        ForkStep::Fetch(choice) => choice,
        other => panic!("no lookup: {:?}", other),
    };
    assert_eq!(choice.wanted(), &b"n7".to_vec());
    match choice.step(Err(ServiceError::Host(HostError::ReceiveError))) {
        ForkStep::Failed(error) => assert_eq!(error, ServiceError::Host(HostError::ReceiveError)),
        other => panic!("not failed: {:?}", other),
    }
}

#[test]
fn ancestors_walk_up_to_the_first_unreadable_block() {
    let mut blocks = trunk();
    blocks.push(block("bad", "t9", 10, b"XYZ"));
    blocks.push(pow("top", "bad", 11, 20));
    let chain = chain_of(blocks);
    let mut walk = BlockAncestors::new(b"t3");
    let mut seen: Vec<u64> = Vec::new();
    loop {
        let fetched: Option<Block> = match walk.wanted() {
            Some(id) => lookup(&chain, id).ok(),
            None => None,
        };
        match walk.next(fetched) {
            Some(header) => seen.push(header.block.block_num),
            None => break,
        }
    }
    assert_eq!(seen, vec![3, 2, 1, 0]);
    assert!(walk.wanted().is_none());
    assert!(walk.next(Some(pow("t1", "g0", 1, 20))).is_none());
    let mut walk = BlockAncestors::new(b"top");
    let top = walk.next(lookup(&chain, b"top").ok()).unwrap();
    assert_eq!(top.block.block_num, 11);
    assert_eq!(walk.wanted(), Some(&b"bad".to_vec()));
    assert!(walk.next(lookup(&chain, b"bad").ok()).is_none());
    assert!(walk.wanted().is_none());
    assert!(BlockAncestors::ended().wanted().is_none());
}
