use ccconsensus::block::Block;
use ccconsensus::block::BlockConsensus;
use ccconsensus::block::ConsensusError;
use ccconsensus::miner::Answer;
use ccconsensus::miner::Challenge;
use ccconsensus::node::service::find_block;
use ccconsensus::node::service::settle_cancel;
use ccconsensus::node::Flow;
use ccconsensus::node::Guard;
use ccconsensus::node::HostCall;
use ccconsensus::node::HostError;
use ccconsensus::node::NodeError;
use ccconsensus::node::NodeStep;
use ccconsensus::node::PowConfig;
use ccconsensus::node::PowNode;
use ccconsensus::node::Reply;
use ccconsensus::node::ServiceError;
use ccconsensus::node::Update;
use ccconsensus::utils::to_hex;
use ccconsensus::work::get_hasher;
use ccconsensus::work::is_valid_proof_of_work;
use ccconsensus::work::mkhash;
use ccconsensus::work::Cadence;
use ccconsensus::work::Pace;
use std::collections::HashMap;

struct Host {
    chain: HashMap<Vec<u8>, Block>,
    settings: Result<Vec<(String, String)>, HostError>,
    clock: Vec<u8>,
    pace: Pace,
    answers: Vec<Answer>,
    cancel: Result<(), HostError>,
    summary: Result<Vec<u8>, HostError>,
    finalized: Result<Vec<u8>, HostError>,
    unit: Result<(), HostError>,
    log: Vec<String>,
    orders: Vec<Challenge>,
}

fn text(bytes: &[u8]) -> String {
    String::from_utf8_lossy(bytes).into_owned()
}

impl Host {
    fn new(blocks: Vec<Block>) -> Host {
        let mut chain: HashMap<Vec<u8>, Block> = HashMap::new();
        for entry in blocks {
            chain.insert(entry.block_id.clone(), entry);
        }
        Host {
            chain,
            settings: Ok(Vec::new()),
            clock: b"2000.5".to_vec(),
            pace: Pace::Even,
            answers: Vec::new(),
            cancel: Ok(()),
            summary: Ok(vec![1]),
            finalized: Ok(vec![2]),
            unit: Ok(()),
            log: Vec::new(),
            orders: Vec::new(),
        }
    }

    fn perform(&mut self, call: HostCall) -> Reply {
        match call {
            HostCall::GetBlock(id) => {
                self.log.push(format!("get_block {}", text(&id)));
                let mut found: Vec<(Vec<u8>, Block)> = Vec::new();
                if let Some(entry) = self.chain.get(&id) {
                    found.push((id, entry.duplicate()));
                }
                Reply::Blocks(Ok(found))
            }
            HostCall::GetSettings(id) => {
                self.log.push(format!("get_settings {}", text(&id)));
                Reply::Settings(self.settings.clone())
            }
            HostCall::Now => {
                self.log.push("now".to_string());
                Reply::Time(self.clock.clone())
            }
            HostCall::ComparePace(elapsed, now) => {
                let rule: &str = match elapsed.cadence {
                    Cadence::Tuning => "tuning",
                    Cadence::Adjustment => "adjustment",
                };
                self.log.push(format!(
                    "compare {} from {} to {} over {} s",
                    rule,
                    text(&elapsed.previous_time),
                    text(&now),
                    elapsed.expected_seconds()
                ));
                Reply::Pace(self.pace)
            }
            HostCall::SendChallenge(order) => {
                self.log.push(format!(
                    "send {} at {} on {}",
                    order.difficulty,
                    text(&order.timestamp),
                    text(&order.block_id)
                ));
                self.orders.push(order);
                Reply::Sent
            }
            HostCall::DrainAnswers => {
                self.log.push("drain".to_string());
                Reply::Answers(std::mem::take(&mut self.answers))
            }
            HostCall::InitializeBlock(id) => {
                self.log.push(format!("initialize_block {:?}", id.map(|bytes| text(&bytes))));
                Reply::Unit(self.unit)
            }
            HostCall::SummarizeBlock => {
                self.log.push("summarize_block".to_string());
                Reply::Summary(self.summary.clone())
            }
            HostCall::FinalizeBlock(payload) => {
                self.log.push(format!("finalize_block {}", text(&payload)));
                Reply::BlockId(self.finalized.clone())
            }
            HostCall::CancelBlock => {
                self.log.push("cancel_block".to_string());
                Reply::Unit(self.cancel)
            }
            HostCall::CheckBlocks(id) => {
                self.log.push(format!("check_blocks {}", text(&id)));
                Reply::Unit(self.unit)
            }
            HostCall::CommitBlock(id) => {
                self.log.push(format!("commit_block {}", text(&id)));
                Reply::Unit(self.unit)
            }
            HostCall::IgnoreBlock(id) => {
                self.log.push(format!("ignore_block {}", text(&id)));
                Reply::Unit(self.unit)
            }
            HostCall::FailBlock(id) => {
                self.log.push(format!("fail_block {}", text(&id)));
                Reply::Unit(self.unit)
            }
        }
    }

    fn run(&mut self, node: &mut PowNode, first: NodeStep) -> Result<bool, NodeError> {
        let mut step: NodeStep = first;
        loop {
            match step {
                NodeStep::Done(outcome) => return outcome,
                NodeStep::Call(call, flow) => {
                    assert!(self.log.len() < 1000);
                    let reply: Reply = self.perform(call);
                    step = node.resume(flow, reply);
                }
            }
        }
    }

    fn update(&mut self, node: &mut PowNode, update: Update) -> Result<bool, NodeError> {
        self.log.clear();
        let first: NodeStep = node.handle_update(update);
        self.run(node, first)
    }

    fn publish(&mut self, node: &mut PowNode) -> Result<bool, NodeError> {
        self.log.clear();
        let first: NodeStep = node.try_publish();
        self.run(node, first)
    }
}

fn block(id: &str, parent: &str, block_num: u64, payload: &[u8]) -> Block {
    Block {
        block_id: id.as_bytes().to_vec(),
        previous_id: parent.as_bytes().to_vec(),
        signer_id: b"signer".to_vec(),
        block_num,
        payload: payload.to_vec(),
    }
}

fn pow(id: &str, parent: &str, block_num: u64, difficulty: u32, time: &str) -> Block {
    block(id, parent, block_num, &BlockConsensus::serialize(difficulty, time.as_bytes(), 1))
}

fn mined(id: &str, parent: &str, block_num: u64, difficulty: u32) -> Block {
    let mut hasher = get_hasher();
    let mut nonce: u64 = 0;
    while !is_valid_proof_of_work(&mkhash(&mut hasher, parent.as_bytes(), b"signer", nonce), difficulty) {
        nonce += 1;
    }
    block(id, parent, block_num, &BlockConsensus::serialize(difficulty, b"1000.5", nonce))
}

fn unmined(id: &str, parent: &str, block_num: u64, difficulty: u32) -> Block {
    let mut hasher = get_hasher();
    let mut nonce: u64 = 0;
    while is_valid_proof_of_work(&mkhash(&mut hasher, parent.as_bytes(), b"signer", nonce), difficulty) {
        nonce += 1;
    }
    block(id, parent, block_num, &BlockConsensus::serialize(difficulty, b"1000.5", nonce))
}

fn started(host: &mut Host, head: &str) -> PowNode {
    let mut node = PowNode::new();
    let head_block: Block = host.chain.get(head.as_bytes()).unwrap().duplicate();
    let first: NodeStep = node.initialize(&head_block, b"me");
    assert_eq!(host.run(&mut node, first), Ok(true));
    host.log.clear();
    node
}

fn trunk() -> Vec<Block> {
    let mut blocks: Vec<Block> = vec![block("g0", "\0\0\0\0\0\0\0\0", 0, b"")];
    let mut parent: String = "g0".to_string();
    for height in 1..=9u64 {
        let id: String = format!("t{}", height);
        blocks.push(pow(&id, &parent, height, 20, &format!("{}", 1000 + 60 * height)));
        parent = id;
    }
    blocks
}

#[test]
fn genesis_block_new() {
    let mut host = Host::new(trunk());
    let mut node = started(&mut host, "t9");
    let genesis = block("g0", "\0\0\0\0\0\0\0\0", 0, b"");
    assert_eq!(host.update(&mut node, Update::BlockNew(genesis)), Ok(true));
    assert_eq!(host.log, Vec::<String>::new());
    let odd = block("x", "\0\0\0\0\0\0\0\0", 7, b"whatever");
    assert_eq!(host.update(&mut node, Update::BlockNew(odd)), Ok(true));
    assert_eq!(host.log, Vec::<String>::new());
}

#[test]
fn other_null_like_parents_are_no_genesis() {
    let mut host = Host::new(trunk());
    let mut node = started(&mut host, "t9");
    let short = block("x", "\0\0\0\0\0\0\0", 7, b"whatever");
    assert_eq!(host.update(&mut node, Update::BlockNew(short)), Ok(true));
    assert_eq!(host.log, vec!["fail_block x"]);
    let long = block("y", "\0\0\0\0\0\0\0\0\0", 7, b"whatever");
    assert_eq!(host.update(&mut node, Update::BlockNew(long)), Ok(true));
    assert_eq!(host.log, vec!["fail_block y"]);
}

#[test]
fn new_blocks_are_checked_or_failed() {
    let mut host = Host::new(trunk());
    let mut node = started(&mut host, "t9");
    assert_eq!(host.update(&mut node, Update::BlockNew(mined("a", "t9", 10, 6))), Ok(true));
    assert_eq!(host.log, vec!["check_blocks a"]);
    assert_eq!(host.update(&mut node, Update::BlockNew(unmined("b", "t9", 10, 1))), Ok(true));
    assert_eq!(host.log, vec!["fail_block b"]);
    assert_eq!(host.update(&mut node, Update::BlockNew(block("c", "t9", 10, b"XYZ:1:2:3"))), Ok(true));
    assert_eq!(host.log, vec!["fail_block c"]);
    assert_eq!(host.update(&mut node, Update::BlockNew(block("d", "t9", 0, b"junk"))), Ok(true));
    assert_eq!(host.log, vec!["check_blocks d"]);
    host.unit = Err(HostError::UnknownBlock);
    assert_eq!(
        host.update(&mut node, Update::BlockNew(mined("a", "t9", 10, 6))),
        Err(NodeError::Host(HostError::UnknownBlock))
    );
    assert_eq!(host.log, vec!["check_blocks a"]);
}

#[test]
fn invalid_blocks_are_failed() {
    let mut host = Host::new(trunk());
    let mut node = started(&mut host, "t9");
    assert_eq!(host.update(&mut node, Update::BlockInvalid(b"bad".to_vec())), Ok(true));
    assert_eq!(host.log, vec!["fail_block bad"]);
}

#[test]
fn shutdown_stops_and_peers_are_ignored() {
    let mut host = Host::new(trunk());
    let mut node = started(&mut host, "t9");
    assert_eq!(host.update(&mut node, Update::Shutdown), Ok(false));
    assert_eq!(host.update(&mut node, Update::PeerConnected), Ok(true));
    assert_eq!(host.update(&mut node, Update::PeerDisconnected), Ok(true));
    assert_eq!(host.update(&mut node, Update::PeerMessage), Ok(true));
    assert_eq!(host.log, Vec::<String>::new());
}

#[test]
fn initialize_loads_settings_mines_and_starts_a_block() {
    let mut host = Host::new(trunk());
    host.settings = Ok(vec![(
        "sawtooth.consensus.pow.seconds_between_blocks".to_string(),
        "30".to_string(),
    )]);
    let mut node = PowNode::new();
    let head: Block = host.chain.get(&b"t7".to_vec()).unwrap().duplicate();
    let first: NodeStep = node.initialize(&head, b"me");
    assert_eq!(host.run(&mut node, first), Ok(true));
    assert_eq!(
        host.log,
        vec!["get_settings t7", "get_block t7", "now", "send 20 at 2000.5 on t7", "initialize_block None"]
    );
    assert_eq!(node.config.seconds_between_blocks, 30);
    assert_eq!(node.state().chain_head, b"t7".to_vec());
    assert_eq!(node.state().peer_id, b"me".to_vec());
    assert_eq!(host.orders[0].peer_id, b"me".to_vec());
}

#[test]
fn initialize_on_the_first_block_uses_the_initial_difficulty() {
    let mut host = Host::new(trunk());
    let mut node = PowNode::with_config(PowConfig::new());
    let head: Block = host.chain.get(&b"g0".to_vec()).unwrap().duplicate();
    let first: NodeStep = node.initialize(&head, b"me");
    assert_eq!(host.run(&mut node, first), Ok(true));
    assert_eq!(
        host.log,
        vec!["get_settings g0", "get_block g0", "now", "send 22 at 2000.5 on g0", "initialize_block None"]
    );
}

#[test]
fn initialize_gives_up_on_errors() {
    let mut host = Host::new(trunk());
    host.settings = Err(HostError::NoChainHead);
    let mut node = PowNode::new();
    let head: Block = host.chain.get(&b"t7".to_vec()).unwrap().duplicate();
    let first: NodeStep = node.initialize(&head, b"me");
    assert_eq!(host.run(&mut node, first), Err(NodeError::Host(HostError::NoChainHead)));
    assert_eq!(host.log, vec!["get_settings t7"]);
    let mut host = Host::new(trunk());
    let mut node = PowNode::new();
    let first: NodeStep = node.initialize(&block("nowhere", "t9", 10, b""), b"me");
    assert_eq!(host.run(&mut node, first), Err(NodeError::BlockNotFound));
    let mut host = Host::new(vec![block("odd", "t9", 10, b"XYZ")]);
    let mut node = PowNode::new();
    let first: NodeStep = node.initialize(&block("odd", "t9", 10, b"XYZ"), b"me");
    assert_eq!(
        host.run(&mut node, first),
        Err(NodeError::Consensus(ConsensusError::InvalidTag))
    );
    assert_eq!(host.log, vec!["get_settings odd", "get_block odd"]);
    let mut host = Host::new(trunk());
    host.clock = b"noon".to_vec();
    let mut node = PowNode::new();
    let head: Block = host.chain.get(&b"t7".to_vec()).unwrap().duplicate();
    let first: NodeStep = node.initialize(&head, b"me");
    assert_eq!(host.run(&mut node, first), Err(NodeError::InvalidTime));
    let mut host = Host::new(trunk());
    host.unit = Err(HostError::InvalidState);
    let mut node = PowNode::new();
    let head: Block = host.chain.get(&b"t7".to_vec()).unwrap().duplicate();
    let first: NodeStep = node.initialize(&head, b"me");
    assert_eq!(host.run(&mut node, first), Err(NodeError::Host(HostError::InvalidState)));
}

#[test]
fn commit_takes_over_the_head_and_mines_on_it() {
    let mut blocks = trunk();
    blocks.push(pow("t10", "t9", 10, 20, "1600"));
    let mut host = Host::new(blocks);
    let mut node = started(&mut host, "t9");
    host.settings = Ok(vec![
        ("sawtooth.consensus.pow.difficulty_adjustment_block_count".to_string(), "5".to_string()),
        ("sawtooth.consensus.pow.seconds_between_blocks".to_string(), "40".to_string()),
    ]);
    host.pace = Pace::Fast;
    host.cancel = Err(HostError::InvalidState);
    assert_eq!(host.update(&mut node, Update::BlockCommit(b"t10".to_vec())), Ok(true));
    assert_eq!(
        host.log,
        vec![
            "cancel_block",
            "get_settings t9",
            "get_block t10",
            "now",
            "get_block t9",
            "get_block t8",
            "get_block t7",
            "compare adjustment from 1420 to 2000.5 over 200 s",
            "send 21 at 2000.5 on t10",
            "initialize_block Some(\"t10\")",
        ]
    );
    assert_eq!(node.state().chain_head, b"t10".to_vec());
    assert_eq!(node.config.difficulty_adjustment_block_count, 5);
    host.pace = Pace::Slow;
    assert_eq!(host.update(&mut node, Update::BlockCommit(b"t10".to_vec())), Ok(true));
    assert_eq!(host.log[8], "send 19 at 2000.5 on t10");
    host.pace = Pace::Even;
    assert_eq!(host.update(&mut node, Update::BlockCommit(b"t10".to_vec())), Ok(true));
    assert_eq!(host.log[8], "send 20 at 2000.5 on t10");
}

#[test]
fn commit_with_a_broken_span_uses_the_initial_difficulty() {
    let mut host = Host::new(vec![pow("t10", "t9", 10, 30, "1600"), pow("t9", "t8", 9, 30, "1540")]);
    let mut node = started(&mut host, "t10");
    assert_eq!(host.update(&mut node, Update::BlockCommit(b"t10".to_vec())), Ok(true));
    assert_eq!(
        host.log,
        vec![
            "cancel_block",
            "get_settings t10",
            "get_block t10",
            "now",
            "get_block t9",
            "get_block t8",
            "send 22 at 2000.5 on t10",
            "initialize_block Some(\"t10\")",
        ]
    );
}

#[test]
fn commit_stops_at_a_failed_cancel() {
    let mut host = Host::new(trunk());
    let mut node = started(&mut host, "t9");
    host.cancel = Err(HostError::SendError);
    assert_eq!(
        host.update(&mut node, Update::BlockCommit(b"t8".to_vec())),
        Err(NodeError::Host(HostError::SendError))
    );
    assert_eq!(host.log, vec!["cancel_block"]);
    assert_eq!(node.state().chain_head, b"t9".to_vec());
}

#[test]
fn valid_block_on_the_head_is_committed() {
    let mut blocks = trunk();
    blocks.push(pow("\u{aa}", "t9", 10, 20, "1600"));
    blocks.push(pow("n", "\u{aa}", 11, 20, "1660"));
    let mut host = Host::new(blocks);
    let mut node = started(&mut host, "\u{aa}");
    assert_eq!(host.update(&mut node, Update::BlockValid(b"n".to_vec())), Ok(true));
    assert_eq!(host.log, vec!["get_block \u{aa}", "get_block n", "commit_block n"]);
}

#[test]
fn valid_block_of_a_heavier_fork_is_committed() {
    let mut blocks = trunk();
    let mut cur: String = "t9".to_string();
    let mut new: String = "t9".to_string();
    for height in 10..=12u64 {
        blocks.push(pow(&format!("c{}", height), &cur, height, 20, "1"));
        blocks.push(pow(&format!("n{}", height), &new, height, 21, "1"));
        cur = format!("c{}", height);
        new = format!("n{}", height);
    }
    let mut host = Host::new(blocks);
    let mut node = started(&mut host, "c12");
    assert_eq!(host.update(&mut node, Update::BlockValid(b"n12".to_vec())), Ok(true));
    assert_eq!(host.log.first().unwrap(), "get_block c12");
    assert_eq!(host.log.last().unwrap(), "commit_block n12");
    let mut node = started(&mut host, "n12");
    assert_eq!(host.update(&mut node, Update::BlockValid(b"c12".to_vec())), Ok(true));
    assert_eq!(host.log.last().unwrap(), "ignore_block c12");
}

#[test]
fn valid_block_without_proof_of_work_is_ignored() {
    let mut blocks = trunk();
    blocks.push(block("x", "t9", 10, b"XYZ:1:2:3"));
    blocks.push(block("y", "t2", 3, b"XYZ"));
    let mut host = Host::new(blocks);
    let mut node = started(&mut host, "t9");
    assert_eq!(host.update(&mut node, Update::BlockValid(b"x".to_vec())), Ok(true));
    assert_eq!(host.log, vec!["get_block t9", "get_block x", "ignore_block x"]);
    assert_eq!(host.update(&mut node, Update::BlockValid(b"y".to_vec())), Ok(true));
    assert_eq!(host.log, vec!["get_block t9", "get_block y", "ignore_block y"]);
}

#[test]
fn valid_block_that_is_missing_is_an_error() {
    let mut host = Host::new(trunk());
    let mut node = started(&mut host, "t9");
    assert_eq!(
        host.update(&mut node, Update::BlockValid(b"nowhere".to_vec())),
        Err(NodeError::BlockNotFound)
    );
    assert_eq!(host.log, vec!["get_block t9", "get_block nowhere"]);
}

#[test]
fn publish_pipeline() {
    let mut blocks = trunk();
    blocks.push(pow("t10", "t9", 10, 20, "1600"));
    let mut host = Host::new(blocks);
    let mut node = started(&mut host, "t9");
    assert_eq!(host.publish(&mut node), Ok(true));
    assert_eq!(host.log, vec!["drain"]);
    let order = host.orders.pop().unwrap();
    host.answers.push(Answer { challenge: order.duplicate(), nonce: 5 });
    host.answers.push(Answer { challenge: order, nonce: 6 });
    host.summary = Err(HostError::BlockNotReady);
    assert_eq!(host.publish(&mut node), Ok(true));
    assert_eq!(host.log, vec!["drain", "summarize_block"]);
    assert!(node.state().guards.contains(&Guard::Summarize));
    assert!(!node.state().guards.contains(&Guard::Publish));
    host.summary = Ok(vec![1]);
    host.finalized = Err(HostError::BlockNotReady);
    assert_eq!(host.publish(&mut node), Ok(true));
    assert_eq!(host.log, vec!["drain", "summarize_block", "finalize_block PoW:20:6:2000.5"]);
    assert!(node.state().guards.contains(&Guard::Finalize));
    assert!(node.state().guards.contains(&Guard::Summarize));
    host.finalized = Err(HostError::UnknownBlock);
    assert_eq!(host.publish(&mut node), Err(NodeError::Host(HostError::UnknownBlock)));
    assert!(!node.state().guards.contains(&Guard::Finalize));
    host.summary = Err(HostError::ReceiveError);
    assert_eq!(host.publish(&mut node), Err(NodeError::Host(HostError::ReceiveError)));
    assert!(!node.state().guards.contains(&Guard::Summarize));
    host.summary = Ok(vec![1]);
    host.finalized = Ok(vec![2]);
    assert_eq!(host.publish(&mut node), Ok(true));
    assert_eq!(host.log, vec!["drain", "summarize_block", "finalize_block PoW:20:6:2000.5"]);
    assert!(node.state().guards.contains(&Guard::Publish));
    assert!(!node.state().guards.contains(&Guard::Finalize));
    assert!(!node.state().guards.contains(&Guard::Summarize));
    assert_eq!(host.publish(&mut node), Ok(true));
    assert_eq!(host.log, Vec::<String>::new());
    assert_eq!(host.update(&mut node, Update::BlockCommit(b"t10".to_vec())), Ok(true));
    assert!(!node.state().guards.contains(&Guard::Publish));
    assert_eq!(host.publish(&mut node), Ok(true));
    assert_eq!(host.log, vec!["drain"]);
}

#[test]
fn an_answer_to_another_call_is_refused() {
    let mut node = PowNode::new();
    match node.resume(Flow::Last, Reply::Sent) {
        NodeStep::Done(outcome) => assert_eq!(outcome, Err(NodeError::Unexpected)),
        NodeStep::Call(_, _) => panic!("went on"),
    }
    match node.resume(Flow::Finalize, Reply::Unit(Ok(()))) {
        NodeStep::Done(outcome) => assert_eq!(outcome, Err(NodeError::Unexpected)),
        NodeStep::Call(_, _) => panic!("went on"),
    }
    assert!(!node.state().guards.contains(&Guard::Publish));
    match node.resume(Flow::Finalize, Reply::BlockId(Ok(vec![1]))) {
        NodeStep::Done(outcome) => assert_eq!(outcome, Ok(true)),
        NodeStep::Call(_, _) => panic!("went on"),
    }
    assert!(node.state().guards.contains(&Guard::Publish));
}

#[test]
fn reload_configuration_says_whether_anything_changed() {
    let mut node = PowNode::new();
    let given: Vec<(String, String)> =
        vec![("sawtooth.consensus.pow.initial_difficulty".to_string(), "9".to_string())];
    assert!(node.reload_configuration(&given));
    assert_eq!(node.config.initial_difficulty, 9);
    assert!(!node.reload_configuration(&given));
}

#[test]
fn service_answers() {
    assert_eq!(settle_cancel(Ok(())), Ok(()));
    assert_eq!(settle_cancel(Err(HostError::InvalidState)), Ok(()));
    assert_eq!(settle_cancel(Err(HostError::BlockNotReady)), Err(HostError::BlockNotReady));
    assert_eq!(settle_cancel(Err(HostError::NoChainHead)), Err(HostError::NoChainHead));
    let blocks = vec![
        (b"a".to_vec(), block("a", "", 1, b"")),
        (b"b".to_vec(), block("b", "a", 2, b"")),
    ];
    assert_eq!(find_block(Ok(blocks), b"b").unwrap().block_num, 2);
    let blocks = vec![(b"a".to_vec(), block("a", "", 1, b""))];
    assert_eq!(find_block(Ok(blocks), b"b").unwrap_err(), ServiceError::BlockNotFound);
    assert_eq!(find_block(Ok(vec![]), b"b").unwrap_err(), ServiceError::BlockNotFound);
    assert_eq!(
        find_block(Err(HostError::UnknownBlock), b"b").unwrap_err(),
        ServiceError::Host(HostError::UnknownBlock)
    );
    assert_eq!(to_hex(b"b"), "62");
}

#[test]
fn a_node_that_was_not_started_knows_nothing() {
    let node = PowNode::new();
    assert_eq!(node.config, PowConfig::new());
    assert!(node.state().chain_head.is_empty());
    assert!(node.state().peer_id.is_empty());
    assert!(!node.state().guards.contains(&Guard::Publish));
    assert!(!node.state().guards.contains(&Guard::Summarize));
    assert!(!node.state().guards.contains(&Guard::Finalize));
    let mut config = PowConfig::new();
    config.seconds_between_blocks = 5;
    let node = PowNode::with_config(config);
    assert_eq!(node.config.seconds_between_blocks, 5);
    assert!(node.state().chain_head.is_empty());
    assert!(node.state().peer_id.is_empty());
}
