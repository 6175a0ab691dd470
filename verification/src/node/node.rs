use vstd::prelude::*;
use crate::block::block::Block;
use crate::block::block::BlockView;
use crate::block::block_header::header_of;
use crate::block::block_header::header_valid;
use crate::block::block_header::BlockHeader;
use crate::block::block_header::HeaderView;
use crate::miner::answer::Answer;
use crate::miner::answer::AnswerView;
use crate::miner::challenge::Challenge;
use crate::miner::challenge::ChallengeView;
use crate::miner::miner::answer_payload;
use crate::miner::miner::latest;
use crate::miner::miner::Miner;
use crate::node::config::PowConfig;
use crate::node::fork::fork_start;
use crate::node::fork::fork_step;
use crate::node::fork::ForkChoice;
use crate::node::fork::ForkStep;
use crate::node::fork::ForkStepView;
use crate::node::fork::ForkView;
use crate::node::fork::Verdict;
use crate::node::guard::Guard;
use crate::node::protocol::from_service;
use crate::node::protocol::id_view;
use crate::node::protocol::service_failure;
use crate::node::protocol::HostCall;
use crate::node::protocol::HostCallView;
use crate::node::protocol::NodeError;
use crate::node::protocol::Reply;
use crate::node::protocol::Update;
use crate::node::service::block_outcome;
use crate::node::service::cancel_outcome;
use crate::node::service::find_block;
use crate::node::service::settle_cancel;
use crate::node::service::Blocks;
use crate::node::service::HostError;
use crate::node::state::PowState;
use crate::utils::bytes::bytes_eq;
use crate::utils::bytes::copy_bytes;
use crate::utils::numeral::is_real_text;
use crate::utils::numeral::real_text;
use crate::work::clamped;
use crate::work::difficulty_start;
use crate::work::get_difficulty;
use crate::work::retargeted;
use crate::work::window_step;
use crate::work::DifficultyStep;
use crate::work::DifficultyStepView;
use crate::work::Window;
use crate::work::WindowView;

verus! {

/// The node: its configuration, what it knows of the chain, and its side of
/// the miner. It calls nothing itself: it says which call it needs made, and
/// goes on when it is handed what the call gave.
#[derive(Debug)]
pub struct PowNode {
    pub config: PowConfig,
    state: PowState,
    miner: Miner,
}

/// A node as plain values.
pub ghost struct NodeView {
    pub config: PowConfig,
    pub chain_head: Seq<u8>,
    pub peer_id: Seq<u8>,
    pub guards: Set<Guard>,
    pub answer: Option<AnswerView>,
}

impl View for PowNode {
    type V = NodeView;

    closed spec fn view(&self) -> NodeView {
        NodeView {
            config: self.config,
            chain_head: self.state.chain_head@,
            peer_id: self.state.peer_id@,
            guards: self.state.guards@,
            answer: self.miner@,
        }
    }
}

/// A node that has not been started: it knows no head and no id of its own,
/// no guard is set, and there is no answer from the worker.
pub open spec fn unstarted(config: PowConfig) -> NodeView {
    NodeView {
        config,
        chain_head: Seq::empty(),
        peer_id: Seq::empty(),
        guards: Set::empty(),
        answer: None,
    }
}

/// What the node will do with the answer to the call it has asked for.
#[derive(Debug)]
pub enum Flow {
    /// Take over the settings, then mine; `commit` is the new head, where one
    /// is being taken over.
    Settings { commit: Option<Vec<u8>> },
    /// Read the header of the block to mine on.
    MineHead { block_id: Vec<u8>, after: Option<Vec<u8>> },
    /// Note the time, and find the difficulty.
    MineTime { header: BlockHeader, block_id: Vec<u8>, after: Option<Vec<u8>> },
    /// Walk the span of a retarget.
    MineWalk { window: Window, now: Vec<u8>, block_id: Vec<u8>, after: Option<Vec<u8>> },
    /// Retarget the difficulty.
    MinePace { difficulty: u32, now: Vec<u8>, block_id: Vec<u8>, after: Option<Vec<u8>> },
    /// Start the next block.
    MineSend { after: Option<Vec<u8>> },
    /// Report how the call went, and be done.
    Last,
    /// Go on with taking over a new head.
    Cancel { block_id: Vec<u8> },
    /// Take the head, and look up the block that asks to replace it.
    ValidCur { head: Vec<u8>, block_id: Vec<u8> },
    /// Take the block that asks to become the head, and choose.
    ValidNew { cur: Block, block_id: Vec<u8> },
    /// Go on choosing.
    ValidFork { choice: ForkChoice },
    /// Keep the latest answer, and publish it.
    Answers,
    /// Put the payload into the block.
    Summary { payload: Vec<u8> },
    /// Note that the block is published.
    Finalize,
}

/// A flow as plain values.
pub ghost enum FlowView {
    Settings { commit: Option<Seq<u8>> },
    MineHead { block_id: Seq<u8>, after: Option<Seq<u8>> },
    MineTime { header: HeaderView, block_id: Seq<u8>, after: Option<Seq<u8>> },
    MineWalk { window: WindowView, now: Seq<u8>, block_id: Seq<u8>, after: Option<Seq<u8>> },
    MinePace { difficulty: u32, now: Seq<u8>, block_id: Seq<u8>, after: Option<Seq<u8>> },
    MineSend { after: Option<Seq<u8>> },
    Last,
    Cancel { block_id: Seq<u8> },
    ValidCur { head: Seq<u8>, block_id: Seq<u8> },
    ValidNew { cur: BlockView, block_id: Seq<u8> },
    ValidFork { choice: ForkView },
    Answers,
    Summary { payload: Seq<u8> },
    Finalize,
}

impl View for Flow {
    type V = FlowView;

    open spec fn view(&self) -> FlowView {
        match self {
            Flow::Settings { commit } => FlowView::Settings { commit: id_view(*commit) },
            Flow::MineHead { block_id, after } => FlowView::MineHead {
                block_id: block_id@,
                after: id_view(*after),
            },
            Flow::MineTime { header, block_id, after } => FlowView::MineTime {
                header: header@,
                block_id: block_id@,
                after: id_view(*after),
            },
            Flow::MineWalk { window, now, block_id, after } => FlowView::MineWalk {
                window: window@,
                now: now@,
                block_id: block_id@,
                after: id_view(*after),
            },
            Flow::MinePace { difficulty, now, block_id, after } => FlowView::MinePace {
                difficulty: *difficulty,
                now: now@,
                block_id: block_id@,
                after: id_view(*after),
            },
            Flow::MineSend { after } => FlowView::MineSend { after: id_view(*after) },
            Flow::Last => FlowView::Last,
            Flow::Cancel { block_id } => FlowView::Cancel { block_id: block_id@ },
            Flow::ValidCur { head, block_id } => FlowView::ValidCur {
                head: head@,
                block_id: block_id@,
            },
            Flow::ValidNew { cur, block_id } => FlowView::ValidNew {
                cur: cur@,
                block_id: block_id@,
            },
            Flow::ValidFork { choice } => FlowView::ValidFork { choice: choice@ },
            Flow::Answers => FlowView::Answers,
            Flow::Summary { payload } => FlowView::Summary { payload: payload@ },
            Flow::Finalize => FlowView::Finalize,
        }
    }
}

/// What the node says when it is handed something.
#[derive(Debug)]
pub enum NodeStep {
    /// Make this call, and hand its answer back with this flow.
    Call(HostCall, Flow),
    /// Done: whether the engine goes on, or what went wrong.
    Done(Result<bool, NodeError>),
}

/// A step as plain values.
pub ghost enum NodeStepView {
    Call(HostCallView, FlowView),
    Done(Result<bool, NodeError>),
}

impl View for NodeStep {
    type V = NodeStepView;

    open spec fn view(&self) -> NodeStepView {
        match self {
            NodeStep::Call(call, flow) => NodeStepView::Call(call@, flow@),
            NodeStep::Done(outcome) => NodeStepView::Done(*outcome),
        }
    }
}

/// The id that stands for no block: eight zero bytes.
pub open spec fn null_block_id() -> Seq<u8> {
    seq![0u8, 0u8, 0u8, 0u8, 0u8, 0u8, 0u8, 0u8]
}

/// What ends a handler with how its last call went.
pub open spec fn finished(answer: Result<(), HostError>) -> NodeStepView {
    match answer {
        Ok(_) => NodeStepView::Done(Ok(true)),
        Err(error) => NodeStepView::Done(Err(NodeError::Host(error))),
    }
}

/// The start of mining on a block: its header is asked for.
pub open spec fn mine_start(block_id: Seq<u8>, after: Option<Seq<u8>>) -> NodeStepView {
    NodeStepView::Call(HostCallView::GetBlock(block_id), FlowView::MineHead { block_id, after })
}

/// The end of mining: the answer to any earlier order is forgotten, and the
/// order for the block at the difficulty that was found goes to the worker.
pub open spec fn mine_send(
    node: NodeView,
    difficulty: u32,
    now: Seq<u8>,
    block_id: Seq<u8>,
    after: Option<Seq<u8>>,
) -> (NodeView, NodeStepView) {
    (
        NodeView { answer: None, ..node },
        NodeStepView::Call(
            HostCallView::SendChallenge(
                ChallengeView { difficulty, timestamp: now, block_id, peer_id: node.peer_id },
            ),
            FlowView::MineSend { after },
        ),
    )
}

/// How mining goes on from a step of finding the difficulty.
pub open spec fn mine_on(
    node: NodeView,
    step: DifficultyStepView,
    now: Seq<u8>,
    block_id: Seq<u8>,
    after: Option<Seq<u8>>,
) -> (NodeView, NodeStepView) {
    match step {
        DifficultyStepView::Done(difficulty) => mine_send(node, difficulty, now, block_id, after),
        DifficultyStepView::Fetch(window) => (
            node,
            NodeStepView::Call(
                HostCallView::GetBlock(window.wanted),
                FlowView::MineWalk { window, now, block_id, after },
            ),
        ),
        DifficultyStepView::Compare(elapsed) => (
            node,
            NodeStepView::Call(
                HostCallView::ComparePace(elapsed, now),
                FlowView::MinePace { difficulty: elapsed.difficulty, now, block_id, after },
            ),
        ),
    }
}

/// How the node goes on from a step of a fork choice for the block `new_id`.
pub open spec fn choose_on(step: ForkStepView, new_id: Seq<u8>) -> NodeStepView {
    match step {
        ForkStepView::Fetch(choice) => NodeStepView::Call(
            HostCallView::GetBlock(choice.wanted),
            FlowView::ValidFork { choice },
        ),
        ForkStepView::Decided(Verdict::Commit) => NodeStepView::Call(
            HostCallView::CommitBlock(new_id),
            FlowView::Last,
        ),
        ForkStepView::Decided(Verdict::Ignore) => NodeStepView::Call(
            HostCallView::IgnoreBlock(new_id),
            FlowView::Last,
        ),
        ForkStepView::Failed(error) => NodeStepView::Done(Err(service_failure(error))),
    }
}

/// What a new block leads to. The block whose parent is the null id is passed
/// over. Any other block is sent on to be checked where its payload can be
/// read and its proof of work stands, and marked as failed where not.
pub open spec fn block_new_step(block: BlockView) -> NodeStepView {
    if block.previous_id == null_block_id() {
        NodeStepView::Done(Ok(true))
    } else {
        match header_of(block) {
            Ok(header) => if header_valid(header) {
                NodeStepView::Call(HostCallView::CheckBlocks(block.block_id), FlowView::Last)
            } else {
                NodeStepView::Call(HostCallView::FailBlock(block.block_id), FlowView::Last)
            },
            Err(_) => NodeStepView::Call(HostCallView::FailBlock(block.block_id), FlowView::Last),
        }
    }
}

/// What an update leads to.
pub open spec fn update_step(node: NodeView, update: Update) -> NodeStepView {
    match update {
        Update::BlockNew(block) => block_new_step(block@),
        Update::BlockValid(block_id) => NodeStepView::Call(
            HostCallView::GetBlock(node.chain_head),
            FlowView::ValidCur { head: node.chain_head, block_id: block_id@ },
        ),
        Update::BlockInvalid(block_id) => NodeStepView::Call(
            HostCallView::FailBlock(block_id@),
            FlowView::Last,
        ),
        Update::BlockCommit(block_id) => NodeStepView::Call(
            HostCallView::CancelBlock,
            FlowView::Cancel { block_id: block_id@ },
        ),
        Update::Shutdown => NodeStepView::Done(Ok(false)),
        _ => NodeStepView::Done(Ok(true)),
    }
}

/// What a try to publish leads to: nothing where a block was published at
/// this height already, and a look at the worker's answers otherwise.
pub open spec fn publish_step(node: NodeView) -> NodeStepView {
    if node.guards.contains(Guard::Publish) {
        NodeStepView::Done(Ok(true))
    } else {
        NodeStepView::Call(HostCallView::DrainAnswers, FlowView::Answers)
    }
}

/// The node when it is started on a head under an id of its own, and the call
/// it starts with: its settings as of that head.
pub open spec fn initialize_step(node: NodeView, chain_head: BlockView, peer_id: Seq<u8>) -> (
    NodeView,
    NodeStepView,
) {
    (
        NodeView { chain_head: chain_head.block_id, peer_id, ..node },
        NodeStepView::Call(
            HostCallView::GetSettings(chain_head.block_id),
            FlowView::Settings { commit: None },
        ),
    )
}

/// The block that an answer holds under an id, for a walk: none where the call
/// failed or the block is missing.
pub open spec fn fetched_block(answer: Result<Blocks, HostError>, block_id: Seq<u8>) -> Option<
    BlockView,
> {
    match block_outcome(answer, block_id) {
        Ok(block) => Some(block),
        Err(_) => None,
    }
}

/// How the node goes on when it is handed the answer to the call of a flow:
/// the node after it, and what it says. An answer to another call than the
/// flow's leaves the node as it is and ends with `Unexpected`.
pub open spec fn resume_step(node: NodeView, flow: FlowView, reply: Reply) -> (
    NodeView,
    NodeStepView,
) {
    match (flow, reply) {
        (FlowView::Settings { commit }, Reply::Settings(answer)) => match answer {
            Err(error) => (node, NodeStepView::Done(Err(NodeError::Host(error)))),
            Ok(settings) => {
                let config = node.config.loaded(settings@);
                match commit {
                    Some(block_id) => (
                        NodeView {
                            config,
                            chain_head: block_id,
                            guards: node.guards.remove(Guard::Publish),
                            ..node
                        },
                        mine_start(block_id, Some(block_id)),
                    ),
                    None => (NodeView { config, ..node }, mine_start(node.chain_head, None)),
                }
            },
        },
        (FlowView::MineHead { block_id, after }, Reply::Blocks(answer)) => match block_outcome(
            answer,
            block_id,
        ) {
            Err(error) => (node, NodeStepView::Done(Err(service_failure(error)))),
            Ok(block) => match header_of(block) {
                Err(error) => (node, NodeStepView::Done(Err(NodeError::Consensus(error)))),
                Ok(header) => (
                    node,
                    NodeStepView::Call(
                        HostCallView::Now,
                        FlowView::MineTime { header, block_id, after },
                    ),
                ),
            },
        },
        (FlowView::MineTime { header, block_id, after }, Reply::Time(now)) => if !real_text(now@) {
            (node, NodeStepView::Done(Err(NodeError::InvalidTime)))
        } else {
            mine_on(node, difficulty_start(header, node.config), now@, block_id, after)
        },
        (FlowView::MineWalk { window, now, block_id, after }, Reply::Blocks(answer)) => mine_on(
            node,
            window_step(window, fetched_block(answer, window.wanted)),
            now,
            block_id,
            after,
        ),
        (FlowView::MinePace { difficulty, now, block_id, after }, Reply::Pace(pace)) => mine_send(
            node,
            clamped(retargeted(difficulty, pace)),
            now,
            block_id,
            after,
        ),
        (FlowView::MineSend { after }, Reply::Sent) => (
            node,
            NodeStepView::Call(HostCallView::InitializeBlock(after), FlowView::Last),
        ),
        (FlowView::Last, Reply::Unit(answer)) => (node, finished(answer)),
        (FlowView::Cancel { block_id }, Reply::Unit(answer)) => match cancel_outcome(answer) {
            Err(error) => (node, NodeStepView::Done(Err(NodeError::Host(error)))),
            Ok(_) => (
                node,
                NodeStepView::Call(
                    HostCallView::GetSettings(node.chain_head),
                    FlowView::Settings { commit: Some(block_id) },
                ),
            ),
        },
        (FlowView::ValidCur { head, block_id }, Reply::Blocks(answer)) => match block_outcome(
            answer,
            head,
        ) {
            Err(error) => (node, NodeStepView::Done(Err(service_failure(error)))),
            Ok(cur) => (
                node,
                NodeStepView::Call(
                    HostCallView::GetBlock(block_id),
                    FlowView::ValidNew { cur, block_id },
                ),
            ),
        },
        (FlowView::ValidNew { cur, block_id }, Reply::Blocks(answer)) => match block_outcome(
            answer,
            block_id,
        ) {
            Err(error) => (node, NodeStepView::Done(Err(service_failure(error)))),
            Ok(new) => (node, choose_on(fork_start(cur, new), new.block_id)),
        },
        (FlowView::ValidFork { choice }, Reply::Blocks(answer)) => (
            node,
            choose_on(fork_step(choice, block_outcome(answer, choice.wanted)), choice.new_id),
        ),
        (FlowView::Answers, Reply::Answers(answers)) => {
            let kept = latest(node.answer, answers@);
            (
                NodeView { answer: kept, ..node },
                match kept {
                    Some(answer) => NodeStepView::Call(
                        HostCallView::SummarizeBlock,
                        FlowView::Summary { payload: answer_payload(answer) },
                    ),
                    None => NodeStepView::Done(Ok(true)),
                },
            )
        },
        (FlowView::Summary { payload }, Reply::Summary(answer)) => match answer {
            Ok(_) => (
                node,
                NodeStepView::Call(HostCallView::FinalizeBlock(payload), FlowView::Finalize),
            ),
            Err(error) => if error == HostError::BlockNotReady {
                (
                    NodeView { guards: node.guards.insert(Guard::Summarize), ..node },
                    NodeStepView::Done(Ok(true)),
                )
            } else {
                (
                    NodeView { guards: node.guards.remove(Guard::Summarize), ..node },
                    NodeStepView::Done(Err(NodeError::Host(error))),
                )
            },
        },
        (FlowView::Finalize, Reply::BlockId(answer)) => match answer {
            Ok(_) => (
                NodeView {
                    guards: node.guards.insert(Guard::Publish).remove(Guard::Finalize).remove(
                        Guard::Summarize,
                    ),
                    answer: None,
                    ..node
                },
                NodeStepView::Done(Ok(true)),
            ),
            Err(error) => if error == HostError::BlockNotReady {
                (
                    NodeView { guards: node.guards.insert(Guard::Finalize), ..node },
                    NodeStepView::Done(Ok(true)),
                )
            } else {
                (
                    NodeView { guards: node.guards.remove(Guard::Finalize), ..node },
                    NodeStepView::Done(Err(NodeError::Host(error))),
                )
            },
        },
        _ => (node, NodeStepView::Done(Err(NodeError::Unexpected))),
    }
}

/// A new block whose parent is the null id is passed over: the node makes no
/// call for it, neither to have it checked nor to mark it as failed, and goes
/// on.
pub proof fn lemma_null_parent_passed_over(block: BlockView)
    requires
        block.previous_id == null_block_id(),
    ensures
        block_new_step(block) == NodeStepView::Done(Ok(true)),
{
}

/// Of a new block with another parent the node asks exactly one thing: that
/// it be checked where its proof of work stands, that it be marked as failed
/// where not.
pub proof fn lemma_new_block_checked_or_failed(block: BlockView)
    requires
        block.previous_id != null_block_id(),
    ensures
        block_new_step(block) == NodeStepView::Call(
            HostCallView::CheckBlocks(block.block_id),
            FlowView::Last,
        ) || block_new_step(block) == NodeStepView::Call(
            HostCallView::FailBlock(block.block_id),
            FlowView::Last,
        ),
        block_new_step(block) == NodeStepView::Call(
            HostCallView::CheckBlocks(block.block_id),
            FlowView::Last,
        ) <==> (header_of(block).is_ok() && header_valid(header_of(block).unwrap())),
{
}

/// A block is published once at a height: when the validator has finalized a
/// block, the node forgets the answer, and a further try to publish does
/// nothing until a new head has been taken over.
pub proof fn lemma_published_once(node: NodeView, block_id: Vec<u8>)
    ensures
        resume_step(node, FlowView::Finalize, Reply::BlockId(Ok(block_id))).0.answer.is_none(),
        publish_step(resume_step(node, FlowView::Finalize, Reply::BlockId(Ok(block_id))).0)
            == NodeStepView::Done(Ok(true)),
{
}

/// A block without proof of work that asks to become the head is ignored:
/// when the node has looked it up, whatever its height and whatever the head,
/// the node asks for it to be passed over and for nothing else.
pub proof fn lemma_non_pow_block_is_ignored(
    node: NodeView,
    cur: BlockView,
    block_id: Seq<u8>,
    answer: Result<Blocks, HostError>,
)
    requires
        block_outcome(answer, block_id).is_ok(),
        !crate::node::fork::is_pow_payload(block_outcome(answer, block_id).unwrap().payload),
    ensures
        resume_step(node, FlowView::ValidNew { cur, block_id }, Reply::Blocks(answer)) == (
            node,
            NodeStepView::Call(
                HostCallView::IgnoreBlock(block_outcome(answer, block_id).unwrap().block_id),
                FlowView::Last,
            ),
        ),
{
}

/// A block with proof of work that stands on the head, one block higher, is
/// committed: when the node has looked it up, it asks for it to become the
/// head and for nothing else.
pub proof fn lemma_next_block_is_committed(
    node: NodeView,
    cur: BlockView,
    block_id: Seq<u8>,
    answer: Result<Blocks, HostError>,
)
    requires
        block_outcome(answer, block_id).is_ok(),
        crate::node::fork::is_pow_payload(block_outcome(answer, block_id).unwrap().payload),
        block_outcome(answer, block_id).unwrap().previous_id == cur.block_id,
        block_outcome(answer, block_id).unwrap().block_num == cur.block_num + 1,
    ensures
        resume_step(node, FlowView::ValidNew { cur, block_id }, Reply::Blocks(answer)) == (
            node,
            NodeStepView::Call(
                HostCallView::CommitBlock(block_outcome(answer, block_id).unwrap().block_id),
                FlowView::Last,
            ),
        ),
{
}

fn copy_id(id: &Option<Vec<u8>>) -> (copy: Option<Vec<u8>>)
    ensures
        id_view(copy) == id_view(*id),
{
    match id {
        Some(bytes) => Some(copy_bytes(bytes.as_slice())),
        None => None,
    }
}

fn finish(answer: Result<(), HostError>) -> (step: NodeStep)
    ensures
        step@ == finished(answer),
{
    match answer {
        Ok(()) => NodeStep::Done(Ok(true)),
        Err(error) => NodeStep::Done(Err(NodeError::Host(error))),
    }
}

fn start_mining(block_id: Vec<u8>, after: Option<Vec<u8>>) -> (step: NodeStep)
    ensures
        step@ == mine_start(block_id@, id_view(after)),
{
    NodeStep::Call(
        HostCall::GetBlock(copy_bytes(block_id.as_slice())),
        Flow::MineHead { block_id, after },
    )
}

fn go_on_choosing(step: ForkStep, new_id: Vec<u8>) -> (next: NodeStep)
    ensures
        next@ == choose_on(step@, new_id@),
{
    match step {
        ForkStep::Fetch(choice) => NodeStep::Call(
            HostCall::GetBlock(copy_bytes(choice.wanted().as_slice())),
            Flow::ValidFork { choice },
        ),
        ForkStep::Decided(Verdict::Commit) => NodeStep::Call(
            HostCall::CommitBlock(new_id),
            Flow::Last,
        ),
        ForkStep::Decided(Verdict::Ignore) => NodeStep::Call(
            HostCall::IgnoreBlock(new_id),
            Flow::Last,
        ),
        ForkStep::Failed(error) => NodeStep::Done(Err(from_service(error))),
    }
}

impl PowNode {
    /// A node with the default configuration, not yet started.
    pub fn new() -> (node: PowNode)
        ensures
            node@ == unstarted(PowConfig::initial()),
    {
        Self::with_config(PowConfig::new())
    }

    /// A node with a configuration of its own, not yet started.
    pub fn with_config(config: PowConfig) -> (node: PowNode)
        ensures
            node@ == unstarted(config),
    {
        let node = PowNode { config, state: PowState::new(), miner: Miner::new() };
        assert(node@.chain_head =~= Seq::<u8>::empty());
        assert(node@.peer_id =~= Seq::<u8>::empty());
        node
    }

    /// What the node knows of the chain and of itself.
    pub fn state(&self) -> (state: &PowState)
        ensures
            state.chain_head@ == self@.chain_head,
            state.peer_id@ == self@.peer_id,
            state.guards@ == self@.guards,
    {
        &self.state
    }

    /// Starts the node on the head of the chain, under its own id.
    pub fn initialize(&mut self, chain_head: &Block, peer_id: &[u8]) -> (step: NodeStep)
        ensures
            (final(self)@, step@) == initialize_step(old(self)@, chain_head@, peer_id@),
    {
        self.state.peer_id = copy_bytes(peer_id);
        self.state.chain_head = copy_bytes(chain_head.block_id.as_slice());
        NodeStep::Call(
            HostCall::GetSettings(copy_bytes(chain_head.block_id.as_slice())),
            Flow::Settings { commit: None },
        )
    }

    /// Takes over the settings of the chain, and says whether any changed.
    pub fn reload_configuration(&mut self, settings: &crate::node::config::Settings) -> (changes:
        bool)
        ensures
            final(self)@ == (NodeView { config: old(self)@.config.loaded(settings@), ..old(self)@ }),
            changes <==> final(self)@.config != old(self)@.config,
    {
        self.config.load(settings)
    }

    /// Looks whether there is a block to publish.
    pub fn try_publish(&self) -> (step: NodeStep)
        ensures
            step@ == publish_step(self@),
    {
        if self.state.guards.contains(&Guard::Publish) {
            return NodeStep::Done(Ok(true));
        }
        NodeStep::Call(HostCall::DrainAnswers, Flow::Answers)
    }

    /// Takes an update from the validator.
    pub fn handle_update(&self, update: Update) -> (step: NodeStep)
        ensures
            step@ == update_step(self@, update),
    {
        match update {
            Update::BlockNew(block) => Self::on_block_new(block),
            Update::BlockValid(block_id) => self.on_block_valid(block_id),
            Update::BlockInvalid(block_id) => Self::on_block_invalid(block_id),
            Update::BlockCommit(block_id) => Self::on_block_commit(block_id),
            Update::Shutdown => NodeStep::Done(Ok(false)),
            Update::PeerConnected => NodeStep::Done(Ok(true)),
            Update::PeerDisconnected => NodeStep::Done(Ok(true)),
            Update::PeerMessage => NodeStep::Done(Ok(true)),
        }
    }

    fn on_block_new(block: Block) -> (step: NodeStep)
        ensures
            step@ == block_new_step(block@),
    {
        let null: [u8; 8] = [0u8; 8];
        assert(null@ =~= null_block_id());
        if bytes_eq(block.previous_id.as_slice(), null.as_slice()) {
            return NodeStep::Done(Ok(true));
        }
        let valid: bool = match BlockHeader::borrowed(&block) {
            Ok(header) => header.validate().is_ok(),
            Err(_) => false,
        };
        if valid {
            NodeStep::Call(HostCall::CheckBlocks(block.block_id), Flow::Last)
        } else {
            NodeStep::Call(HostCall::FailBlock(block.block_id), Flow::Last)
        }
    }

    fn on_block_valid(&self, block_id: Vec<u8>) -> (step: NodeStep)
        ensures
            step@ == NodeStepView::Call(
                HostCallView::GetBlock(self@.chain_head),
                FlowView::ValidCur { head: self@.chain_head, block_id: block_id@ },
            ),
    {
        NodeStep::Call(
            HostCall::GetBlock(copy_bytes(self.state.chain_head.as_slice())),
            Flow::ValidCur { head: copy_bytes(self.state.chain_head.as_slice()), block_id },
        )
    }

    fn on_block_invalid(block_id: Vec<u8>) -> (step: NodeStep)
        ensures
            step@ == NodeStepView::Call(HostCallView::FailBlock(block_id@), FlowView::Last),
    {
        NodeStep::Call(HostCall::FailBlock(block_id), Flow::Last)
    }

    fn on_block_commit(block_id: Vec<u8>) -> (step: NodeStep)
        ensures
            step@ == NodeStepView::Call(
                HostCallView::CancelBlock,
                FlowView::Cancel { block_id: block_id@ },
            ),
    {
        NodeStep::Call(HostCall::CancelBlock, Flow::Cancel { block_id })
    }

    fn send_order(
        &mut self,
        difficulty: u32,
        now: Vec<u8>,
        block_id: Vec<u8>,
        after: Option<Vec<u8>>,
    ) -> (step: NodeStep)
        ensures
            (final(self)@, step@) == mine_send(
                old(self)@,
                difficulty,
                now@,
                block_id@,
                id_view(after),
            ),
    {
        let challenge: Challenge = self.miner.mine(
            block_id.as_slice(),
            self.state.peer_id.as_slice(),
            difficulty,
            now.as_slice(),
        );
        NodeStep::Call(HostCall::SendChallenge(challenge), Flow::MineSend { after })
    }

    fn go_on_mining(
        &mut self,
        step: DifficultyStep,
        now: Vec<u8>,
        block_id: Vec<u8>,
        after: Option<Vec<u8>>,
    ) -> (next: NodeStep)
        ensures
            (final(self)@, next@) == mine_on(old(self)@, step@, now@, block_id@, id_view(after)),
    {
        match step {
            DifficultyStep::Done(difficulty) => self.send_order(difficulty, now, block_id, after),
            DifficultyStep::Fetch(window) => NodeStep::Call(
                HostCall::GetBlock(copy_bytes(window.wanted().as_slice())),
                Flow::MineWalk { window, now, block_id, after },
            ),
            DifficultyStep::Compare(elapsed) => {
                let difficulty: u32 = elapsed.difficulty;
                NodeStep::Call(
                    HostCall::ComparePace(elapsed, copy_bytes(now.as_slice())),
                    Flow::MinePace { difficulty, now, block_id, after },
                )
            },
        }
    }

    fn on_settings(&mut self, commit: Option<Vec<u8>>, answer: Result<
        crate::node::config::Settings,
        HostError,
    >) -> (step: NodeStep)
        ensures
            (final(self)@, step@) == resume_step(
                old(self)@,
                FlowView::Settings { commit: id_view(commit) },
                Reply::Settings(answer),
            ),
    {
        let settings = match answer {
            Ok(settings) => settings,
            Err(error) => {
                return NodeStep::Done(Err(NodeError::Host(error)));
            },
        };
        self.reload_configuration(&settings);
        match commit {
            Some(block_id) => {
                self.state.chain_head = copy_bytes(block_id.as_slice());
                self.state.guards.remove(&Guard::Publish);
                let after: Option<Vec<u8>> = Some(copy_bytes(block_id.as_slice()));
                start_mining(block_id, after)
            },
            None => start_mining(copy_bytes(self.state.chain_head.as_slice()), None),
        }
    }

    fn on_summary(&mut self, payload: Vec<u8>, answer: Result<Vec<u8>, HostError>) -> (step:
        NodeStep)
        ensures
            (final(self)@, step@) == resume_step(
                old(self)@,
                FlowView::Summary { payload: payload@ },
                Reply::Summary(answer),
            ),
    {
        match answer {
            Ok(_) => NodeStep::Call(HostCall::FinalizeBlock(payload), Flow::Finalize),
            Err(HostError::BlockNotReady) => {
                self.state.guards.insert(Guard::Summarize);
                NodeStep::Done(Ok(true))
            },
            Err(error) => {
                self.state.guards.remove(&Guard::Summarize);
                NodeStep::Done(Err(NodeError::Host(error)))
            },
        }
    }

    fn on_finalized(&mut self, answer: Result<Vec<u8>, HostError>) -> (step: NodeStep)
        ensures
            (final(self)@, step@) == resume_step(
                old(self)@,
                FlowView::Finalize,
                Reply::BlockId(answer),
            ),
    {
        match answer {
            Ok(_) => {
                self.state.guards.insert(Guard::Publish);
                self.state.guards.remove(&Guard::Finalize);
                self.state.guards.remove(&Guard::Summarize);
                self.miner.reset();
                NodeStep::Done(Ok(true))
            },
            Err(HostError::BlockNotReady) => {
                self.state.guards.insert(Guard::Finalize);
                NodeStep::Done(Ok(true))
            },
            Err(error) => {
                self.state.guards.remove(&Guard::Finalize);
                NodeStep::Done(Err(NodeError::Host(error)))
            },
        }
    }

    fn on_answers(&mut self, answers: Vec<Answer>) -> (step: NodeStep)
        ensures
            (final(self)@, step@) == resume_step(
                old(self)@,
                FlowView::Answers,
                Reply::Answers(answers),
            ),
    {
        match self.miner.try_create_consensus(answers) {
            Some(payload) => NodeStep::Call(HostCall::SummarizeBlock, Flow::Summary { payload }),
            None => NodeStep::Done(Ok(true)),
        }
    }

    /// Goes on with a flow, given the answer to the call that the node asked
    /// for with it.
    pub fn resume(&mut self, flow: Flow, reply: Reply) -> (step: NodeStep)
        requires
            flow@ is MineTime ==> old(self)@.config.wf(),
        ensures
            (final(self)@, step@) == resume_step(old(self)@, flow@, reply),
    {
        match flow {
            Flow::Settings { commit } => match reply {
                Reply::Settings(answer) => self.on_settings(commit, answer),
                _ => NodeStep::Done(Err(NodeError::Unexpected)),
            },
            Flow::MineHead { block_id, after } => match reply {
                Reply::Blocks(answer) => match find_block(answer, block_id.as_slice()) {
                    Err(error) => NodeStep::Done(Err(from_service(error))),
                    Ok(block) => match BlockHeader::owned(block) {
                        Err(error) => NodeStep::Done(Err(NodeError::Consensus(error))),
                        Ok(header) => NodeStep::Call(
                            HostCall::Now,
                            Flow::MineTime { header, block_id, after },
                        ),
                    },
                },
                _ => NodeStep::Done(Err(NodeError::Unexpected)),
            },
            Flow::MineTime { header, block_id, after } => match reply {
                Reply::Time(now) => {
                    if !is_real_text(now.as_slice()) {
                        return NodeStep::Done(Err(NodeError::InvalidTime));
                    }
                    let step: DifficultyStep = get_difficulty(&header, &self.config);
                    self.go_on_mining(step, now, block_id, after)
                },
                _ => NodeStep::Done(Err(NodeError::Unexpected)),
            },
            Flow::MineWalk { window, now, block_id, after } => match reply {
                Reply::Blocks(answer) => {
                    let fetched: Option<Block> = match find_block(
                        answer,
                        window.wanted().as_slice(),
                    ) {
                        Ok(block) => Some(block),
                        Err(_) => None,
                    };
                    let step: DifficultyStep = window.step(fetched);
                    self.go_on_mining(step, now, block_id, after)
                },
                _ => NodeStep::Done(Err(NodeError::Unexpected)),
            },
            Flow::MinePace { difficulty, now, block_id, after } => match reply {
                Reply::Pace(pace) => {
                    let next: u32 = crate::work::clamp(crate::work::retarget(difficulty, pace));
                    self.send_order(next, now, block_id, after)
                },
                _ => NodeStep::Done(Err(NodeError::Unexpected)),
            },
            Flow::MineSend { after } => match reply {
                Reply::Sent => NodeStep::Call(HostCall::InitializeBlock(after), Flow::Last),
                _ => NodeStep::Done(Err(NodeError::Unexpected)),
            },
            Flow::Last => match reply {
                Reply::Unit(answer) => finish(answer),
                _ => NodeStep::Done(Err(NodeError::Unexpected)),
            },
            Flow::Cancel { block_id } => match reply {
                Reply::Unit(answer) => match settle_cancel(answer) {
                    Err(error) => NodeStep::Done(Err(NodeError::Host(error))),
                    Ok(()) => NodeStep::Call(
                        HostCall::GetSettings(copy_bytes(self.state.chain_head.as_slice())),
                        Flow::Settings { commit: Some(block_id) },
                    ),
                },
                _ => NodeStep::Done(Err(NodeError::Unexpected)),
            },
            Flow::ValidCur { head, block_id } => match reply {
                Reply::Blocks(answer) => match find_block(answer, head.as_slice()) {
                    Err(error) => NodeStep::Done(Err(from_service(error))),
                    Ok(cur) => NodeStep::Call(
                        HostCall::GetBlock(copy_bytes(block_id.as_slice())),
                        Flow::ValidNew { cur, block_id },
                    ),
                },
                _ => NodeStep::Done(Err(NodeError::Unexpected)),
            },
            Flow::ValidNew { cur, block_id } => match reply {
                Reply::Blocks(answer) => match find_block(answer, block_id.as_slice()) {
                    Err(error) => NodeStep::Done(Err(from_service(error))),
                    Ok(new) => {
                        let step: ForkStep = ForkChoice::compare_forks(&cur, &new);
                        go_on_choosing(step, new.block_id)
                    },
                },
                _ => NodeStep::Done(Err(NodeError::Unexpected)),
            },
            Flow::ValidFork { choice } => match reply {
                Reply::Blocks(answer) => {
                    let fetched = find_block(answer, choice.wanted().as_slice());
                    let new_id: Vec<u8> = copy_bytes(choice.new_id().as_slice());
                    let step: ForkStep = choice.step(fetched);
                    go_on_choosing(step, new_id)
                },
                _ => NodeStep::Done(Err(NodeError::Unexpected)),
            },
            Flow::Answers => match reply {
                Reply::Answers(answers) => self.on_answers(answers),
                _ => NodeStep::Done(Err(NodeError::Unexpected)),
            },
            Flow::Summary { payload } => match reply {
                Reply::Summary(answer) => self.on_summary(payload, answer),
                _ => NodeStep::Done(Err(NodeError::Unexpected)),
            },
            Flow::Finalize => match reply {
                Reply::BlockId(answer) => self.on_finalized(answer),
                _ => NodeStep::Done(Err(NodeError::Unexpected)),
            },
        }
    }
}

} // verus!
