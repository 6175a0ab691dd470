use vstd::prelude::*;
use crate::block::block::Block;
use crate::block::block::BlockView;
use crate::block::block_consensus::decode;
use crate::block::block_consensus::pow_tag;
use crate::block::block_consensus::BlockConsensus;
use crate::block::block_header::header_of;
use crate::block::block_header::work_of;
use crate::block::block_header::BlockHeader;
use crate::block::block_header::HeaderView;
use crate::node::service::ServiceError;
use crate::utils::bytes::bytes_eq;
use crate::utils::bytes::copy_bytes;

verus! {

/// What is done with a block that asks to become the head of the chain.
#[derive(Clone, Copy, Debug, PartialEq, Eq, Structural)]
pub enum Verdict {
    /// The block becomes the head.
    Commit,
    /// The head stays.
    Ignore,
}

/// The stretches of a fork choice that look blocks up.
#[derive(Clone, Copy, Debug, PartialEq, Eq, Structural)]
pub enum ForkPhase {
    /// The head has no proof of work: the new block's line is followed down
    /// to the head, or to a block without proof of work.
    Bridge,
    /// The head's chain is the longer: its blocks above the new block's
    /// height are gathered.
    CurOrphans,
    /// The new block's chain is the longer: its blocks above the head's
    /// height are gathered.
    NewOrphans,
    /// Both chains are followed down in step; a block of the head's chain is
    /// due.
    PairCur,
    /// Both chains are followed down in step; a block of the new chain is due.
    PairNew,
}

/// A choice between the head of the chain and a block that asks to replace
/// it, as far as it has come. It names the block it needs next, and is handed
/// what the lookup gave.
#[derive(Debug)]
pub struct ForkChoice {
    phase: ForkPhase,
    cur_id: Vec<u8>,
    new_id: Vec<u8>,
    wanted: Vec<u8>,
    other: Vec<u8>,
    remaining: u64,
    cur_side: Vec<BlockHeader>,
    new_side: Vec<BlockHeader>,
    held: Option<BlockHeader>,
}

/// A choice as plain values.
pub ghost struct ForkView {
    /// The stretch that the choice is in.
    pub phase: ForkPhase,
    /// The id of the head.
    pub cur_id: Seq<u8>,
    /// The id of the new block.
    pub new_id: Seq<u8>,
    /// The id of the block to look up next.
    pub wanted: Seq<u8>,
    /// While both chains are followed: the id of the block to look up after
    /// that, on the other chain.
    pub other: Seq<u8>,
    /// While a longer chain's blocks are gathered: how many more to take.
    pub remaining: u64,
    /// The blocks gathered on the head's chain, newest first.
    pub cur_side: Seq<HeaderView>,
    /// The blocks gathered on the new block's chain, newest first.
    pub new_side: Seq<HeaderView>,
    /// While a block of the new chain is due: the block of the head's chain
    /// that it will be paired with.
    pub held: Option<HeaderView>,
}

/// The headers of a list as plain values.
pub open spec fn views(headers: Seq<BlockHeader>) -> Seq<HeaderView> {
    headers.map_values(|header: BlockHeader| header@)
}

impl View for ForkChoice {
    type V = ForkView;

    closed spec fn view(&self) -> ForkView {
        ForkView {
            phase: self.phase,
            cur_id: self.cur_id@,
            new_id: self.new_id@,
            wanted: self.wanted@,
            other: self.other@,
            remaining: self.remaining,
            cur_side: views(self.cur_side@),
            new_side: views(self.new_side@),
            held: match self.held {
                Some(header) => Some(header@),
                None => None,
            },
        }
    }
}

/// Where a fork choice stands.
#[derive(Debug)]
pub enum ForkStep {
    /// The choice needs the block that it names.
    Fetch(ForkChoice),
    /// The choice is made.
    Decided(Verdict),
    /// A block that the choice cannot do without could not be had.
    Failed(ServiceError),
}

/// A step as plain values.
pub ghost enum ForkStepView {
    Fetch(ForkView),
    Decided(Verdict),
    Failed(ServiceError),
}

impl View for ForkStep {
    type V = ForkStepView;

    open spec fn view(&self) -> ForkStepView {
        match self {
            ForkStep::Fetch(choice) => ForkStepView::Fetch(choice@),
            ForkStep::Decided(verdict) => ForkStepView::Decided(*verdict),
            ForkStep::Failed(error) => ForkStepView::Failed(*error),
        }
    }
}

/// Whether a payload reads as proof-of-work consensus.
pub open spec fn is_pow_payload(payload: Seq<u8>) -> bool {
    decode(payload).is_ok()
}

/// Whether a header is tagged as proof of work.
pub open spec fn is_pow_header(header: HeaderView) -> bool {
    header.consensus.tag == pow_tag()
}

/// The work of a run of blocks: the sum of the work of each.
pub open spec fn total_work(headers: Seq<HeaderView>) -> nat
    decreases headers.len(),
{
    if headers.len() == 0 {
        0
    } else {
        total_work(headers.drop_last()) + work_of(headers.last().consensus.difficulty)
    }
}

/// The choice by work: the new block wins where its chain holds more work
/// than the head's; the head stays where it holds as much or more.
pub open spec fn verdict_by_work(cur_side: Seq<HeaderView>, new_side: Seq<HeaderView>) -> Verdict {
    if total_work(new_side) > total_work(cur_side) {
        Verdict::Commit
    } else {
        Verdict::Ignore
    }
}

/// The id at which a chain is followed down in step with the other: that of
/// the oldest block gathered above the other chain's height, or of the chain's
/// own tip where none was gathered.
pub open spec fn fork_head(side: Seq<HeaderView>, tip: Seq<u8>) -> Seq<u8> {
    if side.len() > 0 {
        side.last().block.block_id
    } else {
        tip
    }
}

/// The state in which both chains start to be followed down in step.
pub open spec fn pairing(state: ForkView) -> ForkView {
    ForkView {
        phase: ForkPhase::PairCur,
        wanted: fork_head(state.cur_side, state.cur_id),
        other: fork_head(state.new_side, state.new_id),
        remaining: 0,
        held: None,
        ..state
    }
}

/// One look at a block of the new block's line while the head has no proof of
/// work: the new block wins where this block stands on the head; the head
/// stays where this block has no proof of work; else the line is followed to
/// this block's parent.
pub open spec fn bridge_check(state: ForkView, block: BlockView) -> ForkStepView {
    if block.previous_id == state.cur_id {
        ForkStepView::Decided(Verdict::Commit)
    } else if !is_pow_payload(block.payload) {
        ForkStepView::Decided(Verdict::Ignore)
    } else {
        ForkStepView::Fetch(
            ForkView { phase: ForkPhase::Bridge, wanted: block.previous_id, ..state },
        )
    }
}

/// How many blocks one height stands above another; none where it does not.
pub open spec fn height_above(height: u64, other: u64) -> u64 {
    if height > other {
        (height - other) as u64
    } else {
        0
    }
}

/// A choice between two blocks with nothing gathered yet, both chains about
/// to be followed in step from the two blocks themselves.
pub open spec fn blank(cur: BlockView, new: BlockView) -> ForkView {
    ForkView {
        phase: ForkPhase::PairCur,
        cur_id: cur.block_id,
        new_id: new.block_id,
        wanted: cur.block_id,
        other: new.block_id,
        remaining: 0,
        cur_side: Seq::empty(),
        new_side: Seq::empty(),
        held: None,
    }
}

/// Where the choice by work starts: with the blocks of the longer chain above
/// the other's height, or, at equal heights, with both chains in step.
pub open spec fn resolve_start(cur: BlockView, new: BlockView) -> ForkView {
    let blank = blank(cur, new);
    if cur.block_num > new.block_num {
        ForkView {
            phase: ForkPhase::CurOrphans,
            wanted: cur.previous_id,
            remaining: height_above(cur.block_num, new.block_num),
            ..blank
        }
    } else if new.block_num > cur.block_num {
        ForkView {
            phase: ForkPhase::NewOrphans,
            wanted: new.previous_id,
            remaining: height_above(new.block_num, cur.block_num),
            ..blank
        }
    } else {
        blank
    }
}

/// Where the choice between the head `cur` and the new block `new` starts.
/// A new block without proof of work is ignored. Where the head has none, the
/// new block's line is followed down. A new block that stands on the head, one
/// higher, is committed. Every other pair is chosen between by work.
pub open spec fn fork_start(cur: BlockView, new: BlockView) -> ForkStepView {
    if !is_pow_payload(new.payload) {
        ForkStepView::Decided(Verdict::Ignore)
    } else if !is_pow_payload(cur.payload) {
        bridge_check(blank(cur, new), new)
    } else if new.block_num == cur.block_num + 1 && new.previous_id == cur.block_id {
        ForkStepView::Decided(Verdict::Commit)
    } else {
        ForkStepView::Fetch(resolve_start(cur, new))
    }
}

/// The header that a lookup gives to a walk: none where the block could not
/// be had or its payload cannot be read.
pub open spec fn walked(fetched: Result<BlockView, ServiceError>) -> Option<HeaderView> {
    match fetched {
        Ok(block) => match header_of(block) {
            Ok(header) => Some(header),
            Err(_) => None,
        },
        Err(_) => None,
    }
}

/// One step while the blocks of a longer chain are gathered. A block with
/// proof of work is taken, and the walk goes on at its parent unless enough
/// were taken; anything else ends the gathering. After it both chains are
/// followed in step.
pub open spec fn orphan_step(state: ForkView, fetched: Result<BlockView, ServiceError>) -> ForkView {
    match walked(fetched) {
        Some(header) => if is_pow_header(header) {
            let grown = if state.phase == ForkPhase::CurOrphans {
                ForkView { cur_side: state.cur_side.push(header), ..state }
            } else {
                ForkView { new_side: state.new_side.push(header), ..state }
            };
            if state.remaining <= 1 {
                pairing(grown)
            } else {
                ForkView {
                    wanted: header.block.previous_id,
                    remaining: (state.remaining - 1) as u64,
                    ..grown
                }
            }
        } else {
            pairing(state)
        },
        None => pairing(state),
    }
}

/// Whether a pair of blocks, one of each chain at the same step, is counted:
/// the two are not the same block, neither is the first block, and both have
/// proof of work.
pub open spec fn pair_counts(cur: HeaderView, new: HeaderView) -> bool {
    &&& cur.block.block_id != new.block.block_id
    &&& cur.block.block_num != 0
    &&& new.block.block_num != 0
    &&& is_pow_header(cur)
    &&& is_pow_header(new)
}

/// One step of a fork choice, by its phase.
pub open spec fn fork_step(state: ForkView, fetched: Result<BlockView, ServiceError>) -> ForkStepView {
    match state.phase {
        ForkPhase::Bridge => match fetched {
            Err(error) => ForkStepView::Failed(error),
            Ok(block) => bridge_check(state, block),
        },
        ForkPhase::CurOrphans | ForkPhase::NewOrphans => ForkStepView::Fetch(
            orphan_step(state, fetched),
        ),
        ForkPhase::PairCur => match walked(fetched) {
            Some(header) => ForkStepView::Fetch(
                ForkView {
                    phase: ForkPhase::PairNew,
                    wanted: state.other,
                    other: header.block.previous_id,
                    held: Some(header),
                    ..state
                },
            ),
            None => ForkStepView::Decided(verdict_by_work(state.cur_side, state.new_side)),
        },
        ForkPhase::PairNew => match (state.held, walked(fetched)) {
            (Some(cur), Some(new)) => if pair_counts(cur, new) {
                ForkStepView::Fetch(
                    ForkView {
                        phase: ForkPhase::PairCur,
                        wanted: state.other,
                        other: new.block.previous_id,
                        cur_side: state.cur_side.push(cur),
                        new_side: state.new_side.push(new),
                        held: None,
                        ..state
                    },
                )
            } else {
                ForkStepView::Decided(verdict_by_work(state.cur_side, state.new_side))
            },
            _ => ForkStepView::Decided(verdict_by_work(state.cur_side, state.new_side)),
        },
    }
}

/// A new block with proof of work that stands on the head, one block higher,
/// is committed at once, whatever the head's payload.
pub proof fn lemma_next_block_commits(cur: BlockView, new: BlockView)
    requires
        is_pow_payload(new.payload),
        new.previous_id == cur.block_id,
        new.block_num == cur.block_num + 1,
    ensures
        fork_start(cur, new) == ForkStepView::Decided(Verdict::Commit),
{
}

/// A new block without proof of work is ignored at once, whatever its height
/// and whatever the head.
pub proof fn lemma_non_pow_ignored(cur: BlockView, new: BlockView)
    requires
        !is_pow_payload(new.payload),
    ensures
        fork_start(cur, new) == ForkStepView::Decided(Verdict::Ignore),
{
}

/// Between two chains with proof of work the choice is by work alone: while
/// blocks are gathered nothing is decided, and what is decided while both
/// chains are followed in step is to commit exactly where the new chain holds
/// more work than the head's, so that equal work leaves the head in place.
pub proof fn lemma_choice_by_work(state: ForkView, fetched: Result<BlockView, ServiceError>)
    requires
        state.phase != ForkPhase::Bridge,
    ensures
        (state.phase == ForkPhase::CurOrphans || state.phase == ForkPhase::NewOrphans)
            ==> fork_step(state, fetched) is Fetch,
        !(fork_step(state, fetched) is Failed),
        fork_step(state, fetched) is Decided ==> (fork_step(state, fetched)->Decided_0
            == Verdict::Commit <==> total_work(state.new_side) > total_work(state.cur_side)),
        fork_step(state, fetched) is Decided && total_work(state.new_side) == total_work(
            state.cur_side,
        ) ==> fork_step(state, fetched)->Decided_0 == Verdict::Ignore,
{
}

/// What a lookup gave, as plain values.
pub open spec fn fetched_view(fetched: Result<Block, ServiceError>) -> Result<
    BlockView,
    ServiceError,
> {
    match fetched {
        Ok(block) => Ok(block@),
        Err(error) => Err(error),
    }
}

/// The work of a run of blocks is at most the greatest work of one block
/// times their number.
pub proof fn lemma_total_work_bound(headers: Seq<HeaderView>)
    ensures
        total_work(headers) <= headers.len() * u64::MAX,
    decreases headers.len(),
{
    if headers.len() > 0 {
        lemma_total_work_bound(headers.drop_last());
        let last = headers.last().consensus.difficulty;
        if last < 63 {
            vstd::bits::lemma_u64_pow2_no_overflow(last as nat);
        }
        assert(total_work(headers) <= headers.len() * u64::MAX) by (nonlinear_arith)
            requires
                total_work(headers) == total_work(headers.drop_last()) + work_of(last),
                total_work(headers.drop_last()) <= (headers.len() - 1) * u64::MAX,
                work_of(last) <= u64::MAX,
        ;
    }
}

/// The work of a run of blocks.
pub fn sum_work(headers: &Vec<BlockHeader>) -> (total: u128)
    ensures
        total == total_work(views(headers@)),
{
    let n: usize = headers.len();
    let ghost all = views(headers@);
    let mut total: u128 = 0;
    let mut i: usize = 0;
    while i < n
        invariant
            i <= n,
            n == headers@.len(),
            all == views(headers@),
            total == total_work(all.take(i as int)),
        decreases n - i,
    {
        let work: u64 = headers[i].work();
        proof {
            let upto = all.take(i as int + 1);
            assert(upto.drop_last() =~= all.take(i as int));
            assert(upto.last() == headers@[i as int]@);
            lemma_total_work_bound(upto);
            assert(upto.len() * u64::MAX <= usize::MAX * u64::MAX) by (nonlinear_arith)
                requires
                    upto.len() <= usize::MAX,
            ;
        }
        total = total + work as u128;
        i = i + 1;
    }
    assert(all.take(n as int) =~= all);
    total
}

/// The choice by work between two runs of blocks.
pub fn choose_by_work(cur_side: &Vec<BlockHeader>, new_side: &Vec<BlockHeader>) -> (verdict:
    Verdict)
    ensures
        verdict == verdict_by_work(views(cur_side@), views(new_side@)),
{
    let new_work: u128 = sum_work(new_side);
    let cur_work: u128 = sum_work(cur_side);
    if new_work > cur_work {
        Verdict::Commit
    } else {
        Verdict::Ignore
    }
}

fn walk_header(fetched: Result<Block, ServiceError>) -> (header: Option<BlockHeader>)
    ensures
        match walked(fetched_view(fetched)) {
            Some(view) => header.is_some() && header.unwrap()@ == view,
            None => header.is_none(),
        },
{
    match fetched {
        Ok(block) => match BlockHeader::owned(block) {
            Ok(header) => Some(header),
            Err(_) => None,
        },
        Err(_) => None,
    }
}

fn head_of(side: &Vec<BlockHeader>, tip: &Vec<u8>) -> (block_id: Vec<u8>)
    ensures
        block_id@ == fork_head(views(side@), tip@),
{
    let n: usize = side.len();
    if n > 0 {
        copy_bytes(side[n - 1].block.block_id.as_slice())
    } else {
        copy_bytes(tip.as_slice())
    }
}

impl ForkChoice {
    /// The id of the block that the choice needs next.
    pub fn wanted(&self) -> (block_id: &Vec<u8>)
        ensures
            block_id@ == self@.wanted,
    {
        &self.wanted
    }

    /// The id of the block that asks to become the head.
    pub fn new_id(&self) -> (block_id: &Vec<u8>)
        ensures
            block_id@ == self@.new_id,
    {
        &self.new_id
    }

    fn fresh(cur: &Block, new: &Block) -> (state: ForkChoice)
        ensures
            state@ == blank(cur@, new@),
    {
        let state = ForkChoice {
            phase: ForkPhase::PairCur,
            cur_id: copy_bytes(cur.block_id.as_slice()),
            new_id: copy_bytes(new.block_id.as_slice()),
            wanted: copy_bytes(cur.block_id.as_slice()),
            other: copy_bytes(new.block_id.as_slice()),
            remaining: 0,
            cur_side: Vec::new(),
            new_side: Vec::new(),
            held: None,
        };
        assert(state@.cur_side =~= Seq::<HeaderView>::empty());
        assert(state@.new_side =~= Seq::<HeaderView>::empty());
        state
    }

    fn pair(self) -> (state: ForkChoice)
        ensures
            state@ == pairing(self@),
    {
        let wanted: Vec<u8> = head_of(&self.cur_side, &self.cur_id);
        let other: Vec<u8> = head_of(&self.new_side, &self.new_id);
        ForkChoice {
            phase: ForkPhase::PairCur,
            cur_id: self.cur_id,
            new_id: self.new_id,
            wanted,
            other,
            remaining: 0,
            cur_side: self.cur_side,
            new_side: self.new_side,
            held: None,
        }
    }

    fn check_bridge(self, block: &Block) -> (step: ForkStep)
        ensures
            step@ == bridge_check(self@, block@),
    {
        if bytes_eq(block.previous_id.as_slice(), self.cur_id.as_slice()) {
            ForkStep::Decided(Verdict::Commit)
        } else if !BlockConsensus::is_pow_consensus(block.payload.as_slice()) {
            ForkStep::Decided(Verdict::Ignore)
        } else {
            ForkStep::Fetch(
                ForkChoice {
                    phase: ForkPhase::Bridge,
                    cur_id: self.cur_id,
                    new_id: self.new_id,
                    wanted: copy_bytes(block.previous_id.as_slice()),
                    other: self.other,
                    remaining: self.remaining,
                    cur_side: self.cur_side,
                    new_side: self.new_side,
                    held: self.held,
                },
            )
        }
    }

    /// Starts the choice between the head `cur_head` and the block `new_head`
    /// that asks to replace it.
    pub fn compare_forks(cur_head: &Block, new_head: &Block) -> (step: ForkStep)
        ensures
            step@ == fork_start(cur_head@, new_head@),
    {
        if !BlockConsensus::is_pow_consensus(new_head.payload.as_slice()) {
            return ForkStep::Decided(Verdict::Ignore);
        }
        if !BlockConsensus::is_pow_consensus(cur_head.payload.as_slice()) {
            return Self::fresh(cur_head, new_head).check_bridge(new_head);
        }
        if cur_head.block_num < u64::MAX && new_head.block_num == cur_head.block_num + 1
            && bytes_eq(new_head.previous_id.as_slice(), cur_head.block_id.as_slice()) {
            return ForkStep::Decided(Verdict::Commit);
        }
        ForkStep::Fetch(Self::resolve_fork(cur_head, new_head))
    }

    /// Starts the choice by work between the head and the new block.
    pub fn resolve_fork(cur_head: &Block, new_head: &Block) -> (state: ForkChoice)
        ensures
            state@ == resolve_start(cur_head@, new_head@),
    {
        let cur_diff_size: u64 = if cur_head.block_num > new_head.block_num {
            cur_head.block_num - new_head.block_num
        } else {
            0
        };
        let new_diff_size: u64 = if new_head.block_num > cur_head.block_num {
            new_head.block_num - cur_head.block_num
        } else {
            0
        };
        let state = Self::fresh(cur_head, new_head);
        if cur_diff_size > 0 {
            ForkChoice {
                phase: ForkPhase::CurOrphans,
                cur_id: state.cur_id,
                new_id: state.new_id,
                wanted: copy_bytes(cur_head.previous_id.as_slice()),
                other: state.other,
                remaining: cur_diff_size,
                cur_side: state.cur_side,
                new_side: state.new_side,
                held: state.held,
            }
        } else if new_diff_size > 0 {
            ForkChoice {
                phase: ForkPhase::NewOrphans,
                cur_id: state.cur_id,
                new_id: state.new_id,
                wanted: copy_bytes(new_head.previous_id.as_slice()),
                other: state.other,
                remaining: new_diff_size,
                cur_side: state.cur_side,
                new_side: state.new_side,
                held: state.held,
            }
        } else {
            state
        }
    }

    fn gather(self, fetched: Result<Block, ServiceError>) -> (state: ForkChoice)
        requires
            self@.phase == ForkPhase::CurOrphans || self@.phase == ForkPhase::NewOrphans,
        ensures
            state@ == orphan_step(self@, fetched_view(fetched)),
    {
        let header: BlockHeader = match walk_header(fetched) {
            Some(header) => header,
            None => {
                return self.pair();
            },
        };
        if !header.is_pow() {
            return self.pair();
        }
        let parent: Vec<u8> = copy_bytes(header.block.previous_id.as_slice());
        let mut state = self;
        let ghost before = state@;
        match state.phase {
            ForkPhase::CurOrphans => {
                let ghost list = state.cur_side@;
                state.cur_side.push(header);
                assert(views(list.push(header)) =~= views(list).push(header@));
            },
            _ => {
                let ghost list = state.new_side@;
                state.new_side.push(header);
                assert(views(list.push(header)) =~= views(list).push(header@));
            },
        }
        if state.remaining <= 1 {
            state.pair()
        } else {
            state.wanted = parent;
            state.remaining = state.remaining - 1;
            state
        }
    }

    /// Takes what looking up the wanted block gave, and says how the choice
    /// goes on.
    pub fn step(self, fetched: Result<Block, ServiceError>) -> (step: ForkStep)
        ensures
            step@ == fork_step(self@, fetched_view(fetched)),
    {
        match self.phase {
            ForkPhase::Bridge => match fetched {
                Err(error) => ForkStep::Failed(error),
                Ok(block) => self.check_bridge(&block),
            },
            ForkPhase::CurOrphans | ForkPhase::NewOrphans => ForkStep::Fetch(self.gather(fetched)),
            ForkPhase::PairCur => match walk_header(fetched) {
                Some(header) => {
                    let parent: Vec<u8> = copy_bytes(header.block.previous_id.as_slice());
                    ForkStep::Fetch(
                        ForkChoice {
                            phase: ForkPhase::PairNew,
                            cur_id: self.cur_id,
                            new_id: self.new_id,
                            wanted: self.other,
                            other: parent,
                            remaining: self.remaining,
                            cur_side: self.cur_side,
                            new_side: self.new_side,
                            held: Some(header),
                        },
                    )
                },
                None => ForkStep::Decided(choose_by_work(&self.cur_side, &self.new_side)),
            },
            ForkPhase::PairNew => {
                let mut state = self;
                let held: Option<BlockHeader> = state.held.take();
                match (held, walk_header(fetched)) {
                    (Some(cur), Some(new)) => {
                        let counts: bool = !bytes_eq(
                            cur.block.block_id.as_slice(),
                            new.block.block_id.as_slice(),
                        ) && !cur.is_genesis() && !new.is_genesis() && cur.is_pow() && new.is_pow();
                        if counts {
                            let parent: Vec<u8> = copy_bytes(new.block.previous_id.as_slice());
                            let ghost cur_list = state.cur_side@;
                            let ghost new_list = state.new_side@;
                            state.cur_side.push(cur);
                            state.new_side.push(new);
                            assert(views(cur_list.push(cur)) =~= views(cur_list).push(cur@));
                            assert(views(new_list.push(new)) =~= views(new_list).push(new@));
                            ForkStep::Fetch(
                                ForkChoice {
                                    phase: ForkPhase::PairCur,
                                    cur_id: state.cur_id,
                                    new_id: state.new_id,
                                    wanted: state.other,
                                    other: parent,
                                    remaining: state.remaining,
                                    cur_side: state.cur_side,
                                    new_side: state.new_side,
                                    held: None,
                                },
                            )
                        } else {
                            ForkStep::Decided(choose_by_work(&state.cur_side, &state.new_side))
                        }
                    },
                    _ => ForkStep::Decided(choose_by_work(&state.cur_side, &state.new_side)),
                }
            },
        }
    }
}

} // verus!
