use vstd::prelude::*;
use crate::block::block::BlockView;
use crate::block::block_ancestors::header_at;
use crate::block::block_ancestors::lookup;
use crate::block::block_ancestors::Chain;
use crate::block::block_header::HeaderView;
use crate::node::fork::blank;
use crate::node::fork::bridge_check;
use crate::node::fork::fork_head;
use crate::node::fork::fork_start;
use crate::node::fork::fork_step;
use crate::node::fork::height_above;
use crate::node::fork::is_pow_header;
use crate::node::fork::is_pow_payload;
use crate::node::fork::pair_counts;
use crate::node::fork::pairing;
use crate::node::fork::resolve_start;
use crate::node::fork::verdict_by_work;
use crate::node::fork::ForkPhase;
use crate::node::fork::ForkStepView;
use crate::node::fork::ForkView;
use crate::node::fork::Verdict;
use crate::node::service::ServiceError;

verus! {

/// What a chain answers a lookup with.
pub open spec fn found(chain: Chain, block_id: Seq<u8>) -> Result<BlockView, ServiceError> {
    match lookup(chain, block_id) {
        Some(block) => Ok(block),
        None => Err(ServiceError::BlockNotFound),
    }
}

/// What a fork choice comes to when every block it asks for is looked up in
/// one chain: its end, or `None` where it has not ended within `fuel` lookups.
pub open spec fn run(chain: Chain, step: ForkStepView, fuel: nat) -> Option<
    Result<Verdict, ServiceError>,
>
    decreases fuel,
{
    match step {
        ForkStepView::Decided(verdict) => Some(Ok(verdict)),
        ForkStepView::Failed(error) => Some(Err(error)),
        ForkStepView::Fetch(state) => if fuel == 0 {
            None
        } else {
            run(chain, fork_step(state, found(chain, state.wanted)), (fuel - 1) as nat)
        },
    }
}

/// The blocks of a chain from the block under `block_id` up its parents, as
/// long as they can be had and read and have proof of work, `limit` at most.
pub open spec fn pow_ancestors(chain: Chain, block_id: Seq<u8>, limit: nat) -> Seq<HeaderView>
    decreases limit,
{
    if limit == 0 {
        Seq::empty()
    } else {
        match header_at(chain, block_id) {
            Some(header) => if is_pow_header(header) {
                seq![header] + pow_ancestors(chain, header.block.previous_id, (limit - 1) as nat)
            } else {
                Seq::empty()
            },
            None => Seq::empty(),
        }
    }
}

/// The blocks in which two chains differ, from two blocks of equal standing
/// down: the pairs of blocks met on the way up the parents of both, up to the
/// first pair that does not count or cannot be had. `None` where more than
/// `fuel` pairs count.
pub open spec fn fork_blocks(chain: Chain, cur_id: Seq<u8>, new_id: Seq<u8>, fuel: nat) -> Option<
    (Seq<HeaderView>, Seq<HeaderView>),
>
    decreases fuel,
{
    match (header_at(chain, cur_id), header_at(chain, new_id)) {
        (Some(cur), Some(new)) => if !pair_counts(cur, new) {
            Some((Seq::empty(), Seq::empty()))
        } else if fuel == 0 {
            None
        } else {
            match fork_blocks(
                chain,
                cur.block.previous_id,
                new.block.previous_id,
                (fuel - 1) as nat,
            ) {
                Some(rest) => Some((seq![cur] + rest.0, seq![new] + rest.1)),
                None => None,
            }
        },
        _ => Some((Seq::empty(), Seq::empty())),
    }
}

/// The choice for a new block's line while the head has no proof of work,
/// seen from one block of that line: the new block wins where the line comes
/// down to the head before it meets a block without proof of work, and the
/// head stays where it meets such a block first. A block of the line that
/// cannot be had is a failure. `None` where neither is met within `fuel`
/// blocks.
pub open spec fn bridged(chain: Chain, cur_id: Seq<u8>, block: BlockView, fuel: nat) -> Option<
    Result<Verdict, ServiceError>,
>
    decreases fuel,
{
    if block.previous_id == cur_id {
        Some(Ok(Verdict::Commit))
    } else if !is_pow_payload(block.payload) {
        Some(Ok(Verdict::Ignore))
    } else if fuel == 0 {
        None
    } else {
        match lookup(chain, block.previous_id) {
            Some(parent) => bridged(chain, cur_id, parent, (fuel - 1) as nat),
            None => Some(Err(ServiceError::BlockNotFound)),
        }
    }
}

/// The choice by work between the head `cur` and the block `new` over a
/// chain. Each chain's work is that of its blocks above the other's height,
/// then of the blocks in which the two differ from there down; the new block
/// wins where its chain holds more.
pub open spec fn resolved(chain: Chain, cur: BlockView, new: BlockView, fuel: nat) -> Option<
    Verdict,
> {
    let cur_orphans = pow_ancestors(
        chain,
        cur.previous_id,
        height_above(cur.block_num, new.block_num) as nat,
    );
    let new_orphans = pow_ancestors(
        chain,
        new.previous_id,
        height_above(new.block_num, cur.block_num) as nat,
    );
    match fork_blocks(
        chain,
        fork_head(cur_orphans, cur.block_id),
        fork_head(new_orphans, new.block_id),
        fuel,
    ) {
        Some(differing) => Some(
            verdict_by_work(cur_orphans + differing.0, new_orphans + differing.1),
        ),
        None => None,
    }
}

/// The choice between the head `cur` and the block `new` over a chain.
pub open spec fn fork_choice(chain: Chain, cur: BlockView, new: BlockView, fuel: nat) -> Option<
    Result<Verdict, ServiceError>,
> {
    if !is_pow_payload(new.payload) {
        Some(Ok(Verdict::Ignore))
    } else if !is_pow_payload(cur.payload) {
        bridged(chain, cur.block_id, new, fuel)
    } else if new.block_num == cur.block_num + 1 && new.previous_id == cur.block_id {
        Some(Ok(Verdict::Commit))
    } else {
        match resolved(chain, cur, new, fuel) {
            Some(verdict) => Some(Ok(verdict)),
            None => None,
        }
    }
}

/// A choice that has ended within some number of lookups has ended, and the
/// same way, within any greater number.
pub proof fn lemma_run_monotone(chain: Chain, step: ForkStepView, fuel: nat, more: nat)
    requires
        run(chain, step, fuel).is_some(),
        fuel <= more,
    ensures
        run(chain, step, more) == run(chain, step, fuel),
    decreases fuel,
{
    match step {
        ForkStepView::Fetch(state) => {
            lemma_run_monotone(
                chain,
                fork_step(state, found(chain, state.wanted)),
                (fuel - 1) as nat,
                (more - 1) as nat,
            );
        },
        _ => {},
    }
}

/// The blocks in which two chains differ do not change once there is fuel for
/// all of them.
pub proof fn lemma_fork_blocks_monotone(
    chain: Chain,
    cur_id: Seq<u8>,
    new_id: Seq<u8>,
    fuel: nat,
    more: nat,
)
    requires
        fork_blocks(chain, cur_id, new_id, fuel).is_some(),
        fuel <= more,
    ensures
        fork_blocks(chain, cur_id, new_id, more) == fork_blocks(chain, cur_id, new_id, fuel),
    decreases fuel,
{
    match (header_at(chain, cur_id), header_at(chain, new_id)) {
        (Some(cur), Some(new)) => {
            if pair_counts(cur, new) {
                lemma_fork_blocks_monotone(
                    chain,
                    cur.block.previous_id,
                    new.block.previous_id,
                    (fuel - 1) as nat,
                    (more - 1) as nat,
                );
            }
        },
        _ => {},
    }
}

/// While both chains are followed in step over a chain, the choice ends with
/// the verdict by work over what was gathered before and the blocks in which
/// the chains differ from there down.
pub proof fn lemma_pairs_run(chain: Chain, state: ForkView, fuel: nat)
    requires
        state.phase == ForkPhase::PairCur,
        run(chain, ForkStepView::Fetch(state), fuel).is_some(),
    ensures
        fork_blocks(chain, state.wanted, state.other, fuel).is_some(),
        run(chain, ForkStepView::Fetch(state), fuel) == Some(
            Ok::<Verdict, ServiceError>(
                verdict_by_work(
                    state.cur_side + fork_blocks(chain, state.wanted, state.other, fuel).unwrap().0,
                    state.new_side + fork_blocks(chain, state.wanted, state.other, fuel).unwrap().1,
                ),
            ),
        ),
    decreases fuel,
{
    reveal_with_fuel(run, 3);
    let none = Seq::<HeaderView>::empty();
    assert(state.cur_side + none =~= state.cur_side);
    assert(state.new_side + none =~= state.new_side);
    match header_at(chain, state.wanted) {
        None => {},
        Some(cur) => {
            let second = ForkView {
                phase: ForkPhase::PairNew,
                wanted: state.other,
                other: cur.block.previous_id,
                held: Some(cur),
                ..state
            };
            assert(fork_step(state, found(chain, state.wanted)) == ForkStepView::Fetch(second));
            assert(fuel >= 2);
            match header_at(chain, state.other) {
                None => {},
                Some(new) => {
                    if pair_counts(cur, new) {
                        let third = ForkView {
                            phase: ForkPhase::PairCur,
                            wanted: cur.block.previous_id,
                            other: new.block.previous_id,
                            cur_side: state.cur_side.push(cur),
                            new_side: state.new_side.push(new),
                            held: None,
                            ..second
                        };
                        assert(fork_step(second, found(chain, second.wanted))
                            == ForkStepView::Fetch(third));
                        lemma_pairs_run(chain, third, (fuel - 2) as nat);
                        lemma_fork_blocks_monotone(
                            chain,
                            third.wanted,
                            third.other,
                            (fuel - 2) as nat,
                            (fuel - 1) as nat,
                        );
                        let rest = fork_blocks(chain, third.wanted, third.other, (fuel - 2) as nat).unwrap();
                        assert(state.cur_side + (seq![cur] + rest.0) =~= third.cur_side + rest.0);
                        assert(state.new_side + (seq![new] + rest.1) =~= third.new_side + rest.1);
                    }
                },
            }
        },
    }
}

/// While the blocks of the longer chain are gathered over a chain, the choice
/// gathers that chain's ancestors with proof of work, as many as are still to
/// be taken, and then goes on with both chains in step.
pub proof fn lemma_orphans_run(chain: Chain, state: ForkView, fuel: nat)
    requires
        state.phase == ForkPhase::CurOrphans || state.phase == ForkPhase::NewOrphans,
        state.remaining >= 1,
        run(chain, ForkStepView::Fetch(state), fuel).is_some(),
    ensures
        run(chain, ForkStepView::Fetch(state), fuel) == run(
            chain,
            ForkStepView::Fetch(pairing(gathered(chain, state))),
            fuel,
        ),
    decreases fuel,
{
    reveal_with_fuel(run, 2);
    let none = Seq::<HeaderView>::empty();
    assert(state.cur_side + none =~= state.cur_side);
    assert(state.new_side + none =~= state.new_side);
    let next = fork_step(state, found(chain, state.wanted));
    match header_at(chain, state.wanted) {
        Some(header) => {
            if is_pow_header(header) {
                let rest = pow_ancestors(
                    chain,
                    header.block.previous_id,
                    (state.remaining - 1) as nat,
                );
                assert(state.cur_side + (seq![header] + rest) =~= state.cur_side.push(header)
                    + rest);
                assert(state.new_side + (seq![header] + rest) =~= state.new_side.push(header)
                    + rest);
                let grown = if state.phase == ForkPhase::CurOrphans {
                    ForkView { cur_side: state.cur_side.push(header), ..state }
                } else {
                    ForkView { new_side: state.new_side.push(header), ..state }
                };
                if state.remaining <= 1 {
                    assert(rest =~= none);
                    assert(grown.cur_side + none =~= grown.cur_side);
                    assert(grown.new_side + none =~= grown.new_side);
                    assert(next == ForkStepView::Fetch(pairing(grown)));
                    assert(pairing(grown) == pairing(gathered(chain, state)));
                    lemma_run_monotone(chain, next, (fuel - 1) as nat, fuel);
                } else {
                    let walking = ForkView {
                        wanted: header.block.previous_id,
                        remaining: (state.remaining - 1) as u64,
                        ..grown
                    };
                    assert(next == ForkStepView::Fetch(walking));
                    lemma_orphans_run(chain, walking, (fuel - 1) as nat);
                    assert(pairing(gathered(chain, walking)) == pairing(gathered(chain, state)));
                    lemma_run_monotone(
                        chain,
                        ForkStepView::Fetch(pairing(gathered(chain, walking))),
                        (fuel - 1) as nat,
                        fuel,
                    );
                }
            } else {
                assert(next == ForkStepView::Fetch(pairing(state)));
                assert(pairing(state) == pairing(gathered(chain, state)));
                lemma_run_monotone(chain, next, (fuel - 1) as nat, fuel);
            }
        },
        None => {
            assert(next == ForkStepView::Fetch(pairing(state)));
            assert(pairing(state) == pairing(gathered(chain, state)));
            lemma_run_monotone(chain, next, (fuel - 1) as nat, fuel);
        },
    }
}

/// A choice that is gathering the blocks of the longer chain, with all of
/// them gathered that the chain holds.
pub open spec fn gathered(chain: Chain, state: ForkView) -> ForkView {
    let taken = pow_ancestors(chain, state.wanted, state.remaining as nat);
    if state.phase == ForkPhase::CurOrphans {
        ForkView { cur_side: state.cur_side + taken, ..state }
    } else {
        ForkView { new_side: state.new_side + taken, ..state }
    }
}

/// While the head has no proof of work, a choice over a chain ends as the
/// new block's line says.
pub proof fn lemma_bridge_run(chain: Chain, state: ForkView, block: BlockView, fuel: nat)
    ensures
        run(chain, bridge_check(state, block), fuel) == bridged(chain, state.cur_id, block, fuel),
    decreases fuel,
{
    reveal_with_fuel(run, 3);
    if block.previous_id != state.cur_id && is_pow_payload(block.payload) && fuel > 0 {
        let next = ForkView { phase: ForkPhase::Bridge, wanted: block.previous_id, ..state };
        match lookup(chain, block.previous_id) {
            Some(parent) => {
                lemma_bridge_run(chain, next, parent, (fuel - 1) as nat);
            },
            None => {},
        }
    }
}

/// The choice by work over a chain: where a choice between two blocks with
/// proof of work, fed from one chain, has ended within `fuel` lookups, it has
/// ended with the verdict by work over that chain.
pub proof fn lemma_resolve_run(chain: Chain, cur: BlockView, new: BlockView, fuel: nat)
    requires
        run(chain, ForkStepView::Fetch(resolve_start(cur, new)), fuel).is_some(),
    ensures
        resolved(chain, cur, new, fuel).is_some(),
        run(chain, ForkStepView::Fetch(resolve_start(cur, new)), fuel) == Some(
            Ok::<Verdict, ServiceError>(resolved(chain, cur, new, fuel).unwrap()),
        ),
{
    let start = resolve_start(cur, new);
    let none = Seq::<HeaderView>::empty();
    let paired = if start.phase == ForkPhase::PairCur {
        start
    } else {
        pairing(gathered(chain, start))
    };
    if start.phase != ForkPhase::PairCur {
        lemma_orphans_run(chain, start, fuel);
    }
    assert(none + none =~= none);
    let cur_orphans = pow_ancestors(
        chain,
        cur.previous_id,
        height_above(cur.block_num, new.block_num) as nat,
    );
    let new_orphans = pow_ancestors(
        chain,
        new.previous_id,
        height_above(new.block_num, cur.block_num) as nat,
    );
    assert(none + cur_orphans =~= cur_orphans);
    assert(none + new_orphans =~= new_orphans);
    assert(paired.cur_side =~= cur_orphans);
    assert(paired.new_side =~= new_orphans);
    assert(paired.wanted == fork_head(cur_orphans, cur.block_id));
    assert(paired.other == fork_head(new_orphans, new.block_id));
    lemma_pairs_run(chain, paired, fuel);
}

/// A choice that is fed from one chain decides as the chain says: where it
/// has ended within `fuel` lookups, it has ended with the choice between the
/// two blocks over that chain.
pub proof fn lemma_fork_choice_run(chain: Chain, cur: BlockView, new: BlockView, fuel: nat)
    requires
        run(chain, fork_start(cur, new), fuel).is_some(),
    ensures
        fork_choice(chain, cur, new, fuel) == run(chain, fork_start(cur, new), fuel),
{
    if !is_pow_payload(new.payload) {
    } else if !is_pow_payload(cur.payload) {
        lemma_bridge_run(chain, blank(cur, new), new, fuel);
    } else if new.block_num == cur.block_num + 1 && new.previous_id == cur.block_id {
    } else {
        lemma_resolve_run(chain, cur, new, fuel);
    }
}

} // verus!
