use vstd::prelude::*;
use crate::node::guard::Guards;

verus! {

/// What the node knows of the chain and of itself.
#[derive(Debug)]
pub struct PowState {
    /// The id of the latest block that was committed.
    pub chain_head: Vec<u8>,
    /// The id under which this validator signs.
    pub peer_id: Vec<u8>,
    /// The latches of the publish pipeline.
    pub guards: Guards,
}

impl PowState {
    /// The state before the node was started: no head, no id, no guard set.
    pub fn new() -> (state: PowState)
        ensures
            state.chain_head@ == Seq::<u8>::empty(),
            state.peer_id@ == Seq::<u8>::empty(),
            state.guards@ == Set::<crate::node::guard::Guard>::empty(),
    {
        PowState { chain_head: Vec::new(), peer_id: Vec::new(), guards: Guards::new() }
    }
}

} // verus!
