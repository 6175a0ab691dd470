//! Proof-of-work consensus: payload codec, work scoring, difficulty
//! retargeting, fork choice and the node and miner state machines.

pub mod block;
pub mod engine;
pub mod miner;
pub mod node;
pub mod primitives;
pub mod utils;
pub mod work;
