pub mod block;
pub mod block_ancestors;
pub mod block_consensus;
pub mod block_header;

pub use self::block::Block;
pub use self::block_ancestors::BlockAncestors;
pub use self::block_consensus::BlockConsensus;
pub use self::block_consensus::ByteTag;
pub use self::block_consensus::ConsensusError;
pub use self::block_consensus::Field;
pub use self::block_header::BlockHeader;
pub use self::block_header::InvalidProofOfWork;
