pub mod answer;
pub mod challenge;
pub mod miner;
pub mod worker;

pub use self::answer::Answer;
pub use self::challenge::Challenge;
pub use self::miner::Miner;
pub use self::worker::Message;
pub use self::worker::Polled;
pub use self::worker::Search;
pub use self::worker::Turn;
