pub mod config;
pub mod fork;
pub mod fork_chain;
pub mod guard;
pub mod node;
pub mod protocol;
pub mod service;
pub mod state;

pub use self::config::get_setting;
pub use self::config::PowConfig;
pub use self::guard::Guard;
pub use self::guard::Guards;
pub use self::service::HostError;
pub use self::service::ServiceError;
pub use self::fork::ForkChoice;
pub use self::fork::ForkStep;
pub use self::fork::Verdict;
pub use self::protocol::HostCall;
pub use self::protocol::NodeError;
pub use self::protocol::Reply;
pub use self::protocol::Update;
pub use self::state::PowState;
pub use self::node::Flow;
pub use self::node::NodeStep;
pub use self::node::PowNode;
