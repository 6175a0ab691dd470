use vstd::prelude::*;
use crate::node::config::PowConfig;

verus! {

pub const ENGINE_NAME: &'static str = "PoW";

pub const ENGINE_VERSION: &'static str = "0.1";

/// The engine as the validator sees it: a name, a version, and the
/// configuration that its node will start with.
#[derive(Debug)]
pub struct PowEngine {
    config: Option<PowConfig>,
}

impl View for PowEngine {
    type V = Option<PowConfig>;

    closed spec fn view(&self) -> Option<PowConfig> {
        self.config
    }
}

/// What the engine's loop can meet between two rounds.
#[derive(Clone, Copy, Debug, PartialEq, Eq, Structural)]
pub enum Round {
    /// An update came and was handled; the node goes on.
    Handled,
    /// An update came, and the node said to stop.
    Stopped,
    /// An update came, and handling it failed.
    Failed,
    /// No update came in time.
    Timeout,
    /// The validator is gone.
    Disconnected,
}

impl PowEngine {
    /// An engine whose node starts with the default configuration.
    pub fn new() -> (engine: PowEngine)
        ensures
            engine@.is_none(),
    {
        PowEngine { config: None }
    }

    /// An engine whose node starts with `config`.
    pub fn with_config(config: PowConfig) -> (engine: PowEngine)
        ensures
            engine@ == Some(config),
    {
        PowEngine { config: Some(config) }
    }

    /// The configuration for the node that is about to start: the one that
    /// the engine was made with, once, and the default one otherwise.
    pub fn take_config(&mut self) -> (config: PowConfig)
        ensures
            final(self)@.is_none(),
            config == match old(self)@ {
                Some(given) => given,
                None => PowConfig::initial(),
            },
    {
        match self.config.take() {
            Some(config) => config,
            None => PowConfig::new(),
        }
    }

    /// Whether the loop goes on after a round: it ends when the node said to
    /// stop and when the validator is gone, and goes on, with a try to
    /// publish, after everything else, a failed update too.
    pub fn goes_on(round: Round) -> (on: bool)
        ensures
            on <==> round != Round::Stopped && round != Round::Disconnected,
    {
        match round {
            Round::Stopped => false,
            Round::Disconnected => false,
            _ => true,
        }
    }

    /// The engine's name.
    pub fn name(&self) -> (name: String)
        ensures
            name@ == ENGINE_NAME@,
    {
        ENGINE_NAME.to_owned()
    }

    /// The engine's version.
    pub fn version(&self) -> (version: String)
        ensures
            version@ == ENGINE_VERSION@,
    {
        ENGINE_VERSION.to_owned()
    }

    /// The protocols that the engine speaks besides its own: none.
    pub fn additional_protocols(&self) -> (protocols: Vec<(String, String)>)
        ensures
            protocols@.len() == 0,
    {
        Vec::new()
    }
}

} // verus!
