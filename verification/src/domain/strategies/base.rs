use vstd::prelude::*;
use crate::common::enums::StrategyName;
use crate::common::text::clone_strings;
use crate::domain::models::{StrategyConfig, StrategyConfigView};

verus! {

/// The core functionality of every trading strategy.
pub trait TradingStrategy {
    /// Returns the unique name of the trading strategy
    fn name(&self) -> StrategyName;
}

/// What a strategy holds: its configuration and the topics it publishes to.
pub ghost struct TradingStrategyView {
    pub config: StrategyConfigView,
    pub sink_topics: Seq<Seq<char>>,
}

/// Base implementation for trading strategies
#[derive(Debug)]
pub struct TradingStrategyImpl {
    strategy_config: StrategyConfig,
    sink_topics: Vec<String>,
}

impl View for TradingStrategyImpl {
    type V = TradingStrategyView;

    closed spec fn view(&self) -> TradingStrategyView {
        TradingStrategyView {
            config: self.strategy_config@,
            sink_topics: self.sink_topics.deep_view(),
        }
    }
}

impl TradingStrategyImpl {
    pub fn new(config: StrategyConfig, sink_topics: Vec<String>) -> (r: Self)
        ensures
            r@ == (TradingStrategyView { config: config@, sink_topics: sink_topics.deep_view() }),
    {
        TradingStrategyImpl { strategy_config: config, sink_topics }
    }

    pub fn get_sink_topics(&self) -> (r: Vec<String>)
        ensures
            r.deep_view() == self@.sink_topics,
    {
        clone_strings(&self.sink_topics)
    }

    pub fn get_config(&self) -> (r: &StrategyConfig)
        ensures
            r@ == self@.config,
    {
        &self.strategy_config
    }

    /// Replaces the configuration; the topics stay.
    pub fn configure_strategy(&mut self, config: StrategyConfig)
        ensures
            final(self)@ == (TradingStrategyView { config: config@, ..old(self)@ }),
    {
        self.strategy_config = config;
    }

    /// A copy of the configuration.
    pub fn get_strategy_config(&self) -> (r: StrategyConfig)
        ensures
            r@ == self@.config,
    {
        self.strategy_config.clone()
    }

    /// The base strategy listens to no topic.
    pub fn get_source_topics(&self) -> (r: Vec<String>)
        ensures
            r@.len() == 0,
    {
        Vec::new()
    }
}

} // verus!
