use vstd::prelude::*;
use crate::common::enums::{ExchangeName, StrategyName, TradeSide};
use crate::common::text::owned;
use crate::domain::models::StrategyConfig;
use crate::domain::strategies::base::{TradingStrategy, TradingStrategyImpl, TradingStrategyView};
use crate::infra::adapters::exchange::price_feed_topic;

verus! {

/// MeanReversionStrategy generates signals from price deviations on Kraken
#[derive(Debug)]
pub struct MeanReversionStrategy {
    base: TradingStrategyImpl,
}

impl View for MeanReversionStrategy {
    type V = TradingStrategyView;

    closed spec fn view(&self) -> TradingStrategyView {
        self.base@
    }
}

impl MeanReversionStrategy {
    /// The signal for a price update, given the pair of its Kraken quote if
    /// it has one: buy that pair; no signal without a Kraken quote. No
    /// moving average is kept and no deviation from one is measured: every
    /// Kraken quote gives a buy.
    pub fn signal_for(kraken_pair: Option<&String>) -> (r: Option<(String, TradeSide)>)
        ensures
            match kraken_pair {
                Some(p) => r matches Some((q, side)) && q@ == p@ && side == TradeSide::Buy,
                None => r is None,
            },
    {
        match kraken_pair {
            Some(p) => Some((p.clone(), TradeSide::Buy)),
            None => None,
        }
    }

    pub fn new(config: StrategyConfig, sink_topics: Vec<String>) -> (r: Self)
        ensures
            r@ == (TradingStrategyView { config: config@, sink_topics: sink_topics.deep_view() }),
    {
        MeanReversionStrategy { base: TradingStrategyImpl::new(config, sink_topics) }
    }

    /// Replaces the configuration; the topics stay.
    pub fn configure_strategy(&mut self, config: StrategyConfig)
        ensures
            final(self)@ == (TradingStrategyView { config: config@, ..old(self)@ }),
    {
        self.base.configure_strategy(config);
    }

    /// A copy of the configuration.
    pub fn get_strategy_config(&self) -> (r: StrategyConfig)
        ensures
            r@ == self@.config,
    {
        self.base.get_strategy_config()
    }

    pub fn get_sink_topics(&self) -> (r: Vec<String>)
        ensures
            r.deep_view() == self@.sink_topics,
    {
        self.base.get_sink_topics()
    }

    /// The price feeds the strategy listens to.
    pub fn get_source_topics(&self) -> (r: Vec<String>)
        ensures
            r.deep_view() == seq![price_feed_topic(ExchangeName::Kraken)],
    {
        let mut v: Vec<String> = Vec::new();
        v.push(owned("price.feed.kraken"));
        proof {
            reveal_strlit("Kraken");
            reveal_strlit("price.feed.");
            reveal_strlit("price.feed.kraken");
            assert(v.deep_view()[0] =~= price_feed_topic(ExchangeName::Kraken));
            assert(v.deep_view() =~= seq![price_feed_topic(ExchangeName::Kraken)]);
        }
        v
    }
}

impl TradingStrategy for MeanReversionStrategy {
    fn name(&self) -> (r: StrategyName)
        ensures
            r == StrategyName::MeanReversion,
    {
        StrategyName::MeanReversion
    }
}

} // verus!
