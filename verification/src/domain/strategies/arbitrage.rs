use vstd::prelude::*;
use crate::common::enums::{ExchangeName, StrategyName, TradeSide};
use crate::common::text::owned;
use crate::domain::models::StrategyConfig;
use crate::domain::strategies::base::{TradingStrategy, TradingStrategyImpl, TradingStrategyView};
use crate::infra::adapters::exchange::price_feed_topic;

verus! {

/// ArbitrageStrategy trades the price difference between Kraken and Coinbase
#[derive(Debug)]
pub struct ArbitrageStrategy {
    base: TradingStrategyImpl,
}

impl View for ArbitrageStrategy {
    type V = TradingStrategyView;

    closed spec fn view(&self) -> TradingStrategyView {
        self.base@
    }
}

impl ArbitrageStrategy {
    pub fn new(config: StrategyConfig, sink_topics: Vec<String>) -> (r: Self)
        ensures
            r@ == (TradingStrategyView { config: config@, sink_topics: sink_topics.deep_view() }),
    {
        ArbitrageStrategy { base: TradingStrategyImpl::new(config, sink_topics) }
    }

    /// Replaces the configuration; the topics stay.
    pub fn configure_strategy(&mut self, config: StrategyConfig)
        ensures
            final(self)@ == (TradingStrategyView { config: config@, ..old(self)@ }),
    {
        self.base.configure_strategy(config);
    }

    /// A copy of the configuration.
    pub fn get_strategy_config(&self) -> (r: StrategyConfig)
        ensures
            r@ == self@.config,
    {
        self.base.get_strategy_config()
    }

    pub fn get_sink_topics(&self) -> (r: Vec<String>)
        ensures
            r.deep_view() == self@.sink_topics,
    {
        self.base.get_sink_topics()
    }

    /// The side of the signal for a pair quoted on both exchanges: buy when
    /// Kraken's price is above Coinbase's, sell when it is below, no signal
    /// when neither is above the other.
    pub fn signal_side(kraken_above: bool, coinbase_above: bool) -> (r: Option<TradeSide>)
        ensures
            r == (if kraken_above {
                Some(TradeSide::Buy)
            } else if coinbase_above {
                Some(TradeSide::Sell)
            } else {
                None
            }),
    {
        if kraken_above {
            Some(TradeSide::Buy)
        } else if coinbase_above {
            Some(TradeSide::Sell)
        } else {
            None
        }
    }

    /// The price feeds the strategy listens to.
    pub fn get_source_topics(&self) -> (r: Vec<String>)
        ensures
            r.deep_view() == seq![price_feed_topic(ExchangeName::Kraken), price_feed_topic(ExchangeName::Coinbase)],
    {
        let mut v: Vec<String> = Vec::new();
        v.push(owned("price.feed.kraken"));
        v.push(owned("price.feed.coinbase"));
        proof {
            reveal_strlit("Kraken");
            reveal_strlit("Coinbase");
            reveal_strlit("price.feed.");
            reveal_strlit("price.feed.kraken");
            reveal_strlit("price.feed.coinbase");
            assert(v.deep_view()[0] =~= price_feed_topic(ExchangeName::Kraken));
            assert(v.deep_view()[1] =~= price_feed_topic(ExchangeName::Coinbase));
            assert(v.deep_view() =~= seq![price_feed_topic(ExchangeName::Kraken), price_feed_topic(ExchangeName::Coinbase)]);
        }
        v
    }
}

impl TradingStrategy for ArbitrageStrategy {
    fn name(&self) -> (r: StrategyName)
        ensures
            r == StrategyName::Arbitrage,
    {
        StrategyName::Arbitrage
    }
}

} // verus!
