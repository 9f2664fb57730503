use vstd::prelude::*;
use crate::common::text::{ascii_lower, owned};

verus! {

/// Supported exchanges
#[derive(Debug, Clone, Copy, PartialEq, Eq, Hash, Structural)]
pub enum ExchangeName {
    Kraken,
    Coinbase,
    Binance,
    Bitfinex,
    FTX,
}

impl ExchangeName {
    /// The display text of the exchange: the variant's name.
    pub open spec fn display_text(self) -> Seq<char> {
        match self {
            ExchangeName::Kraken => "Kraken"@,
            ExchangeName::Coinbase => "Coinbase"@,
            ExchangeName::Binance => "Binance"@,
            ExchangeName::Bitfinex => "Bitfinex"@,
            ExchangeName::FTX => "FTX"@,
        }
    }

    /// Display text of the exchange.
    pub fn to_string(&self) -> (r: String)
        ensures
            r@ == self.display_text(),
    {
        match self {
            ExchangeName::Kraken => owned("Kraken"),
            ExchangeName::Coinbase => owned("Coinbase"),
            ExchangeName::Binance => owned("Binance"),
            ExchangeName::Bitfinex => owned("Bitfinex"),
            ExchangeName::FTX => owned("FTX"),
        }
    }

    /// The display text in lower case.
    pub fn to_lowercase_string(&self) -> (r: String)
        ensures
            r@ == ascii_lower(self.display_text()),
    {
        let r = match self {
            ExchangeName::Kraken => owned("kraken"),
            ExchangeName::Coinbase => owned("coinbase"),
            ExchangeName::Binance => owned("binance"),
            ExchangeName::Bitfinex => owned("bitfinex"),
            ExchangeName::FTX => owned("ftx"),
        };
        proof {
            reveal_strlit("Kraken");
            reveal_strlit("kraken");
            reveal_strlit("Coinbase");
            reveal_strlit("coinbase");
            reveal_strlit("Binance");
            reveal_strlit("binance");
            reveal_strlit("Bitfinex");
            reveal_strlit("bitfinex");
            reveal_strlit("FTX");
            reveal_strlit("ftx");
            assert(r@ =~= ascii_lower(self.display_text()));
        }
        r
    }
}

/// Available trading strategies
#[derive(Debug, Clone, Copy, PartialEq, Eq, Hash, Structural)]
pub enum StrategyName {
    Arbitrage,
    MeanReversion,
    Momentum,
    MarketMaking,
    StatisticalArbitrage,
}

impl StrategyName {
    /// The display text in lower case.
    pub fn to_lowercase_string(&self) -> (r: String)
        ensures
            r@ == ascii_lower(self.display_text()),
    {
        let r = match self {
            StrategyName::Arbitrage => owned("arbitrage"),
            StrategyName::MeanReversion => owned("meanreversion"),
            StrategyName::Momentum => owned("momentum"),
            StrategyName::MarketMaking => owned("marketmaking"),
            StrategyName::StatisticalArbitrage => owned("statisticalarbitrage"),
        };
        proof {
            reveal_strlit("Arbitrage");
            reveal_strlit("arbitrage");
            reveal_strlit("MeanReversion");
            reveal_strlit("meanreversion");
            reveal_strlit("Momentum");
            reveal_strlit("momentum");
            reveal_strlit("MarketMaking");
            reveal_strlit("marketmaking");
            reveal_strlit("StatisticalArbitrage");
            reveal_strlit("statisticalarbitrage");
            assert(r@ =~= ascii_lower(self.display_text()));
        }
        r
    }

    /// The display text: the variant's name.
    pub open spec fn display_text(self) -> Seq<char> {
        match self {
            StrategyName::Arbitrage => "Arbitrage"@,
            StrategyName::MeanReversion => "MeanReversion"@,
            StrategyName::Momentum => "Momentum"@,
            StrategyName::MarketMaking => "MarketMaking"@,
            StrategyName::StatisticalArbitrage => "StatisticalArbitrage"@,
        }
    }

    /// Display text of the value.
    pub fn to_string(&self) -> (r: String)
        ensures
            r@ == self.display_text(),
    {
        match self {
            StrategyName::Arbitrage => owned("Arbitrage"),
            StrategyName::MeanReversion => owned("MeanReversion"),
            StrategyName::Momentum => owned("Momentum"),
            StrategyName::MarketMaking => owned("MarketMaking"),
            StrategyName::StatisticalArbitrage => owned("StatisticalArbitrage"),
        }
    }
}

/// Supported brokers
#[derive(Debug, Clone, Copy, PartialEq, Eq, Hash, Structural)]
pub enum BrokerName {
    InteractiveBrokers,
    AlpacaMarkets,
    TDAmeritrade,
}

impl BrokerName {
    /// The display text in lower case.
    pub fn to_lowercase_string(&self) -> (r: String)
        ensures
            r@ == ascii_lower(self.display_text()),
    {
        let r = match self {
            BrokerName::InteractiveBrokers => owned("interactivebrokers"),
            BrokerName::AlpacaMarkets => owned("alpacamarkets"),
            BrokerName::TDAmeritrade => owned("tdameritrade"),
        };
        proof {
            reveal_strlit("InteractiveBrokers");
            reveal_strlit("interactivebrokers");
            reveal_strlit("AlpacaMarkets");
            reveal_strlit("alpacamarkets");
            reveal_strlit("TDAmeritrade");
            reveal_strlit("tdameritrade");
            assert(r@ =~= ascii_lower(self.display_text()));
        }
        r
    }

    /// The display text: the variant's name.
    pub open spec fn display_text(self) -> Seq<char> {
        match self {
            BrokerName::InteractiveBrokers => "InteractiveBrokers"@,
            BrokerName::AlpacaMarkets => "AlpacaMarkets"@,
            BrokerName::TDAmeritrade => "TDAmeritrade"@,
        }
    }

    /// Display text of the value.
    pub fn to_string(&self) -> (r: String)
        ensures
            r@ == self.display_text(),
    {
        match self {
            BrokerName::InteractiveBrokers => owned("InteractiveBrokers"),
            BrokerName::AlpacaMarkets => owned("AlpacaMarkets"),
            BrokerName::TDAmeritrade => owned("TDAmeritrade"),
        }
    }
}

/// Order types
#[derive(Debug, Clone, Copy, PartialEq, Eq, Hash, Structural)]
pub enum OrderType {
    Market,
    Limit,
    StopLoss,
    StopLimit,
    TrailingStop,
}

/// Trading side
#[derive(Debug, Clone, Copy, PartialEq, Eq, Hash, Structural)]
pub enum TradeSide {
    Buy,
    Sell,
}

impl TradeSide {
    /// The display text: the variant's name.
    pub open spec fn display_text(self) -> Seq<char> {
        match self {
            TradeSide::Buy => "Buy"@,
            TradeSide::Sell => "Sell"@,
        }
    }

    /// Display text of the value.
    pub fn to_string(&self) -> (r: String)
        ensures
            r@ == self.display_text(),
    {
        match self {
            TradeSide::Buy => owned("Buy"),
            TradeSide::Sell => owned("Sell"),
        }
    }
}

} // verus!
