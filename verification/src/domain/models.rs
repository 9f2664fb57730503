use vstd::prelude::*;
use crate::common::enums::StrategyName;
use crate::common::params::ParamMap;
use crate::common::text::{parse_bool, parse_bool_text, parse_i64, parse_i64_text};
use crate::common::float_text::{float_literal, float_literal_check};

verus! {

/// Represents the side of an order (buy/sell)
#[derive(Debug, Clone, Copy, PartialEq, Eq, Structural)]
pub enum OrderSide {
    Buy,
    Sell,
}

/// Represents the type of order
#[derive(Debug, Clone, Copy, PartialEq, Eq, Structural)]
pub enum OrderType {
    Market,
    Limit,
    StopLoss,
    TakeProfit,
}

/// What a strategy configuration holds.
pub ghost struct StrategyConfigView {
    pub strategy_name: StrategyName,
    pub params: Map<Seq<char>, Seq<char>>,
    pub enabled: bool,
}

/// Configuration for a trading strategy
#[derive(Debug)]
pub struct StrategyConfig {
    pub strategy_name: StrategyName,
    pub params: ParamMap,
    pub enabled: bool,
}

impl View for StrategyConfig {
    type V = StrategyConfigView;

    open spec fn view(&self) -> StrategyConfigView {
        StrategyConfigView {
            strategy_name: self.strategy_name,
            params: self.params@,
            enabled: self.enabled,
        }
    }
}

impl Clone for StrategyConfig {
    fn clone(&self) -> (r: Self)
        ensures
            r@ == self@,
    {
        StrategyConfig {
            strategy_name: self.strategy_name,
            params: self.params.copy(),
            enabled: self.enabled,
        }
    }
}

impl StrategyConfig {
    /// Creates a new strategy configuration
    pub fn new(strategy_name: StrategyName, params: ParamMap, enabled: bool) -> (r: Self)
        ensures
            r.strategy_name == strategy_name,
            r.params@ == params@,
            r.enabled == enabled,
    {
        StrategyConfig { strategy_name, params, enabled }
    }

    /// Gets a parameter value as a string
    pub fn get_param(&self, key: &str) -> (r: Option<&String>)
        ensures
            r is Some <==> self.params@.dom().contains(key@),
            r matches Some(v) ==> v@ == self.params@[key@],
    {
        self.params.get(key)
    }

    /// Gets a parameter value as an integer
    pub fn get_param_as_i64(&self, key: &str) -> (r: Option<i64>)
        ensures
            r == (if self.params@.dom().contains(key@) {
                parse_i64(self.params@[key@])
            } else {
                None
            }),
    {
        match self.params.get(key) {
            Some(v) => parse_i64_text(v.as_str()),
            None => None,
        }
    }

    /// The text of a parameter that reads as a floating-point number, in the
    /// grammar of `str::parse::<f64>`; the number itself is read from it by
    /// the caller.
    pub fn get_param_float_text(&self, key: &str) -> (r: Option<&String>)
        ensures
            r is Some <==> self.params@.dom().contains(key@) && float_literal(self.params@[key@]),
            r matches Some(v) ==> v@ == self.params@[key@],
    {
        match self.params.get(key) {
            Some(v) => {
                if float_literal_check(v.as_str()) {
                    Some(v)
                } else {
                    None
                }
            },
            None => None,
        }
    }

    /// Gets a parameter value as a boolean
    pub fn get_param_as_bool(&self, key: &str) -> (r: Option<bool>)
        ensures
            r == (if self.params@.dom().contains(key@) {
                parse_bool(self.params@[key@])
            } else {
                None
            }),
    {
        match self.params.get(key) {
            Some(v) => parse_bool_text(v.as_str()),
            None => None,
        }
    }
}

} // verus!
