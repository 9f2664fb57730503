use vstd::prelude::*;
use crate::common::enums::ExchangeName;
use crate::common::float_text::{float_error_text, float_literal, float_literal_check};
use crate::common::text::{owned, str_eq};
use crate::common::types::{is_parse_error, is_validation_error, Error};
use crate::config::ExchangeConfig;
use crate::domain::events::{quote_view, PriceQuote, PriceUpdate};
use crate::infra::adapters::coinbase::price_error;
use crate::infra::adapters::exchange::{
    adapter_failure, price_feed_topic, ExchangeAdapter, ExchangeAdapterImpl, ExchangeAdapterView,
};
use crate::infra::adapters::json::{json_parse, json_string_array, json_string_list, parse_json, JsonValue};

verus! {

/// The last-trade price text in the ticker part of a Kraken message: the
/// first item of its `c` array.
pub open spec fn kraken_price_text(info: JsonValue) -> Option<Seq<char>> {
    match info.field("c"@) {
        Some(c) => match c.items() {
            Some(items) => if items.len() > 0 {
                items[0].text()
            } else {
                None
            },
            None => None,
        },
        None => None,
    }
}

/// What a Kraken message says for the followed pairs: a pair and its price
/// text, nothing, or the message of a parse error.
pub open spec fn kraken_reading(data: JsonValue, pairs: Seq<Seq<char>>) -> Result<
    Option<(Seq<char>, Seq<char>)>,
    Seq<char>,
> {
    match data.items() {
        None => Ok(None),
        Some(a) => if a.len() <= 3 {
            Ok(None)
        } else {
            match a[3].text() {
                None => Err("Invalid symbol format"@),
                Some(sym) => if !pairs.contains(sym) {
                    Ok(None)
                } else {
                    match kraken_price_text(a[1]) {
                        None => Ok(None),
                        Some(pt) => if !float_literal(pt) {
                            Err("Failed to parse price: "@ + float_error_text(pt))
                        } else {
                            Ok(Some((sym, pt)))
                        },
                    }
                },
            }
        },
    }
}

/// The subscription that asks Kraken for the tickers of some pairs.
pub open spec fn kraken_subscription(pairs: Seq<Seq<char>>) -> Seq<char> {
    "{\"event\":\"subscribe\",\"pair\":"@ + json_string_list(pairs) + ",\"subscription\":{\"name\":\"ticker\"}}"@
}

fn contains_text(items: &Vec<String>, s: &str) -> (r: bool)
    ensures
        r == items.deep_view().contains(s@),
{
    let mut i: usize = 0;
    while i < items.len()
        invariant
            i <= items@.len(),
            forall|j: int| 0 <= j < i ==> items.deep_view()[j] != s@,
        decreases items@.len() - i,
    {
        if str_eq(items[i].as_str(), s) {
            assert(items.deep_view()[i as int] == s@);
            return true;
        }
        i = i + 1;
    }
    false
}

/// Adapter for the Kraken exchange.
#[derive(Debug)]
pub struct KrakenAdapter {
    base: ExchangeAdapterImpl,
}

impl View for KrakenAdapter {
    type V = ExchangeAdapterView;

    closed spec fn view(&self) -> ExchangeAdapterView {
        self.base@
    }
}

impl KrakenAdapter {
    /// Creates a new KrakenAdapter instance
    pub fn new(config: ExchangeConfig) -> (r: Result<Self, Error>)
        ensures
            r is Ok <==> adapter_failure(config.api_url@, config.pairs.deep_view()) is None,
            r matches Err(e) ==> is_validation_error(
                e,
                adapter_failure(config.api_url@, config.pairs.deep_view())->Some_0,
            ),
            r matches Ok(a) ==> a@ == (ExchangeAdapterView {
                api_url: config.api_url@,
                pairs: config.pairs.deep_view(),
                exchange_name: ExchangeName::Kraken,
                sink_topics: seq![price_feed_topic(ExchangeName::Kraken)],
            }),
    {
        Ok(KrakenAdapter { base: ExchangeAdapterImpl::new(config, ExchangeName::Kraken)? })
    }

    pub fn get_sink_topics(&self) -> (r: Vec<String>)
        ensures
            r.deep_view() == self@.sink_topics,
    {
        self.base.get_sink_topics()
    }

    /// The subscription message for the adapter's pairs.
    pub fn subscribe_message(&self) -> (r: String)
        ensures
            r@ == kraken_subscription(self@.pairs),
    {
        let pairs = self.base.get_pairs();
        let a = json_string_array(&pairs);
        owned("{\"event\":\"subscribe\",\"pair\":").concat(a.as_str()).concat(
                    ",\"subscription\":{\"name\":\"ticker\"}}",
                )
    }

    /// Process a message received from Kraken WebSocket: the text is parsed as
    /// JSON and read as `read_kraken_message` reads it; text that is not JSON
    /// is a parse error.
    pub fn process_kraken_message(message: &str, pairs: &Vec<String>) -> (r: Result<PriceUpdate, Error>)
        ensures
            match json_parse(message@) {
                Err(m) => r matches Err(e) && is_parse_error(e, "Failed to parse Kraken message: "@ + m),
                Ok(d) => {
                    &&& r is Ok <==> kraken_reading(d, pairs.deep_view()) is Ok
                    &&& r matches Err(e) ==> is_parse_error(e, kraken_reading(d, pairs.deep_view())->Err_0)
                    &&& r matches Ok(u) ==> u.coinbase_data is None && quote_view(u.kraken_data) == (match kraken_reading(d, pairs.deep_view())->Ok_0 {
                        Some((pair, price)) => Some((ExchangeName::Kraken, pair, price)),
                        None => None,
                    })
                },
            },
    {
        match parse_json(message) {
            Ok(data) => Self::read_kraken_message(&data, pairs),
            Err(m) => Err(Error::ParseError(owned("Failed to parse Kraken message: ").concat(m.as_str()))),
        }
    }

    /// Reads the price a Kraken ticker message carries for one of `pairs`;
    /// other messages, and tickers of other pairs, give no price.
    pub fn read_kraken_message(data: &JsonValue, pairs: &Vec<String>) -> (r: Result<
        PriceUpdate,
        Error,
    >)
        ensures
            r is Ok <==> kraken_reading(*data, pairs.deep_view()) is Ok,
            r matches Err(e) ==> is_parse_error(e, kraken_reading(*data, pairs.deep_view())->Err_0),
            r matches Ok(u) ==> u.coinbase_data is None && quote_view(u.kraken_data) == (
            match kraken_reading(*data, pairs.deep_view())->Ok_0 {
                Some((pair, price)) => Some((ExchangeName::Kraken, pair, price)),
                None => None,
            }),
    {
        let array = match data.as_array() {
            Some(a) => a,
            None => {
                return Ok(PriceUpdate::empty());
            },
        };
        if array.len() <= 3 {
            return Ok(PriceUpdate::empty());
        }
        let symbol = match array[3].as_str() {
            Some(s) => s,
            None => {
                return Err(Error::ParseError(owned("Invalid symbol format")));
            },
        };
        if !contains_text(pairs, symbol.as_str()) {
            return Ok(PriceUpdate::empty());
        }
        let info = &array[1];
        let c = match info.get("c") {
            Some(c) => c,
            None => {
                return Ok(PriceUpdate::empty());
            },
        };
        let items = match c.as_array() {
            Some(items) => items,
            None => {
                return Ok(PriceUpdate::empty());
            },
        };
        if items.len() == 0 {
            return Ok(PriceUpdate::empty());
        }
        let price = match items[0].as_str() {
            Some(p) => p,
            None => {
                return Ok(PriceUpdate::empty());
            },
        };
        if !float_literal_check(price.as_str()) {
            return Err(price_error(price.as_str()));
        }
        Ok(
            PriceUpdate {
                kraken_data: Some(
                    PriceQuote {
                        exchange: ExchangeName::Kraken,
                        pair: symbol.clone(),
                        price_text: price.clone(),
                    },
                ),
                coinbase_data: None,
            },
        )
    }
}

impl ExchangeAdapter for KrakenAdapter {
    fn get_api_url(&self) -> (r: String)
        ensures
            r@ == self@.api_url,
    {
        self.base.get_api_url()
    }

    fn get_pairs(&self) -> (r: Vec<String>)
        ensures
            r.deep_view() == self@.pairs,
    {
        self.base.get_pairs()
    }

    fn get_exchange_name(&self) -> (r: ExchangeName)
        ensures
            r == self@.exchange_name,
    {
        self.base.get_exchange_name()
    }
}


/// A ticker for a followed pair gives the pair and the last-trade price, the
/// first item of the ticker object's `c` array, whatever other members the
/// object holds; a symbol that is not followed gives no price.
pub proof fn law_kraken_last_trade_price(data: JsonValue, pairs: Seq<Seq<char>>, sym: Seq<char>, p: Seq<char>)
    requires
        data.items() matches Some(a) && a.len() > 3 && a[3].text() == Some(sym),
    ensures
        ({
            let a = data.items()->Some_0;
            &&& pairs.contains(sym) && (a[1].field("c"@) matches Some(c) && c.items() matches Some(
                items,
            ) && items.len() > 0 && items[0].text() == Some(p)) && float_literal(p) ==> kraken_reading(
                data,
                pairs,
            ) == Ok::<Option<(Seq<char>, Seq<char>)>, Seq<char>>(Some((sym, p)))
            &&& !pairs.contains(sym) ==> kraken_reading(data, pairs) == Ok::<
                Option<(Seq<char>, Seq<char>)>,
                Seq<char>,
            >(None)
        }),
{
}

} // verus!
