use vstd::prelude::*;
use crate::common::enums::ExchangeName;
use crate::common::float_text::{float_error_text, float_literal, float_literal_check};
use crate::common::text::owned;
use crate::common::types::{is_connection_error, is_parse_error, is_validation_error, Error};
use crate::config::ExchangeConfig;
use crate::domain::events::{quote_view, PriceQuote, PriceUpdate};
use crate::infra::adapters::exchange::{
    adapter_failure, price_feed_topic, ExchangeAdapter, ExchangeAdapterImpl, ExchangeAdapterView,
};
use crate::infra::adapters::json::{json_parse, json_string_array, json_string_list, parse_json, JsonValue};

verus! {

/// What a Coinbase message says: a pair and its price text, nothing, or
/// the message of a parse error.
pub open spec fn coinbase_reading(data: JsonValue) -> Result<
    Option<(Seq<char>, Seq<char>)>,
    Seq<char>,
> {
    match (data.field("type"@), data.field("price"@), data.field("product_id"@)) {
        (Some(t), Some(p), Some(pid)) => if t.text() == Some("ticker"@) {
            match p.text() {
                None => Err("Invalid price format"@),
                Some(pt) => if !float_literal(pt) {
                    Err("Failed to parse price: "@ + float_error_text(pt))
                } else {
                    match pid.text() {
                        None => Err("Invalid product_id format"@),
                        Some(sym) => Ok(Some((sym, pt))),
                    }
                },
            }
        } else {
            Ok(None)
        },
        _ => Ok(None),
    }
}

/// Which required field a Coinbase message lacks, if any.
pub open spec fn coinbase_missing_field(data: JsonValue) -> Option<Seq<char>> {
    let ticker = data.field("type"@) matches Some(t) && t.text() == Some("ticker"@);
    if data.field("type"@) is None {
        Some("Missing 'type' field"@)
    } else if data.field("price"@) is None && ticker {
        Some("Missing 'price' field in ticker message"@)
    } else if data.field("product_id"@) is None && ticker {
        Some("Missing 'product_id' field in ticker message"@)
    } else {
        None
    }
}

/// The subscription that asks Coinbase for the tickers of some pairs.
pub open spec fn coinbase_subscription(pairs: Seq<Seq<char>>) -> Seq<char> {
    "{\"channels\":[\"ticker\"],\"product_ids\":"@ + json_string_list(pairs) + ",\"type\":\"subscribe\"}"@
}

/// What `url::Url::parse` makes of a text: the URL in its serialized form,
/// or the display text of the parse error. It is a function of the text
/// alone.
pub uninterp spec fn url_parse(text: Seq<char>) -> Result<Seq<char>, Seq<char>>;

/// Parses a text as a URL with `url::Url::parse`; the URL comes back in the
/// serialized form that `Url` gives, or the error as its display text.
#[verifier::external_body]
pub(crate) fn parse_url(text: &str) -> (r: Result<String, String>)
    ensures
        r is Ok <==> url_parse(text@) is Ok,
        r matches Ok(u) ==> url_parse(text@)->Ok_0 == u@,
        r matches Err(m) ==> url_parse(text@)->Err_0 == m@,
{
    match url::Url::parse(text) {
        Ok(u) => Ok(String::from(u)),
        Err(e) => Err(e.to_string()),
    }
}

/// Builds the error for a price that is not a number.
pub(crate) fn price_error(text: &str) -> (e: Error)
    requires
        !float_literal(text@),
    ensures
        is_parse_error(e, "Failed to parse price: "@ + float_error_text(text@)),
{
    let reason = if text.unicode_len() == 0 {
        "cannot parse float from empty string"
    } else {
        "invalid float literal"
    };
    Error::ParseError(owned("Failed to parse price: ").concat(reason))
}

/// Adapter for the Coinbase exchange.
#[derive(Debug)]
pub struct CoinbaseAdapter {
    base: ExchangeAdapterImpl,
}

impl View for CoinbaseAdapter {
    type V = ExchangeAdapterView;

    closed spec fn view(&self) -> ExchangeAdapterView {
        self.base@
    }
}

impl CoinbaseAdapter {
    /// Creates a new CoinbaseAdapter instance
    pub fn new(config: ExchangeConfig) -> (r: Result<Self, Error>)
        ensures
            r is Ok <==> adapter_failure(config.api_url@, config.pairs.deep_view()) is None,
            r matches Err(e) ==> is_validation_error(
                e,
                adapter_failure(config.api_url@, config.pairs.deep_view())->Some_0,
            ),
            r matches Ok(a) ==> a@ == (ExchangeAdapterView {
                api_url: config.api_url@,
                pairs: config.pairs.deep_view(),
                exchange_name: ExchangeName::Coinbase,
                sink_topics: seq![price_feed_topic(ExchangeName::Coinbase)],
            }),
    {
        Ok(CoinbaseAdapter { base: ExchangeAdapterImpl::new(config, ExchangeName::Coinbase)? })
    }

    pub fn get_sink_topics(&self) -> (r: Vec<String>)
        ensures
            r.deep_view() == self@.sink_topics,
    {
        self.base.get_sink_topics()
    }

    /// The address to connect to: the configured API URL as `url::Url`
    /// reads it, or a connection error when it is not a URL.
    pub fn connection_url(&self) -> (r: Result<String, Error>)
        ensures
            match url_parse(self@.api_url) {
                Ok(u) => r matches Ok(s) && s@ == u,
                Err(m) => r matches Err(e) && is_connection_error(e, "Invalid URL: "@ + m),
            },
    {
        let url = self.base.get_api_url();
        match parse_url(url.as_str()) {
            Ok(u) => Ok(u),
            Err(m) => Err(Error::ConnectionError(owned("Invalid URL: ").concat(m.as_str()))),
        }
    }

    /// The subscription message for the adapter's pairs.
    pub fn subscribe_message(&self) -> (r: String)
        ensures
            r@ == coinbase_subscription(self@.pairs),
    {
        let pairs = self.base.get_pairs();
        let a = json_string_array(&pairs);
        owned("{\"channels\":[\"ticker\"],\"product_ids\":").concat(a.as_str()).concat(
                    ",\"type\":\"subscribe\"}",
                )
    }

    /// Process a message received from Coinbase WebSocket: the text is parsed as
    /// JSON and read as `read_coinbase_message` reads it; text that is not JSON
    /// is a parse error.
    pub fn process_coinbase_message(message: &str) -> (r: Result<PriceUpdate, Error>)
        ensures
            match json_parse(message@) {
                Err(m) => r matches Err(e) && is_parse_error(e, "Failed to parse Coinbase message: "@ + m),
                Ok(d) => {
                    &&& r is Ok <==> coinbase_reading(d) is Ok
                    &&& r matches Err(e) ==> is_parse_error(e, coinbase_reading(d)->Err_0)
                    &&& r matches Ok(u) ==> u.kraken_data is None && quote_view(u.coinbase_data) == (match coinbase_reading(d)->Ok_0 {
                        Some((pair, price)) => Some((ExchangeName::Coinbase, pair, price)),
                        None => None,
                    })
                },
            },
    {
        match parse_json(message) {
            Ok(data) => Self::read_coinbase_message(&data),
            Err(m) => Err(Error::ParseError(owned("Failed to parse Coinbase message: ").concat(m.as_str()))),
        }
    }

    /// Reads the price a Coinbase message carries. Ticker messages give the
    /// Coinbase price of their product; other messages give no price.
    pub fn read_coinbase_message(data: &JsonValue) -> (r: Result<PriceUpdate, Error>)
        ensures
            r is Ok <==> coinbase_reading(*data) is Ok,
            r matches Err(e) ==> is_parse_error(e, coinbase_reading(*data)->Err_0),
            r matches Ok(u) ==> u.kraken_data is None && quote_view(u.coinbase_data) == (
            match coinbase_reading(*data)->Ok_0 {
                Some((pair, price)) => Some((ExchangeName::Coinbase, pair, price)),
                None => None,
            }),
    {
        match (data.get("type"), data.get("price"), data.get("product_id")) {
            (Some(t), Some(p), Some(pid)) => {
                if !t.is_text("ticker") {
                    return Ok(PriceUpdate::empty());
                }
                let price = match p.as_str() {
                    Some(s) => s,
                    None => {
                        return Err(Error::ParseError(owned("Invalid price format")));
                    },
                };
                if !float_literal_check(price.as_str()) {
                    return Err(price_error(price.as_str()));
                }
                let symbol = match pid.as_str() {
                    Some(s) => s,
                    None => {
                        return Err(Error::ParseError(owned("Invalid product_id format")));
                    },
                };
                Ok(
                    PriceUpdate {
                        kraken_data: None,
                        coinbase_data: Some(
                            PriceQuote {
                                exchange: ExchangeName::Coinbase,
                                pair: symbol.clone(),
                                price_text: price.clone(),
                            },
                        ),
                    },
                )
            },
            _ => Ok(PriceUpdate::empty()),
        }
    }

    /// Validates the required fields in a message
    pub fn validate_fields(data: &JsonValue) -> (r: Result<(), Error>)
        ensures
            r is Ok <==> coinbase_missing_field(*data) is None,
            r matches Err(e) ==> is_parse_error(e, coinbase_missing_field(*data)->Some_0),
    {
        let t = data.get("type");
        let ticker = match t {
            Some(v) => v.is_text("ticker"),
            None => false,
        };
        if t.is_none() {
            return Err(Error::ParseError(owned("Missing 'type' field")));
        }
        if data.get("price").is_none() && ticker {
            return Err(Error::ParseError(owned("Missing 'price' field in ticker message")));
        }
        if data.get("product_id").is_none() && ticker {
            return Err(Error::ParseError(owned("Missing 'product_id' field in ticker message")));
        }
        Ok(())
    }
}

impl ExchangeAdapter for CoinbaseAdapter {
    fn get_api_url(&self) -> (r: String)
        ensures
            r@ == self@.api_url,
    {
        self.base.get_api_url()
    }

    fn get_pairs(&self) -> (r: Vec<String>)
        ensures
            r.deep_view() == self@.pairs,
    {
        self.base.get_pairs()
    }

    fn get_exchange_name(&self) -> (r: ExchangeName)
        ensures
            r == self@.exchange_name,
    {
        self.base.get_exchange_name()
    }
}


/// A ticker whose `price` is a number text and whose `product_id` is a text
/// gives that product and exactly the text of `price`, whatever other
/// members the message holds; a message of another type gives no price.
pub proof fn law_coinbase_ticker_price(data: JsonValue, sym: Seq<char>, p: Seq<char>)
    ensures
        (data.field("type"@) matches Some(t) && t.text() == Some("ticker"@)) && (data.field(
            "price"@,
        ) matches Some(pv) && pv.text() == Some(p)) && float_literal(p) && (data.field(
            "product_id"@,
        ) matches Some(pid) && pid.text() == Some(sym)) ==> coinbase_reading(data) == Ok::<
            Option<(Seq<char>, Seq<char>)>,
            Seq<char>,
        >(Some((sym, p))),
        (data.field("type"@) matches Some(t) && t.text() != Some("ticker"@)) ==> coinbase_reading(
            data,
        ) == Ok::<Option<(Seq<char>, Seq<char>)>, Seq<char>>(None),
{
}

} // verus!
