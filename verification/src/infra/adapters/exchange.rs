use vstd::prelude::*;
use crate::common::enums::ExchangeName;
use crate::common::text::{all_alpha, ascii_alpha, ascii_lower, clone_strings, is_ascii_alpha, owned};
use crate::common::types::{is_validation_error, validation_error, Error};
use crate::config::ExchangeConfig;

verus! {

/// A trading pair: two non-empty runs of ASCII letters joined by `-`,
/// such as `BTC-USD`.
pub open spec fn is_trading_pair(s: Seq<char>) -> bool {
    exists|base: Seq<char>, quote: Seq<char>|
        #![trigger base + seq!['-'] + quote]
        base.len() > 0 && quote.len() > 0 && all_alpha(base) && all_alpha(quote) && s == base
            + seq!['-'] + quote
}

proof fn lemma_pair_shape(s: Seq<char>, base: Seq<char>, quote: Seq<char>)
    requires
        base.len() > 0,
        quote.len() > 0,
        all_alpha(base),
        all_alpha(quote),
        s == base + seq!['-'] + quote,
    ensures
        0 < base.len() < s.len() - 1,
        s[base.len() as int] == '-',
        forall|j: int| 0 <= j < s.len() && j != base.len() ==> is_ascii_alpha(#[trigger] s[j]),
{
    assert forall|j: int| 0 <= j < s.len() && j != base.len() implies is_ascii_alpha(#[trigger] s[j]) by {
        if j < base.len() {
            assert(s[j] == base[j]);
        } else {
            assert(s[j] == quote[j - base.len() - 1]);
        }
    }
}

/// The topic on which an exchange's prices are published.
pub open spec fn price_feed_topic(name: ExchangeName) -> Seq<char> {
    "price.feed."@ + ascii_lower(name.display_text())
}

/// The first pair, in order, that is not a trading pair.
pub open spec fn first_invalid_pair(pairs: Seq<Seq<char>>) -> Option<Seq<char>>
    decreases pairs.len(),
{
    if pairs.len() == 0 {
        None
    } else if !is_trading_pair(pairs[0]) {
        Some(pairs[0])
    } else {
        first_invalid_pair(pairs.drop_first())
    }
}

/// Why an exchange configuration cannot make an adapter, if it cannot.
pub open spec fn adapter_failure(api_url: Seq<char>, pairs: Seq<Seq<char>>) -> Option<Seq<char>> {
    if api_url.len() == 0 {
        Some("API URL cannot be empty"@)
    } else if pairs.len() == 0 {
        Some("Trading pairs cannot be empty"@)
    } else {
        match first_invalid_pair(pairs) {
            Some(p) => Some("Invalid trading pair format: "@ + p),
            None => None,
        }
    }
}

/// Common functionality of exchange adapters.
pub trait ExchangeAdapter {
    /// Returns the API URL for the exchange
    fn get_api_url(&self) -> String;

    /// Returns the trading pairs supported by the exchange
    fn get_pairs(&self) -> Vec<String>;

    /// Returns the exchange name
    fn get_exchange_name(&self) -> ExchangeName;
}

/// What an exchange adapter holds.
pub ghost struct ExchangeAdapterView {
    pub api_url: Seq<char>,
    pub pairs: Seq<Seq<char>>,
    pub exchange_name: ExchangeName,
    pub sink_topics: Seq<Seq<char>>,
}

/// Base implementation for exchange adapters
#[derive(Debug)]
pub struct ExchangeAdapterImpl {
    api_url: String,
    pairs: Vec<String>,
    exchange_name: ExchangeName,
    sink_topics: Vec<String>,
}

impl View for ExchangeAdapterImpl {
    type V = ExchangeAdapterView;

    closed spec fn view(&self) -> ExchangeAdapterView {
        ExchangeAdapterView {
            api_url: self.api_url@,
            pairs: self.pairs.deep_view(),
            exchange_name: self.exchange_name,
            sink_topics: self.sink_topics.deep_view(),
        }
    }
}

impl ExchangeAdapterImpl {
    /// Creates a new ExchangeAdapterImpl instance
    pub fn new(config: ExchangeConfig, name: ExchangeName) -> (r: Result<Self, Error>)
        ensures
            r is Ok <==> adapter_failure(config.api_url@, config.pairs.deep_view()) is None,
            r matches Err(e) ==> is_validation_error(
                e,
                adapter_failure(config.api_url@, config.pairs.deep_view())->Some_0,
            ),
            r matches Ok(a) ==> a@ == (ExchangeAdapterView {
                api_url: config.api_url@,
                pairs: config.pairs.deep_view(),
                exchange_name: name,
                sink_topics: seq![price_feed_topic(name)],
            }),
    {
        if config.api_url.as_str().unicode_len() == 0 {
            return Err(validation_error("API URL cannot be empty"));
        }
        if config.pairs.len() == 0 {
            return Err(validation_error("Trading pairs cannot be empty"));
        }
        let ghost pairs = config.pairs.deep_view();
        let mut i: usize = 0;
        assert(pairs.skip(0) =~= pairs);
        while i < config.pairs.len()
            invariant
                i <= pairs.len(),
                pairs == config.pairs.deep_view(),
                config.api_url@.len() > 0,
                pairs.len() > 0,
                first_invalid_pair(pairs) == first_invalid_pair(pairs.skip(i as int)),
            decreases pairs.len() - i,
        {
            assert(pairs.skip(i as int).drop_first() =~= pairs.skip(i + 1));
            assert(pairs.skip(i as int)[0] == config.pairs@[i as int]@);
            if !Self::is_valid_trading_pair(config.pairs[i].as_str()) {
                let msg = owned("Invalid trading pair format: ").concat(config.pairs[i].as_str());
                return Err(Error::ValidationError(msg));
            }
            i = i + 1;
        }
        assert(pairs.skip(i as int) =~= Seq::<Seq<char>>::empty());
        let topic = owned("price.feed.").concat(name.to_lowercase_string().as_str());
        let mut sink_topics: Vec<String> = Vec::new();
        sink_topics.push(topic);
        let r = ExchangeAdapterImpl {
            api_url: config.api_url,
            pairs: config.pairs,
            exchange_name: name,
            sink_topics,
        };
        assert(r.sink_topics.deep_view() =~= seq![price_feed_topic(name)]);
        Ok(r)
    }

    /// Returns the sink topics for this adapter
    pub fn get_sink_topics(&self) -> (r: Vec<String>)
        ensures
            r.deep_view() == self@.sink_topics,
    {
        clone_strings(&self.sink_topics)
    }

    /// Validates trading pair format (e.g., "BTC-USD")
    pub fn is_valid_trading_pair(pair: &str) -> (r: bool)
        ensures
            r == is_trading_pair(pair@),
    {
        let s = pair;
        let n = s.unicode_len();
        let mut dash: Option<usize> = None;
        let mut i: usize = 0;
        while i < n
            invariant
                s@ == pair@,
                n == s@.len(),
                i <= n,
                dash matches Some(p) ==> p < i && s@[p as int] == '-',
                forall|j: int|
                    0 <= j < i && !(dash matches Some(p) && j == p) ==> is_ascii_alpha(#[trigger] s@[j]),
            decreases n - i,
        {
            let c = s.get_char(i);
            if c == '-' {
                if dash.is_some() {
                    proof {
                        let p = dash->Some_0;
                        if is_trading_pair(s@) {
                            let (b, q) = choose|b: Seq<char>, q: Seq<char>|
                                #![trigger b + seq!['-'] + q]
                                b.len() > 0 && q.len() > 0 && all_alpha(b) && all_alpha(q) && s@ == b
                                    + seq!['-'] + q;
                            lemma_pair_shape(s@, b, q);
                            assert(s@[i as int] == '-');
                            assert(!is_ascii_alpha(s@[p as int]));
                            assert(!is_ascii_alpha(s@[i as int]));
                        }
                    }
                    return false;
                }
                dash = Some(i);
            } else if !ascii_alpha(c) {
                proof {
                    if is_trading_pair(s@) {
                        let (b, q) = choose|b: Seq<char>, q: Seq<char>|
                            #![trigger b + seq!['-'] + q]
                            b.len() > 0 && q.len() > 0 && all_alpha(b) && all_alpha(q) && s@ == b
                                + seq!['-'] + q;
                        lemma_pair_shape(s@, b, q);
                        assert(s@[i as int] == c);
                    }
                }
                return false;
            }
            i = i + 1;
        }
        match dash {
            None => {
                proof {
                    if is_trading_pair(s@) {
                        let (b, q) = choose|b: Seq<char>, q: Seq<char>|
                            #![trigger b + seq!['-'] + q]
                            b.len() > 0 && q.len() > 0 && all_alpha(b) && all_alpha(q) && s@ == b
                                + seq!['-'] + q;
                        lemma_pair_shape(s@, b, q);
                        assert(!is_ascii_alpha(s@[b.len() as int]));
                    }
                }
                false
            },
            Some(p) => {
                let r = p > 0 && p + 1 < n;
                proof {
                    if r {
                        let b = s@.take(p as int);
                        let q = s@.skip(p + 1);
                        assert forall|j: int| 0 <= j < b.len() implies is_ascii_alpha(#[trigger] b[j]) by {
                            assert(b[j] == s@[j]);
                        }
                        assert forall|j: int| 0 <= j < q.len() implies is_ascii_alpha(#[trigger] q[j]) by {
                            assert(q[j] == s@[p + 1 + j]);
                        }
                        assert(s@ =~= b + seq!['-'] + q);
                    } else if is_trading_pair(s@) {
                        let (b, q) = choose|b: Seq<char>, q: Seq<char>|
                            #![trigger b + seq!['-'] + q]
                            b.len() > 0 && q.len() > 0 && all_alpha(b) && all_alpha(q) && s@ == b
                                + seq!['-'] + q;
                        lemma_pair_shape(s@, b, q);
                        if b.len() != p {
                            assert(!is_ascii_alpha(s@[p as int]));
                        }
                    }
                }
                r
            },
        }
    }
}

impl ExchangeAdapter for ExchangeAdapterImpl {
    fn get_api_url(&self) -> (r: String)
        ensures
            r@ == self@.api_url,
    {
        self.api_url.clone()
    }

    fn get_pairs(&self) -> (r: Vec<String>)
        ensures
            r.deep_view() == self@.pairs,
    {
        clone_strings(&self.pairs)
    }

    fn get_exchange_name(&self) -> (r: ExchangeName)
        ensures
            r == self@.exchange_name,
    {
        self.exchange_name
    }
}


/// The topic an exchange adapter publishes its prices on is one the event
/// bus carries, and the feeds of two exchanges differ.
pub proof fn law_price_feed_topics(name: ExchangeName, other: ExchangeName)
    ensures
        crate::infra::event_bus::zmq::topic_failure(price_feed_topic(name)) is None,
        name != other ==> price_feed_topic(name) != price_feed_topic(other),
{
    reveal_strlit("price.feed.");
    reveal_strlit("Kraken");
    reveal_strlit("Coinbase");
    reveal_strlit("Binance");
    reveal_strlit("Bitfinex");
    reveal_strlit("FTX");
    let t = price_feed_topic(name);
    assert forall|i: int| 0 <= i < t.len() implies t[i] != ' ' by {
        if i >= 11 {
            let c = name.display_text()[i - 11];
            assert(t[i] == crate::common::text::ascii_lower_char(c));
        }
    }
    if name != other {
        let u = price_feed_topic(other);
        let a = ascii_lower(name.display_text());
        let b = ascii_lower(other.display_text());
        if t == u {
            assert(t.skip(11) =~= a);
            assert(u.skip(11) =~= b);
            assert(a[0] != b[0] || a.len() != b.len() || a[1] != b[1]);
        }
    }
}

} // verus!
