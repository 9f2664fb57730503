use vstd::prelude::*;
use crate::common::text::{clone_strings, decimal_string, decimal_text, owned, str_eq};
use crate::common::types::{is_validation_error, validation_error, Error};
use crate::config::BrokerConfig;

verus! {

/// A character that may stand in a host name besides the dots.
pub open spec fn is_host_char(c: char) -> bool {
    ('a' <= c && c <= 'z') || ('A' <= c && c <= 'Z') || ('0' <= c && c <= '9') || c == '-' || c == '_'
}

/// A host: `localhost`, or two or more non-empty labels of ASCII letters,
/// digits, `-` and `_`, separated by dots, such as `api.broker.com` or
/// `127.0.0.1`.
pub open spec fn is_host_name(s: Seq<char>) -> bool {
    s == "localhost"@ || is_dotted_host(s)
}

/// Two or more non-empty labels separated by dots.
pub open spec fn is_dotted_host(s: Seq<char>) -> bool {
    &&& s.len() > 0
    &&& s[0] != '.'
    &&& s[s.len() - 1] != '.'
    &&& exists|i: int| 0 <= i < s.len() && s[i] == '.'
    &&& forall|i: int| 0 <= i < s.len() ==> (#[trigger] s[i] == '.' || is_host_char(s[i]))
    &&& forall|i: int| 0 <= i < s.len() - 1 ==> !(#[trigger] s[i] == '.' && s[i + 1] == '.')
}

/// Why a broker configuration cannot make an adapter, if it cannot.
pub open spec fn broker_failure(config: BrokerConfig) -> Option<Seq<char>> {
    if config.host@.len() == 0 {
        Some("Broker host cannot be empty"@)
    } else if config.port == 0 {
        Some("Broker port cannot be zero"@)
    } else if !is_host_name(config.host@) {
        Some("Invalid broker host format"@)
    } else {
        None
    }
}

/// The endpoint of a broker: `https` for paper trading, else `http`, then
/// the host and the port.
pub open spec fn broker_endpoint(config: BrokerConfig) -> Seq<char> {
    (if config.paper_trading { "https"@ } else { "http"@ }) + "://"@ + config.host@ + ":"@
        + decimal_text(config.port as nat)
}

/// Whether a text is a host name.
pub fn host_name_ok(s: &str) -> (r: bool)
    ensures
        r == is_host_name(s@),
{
    if str_eq(s, "localhost") {
        return true;
    }
    dotted_host_ok(s)
}

fn dotted_host_ok(s: &str) -> (r: bool)
    ensures
        r == is_dotted_host(s@),
{
    let n = s.unicode_len();
    if n == 0 {
        return false;
    }
    let mut seen_dot = false;
    let mut prev_dot = false;
    let mut i: usize = 0;
    while i < n
        invariant
            n == s@.len(),
            n > 0,
            i <= n,
            seen_dot == (exists|j: int| 0 <= j < i && s@[j] == '.'),
            i > 0 ==> prev_dot == (s@[i - 1] == '.'),
            i == 0 ==> !prev_dot,
            forall|j: int| 0 <= j < i ==> (#[trigger] s@[j] == '.' || is_host_char(s@[j])),
            forall|j: int| 0 <= j < i - 1 ==> !(#[trigger] s@[j] == '.' && s@[j + 1] == '.'),
            i > 0 ==> s@[0] != '.',
        decreases n - i,
    {
        let c = s.get_char(i);
        if c == '.' {
            if i == 0 || prev_dot {
                proof {
                    if i > 0 {
                        assert(s@[i - 1] == '.' && s@[(i - 1) + 1] == '.');
                    }
                }
                return false;
            }
            seen_dot = true;
            prev_dot = true;
        } else {
            let ok = ('a' <= c && c <= 'z') || ('A' <= c && c <= 'Z') || ('0' <= c && c <= '9')
                || c == '-' || c == '_';
            if !ok {
                return false;
            }
            prev_dot = false;
        }
        i = i + 1;
    }
    if prev_dot || !seen_dot {
        return false;
    }
    true
}

/// Checks a broker configuration before an adapter is made from it.
pub fn check_broker_config(config: &BrokerConfig) -> (r: Result<(), Error>)
    ensures
        r is Ok <==> broker_failure(*config) is None,
        r matches Err(e) ==> is_validation_error(e, broker_failure(*config)->Some_0),
{
    if config.host.as_str().unicode_len() == 0 {
        return Err(validation_error("Broker host cannot be empty"));
    }
    if config.port == 0 {
        return Err(validation_error("Broker port cannot be zero"));
    }
    if !host_name_ok(config.host.as_str()) {
        return Err(validation_error("Invalid broker host format"));
    }
    Ok(())
}

/// Common functionality of broker adapters.
pub trait BaseBrokerAdapter {
    /// Returns the broker API endpoint
    fn get_broker_api(&self) -> String;

    /// Validates the broker configuration
    fn validate_config(config: &BrokerConfig) -> (r: Result<(), Error>)
        ensures
            r is Ok <==> broker_failure(*config) is None,
            r matches Err(e) ==> is_validation_error(e, broker_failure(*config)->Some_0),
    {
        check_broker_config(config)
    }
}

/// Base implementation for broker adapters
#[derive(Debug)]
pub struct BrokerAdapterImpl {
    broker_api: String,
    sink_topics: Vec<String>,
}

impl BrokerAdapterImpl {
    /// The endpoint the adapter talks to.
    pub closed spec fn api(&self) -> Seq<char> {
        self.broker_api@
    }

    /// The topics the adapter publishes to.
    pub closed spec fn sinks(&self) -> Seq<Seq<char>> {
        self.sink_topics.deep_view()
    }

    /// Creates a new BrokerAdapterImpl instance
    pub fn new(config: BrokerConfig) -> (r: Result<Self, Error>)
        ensures
            r is Ok <==> broker_failure(config) is None,
            r matches Err(e) ==> is_validation_error(e, broker_failure(config)->Some_0),
            r matches Ok(a) ==> a.api() == broker_endpoint(config) && a.sinks().len() == 0,
    {
        Self::validate_config(&config)?;
        let scheme = if config.paper_trading { "https" } else { "http" };
        let api = owned(scheme).concat("://").concat(config.host.as_str()).concat(":").concat(
            decimal_string(config.port as u64).as_str(),
        );
        let r = BrokerAdapterImpl { broker_api: api, sink_topics: Vec::new() };
        assert(r.api() =~= broker_endpoint(config));
        assert(r.sinks() =~= Seq::<Seq<char>>::empty());
        Ok(r)
    }

    /// Validates the broker configuration
    fn validate_config(config: &BrokerConfig) -> (r: Result<(), Error>)
        ensures
            r is Ok <==> broker_failure(*config) is None,
            r matches Err(e) ==> is_validation_error(e, broker_failure(*config)->Some_0),
    {
        check_broker_config(config)
    }

    pub fn get_sink_topics(&self) -> (r: Vec<String>)
        ensures
            r.deep_view() == self.sinks(),
    {
        clone_strings(&self.sink_topics)
    }
}

impl BaseBrokerAdapter for BrokerAdapterImpl {
    fn get_broker_api(&self) -> (r: String)
        ensures
            r@ == self.api(),
    {
        self.broker_api.clone()
    }
}

} // verus!
