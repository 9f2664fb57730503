use trading_platform::config::{BrokerConfig, ExchangeConfig};
use trading_platform::infra::adapters::coinbase::CoinbaseAdapter;
use trading_platform::infra::adapters::exchange::{ExchangeAdapter, ExchangeAdapterImpl};
use trading_platform::infra::adapters::json::JsonValue;
use trading_platform::infra::adapters::kraken::KrakenAdapter;
use trading_platform::infra::broker_adapters::base::{BaseBrokerAdapter, BrokerAdapterImpl};
use trading_platform::infra::broker_adapters::interactive_broker_adapter::InteractiveBrokerAdapter;
use trading_platform::{Error, ExchangeName};

fn json_of(v: &serde_json::Value) -> JsonValue {
    match v {
        serde_json::Value::Null => JsonValue::Null,
        serde_json::Value::Bool(b) => JsonValue::Bool(*b),
        serde_json::Value::Number(n) => JsonValue::Number(n.to_string()),
        serde_json::Value::String(s) => JsonValue::Str(s.clone()),
        serde_json::Value::Array(a) => JsonValue::Array(a.iter().map(json_of).collect()),
        serde_json::Value::Object(o) => {
            JsonValue::Object(o.iter().map(|(k, v)| (k.clone(), json_of(v))).collect())
        }
    }
}

fn parsed(text: &str) -> JsonValue {
    json_of(&serde_json::from_str::<serde_json::Value>(text).unwrap())
}

fn broker_config(host: &str, port: u16, paper: bool) -> BrokerConfig {
    BrokerConfig {
        host: host.to_string(),
        port,
        client_id: 1,
        account_id: "".to_string(),
        paper_trading: paper,
        max_retries: 3,
        timeout: 5000,
    }
}

fn text_of(e: Error) -> String {
    e.to_string()
}

#[test]
fn test_valid_trading_pair() {
    assert!(ExchangeAdapterImpl::is_valid_trading_pair("BTC-USD"));
    assert!(ExchangeAdapterImpl::is_valid_trading_pair("ETH-EUR"));

    assert!(!ExchangeAdapterImpl::is_valid_trading_pair(""));
    assert!(!ExchangeAdapterImpl::is_valid_trading_pair("BTC"));
    assert!(!ExchangeAdapterImpl::is_valid_trading_pair("BTC-"));
    assert!(!ExchangeAdapterImpl::is_valid_trading_pair("-USD"));
    assert!(!ExchangeAdapterImpl::is_valid_trading_pair("BTC-USD-EUR"));
    assert!(!ExchangeAdapterImpl::is_valid_trading_pair("BTC123-USD"));
}

#[test]
fn test_exchange_adapter_creation() {
    let config = ExchangeConfig {
        api_url: "wss://example.com".to_string(),
        pairs: vec!["BTC-USD".to_string()],
    };

    let adapter = ExchangeAdapterImpl::new(config, ExchangeName::Coinbase);
    assert!(adapter.is_ok());

    let config_empty_url = ExchangeConfig {
        api_url: "".to_string(),
        pairs: vec!["BTC-USD".to_string()],
    };
    assert!(ExchangeAdapterImpl::new(config_empty_url, ExchangeName::Coinbase).is_err());

    let config_empty_pairs = ExchangeConfig {
        api_url: "wss://example.com".to_string(),
        pairs: vec![],
    };
    assert!(ExchangeAdapterImpl::new(config_empty_pairs, ExchangeName::Coinbase).is_err());
}

#[test]
fn exchange_adapter_fields_and_errors() {
    let config = ExchangeConfig {
        api_url: "wss://example.com".to_string(),
        pairs: vec!["BTC-USD".to_string(), "eth-eur".to_string()],
    };
    let adapter = ExchangeAdapterImpl::new(config, ExchangeName::Kraken).unwrap();
    assert_eq!(adapter.get_sink_topics(), vec!["price.feed.kraken".to_string()]);
    assert_eq!(adapter.get_api_url(), "wss://example.com");
    assert_eq!(adapter.get_pairs(), vec!["BTC-USD".to_string(), "eth-eur".to_string()]);
    assert_eq!(adapter.get_exchange_name(), ExchangeName::Kraken);

    let bad = ExchangeConfig {
        api_url: "wss://example.com".to_string(),
        pairs: vec!["BTC-USD".to_string(), "BTC/USD".to_string(), "X".to_string()],
    };
    assert_eq!(
        text_of(ExchangeAdapterImpl::new(bad, ExchangeName::Kraken).unwrap_err()),
        "Validation error: Invalid trading pair format: BTC/USD"
    );
    let no_pairs = ExchangeConfig { api_url: "u".to_string(), pairs: vec![] };
    assert_eq!(
        text_of(ExchangeAdapterImpl::new(no_pairs, ExchangeName::Kraken).unwrap_err()),
        "Validation error: Trading pairs cannot be empty"
    );
}

#[test]
fn trading_pair_edge_cases() {
    assert!(ExchangeAdapterImpl::is_valid_trading_pair("a-b"));
    assert!(!ExchangeAdapterImpl::is_valid_trading_pair("-"));
    assert!(!ExchangeAdapterImpl::is_valid_trading_pair("BTC--USD"));
    assert!(!ExchangeAdapterImpl::is_valid_trading_pair("BTC USD"));
    assert!(!ExchangeAdapterImpl::is_valid_trading_pair("BTÇ-USD"));
}

#[test]
fn test_broker_adapter_creation() {
    let adapter = BrokerAdapterImpl::new(broker_config("api.broker.com", 8080, false));
    assert!(adapter.is_ok());

    let adapter = BrokerAdapterImpl::new(broker_config("", 0, false));
    assert!(adapter.is_err());

    let adapter = BrokerAdapterImpl::new(broker_config("invalid-url", 8080, false));
    assert!(adapter.is_err());
}

#[test]
fn test_broker_api_getter() {
    let adapter = BrokerAdapterImpl::new(broker_config("api.broker.com", 8080, false)).unwrap();
    assert_eq!(adapter.get_broker_api(), "http://api.broker.com:8080");
}

#[test]
fn broker_endpoint_and_errors() {
    let adapter = BrokerAdapterImpl::new(broker_config("127.0.0.1", 7, true)).unwrap();
    assert_eq!(adapter.get_broker_api(), "https://127.0.0.1:7");
    assert!(adapter.get_sink_topics().is_empty());
    let adapter = BrokerAdapterImpl::new(broker_config("a.b", 65535, false)).unwrap();
    assert_eq!(adapter.get_broker_api(), "http://a.b:65535");
    assert_eq!(text_of(BrokerAdapterImpl::new(broker_config("", 1, false)).unwrap_err()), "Validation error: Broker host cannot be empty");
    assert_eq!(text_of(BrokerAdapterImpl::new(broker_config("a.b", 0, false)).unwrap_err()), "Validation error: Broker port cannot be zero");
    assert_eq!(text_of(BrokerAdapterImpl::new(broker_config("a..b", 1, false)).unwrap_err()), "Validation error: Invalid broker host format");
    assert!(BrokerAdapterImpl::new(broker_config(".a.b", 1, false)).is_err());
    assert!(BrokerAdapterImpl::new(broker_config("a.b.", 1, false)).is_err());
    assert!(BrokerAdapterImpl::new(broker_config("a_b.c", 1, false)).is_ok());
    assert!(<BrokerAdapterImpl as BaseBrokerAdapter>::validate_config(&broker_config("a.b", 1, false)).is_ok());
}

#[test]
fn test_adapter_creation() {
    let adapter = InteractiveBrokerAdapter::new(broker_config("api.interactivebrokers.com", 8080, false));
    assert!(adapter.is_ok());
}

#[test]
fn interactive_adapter_runs_only_when_started() {
    let mut adapter = InteractiveBrokerAdapter::new(broker_config("api.interactivebrokers.com", 8080, true)).unwrap();
    assert_eq!(text_of(adapter.ensure_running().unwrap_err()), "Operation error: Broker adapter not started");
    adapter.start();
    assert!(adapter.ensure_running().is_ok());
    adapter.stop();
    assert!(adapter.ensure_running().is_err());
    assert_eq!(adapter.get_broker_api(), "https://api.interactivebrokers.com:8080");
    assert!(adapter.get_sink_topics().is_empty());
}

#[test]
fn test_process_coinbase_message() {
    let message = r#"{
        "type": "ticker",
        "price": "50000.50",
        "product_id": "BTC-USD"
    }"#;
    let result = CoinbaseAdapter::process_coinbase_message(message).unwrap();
    if let Some(data) = result.coinbase_data {
        assert_eq!(data.exchange, ExchangeName::Coinbase);
        assert_eq!(data.pair, "BTC-USD");
        assert_eq!(data.price_text.parse::<f64>().unwrap(), 50000.50);
    } else {
        panic!("Expected Some(ExchangeData), got None");
    }
}

#[test]
fn coinbase_test_process_invalid_message() {
    let message = r#"{
        "type": "invalid",
        "price": "not_a_number",
        "product_id": "BTC-USD"
    }"#;
    let result = CoinbaseAdapter::process_coinbase_message(message).unwrap();
    assert!(result.coinbase_data.is_none());
}

#[test]
fn test_process_subscription_message() {
    let message = r#"{
        "type": "subscriptions",
        "channels": [{"name": "ticker", "product_ids": ["BTC-USD"]}]
    }"#;
    let result = CoinbaseAdapter::process_coinbase_message(message).unwrap();
    assert!(result.coinbase_data.is_none());
}

#[test]
fn test_message_validation() {
    let valid_message = parsed(r#"{"type": "ticker", "price": "50000.50", "product_id": "BTC-USD"}"#);
    assert!(CoinbaseAdapter::validate_fields(&valid_message).is_ok());

    let invalid_message = parsed(r#"{"price": "50000.50", "product_id": "BTC-USD"}"#);
    assert!(CoinbaseAdapter::validate_fields(&invalid_message).is_err());
}

#[test]
fn test_new_adapter() {
    let config = ExchangeConfig {
        api_url: "wss://ws-feed.pro.coinbase.com".to_string(),
        pairs: vec!["BTC-USD".to_string()],
    };
    let adapter = CoinbaseAdapter::new(config);
    assert!(adapter.is_ok());
}

#[test]
fn coinbase_errors_in_order() {
    let m = parsed(r#"{"type": "ticker", "price": 5, "product_id": "BTC-USD"}"#);
    assert_eq!(text_of(CoinbaseAdapter::read_coinbase_message(&m).unwrap_err()), "Parse error: Invalid price format");
    let m = parsed(r#"{"type": "ticker", "price": "abc", "product_id": 7}"#);
    assert_eq!(
        text_of(CoinbaseAdapter::read_coinbase_message(&m).unwrap_err()),
        "Parse error: Failed to parse price: invalid float literal"
    );
    let m = parsed(r#"{"type": "ticker", "price": "", "product_id": "X"}"#);
    assert_eq!(
        text_of(CoinbaseAdapter::read_coinbase_message(&m).unwrap_err()),
        "Parse error: Failed to parse price: cannot parse float from empty string"
    );
    let m = parsed(r#"{"type": "ticker", "price": "1.5", "product_id": 7}"#);
    assert_eq!(text_of(CoinbaseAdapter::read_coinbase_message(&m).unwrap_err()), "Parse error: Invalid product_id format");
    let m = parsed(r#"{"type": "ticker", "price": "1.5"}"#);
    assert!(CoinbaseAdapter::read_coinbase_message(&m).unwrap().coinbase_data.is_none());
    let m = parsed(r#"[1, 2, 3]"#);
    assert!(CoinbaseAdapter::read_coinbase_message(&m).unwrap().coinbase_data.is_none());
}

#[test]
fn coinbase_missing_fields() {
    let m = parsed(r#"{"type": "ticker", "product_id": "BTC-USD"}"#);
    assert_eq!(text_of(CoinbaseAdapter::validate_fields(&m).unwrap_err()), "Parse error: Missing 'price' field in ticker message");
    let m = parsed(r#"{"type": "ticker", "price": "1"}"#);
    assert_eq!(text_of(CoinbaseAdapter::validate_fields(&m).unwrap_err()), "Parse error: Missing 'product_id' field in ticker message");
    let m = parsed(r#"{"type": "heartbeat"}"#);
    assert!(CoinbaseAdapter::validate_fields(&m).is_ok());
}

#[test]
fn test_process_kraken_message() {
    let message = r#"[
        278,
        {"c":["50000.5","1.0"]},
        "ticker",
        "BTC/USD"
    ]"#;
    let pairs = vec!["BTC/USD".to_string()];
    let result = KrakenAdapter::process_kraken_message(message, &pairs).unwrap();
    if let Some(data) = result.kraken_data {
        assert_eq!(data.exchange, ExchangeName::Kraken);
        assert_eq!(data.pair, "BTC/USD");
        assert_eq!(data.price_text.parse::<f64>().unwrap(), 50000.5);
    } else {
        panic!("Expected Some(ExchangeData), got None");
    }
}

#[test]
fn kraken_test_process_invalid_message() {
    let message = r#"{"invalid": "message"}"#;
    let pairs = vec!["BTC/USD".to_string()];
    let result = KrakenAdapter::process_kraken_message(message, &pairs).unwrap();
    assert!(result.kraken_data.is_none());
}

#[test]
fn kraken_other_cases() {
    let pairs = vec!["BTC/USD".to_string()];
    let m = parsed(r#"[278, {"c":["1"]}, "ticker"]"#);
    assert!(KrakenAdapter::read_kraken_message(&m, &pairs).unwrap().kraken_data.is_none());
    let m = parsed(r#"[278, {"c":["1"]}, "ticker", 5]"#);
    assert_eq!(text_of(KrakenAdapter::read_kraken_message(&m, &pairs).unwrap_err()), "Parse error: Invalid symbol format");
    let m = parsed(r#"[278, {"c":["1"]}, "ticker", "ETH/USD"]"#);
    assert!(KrakenAdapter::read_kraken_message(&m, &pairs).unwrap().kraken_data.is_none());
    let m = parsed(r#"[278, {"c":["x1"]}, "ticker", "BTC/USD"]"#);
    assert_eq!(
        text_of(KrakenAdapter::read_kraken_message(&m, &pairs).unwrap_err()),
        "Parse error: Failed to parse price: invalid float literal"
    );
    let m = parsed(r#"[278, {"a":["1"]}, "ticker", "BTC/USD"]"#);
    assert!(KrakenAdapter::read_kraken_message(&m, &pairs).unwrap().kraken_data.is_none());
    let m = parsed(r#"[278, {"c":[]}, "ticker", "BTC/USD"]"#);
    assert!(KrakenAdapter::read_kraken_message(&m, &pairs).unwrap().kraken_data.is_none());
}

#[test]
fn subscription_messages() {
    let config = ExchangeConfig { api_url: "wss://k".to_string(), pairs: vec!["BTC-USD".to_string(), "ETH-EUR".to_string()] };
    let kraken = KrakenAdapter::new(config).unwrap();
    assert_eq!(
        kraken.subscribe_message(),
        r#"{"event":"subscribe","pair":["BTC-USD","ETH-EUR"],"subscription":{"name":"ticker"}}"#
    );
    assert_eq!(kraken.get_sink_topics(), vec!["price.feed.kraken".to_string()]);
    let config = ExchangeConfig { api_url: "wss://c".to_string(), pairs: vec!["BTC-USD".to_string()] };
    let coinbase = CoinbaseAdapter::new(config).unwrap();
    assert_eq!(
        coinbase.subscribe_message(),
        r#"{"channels":["ticker"],"product_ids":["BTC-USD"],"type":"subscribe"}"#
    );
    assert_eq!(coinbase.get_exchange_name(), ExchangeName::Coinbase);
}

fn serde_error(text: &str) -> String {
    serde_json::from_str::<serde_json::Value>(text).unwrap_err().to_string()
}

#[test]
fn message_text_that_is_not_json() {
    let text = "{\"type\": \"ticker\",";
    assert_eq!(
        text_of(CoinbaseAdapter::process_coinbase_message(text).unwrap_err()),
        format!("Parse error: Failed to parse Coinbase message: {}", serde_error(text))
    );
    let pairs = vec!["BTC/USD".to_string()];
    assert_eq!(
        text_of(KrakenAdapter::process_kraken_message("not json", &pairs).unwrap_err()),
        format!("Parse error: Failed to parse Kraken message: {}", serde_error("not json"))
    );
}

#[test]
fn message_text_errors_after_parsing() {
    let pairs = vec!["BTC/USD".to_string()];
    assert_eq!(
        text_of(KrakenAdapter::process_kraken_message(r#"[1, {"c":["x"]}, "ticker", "BTC/USD"]"#, &pairs).unwrap_err()),
        "Parse error: Failed to parse price: invalid float literal"
    );
    assert_eq!(
        text_of(CoinbaseAdapter::process_coinbase_message(r#"{"type":"ticker","price":7,"product_id":"A-B"}"#).unwrap_err()),
        "Parse error: Invalid price format"
    );
    let r = KrakenAdapter::process_kraken_message(r#"[1, {"c":["2.5"]}, "ticker", "BTC/USD"]"#, &pairs).unwrap();
    let q = r.kraken_data.unwrap();
    assert_eq!(q.pair, "BTC/USD");
    assert_eq!(q.price_text, "2.5");
}

#[test]
fn coinbase_connection_url() {
    let config = ExchangeConfig { api_url: "WSS://Ws-Feed.Example.com".to_string(), pairs: vec!["BTC-USD".to_string()] };
    let adapter = CoinbaseAdapter::new(config).unwrap();
    assert_eq!(adapter.connection_url().unwrap(), "wss://ws-feed.example.com/");
    let config = ExchangeConfig { api_url: "not a url".to_string(), pairs: vec!["BTC-USD".to_string()] };
    let adapter = CoinbaseAdapter::new(config).unwrap();
    let expected = url::Url::parse("not a url").unwrap_err().to_string();
    assert_eq!(text_of(adapter.connection_url().unwrap_err()), format!("Connection error: Invalid URL: {}", expected));
}

#[test]
fn broker_host_forms() {
    assert_eq!(
        BrokerAdapterImpl::new(broker_config("localhost", 7497, false)).unwrap().get_broker_api(),
        "http://localhost:7497"
    );
    assert!(BrokerAdapterImpl::new(broker_config("my_host.internal", 7497, true)).is_ok());
    assert!(BrokerAdapterImpl::new(broker_config("127.0.0.1", 7497, true)).is_ok());
    assert!(BrokerAdapterImpl::new(broker_config("invalid-url", 8080, false)).is_err());
    assert!(BrokerAdapterImpl::new(broker_config("api..broker.com", 8080, false)).is_err());
    assert!(BrokerAdapterImpl::new(broker_config("api.broker.com.", 8080, false)).is_err());
    assert!(BrokerAdapterImpl::new(broker_config("api broker.com", 8080, false)).is_err());
}
