use trading_platform::common::named::{ConfigName, Named};
use trading_platform::common::params::ParamMap;
use trading_platform::config::{
    BrokerConfig, ComponentsConfig, Config, ConfigError, DataTransformationConfig, EventBusConfig,
    ExchangeConfig, StrategyConfig, SubscriberConfig,
};
use trading_platform::{BrokerName, ExchangeName, StrategyName};

fn named<K: ConfigName, V>(items: Vec<(K, V)>) -> Named<K, V> {
    let mut n = Named::new();
    for (k, v) in items {
        n.insert(k, v);
    }
    n
}

fn message_of(e: ConfigError) -> String {
    e.to_string()
}

fn broker(host: &str, port: u16) -> BrokerConfig {
    BrokerConfig {
        host: host.to_string(),
        port,
        client_id: 1,
        account_id: "".to_string(),
        paper_trading: false,
        max_retries: 3,
        timeout: 5000,
    }
}

#[test]
fn test_config_validation() {
    let config = Config::default();
    assert!(config.validate().is_ok());
}

#[test]
fn test_exchange_config_validation() {
    let config = ExchangeConfig { api_url: "".to_string(), pairs: vec![] };
    assert!(config.validate().is_err());

    let config = ExchangeConfig {
        api_url: "http://example.com".to_string(),
        pairs: vec!["BTC/USD".to_string()],
    };
    assert!(config.validate().is_ok());
}

#[test]
fn test_subscriber_config_validation() {
    let config = SubscriberConfig { enabled: true, topics: vec![], level: None, file: None };
    assert!(config.validate().is_err());

    let config = SubscriberConfig {
        enabled: true,
        topics: vec!["topic1".to_string()],
        level: Some("info".to_string()),
        file: Some("file.log".to_string()),
    };
    assert!(config.validate().is_ok());
}

#[test]
fn default_config_values() {
    let config = Config::default();
    assert_eq!(config.event_bus.bus_type, "zmq");
    assert_eq!(config.event_bus.zmq_address, "tcp://127.0.0.1:5555");
    assert_eq!(config.components.exchanges.as_ref().map(|v| v.len()), Some(0));
    assert!(!config.components.ui.as_ref().unwrap().enabled);
}

#[test]
fn event_bus_config_errors() {
    let c = EventBusConfig { bus_type: "".to_string(), zmq_address: "".to_string() };
    assert_eq!(message_of(c.validate().unwrap_err()), "Invalid configuration: Event bus type cannot be empty");
    let c = EventBusConfig { bus_type: "zmq".to_string(), zmq_address: "".to_string() };
    assert_eq!(message_of(c.validate().unwrap_err()), "Invalid configuration: ZMQ address cannot be empty");
}

#[test]
fn exchange_config_error_order() {
    let c = ExchangeConfig { api_url: "".to_string(), pairs: vec![] };
    assert_eq!(message_of(c.validate().unwrap_err()), "Invalid configuration: API URL cannot be empty");
    let c = ExchangeConfig { api_url: "x".to_string(), pairs: vec![] };
    assert_eq!(
        message_of(c.validate().unwrap_err()),
        "Invalid configuration: At least one trading pair must be specified"
    );
}

#[test]
fn broker_config_errors() {
    assert_eq!(message_of(broker("", 0).validate().unwrap_err()), "Invalid configuration: Broker host cannot be empty");
    assert_eq!(message_of(broker("h", 0).validate().unwrap_err()), "Invalid configuration: Broker port cannot be zero");
    assert!(broker("h", 1).validate().is_ok());
}

#[test]
fn strategy_and_transformation_config_errors() {
    let s = StrategyConfig { params: ParamMap::new(), enabled: true };
    assert_eq!(message_of(s.validate().unwrap_err()), "Invalid configuration: Enabled strategy must have parameters");
    let s = StrategyConfig { params: ParamMap::new(), enabled: false };
    assert!(s.validate().is_ok());
    let d = DataTransformationConfig {
        source_topic: "".to_string(),
        destination_topic: "".to_string(),
        enabled: true,
        params: ParamMap::new(),
    };
    assert_eq!(message_of(d.validate().unwrap_err()), "Invalid configuration: Source topic cannot be empty");
    let d = DataTransformationConfig {
        source_topic: "a".to_string(),
        destination_topic: "".to_string(),
        enabled: true,
        params: ParamMap::new(),
    };
    assert_eq!(message_of(d.validate().unwrap_err()), "Invalid configuration: Destination topic cannot be empty");
    let d = DataTransformationConfig {
        source_topic: "".to_string(),
        destination_topic: "".to_string(),
        enabled: false,
        params: ParamMap::new(),
    };
    assert!(d.validate().is_ok());
}

#[test]
fn components_report_first_failure() {
    let mut components = ComponentsConfig::default();
    components.exchanges = Some(named(vec![
        (ExchangeName::Kraken, ExchangeConfig { api_url: "wss://k".to_string(), pairs: vec!["BTC-USD".to_string()] }),
        (ExchangeName::Coinbase, ExchangeConfig { api_url: "".to_string(), pairs: vec![] }),
    ]));
    components.strategies = Some(named(vec![(
        StrategyName::Arbitrage,
        StrategyConfig { params: ParamMap::new(), enabled: true },
    )]));
    assert_eq!(
        message_of(components.validate().unwrap_err()),
        "Invalid configuration: Exchange Coinbase: Invalid configuration: API URL cannot be empty"
    );
    components.exchanges = None;
    assert_eq!(
        message_of(components.validate().unwrap_err()),
        "Invalid configuration: Strategy Arbitrage: Invalid configuration: Enabled strategy must have parameters"
    );
    components.strategies = None;
    components.broker = Some(named(vec![(BrokerName::InteractiveBrokers, broker("", 1))]));
    assert_eq!(
        message_of(components.validate().unwrap_err()),
        "Invalid configuration: Broker InteractiveBrokers: Invalid configuration: Broker host cannot be empty"
    );
    components.broker = Some(named(vec![(BrokerName::InteractiveBrokers, broker("h", 1))]));
    assert!(components.validate().is_ok());
}

#[test]
fn config_validate_checks_bus_first() {
    let mut config = Config::default();
    config.event_bus.zmq_address = "".to_string();
    config.components.broker = Some(named(vec![(BrokerName::InteractiveBrokers, broker("", 1))]));
    assert_eq!(message_of(config.validate().unwrap_err()), "Invalid configuration: ZMQ address cannot be empty");
}

#[test]
fn accept_loaded_passes_errors_and_checks() {
    let loaded: Result<Config, ConfigError> = Err(ConfigError::LoaderError("bad toml".to_string()));
    assert_eq!(message_of(Config::accept_loaded(loaded).unwrap_err()), "Config Loader Error: bad toml");
    assert!(Config::accept_loaded(Ok(Config::default())).is_ok());
    let mut config = Config::default();
    config.event_bus.bus_type = "".to_string();
    assert!(Config::accept_loaded(Ok(config)).is_err());
    assert_eq!(
        message_of(ConfigError::not_found("\"config.toml\"")),
        "Failed to load configuration: Config file not found: \"config.toml\""
    );
    assert_eq!(
        message_of(ConfigError::MissingConfig("broker".to_string())),
        "Missing required configuration: broker"
    );
}

#[test]
fn named_configs_keep_each_name_once() {
    let mut n: Named<ExchangeName, ExchangeConfig> = Named::new();
    let cfg = |url: &str| ExchangeConfig { api_url: url.to_string(), pairs: vec!["BTC-USD".to_string()] };
    assert!(n.insert(ExchangeName::Kraken, cfg("a")).is_none());
    assert!(n.insert(ExchangeName::Coinbase, cfg("b")).is_none());
    let old = n.insert(ExchangeName::Kraken, cfg("c")).unwrap();
    assert_eq!(old.api_url, "a");
    assert_eq!(n.len(), 2);
    let v = n.as_vec();
    assert_eq!(v[0].0, ExchangeName::Kraken);
    assert_eq!(v[0].1.api_url, "c");
    assert_eq!(v[1].0, ExchangeName::Coinbase);
    let mut t: Named<String, u8> = Named::new();
    t.insert("x".to_string(), 1);
    assert_eq!(t.insert("x".to_string(), 2), Some(1));
    assert_eq!(t.into_vec(), vec![("x".to_string(), 2)]);
}
