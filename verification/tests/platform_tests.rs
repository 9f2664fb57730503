use trading_platform::common::named::{ConfigName, Named};
use trading_platform::common::params::ParamMap;
use trading_platform::config::{BrokerConfig, ComponentsConfig, ExchangeConfig, StrategyConfig, SubscriberConfig};
use trading_platform::platform::{
    plan_broker_adapters, plan_data_adapters, plan_strategies, plan_subscribers, SubscriberKind,
};
use trading_platform::{BrokerName, Error, ExchangeName, StrategyName};

fn named<K: ConfigName, V>(items: Vec<(K, V)>) -> Named<K, V> {
    let mut n = Named::new();
    for (k, v) in items {
        n.insert(k, v);
    }
    n
}

fn exchange() -> ExchangeConfig {
    ExchangeConfig { api_url: "wss://example.com".to_string(), pairs: vec!["BTC/USD".to_string()] }
}

fn strategy() -> StrategyConfig {
    StrategyConfig { params: ParamMap::new(), enabled: true }
}

fn broker() -> BrokerConfig {
    BrokerConfig {
        host: "localhost.localdomain".to_string(),
        port: 7497,
        client_id: 1,
        account_id: "DU1".to_string(),
        paper_trading: true,
        max_retries: 3,
        timeout: 5000,
    }
}

fn subscriber(enabled: bool) -> Option<SubscriberConfig> {
    Some(SubscriberConfig { enabled, topics: vec!["log".to_string()], level: None, file: None })
}

fn config_message(e: Error) -> String {
    match e {
        Error::ConfigError(m) => m,
        other => panic!("unexpected error {:?}", other),
    }
}

#[test]
fn data_adapters_skip_unsupported_exchanges() {
    let exchanges = Some(named(vec![
        (ExchangeName::Binance, exchange()),
        (ExchangeName::Kraken, exchange()),
        (ExchangeName::Coinbase, exchange()),
    ]));
    assert_eq!(plan_data_adapters(&exchanges).unwrap(), vec![1, 2]);
}

#[test]
fn data_adapters_none_configured() {
    let e = plan_data_adapters(&None).unwrap_err();
    assert_eq!(config_message(e), "No data adapters configured");
    let only_unsupported = Some(named(vec![(ExchangeName::Binance, exchange())]));
    let e = plan_data_adapters(&only_unsupported).unwrap_err();
    assert_eq!(config_message(e), "No data adapters configured");
}

#[test]
fn strategies_plan() {
    let configs = Some(named(vec![(StrategyName::MeanReversion, strategy()), (StrategyName::Arbitrage, strategy())]));
    assert_eq!(plan_strategies(&configs).unwrap(), vec![0, 1]);
    let e = plan_strategies(&Some(named(vec![]))).unwrap_err();
    assert_eq!(config_message(e), "No strategies configured");
}

#[test]
fn broker_adapters_plan() {
    let configs = Some(named(vec![(BrokerName::InteractiveBrokers, broker())]));
    assert_eq!(plan_broker_adapters(&configs).unwrap(), vec![0]);
    let e = plan_broker_adapters(&None).unwrap_err();
    assert_eq!(config_message(e), "No broker adapters configured");
}

#[test]
fn subscribers_in_fixed_order() {
    let mut components = ComponentsConfig::default();
    components.audit = subscriber(true);
    components.ui = subscriber(true);
    components.logging = subscriber(false);
    components.metrics = subscriber(true);
    let plan = plan_subscribers(&components);
    assert_eq!(plan, vec![SubscriberKind::Console, SubscriberKind::Metrics, SubscriberKind::Audit]);
    assert_eq!(plan[0].sink_topic(), "log");
    assert_eq!(plan[1].sink_topic(), "metrics");
    assert_eq!(plan[2].sink_topic(), "audit");
    assert_eq!(plan[0].label(), "UI");
}

#[test]
fn no_subscribers_when_none_configured() {
    let mut components = ComponentsConfig::default();
    components.ui = None;
    components.logging = None;
    components.metrics = None;
    components.audit = None;
    assert!(plan_subscribers(&components).is_empty());
}
