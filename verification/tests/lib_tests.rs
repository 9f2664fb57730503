use trading_platform::{BrokerName, Error, ExchangeName, StrategyName, TradeSide};

#[test]
fn test_enum_display() {
    assert_eq!(ExchangeName::Kraken.to_string(), "Kraken");
    assert_eq!(StrategyName::Arbitrage.to_string(), "Arbitrage");
    assert_eq!(BrokerName::InteractiveBrokers.to_string(), "InteractiveBrokers");
}

#[test]
fn test_error_display() {
    let err = Error::ValidationError("test error".to_string());
    assert_eq!(err.to_string(), "Validation error: test error");
}

#[test]
fn every_error_kind_displays_its_prefix() {
    let cases = vec![
        (Error::ConfigError("m".to_string()), "Configuration error: m"),
        (Error::ConnectionError("m".to_string()), "Connection error: m"),
        (Error::SerializationError("m".to_string()), "Serialization error: m"),
        (Error::ParseError("m".to_string()), "Parse error: m"),
        (Error::OperationError("m".to_string()), "Operation error: m"),
        (Error::PublishError("m".to_string()), "Publish error: m"),
        (Error::SubscriptionError("m".to_string()), "Subscription error: m"),
        (Error::NetworkError("m".to_string()), "Network error: m"),
        (Error::ExchangeError("m".to_string()), "Exchange error: m"),
        (Error::StrategyError("m".to_string()), "Strategy error: m"),
        (Error::BrokerError("m".to_string()), "Broker error: m"),
        (Error::DatabaseError("m".to_string()), "Database error: m"),
        (Error::Unknown("m".to_string()), "Unknown error: m"),
    ];
    for (e, text) in cases {
        assert_eq!(e.to_string(), text);
    }
    let io = Error::IoError(std::io::Error::new(std::io::ErrorKind::Other, "disk"));
    assert_eq!(io.to_string(), "IO error: disk");
}

#[test]
fn other_enum_display() {
    assert_eq!(ExchangeName::FTX.to_string(), "FTX");
    assert_eq!(ExchangeName::Coinbase.to_lowercase_string(), "coinbase");
    assert_eq!(StrategyName::StatisticalArbitrage.to_string(), "StatisticalArbitrage");
    assert_eq!(BrokerName::TDAmeritrade.to_string(), "TDAmeritrade");
    assert_eq!(TradeSide::Sell.to_string(), "Sell");
}
