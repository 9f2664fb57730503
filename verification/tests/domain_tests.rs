use trading_platform::common::float_text::float_literal_check;
use trading_platform::common::params::ParamMap;
use trading_platform::common::text::{decimal_string, parse_i64_text, split_words, trim_text};
use trading_platform::domain::events::OrderStatus;
use trading_platform::domain::models::StrategyConfig;
use trading_platform::domain::strategies::arbitrage::ArbitrageStrategy;
use trading_platform::domain::strategies::base::{TradingStrategy, TradingStrategyImpl};
use trading_platform::domain::strategies::mean_reversion::MeanReversionStrategy;
use trading_platform::{StrategyName, TradeSide};

fn params_of(pairs: &[(&str, &str)]) -> ParamMap {
    let mut m = ParamMap::new();
    for (k, v) in pairs {
        m.insert(k.to_string(), v.to_string());
    }
    m
}

#[test]
fn strategy_config_params() {
    let params = params_of(&[("threshold", "0.5"), ("enabled", "true"), ("window", "-20")]);
    let config = StrategyConfig::new(StrategyName::MeanReversion, params, true);
    assert_eq!(config.get_param("threshold").map(|s| s.as_str()), Some("0.5"));
    assert_eq!(config.get_param_as_bool("enabled"), Some(true));
    assert_eq!(config.get_param_as_bool("threshold"), None);
    assert_eq!(config.get_param_as_i64("window"), Some(-20));
    assert_eq!(config.get_param_as_i64("threshold"), None);
    assert_eq!(config.get_param_as_i64("nonexistent"), None);
    assert!(config.get_param("nonexistent").is_none());
}

#[test]
fn param_map_insert_replaces() {
    let mut m = ParamMap::new();
    assert!(m.is_empty());
    assert_eq!(m.insert("a".to_string(), "1".to_string()), None);
    assert_eq!(m.insert("b".to_string(), "2".to_string()), None);
    assert_eq!(m.insert("a".to_string(), "3".to_string()), Some("1".to_string()));
    assert_eq!(m.len(), 2);
    assert_eq!(m.get("a").unwrap(), "3");
    assert_eq!(m.get("b").unwrap(), "2");
    let c = m.copy();
    assert_eq!(c.get("a").unwrap(), "3");
    assert_eq!(c.entries().len(), 2);
}

#[test]
fn i64_parsing_agrees_with_std() {
    let cases = [
        "0", "-0", "+7", "42", "-42", "9223372036854775807", "9223372036854775808",
        "-9223372036854775808", "-9223372036854775809", "", "+", "-", "1a", " 1", "١",
        "00012", "99999999999999999999999",
    ];
    for c in cases.iter() {
        assert_eq!(parse_i64_text(c), c.parse::<i64>().ok(), "case {}", c);
    }
}

#[test]
fn decimal_rendering_round_trip() {
    for n in [0u64, 7, 10, 8080, 65535, 9223372036854775807] {
        let s = decimal_string(n);
        assert_eq!(s, n.to_string());
        assert_eq!(parse_i64_text(&s), Some(n as i64));
    }
}

#[test]
fn float_check_agrees_with_std() {
    let cases = [
        "50000.50", "1", "1.", ".5", ".", "", "+", "-1e5", "1E-3", "1e", "1e+", "inf", "-Infinity",
        "NaN", "nan1", "1.2.3", "abc", " 1", "1 ", "+.5e10", "e5", "1_000", "0x10", "infinit",
    ];
    for c in cases.iter() {
        assert_eq!(float_literal_check(c), c.parse::<f64>().is_ok(), "case {}", c);
    }
}

#[test]
fn trim_and_words_agree_with_std() {
    let cases = ["", "  a  b ", "buy 5", "\tsell\u{2003}7\n", "one", "  "];
    for c in cases.iter() {
        assert_eq!(trim_text(c), c.trim());
        let w: Vec<String> = c.split_whitespace().map(|s| s.to_string()).collect();
        assert_eq!(split_words(c), w);
    }
}

#[test]
fn strategies_topics_and_config() {
    let params = params_of(&[("k", "v")]);
    let config = StrategyConfig::new(StrategyName::Arbitrage, params, true);
    let mut arb = ArbitrageStrategy::new(config, vec!["trades".to_string()]);
    assert_eq!(arb.name(), StrategyName::Arbitrage);
    assert_eq!(arb.get_sink_topics(), vec!["trades".to_string()]);
    assert_eq!(
        arb.get_source_topics(),
        vec!["price.feed.kraken".to_string(), "price.feed.coinbase".to_string()]
    );
    let new_config = StrategyConfig::new(StrategyName::Arbitrage, ParamMap::new(), false);
    arb.configure_strategy(new_config);
    let got = arb.get_strategy_config();
    assert!(!got.enabled);
    assert!(got.params.is_empty());

    let mr = MeanReversionStrategy::new(
        StrategyConfig::new(StrategyName::MeanReversion, ParamMap::new(), true),
        vec![],
    );
    assert_eq!(mr.name(), StrategyName::MeanReversion);
    assert_eq!(mr.get_source_topics(), vec!["price.feed.kraken".to_string()]);
    assert!(mr.get_strategy_config().enabled);

    let base = TradingStrategyImpl::new(
        StrategyConfig::new(StrategyName::Momentum, ParamMap::new(), true),
        vec!["a".to_string(), "b".to_string()],
    );
    assert_eq!(base.get_sink_topics(), vec!["a".to_string(), "b".to_string()]);
    assert!(base.get_source_topics().is_empty());
    assert_eq!(base.get_config().strategy_name, StrategyName::Momentum);
}

#[test]
fn arbitrage_signal_side() {
    assert_eq!(ArbitrageStrategy::signal_side(true, false), Some(TradeSide::Buy));
    assert_eq!(ArbitrageStrategy::signal_side(false, true), Some(TradeSide::Sell));
    assert_eq!(ArbitrageStrategy::signal_side(false, false), None);
}

#[test]
fn order_status_finality() {
    assert!(OrderStatus::Filled.is_final());
    assert!(OrderStatus::Cancelled.is_final());
    assert!(!OrderStatus::New.is_final());
    assert_eq!(OrderStatus::Filled.to_string(), "Filled");
}

#[test]
fn test_strategy_config() {
    let mut params = ParamMap::new();
    params.insert("threshold".to_string(), "0.5".to_string());
    params.insert("enabled".to_string(), "true".to_string());

    let config = StrategyConfig::new(StrategyName::MeanReversion, params, true);

    let as_number = |key: &str| config.get_param_float_text(key).map(|t| t.parse::<f64>().unwrap());
    assert_eq!(as_number("threshold"), Some(0.5));
    assert_eq!(config.get_param_as_bool("enabled"), Some(true));
    assert_eq!(as_number("nonexistent"), None);
}

#[test]
fn float_param_text_is_checked() {
    let params = params_of(&[("a", "1e3"), ("b", "-inf"), ("c", "1.2.3"), ("d", "")]);
    let config = StrategyConfig::new(StrategyName::Arbitrage, params, false);
    assert_eq!(config.get_param_float_text("a").map(|s| s.as_str()), Some("1e3"));
    assert_eq!(config.get_param_float_text("b").map(|s| s.as_str()), Some("-inf"));
    assert!(config.get_param_float_text("c").is_none());
    assert!(config.get_param_float_text("d").is_none());
}
