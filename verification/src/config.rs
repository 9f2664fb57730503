use vstd::prelude::*;
use crate::common::enums::{BrokerName, ExchangeName, StrategyName};
use crate::common::named::Named;
use crate::common::params::ParamMap;
use crate::common::text::owned;

verus! {

/// Errors while loading or checking the configuration.
#[derive(Debug)]
pub enum ConfigError {
    LoadError(String),
    ValidationError(String),
    MissingConfig(String),
    /// An error of the configuration loader, held as the text it displays.
    LoaderError(String),
}

impl ConfigError {
    /// The fixed text that starts the display of each kind of error.
    pub open spec fn prefix(&self) -> Seq<char> {
        match self {
            ConfigError::LoadError(_) => "Failed to load configuration: "@,
            ConfigError::ValidationError(_) => "Invalid configuration: "@,
            ConfigError::MissingConfig(_) => "Missing required configuration: "@,
            ConfigError::LoaderError(_) => "Config Loader Error: "@,
        }
    }

    /// The message an error carries.
    pub open spec fn detail(&self) -> Option<Seq<char>> {
        match self {
            ConfigError::LoadError(m) => Some(m@),
            ConfigError::ValidationError(m) => Some(m@),
            ConfigError::MissingConfig(m) => Some(m@),
            ConfigError::LoaderError(m) => Some(m@),
        }
    }

    /// Display text of the error: its kind's prefix, then its message.
    pub fn to_string(&self) -> (r: String)
        ensures
            r@ == self.prefix() + self.detail()->Some_0,
    {
        let (prefix, detail) = match self {
            ConfigError::LoadError(m) => ("Failed to load configuration: ", m.clone()),
            ConfigError::ValidationError(m) => ("Invalid configuration: ", m.clone()),
            ConfigError::MissingConfig(m) => ("Missing required configuration: ", m.clone()),
            ConfigError::LoaderError(m) => ("Config Loader Error: ", m.clone()),
        };
        owned(prefix).concat(detail.as_str())
    }

    /// The error for a configuration file that does not exist, `path` being
    /// the file's path as the loader shows it.
    pub fn not_found(path: &str) -> (r: ConfigError)
        ensures
            r matches ConfigError::LoadError(m) && m@ == "Config file not found: "@ + path@,
    {
        ConfigError::LoadError(owned("Config file not found: ").concat(path))
    }
}

/// How a check ended: `None` when it passed, else the message of the
/// `ValidationError` it gave.
pub open spec fn check_outcome(r: Result<(), ConfigError>, failure: Option<Seq<char>>) -> bool {
    match failure {
        None => r is Ok,
        Some(m) => r matches Err(ConfigError::ValidationError(t)) && t@ == m,
    }
}

fn invalid(msg: &str) -> (r: Result<(), ConfigError>)
    ensures
        check_outcome(r, Some(msg@)),
{
    Err(ConfigError::ValidationError(owned(msg)))
}

/// Main configuration structure for the trading platform
#[derive(Debug)]
pub struct Config {
    pub event_bus: EventBusConfig,
    pub components: ComponentsConfig,
}

impl Config {
    /// The first check that the configuration fails, if any.
    pub open spec fn failure(&self) -> Option<Seq<char>> {
        if self.event_bus.failure() is Some {
            self.event_bus.failure()
        } else {
            self.components.failure()
        }
    }

    /// Validates the configuration
    pub fn validate(&self) -> (r: Result<(), ConfigError>)
        ensures
            check_outcome(r, self.failure()),
    {
        self.event_bus.validate()?;
        self.components.validate()?;
        Ok(())
    }

    /// What loading gives once the loader has read the sources: the loaded
    /// configuration if it is valid, else the loader's or the check's error.
    pub fn accept_loaded(loaded: Result<Config, ConfigError>) -> (r: Result<Config, ConfigError>)
        ensures
            loaded is Err ==> r == loaded,
            loaded matches Ok(c) ==> (c.failure() is None ==> r == loaded) && (c.failure() is Some
                ==> r is Err && check_outcome(Err(r->Err_0), c.failure())),
    {
        let config = loaded?;
        match config.validate() {
            Ok(()) => Ok(config),
            Err(e) => Err(e),
        }
    }
}

impl Default for Config {
    fn default() -> (r: Self)
        ensures
            r.event_bus.bus_type@ == "zmq"@,
            r.event_bus.zmq_address@ == "tcp://127.0.0.1:5555"@,
            r.components.is_default(),
    {
        Config { event_bus: EventBusConfig::default(), components: ComponentsConfig::default() }
    }
}

/// Event bus configuration
#[derive(Debug)]
pub struct EventBusConfig {
    pub bus_type: String,
    pub zmq_address: String,
}

impl Default for EventBusConfig {
    fn default() -> (r: Self)
        ensures
            r.bus_type@ == "zmq"@,
            r.zmq_address@ == "tcp://127.0.0.1:5555"@,
    {
        EventBusConfig { bus_type: owned("zmq"), zmq_address: owned("tcp://127.0.0.1:5555") }
    }
}

impl EventBusConfig {
    /// The first check that the event bus configuration fails, if any.
    pub open spec fn failure(&self) -> Option<Seq<char>> {
        if self.bus_type@.len() == 0 {
            Some("Event bus type cannot be empty"@)
        } else if self.zmq_address@.len() == 0 {
            Some("ZMQ address cannot be empty"@)
        } else {
            None
        }
    }

    pub fn validate(&self) -> (r: Result<(), ConfigError>)
        ensures
            check_outcome(r, self.failure()),
    {
        if self.bus_type.as_str().unicode_len() == 0 {
            return invalid("Event bus type cannot be empty");
        }
        if self.zmq_address.as_str().unicode_len() == 0 {
            return invalid("ZMQ address cannot be empty");
        }
        Ok(())
    }
}

/// The message of a component's failed check, as the components check
/// reports it: the kind, the component's name, then the component's error.
pub open spec fn component_failure(kind: Seq<char>, name: Seq<char>, m: Seq<char>) -> Seq<char> {
    kind + " "@ + name + ": "@ + "Invalid configuration: "@ + m
}

/// The first exchange, in order, whose configuration fails its check.
pub open spec fn exchanges_failure(s: Seq<(ExchangeName, ExchangeConfig)>) -> Option<Seq<char>>
    decreases s.len(),
{
    if s.len() == 0 {
        None
    } else {
        match s[0].1.failure() {
            Some(m) => Some(component_failure("Exchange"@, s[0].0.display_text(), m)),
            None => exchanges_failure(s.drop_first()),
        }
    }
}

/// The first strategy, in order, whose configuration fails its check.
pub open spec fn strategies_failure(s: Seq<(StrategyName, StrategyConfig)>) -> Option<Seq<char>>
    decreases s.len(),
{
    if s.len() == 0 {
        None
    } else {
        match s[0].1.failure() {
            Some(m) => Some(component_failure("Strategy"@, s[0].0.display_text(), m)),
            None => strategies_failure(s.drop_first()),
        }
    }
}

/// The first broker, in order, whose configuration fails its check.
pub open spec fn brokers_failure(s: Seq<(BrokerName, BrokerConfig)>) -> Option<Seq<char>>
    decreases s.len(),
{
    if s.len() == 0 {
        None
    } else {
        match s[0].1.failure() {
            Some(m) => Some(component_failure("Broker"@, s[0].0.display_text(), m)),
            None => brokers_failure(s.drop_first()),
        }
    }
}

fn component_error(kind: &str, name: String, e: ConfigError) -> (r: Result<(), ConfigError>)
    requires
        e.detail() is Some,
        e is ValidationError,
    ensures
        check_outcome(r, Some(component_failure(kind@, name@, e.detail()->Some_0))),
{
    let text = owned(kind).concat(" ").concat(name.as_str()).concat(": ").concat(
        e.to_string().as_str(),
    );
    let r = Err(ConfigError::ValidationError(text));
    assert(text@ =~= component_failure(kind@, name@, e.detail()->Some_0));
    r
}

/// Components configuration
#[derive(Debug)]
pub struct ComponentsConfig {
    pub exchanges: Option<Named<ExchangeName, ExchangeConfig>>,
    pub strategies: Option<Named<StrategyName, StrategyConfig>>,
    pub broker: Option<Named<BrokerName, BrokerConfig>>,
    pub data_transformations: Option<Named<String, DataTransformationConfig>>,
    pub ui: Option<SubscriberConfig>,
    pub logging: Option<SubscriberConfig>,
    pub metrics: Option<SubscriberConfig>,
    pub audit: Option<SubscriberConfig>,
}

impl Default for ComponentsConfig {
    fn default() -> (r: Self)
        ensures
            r.is_default(),
    {
        ComponentsConfig {
            exchanges: Some(Named::new()),
            strategies: Some(Named::new()),
            broker: Some(Named::new()),
            data_transformations: Some(Named::new()),
            ui: Some(SubscriberConfig::default()),
            logging: Some(SubscriberConfig::default()),
            metrics: Some(SubscriberConfig::default()),
            audit: Some(SubscriberConfig::default()),
        }
    }
}

impl ComponentsConfig {
    /// Every map present and empty, every subscriber present and off.
    pub open spec fn is_default(&self) -> bool {
        &&& self.exchanges matches Some(v) && v@.len() == 0
        &&& self.strategies matches Some(v) && v@.len() == 0
        &&& self.broker matches Some(v) && v@.len() == 0
        &&& self.data_transformations matches Some(v) && v@.len() == 0
        &&& self.ui matches Some(s) && s.is_default()
        &&& self.logging matches Some(s) && s.is_default()
        &&& self.metrics matches Some(s) && s.is_default()
        &&& self.audit matches Some(s) && s.is_default()
    }

    /// The first failing exchange, strategy, then broker, if any.
    pub open spec fn failure(&self) -> Option<Seq<char>> {
        let ex = match self.exchanges {
            Some(v) => exchanges_failure(v@),
            None => None,
        };
        let st = match self.strategies {
            Some(v) => strategies_failure(v@),
            None => None,
        };
        let br = match self.broker {
            Some(v) => brokers_failure(v@),
            None => None,
        };
        if ex is Some {
            ex
        } else if st is Some {
            st
        } else {
            br
        }
    }

    #[verifier::loop_isolation(false)]
    pub fn validate(&self) -> (r: Result<(), ConfigError>)
        ensures
            check_outcome(r, self.failure()),
    {
        if let Some(exchanges) = &self.exchanges {
            let exchanges = exchanges.as_vec();
            let mut i: usize = 0;
            assert(exchanges@.skip(0) =~= exchanges@);
            while i < exchanges.len()
                invariant
                    i <= exchanges@.len(),
                    exchanges_failure(exchanges@) == exchanges_failure(exchanges@.skip(i as int)),
                decreases exchanges@.len() - i,
            {
                assert(exchanges@.skip(i as int).drop_first() =~= exchanges@.skip(i + 1));
                assert(exchanges@.skip(i as int)[0] == exchanges@[i as int]);
                let (name, config) = &exchanges[i];
                if let Err(e) = config.validate() {
                    return component_error("Exchange", name.to_string(), e);
                }
                i = i + 1;
            }
            assert(exchanges@.skip(i as int) =~= Seq::<(ExchangeName, ExchangeConfig)>::empty());
        }
        if let Some(strategies) = &self.strategies {
            let strategies = strategies.as_vec();
            let mut i: usize = 0;
            assert(strategies@.skip(0) =~= strategies@);
            while i < strategies.len()
                invariant
                    i <= strategies@.len(),
                    strategies_failure(strategies@) == strategies_failure(strategies@.skip(i as int)),
                decreases strategies@.len() - i,
            {
                assert(strategies@.skip(i as int).drop_first() =~= strategies@.skip(i + 1));
                assert(strategies@.skip(i as int)[0] == strategies@[i as int]);
                let (name, config) = &strategies[i];
                if let Err(e) = config.validate() {
                    return component_error("Strategy", name.to_string(), e);
                }
                i = i + 1;
            }
            assert(strategies@.skip(i as int) =~= Seq::<(StrategyName, StrategyConfig)>::empty());
        }
        if let Some(brokers) = &self.broker {
            let brokers = brokers.as_vec();
            let mut i: usize = 0;
            assert(brokers@.skip(0) =~= brokers@);
            while i < brokers.len()
                invariant
                    i <= brokers@.len(),
                    brokers_failure(brokers@) == brokers_failure(brokers@.skip(i as int)),
                decreases brokers@.len() - i,
            {
                assert(brokers@.skip(i as int).drop_first() =~= brokers@.skip(i + 1));
                assert(brokers@.skip(i as int)[0] == brokers@[i as int]);
                let (name, config) = &brokers[i];
                if let Err(e) = config.validate() {
                    return component_error("Broker", name.to_string(), e);
                }
                i = i + 1;
            }
            assert(brokers@.skip(i as int) =~= Seq::<(BrokerName, BrokerConfig)>::empty());
        }
        Ok(())
    }
}

/// Subscriber configuration
#[derive(Debug)]
pub struct SubscriberConfig {
    pub enabled: bool,
    pub topics: Vec<String>,
    pub level: Option<String>,
    pub file: Option<String>,
}

impl Default for SubscriberConfig {
    fn default() -> (r: Self)
        ensures
            r.is_default(),
    {
        SubscriberConfig { enabled: false, topics: Vec::new(), level: None, file: None }
    }
}

impl SubscriberConfig {
    /// Off, with no topic, level or file.
    pub open spec fn is_default(&self) -> bool {
        !self.enabled && self.topics@.len() == 0 && self.level is None && self.file is None
    }

    pub open spec fn failure(&self) -> Option<Seq<char>> {
        if self.enabled && self.topics@.len() == 0 {
            Some("Enabled subscriber must have at least one topic"@)
        } else {
            None
        }
    }

    pub fn validate(&self) -> (r: Result<(), ConfigError>)
        ensures
            check_outcome(r, self.failure()),
    {
        if self.enabled && self.topics.len() == 0 {
            return invalid("Enabled subscriber must have at least one topic");
        }
        Ok(())
    }
}

/// Exchange configuration
#[derive(Debug)]
pub struct ExchangeConfig {
    pub api_url: String,
    pub pairs: Vec<String>,
}

impl ExchangeConfig {
    pub open spec fn failure(&self) -> Option<Seq<char>> {
        if self.api_url@.len() == 0 {
            Some("API URL cannot be empty"@)
        } else if self.pairs@.len() == 0 {
            Some("At least one trading pair must be specified"@)
        } else {
            None
        }
    }

    pub fn validate(&self) -> (r: Result<(), ConfigError>)
        ensures
            check_outcome(r, self.failure()),
    {
        if self.api_url.as_str().unicode_len() == 0 {
            return invalid("API URL cannot be empty");
        }
        if self.pairs.len() == 0 {
            return invalid("At least one trading pair must be specified");
        }
        Ok(())
    }
}

/// Broker configuration
#[derive(Debug)]
pub struct BrokerConfig {
    pub host: String,
    pub port: u16,
    pub client_id: u16,
    pub account_id: String,
    pub paper_trading: bool,
    pub max_retries: u32,
    pub timeout: u64,
}

impl BrokerConfig {
    pub open spec fn failure(&self) -> Option<Seq<char>> {
        if self.host@.len() == 0 {
            Some("Broker host cannot be empty"@)
        } else if self.port == 0 {
            Some("Broker port cannot be zero"@)
        } else {
            None
        }
    }

    pub fn validate(&self) -> (r: Result<(), ConfigError>)
        ensures
            check_outcome(r, self.failure()),
    {
        if self.host.as_str().unicode_len() == 0 {
            return invalid("Broker host cannot be empty");
        }
        if self.port == 0 {
            return invalid("Broker port cannot be zero");
        }
        Ok(())
    }
}

/// Strategy configuration
#[derive(Debug)]
pub struct StrategyConfig {
    pub params: ParamMap,
    pub enabled: bool,
}

impl StrategyConfig {
    pub open spec fn failure(&self) -> Option<Seq<char>> {
        if self.enabled && self.params@.len() == 0 {
            Some("Enabled strategy must have parameters"@)
        } else {
            None
        }
    }

    pub fn validate(&self) -> (r: Result<(), ConfigError>)
        ensures
            check_outcome(r, self.failure()),
    {
        if self.enabled && self.params.is_empty() {
            return invalid("Enabled strategy must have parameters");
        }
        Ok(())
    }
}

/// Data transformation configuration
#[derive(Debug)]
pub struct DataTransformationConfig {
    pub source_topic: String,
    pub destination_topic: String,
    pub enabled: bool,
    pub params: ParamMap,
}

impl DataTransformationConfig {
    pub open spec fn failure(&self) -> Option<Seq<char>> {
        if self.enabled && self.source_topic@.len() == 0 {
            Some("Source topic cannot be empty"@)
        } else if self.enabled && self.destination_topic@.len() == 0 {
            Some("Destination topic cannot be empty"@)
        } else {
            None
        }
    }

    pub fn validate(&self) -> (r: Result<(), ConfigError>)
        ensures
            check_outcome(r, self.failure()),
    {
        if self.enabled {
            if self.source_topic.as_str().unicode_len() == 0 {
                return invalid("Source topic cannot be empty");
            }
            if self.destination_topic.as_str().unicode_len() == 0 {
                return invalid("Destination topic cannot be empty");
            }
        }
        Ok(())
    }
}


/// The default configuration passes its check.
pub proof fn law_default_config_valid(c: Config)
    requires
        c.event_bus.bus_type@ == "zmq"@,
        c.event_bus.zmq_address@ == "tcp://127.0.0.1:5555"@,
        c.components.is_default(),
    ensures
        c.failure() is None,
{
    reveal_strlit("zmq");
    reveal_strlit("tcp://127.0.0.1:5555");
}


proof fn lemma_exchanges_failure_found(s: Seq<(ExchangeName, ExchangeConfig)>, i: int)
    requires
        0 <= i < s.len(),
        s[i].1.failure() is Some,
    ensures
        exchanges_failure(s) is Some,
    decreases s.len(),
{
    if s[0].1.failure() is None {
        assert(s.drop_first()[i - 1] == s[i]);
        lemma_exchanges_failure_found(s.drop_first(), i - 1);
    }
}

proof fn lemma_strategies_failure_found(s: Seq<(StrategyName, StrategyConfig)>, i: int)
    requires
        0 <= i < s.len(),
        s[i].1.failure() is Some,
    ensures
        strategies_failure(s) is Some,
    decreases s.len(),
{
    if s[0].1.failure() is None {
        assert(s.drop_first()[i - 1] == s[i]);
        lemma_strategies_failure_found(s.drop_first(), i - 1);
    }
}

proof fn lemma_brokers_failure_found(s: Seq<(BrokerName, BrokerConfig)>, i: int)
    requires
        0 <= i < s.len(),
        s[i].1.failure() is Some,
    ensures
        brokers_failure(s) is Some,
    decreases s.len(),
{
    if s[0].1.failure() is None {
        assert(s.drop_first()[i - 1] == s[i]);
        lemma_brokers_failure_found(s.drop_first(), i - 1);
    }
}

/// The whole configuration passes its check only when the event bus and
/// every component pass theirs: once the event bus passes, the outcome is
/// the components' outcome.
pub proof fn law_config_checks_components(c: Config)
    ensures
        c.event_bus.failure() is None ==> c.failure() == c.components.failure(),
        c.event_bus.failure() is Some ==> c.failure() == c.event_bus.failure(),
        c.failure() is None <==> c.event_bus.failure() is None && c.components.failure() is None,
{
}

/// A single exchange, strategy or broker whose configuration fails its own
/// check makes the components check fail, wherever it stands.
pub proof fn law_failing_component_fails(c: ComponentsConfig, i: int)
    ensures
        (c.exchanges matches Some(v) && 0 <= i < v@.len() && v@[i].1.failure() is Some)
            ==> c.failure() is Some,
        (c.strategies matches Some(v) && 0 <= i < v@.len() && v@[i].1.failure() is Some)
            ==> c.failure() is Some,
        (c.broker matches Some(v) && 0 <= i < v@.len() && v@[i].1.failure() is Some)
            ==> c.failure() is Some,
{
    match c.exchanges {
        Some(v) => {
            if 0 <= i < v@.len() && v@[i].1.failure() is Some {
                lemma_exchanges_failure_found(v@, i);
            }
        },
        None => {},
    }
    match c.strategies {
        Some(v) => {
            if 0 <= i < v@.len() && v@[i].1.failure() is Some {
                lemma_strategies_failure_found(v@, i);
            }
        },
        None => {},
    }
    match c.broker {
        Some(v) => {
            if 0 <= i < v@.len() && v@[i].1.failure() is Some {
                lemma_brokers_failure_found(v@, i);
            }
        },
        None => {},
    }
}

/// A broker on port zero fails its check.
pub proof fn law_broker_port_zero_fails(b: BrokerConfig)
    requires
        b.port == 0,
    ensures
        b.failure() is Some,
{
}

} // verus!
