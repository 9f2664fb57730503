use vstd::prelude::*;
use crate::common::text::owned;

verus! {

#[verifier::external_type_specification]
#[verifier::external_body]
pub struct ExIoError(std::io::Error);

/// Renders an I/O error with `std::io::Error`'s `Display`. The text comes
/// from the operating system, so nothing is stated of it.
#[verifier::external_body]
fn io_error_text(e: &std::io::Error) -> String {
    e.to_string()
}

/// Result type alias using the platform's error type
pub type Result<T> = std::result::Result<T, Error>;

/// Common error type of the trading platform.
#[derive(Debug)]
pub enum Error {
    IoError(std::io::Error),
    ConfigError(String),
    ValidationError(String),
    ConnectionError(String),
    SerializationError(String),
    ParseError(String),
    OperationError(String),
    PublishError(String),
    SubscriptionError(String),
    NetworkError(String),
    ExchangeError(String),
    StrategyError(String),
    BrokerError(String),
    DatabaseError(String),
    Unknown(String),
}

impl Error {
    /// The fixed text that starts the display of each kind of error.
    pub open spec fn prefix(&self) -> Seq<char> {
        match self {
            Error::IoError(_) => "IO error: "@,
            Error::ConfigError(_) => "Configuration error: "@,
            Error::ValidationError(_) => "Validation error: "@,
            Error::ConnectionError(_) => "Connection error: "@,
            Error::SerializationError(_) => "Serialization error: "@,
            Error::ParseError(_) => "Parse error: "@,
            Error::OperationError(_) => "Operation error: "@,
            Error::PublishError(_) => "Publish error: "@,
            Error::SubscriptionError(_) => "Subscription error: "@,
            Error::NetworkError(_) => "Network error: "@,
            Error::ExchangeError(_) => "Exchange error: "@,
            Error::StrategyError(_) => "Strategy error: "@,
            Error::BrokerError(_) => "Broker error: "@,
            Error::DatabaseError(_) => "Database error: "@,
            Error::Unknown(_) => "Unknown error: "@,
        }
    }

    /// The message an error carries; `None` for an I/O error, whose
    /// message comes from the operating system.
    pub open spec fn detail(&self) -> Option<Seq<char>> {
        match self {
            Error::IoError(_) => None,
            Error::ConfigError(m) => Some(m@),
            Error::ValidationError(m) => Some(m@),
            Error::ConnectionError(m) => Some(m@),
            Error::SerializationError(m) => Some(m@),
            Error::ParseError(m) => Some(m@),
            Error::OperationError(m) => Some(m@),
            Error::PublishError(m) => Some(m@),
            Error::SubscriptionError(m) => Some(m@),
            Error::NetworkError(m) => Some(m@),
            Error::ExchangeError(m) => Some(m@),
            Error::StrategyError(m) => Some(m@),
            Error::BrokerError(m) => Some(m@),
            Error::DatabaseError(m) => Some(m@),
            Error::Unknown(m) => Some(m@),
        }
    }

    /// Display text of the error: its kind's prefix, then its message.
    pub fn to_string(&self) -> (r: String)
        ensures
            r@.len() >= self.prefix().len(),
            r@.subrange(0, self.prefix().len() as int) == self.prefix(),
            self.detail() matches Some(m) ==> r@ == self.prefix() + m,
    {
        let (prefix, detail) = match self {
            Error::IoError(e) => ("IO error: ", io_error_text(e)),
            Error::ConfigError(m) => ("Configuration error: ", m.clone()),
            Error::ValidationError(m) => ("Validation error: ", m.clone()),
            Error::ConnectionError(m) => ("Connection error: ", m.clone()),
            Error::SerializationError(m) => ("Serialization error: ", m.clone()),
            Error::ParseError(m) => ("Parse error: ", m.clone()),
            Error::OperationError(m) => ("Operation error: ", m.clone()),
            Error::PublishError(m) => ("Publish error: ", m.clone()),
            Error::SubscriptionError(m) => ("Subscription error: ", m.clone()),
            Error::NetworkError(m) => ("Network error: ", m.clone()),
            Error::ExchangeError(m) => ("Exchange error: ", m.clone()),
            Error::StrategyError(m) => ("Strategy error: ", m.clone()),
            Error::BrokerError(m) => ("Broker error: ", m.clone()),
            Error::DatabaseError(m) => ("Database error: ", m.clone()),
            Error::Unknown(m) => ("Unknown error: ", m.clone()),
        };
        let r = owned(prefix).concat(detail.as_str());
        assert(r@.subrange(0, self.prefix().len() as int) =~= self.prefix());
        r
    }
}


/// `e` is a validation error with message `m`.
pub open spec fn is_validation_error(e: Error, m: Seq<char>) -> bool {
    e matches Error::ValidationError(t) && t@ == m
}

/// `e` is an operation error with message `m`.
pub open spec fn is_operation_error(e: Error, m: Seq<char>) -> bool {
    e matches Error::OperationError(t) && t@ == m
}

/// `e` is a parse error with message `m`.
pub open spec fn is_parse_error(e: Error, m: Seq<char>) -> bool {
    e matches Error::ParseError(t) && t@ == m
}

/// `e` is a connection error with message `m`.
pub open spec fn is_connection_error(e: Error, m: Seq<char>) -> bool {
    e matches Error::ConnectionError(t) && t@ == m
}

/// A validation error with the text of a literal.
pub fn validation_error(m: &str) -> (e: Error)
    ensures
        is_validation_error(e, m@),
{
    Error::ValidationError(owned(m))
}

/// An operation error with the text of a literal.
pub fn operation_error(m: &str) -> (e: Error)
    ensures
        is_operation_error(e, m@),
{
    Error::OperationError(owned(m))
}

} // verus!
