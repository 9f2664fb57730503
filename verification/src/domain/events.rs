use vstd::prelude::*;
use crate::common::enums::ExchangeName;

verus! {

/// A command typed by the user.
#[derive(Debug)]
pub struct UserInputEvent {
    pub action: String,
    pub value: Option<String>,
}

/// What a user input holds: the action and its optional argument.
pub ghost struct UserInputView {
    pub action: Seq<char>,
    pub value: Option<Seq<char>>,
}

impl View for UserInputEvent {
    type V = UserInputView;

    open spec fn view(&self) -> UserInputView {
        UserInputView {
            action: self.action@,
            value: match self.value {
                Some(v) => Some(v@),
                None => None,
            },
        }
    }
}

/// The state of an order at the broker.
#[derive(Debug, Clone, Copy, PartialEq, Eq, Structural)]
pub enum OrderStatus {
    New,
    Filled,
    Cancelled,
}

impl OrderStatus {
    /// An order in this state is no longer active.
    pub open spec fn ends_order(self) -> bool {
        self == OrderStatus::Filled || self == OrderStatus::Cancelled
    }

    /// Whether an order in this state is no longer active.
    pub fn is_final(&self) -> (r: bool)
        ensures
            r == self.ends_order(),
    {
        match self {
            OrderStatus::Filled => true,
            OrderStatus::Cancelled => true,
            OrderStatus::New => false,
        }
    }

    /// Display text of the status: the variant's name.
    pub fn to_string(&self) -> (r: String)
        ensures
            r@ == (match self {
                OrderStatus::New => "New"@,
                OrderStatus::Filled => "Filled"@,
                OrderStatus::Cancelled => "Cancelled"@,
            }),
    {
        match self {
            OrderStatus::New => String::from_str("New"),
            OrderStatus::Filled => String::from_str("Filled"),
            OrderStatus::Cancelled => String::from_str("Cancelled"),
        }
    }
}


/// A price read from an exchange, its number kept as the exchange wrote it.
#[derive(Debug)]
pub struct PriceQuote {
    pub exchange: ExchangeName,
    pub pair: String,
    pub price_text: String,
}

/// The prices one exchange message carries.
#[derive(Debug)]
pub struct PriceUpdate {
    pub kraken_data: Option<PriceQuote>,
    pub coinbase_data: Option<PriceQuote>,
}

/// A quote as its exchange, pair and price text.
pub open spec fn quote_view(q: Option<PriceQuote>) -> Option<(ExchangeName, Seq<char>, Seq<char>)> {
    match q {
        Some(q) => Some((q.exchange, q.pair@, q.price_text@)),
        None => None,
    }
}

impl PriceUpdate {
    /// An update that carries no price.
    pub fn empty() -> (r: PriceUpdate)
        ensures
            r.kraken_data is None,
            r.coinbase_data is None,
    {
        PriceUpdate { kraken_data: None, coinbase_data: None }
    }
}

} // verus!
