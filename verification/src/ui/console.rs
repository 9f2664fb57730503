use vstd::prelude::*;
use crate::common::text::clone_strings;
use crate::common::types::{is_operation_error, is_validation_error, operation_error, validation_error, Error};
use crate::ui::lifecycle::{fresh, started, stopped, subscribed, StartRefusal, SubscriberState};
use crate::common::text::{split_words, str_eq, trim, trim_text, words};
use crate::domain::events::UserInputEvent;

verus! {

/// Why a list of topics cannot feed the subscriber, if it cannot.
pub open spec fn topics_failure(topics: Seq<Seq<char>>) -> Option<Seq<char>> {
    if topics.len() == 0 {
        Some("Topics list cannot be empty"@)
    } else {
        None
    }
}

/// What the subscriber holds: its topics and where it stands.
pub ghost struct ConsoleUIView {
    pub topics: Seq<Seq<char>>,
    pub state: SubscriberState,
}

/// Console-based user interface: its topics and where it stands.
#[derive(Debug)]
pub struct ConsoleUI {
    topics: Vec<String>,
    state: SubscriberState,
}

impl View for ConsoleUI {
    type V = ConsoleUIView;

    closed spec fn view(&self) -> ConsoleUIView {
        ConsoleUIView { topics: self.topics.deep_view(), state: self.state }
    }
}

impl ConsoleUI {
    /// Creates a new subscriber, stopped and without a callback.
    pub fn new(topics: Vec<String>) -> (r: Result<Self, Error>)
        ensures
            r is Ok <==> topics_failure(topics.deep_view()) is None,
            r matches Err(e) ==> is_validation_error(e, topics_failure(topics.deep_view())->Some_0),
            r matches Ok(s) ==> s@ == (ConsoleUIView { topics: topics.deep_view(), state: fresh() }),
    {
        if topics.len() == 0 {
            return Err(validation_error("Topics list cannot be empty"));
        }
        Ok(ConsoleUI { topics, state: SubscriberState::new() })
    }

    /// Sets the callback; refused while running.
    pub fn subscribe(&mut self) -> (r: Result<(), Error>)
        ensures
            r is Ok <==> subscribed(old(self)@.state) is Some,
            r matches Err(e) ==> is_operation_error(e, "Cannot subscribe while running"@),
            final(self)@.topics == old(self)@.topics,
            r is Ok ==> final(self)@.state == subscribed(old(self)@.state)->Some_0,
            r is Err ==> final(self)@.state == old(self)@.state,
    {
        if !self.state.subscribe() {
            return Err(operation_error("Cannot subscribe while running"));
        }
        Ok(())
    }

    /// Starts the subscriber if it is stopped and has a callback.
    pub fn start(&mut self) -> (r: Result<(), Error>)
        ensures
            r is Ok <==> started(old(self)@.state) is Ok,
            started(old(self)@.state) == Err::<SubscriberState, StartRefusal>(
                StartRefusal::AlreadyRunning,
            ) ==> (r matches Err(e) && is_operation_error(e, "Console UI already running"@)),
            started(old(self)@.state) == Err::<SubscriberState, StartRefusal>(
                StartRefusal::CallbackNotSet,
            ) ==> (r matches Err(e) && is_operation_error(e, "Callback not set"@)),
            final(self)@.topics == old(self)@.topics,
            r is Ok ==> final(self)@.state == started(old(self)@.state)->Ok_0,
            r is Err ==> final(self)@.state == old(self)@.state,
    {
        match self.state.start() {
            Ok(()) => Ok(()),
            Err(StartRefusal::AlreadyRunning) => Err(operation_error("Console UI already running")),
            Err(StartRefusal::CallbackNotSet) => Err(operation_error("Callback not set")),
        }
    }

    /// Stops the subscriber; never refused.
    pub fn stop(&mut self) -> (r: Result<(), Error>)
        ensures
            r is Ok,
            final(self)@ == (ConsoleUIView { state: stopped(old(self)@.state), ..old(self)@ }),
    {
        self.state.stop();
        Ok(())
    }

    /// Whether incoming events are handled; they are dropped while stopped.
    pub fn accepts_events(&self) -> (r: bool)
        ensures
            r == self@.state.running,
    {
        self.state.running
    }

    /// Returns the list of topics this subscriber is interested in
    pub fn get_source_topics(&self) -> (r: Vec<String>)
        ensures
            r.deep_view() == self@.topics,
    {
        clone_strings(&self.topics)
    }

    /// The event that a line typed at the console stands for, if any:
    /// `q` or `quit` quits; `buy <amount>` and `sell <amount>` place orders.
    pub fn parse_command(line: &str) -> (r: Option<UserInputEvent>)
        ensures
            r is Some <==> command_input(line@) is Some,
            r matches Some(e) ==> e@ == command_input(line@)->Some_0,
    {
        let cmd = trim_text(line);
        let c = cmd.as_str();
        if str_eq(c, "q") || str_eq(c, "quit") {
            return Some(UserInputEvent { action: String::from_str("quit"), value: None });
        }
        let (is_buy, is_sell) = (starts_with_text(c, "buy "), starts_with_text(c, "sell "));
        if is_buy || is_sell {
            let parts = split_words(c);
            if parts.len() == 2 {
                let action = if is_buy { String::from_str("buy") } else { String::from_str("sell") };
                let value = parts[1].clone();
                proof {
                    assert(parts.deep_view()[1] == parts@[1]@);
                }
                return Some(UserInputEvent { action, value: Some(value) });
            }
        }
        None
    }
}

/// What a typed line asks for: the action and its argument.
pub open spec fn command_input(line: Seq<char>) -> Option<crate::domain::events::UserInputView> {
    let cmd = trim(line);
    if cmd == "q"@ || cmd == "quit"@ {
        Some(crate::domain::events::UserInputView { action: "quit"@, value: None })
    } else if "buy "@.is_prefix_of(cmd) || "sell "@.is_prefix_of(cmd) {
        if words(cmd).len() == 2 {
            Some(
                crate::domain::events::UserInputView {
                    action: if "buy "@.is_prefix_of(cmd) { "buy"@ } else { "sell"@ },
                    value: Some(words(cmd)[1]),
                },
            )
        } else {
            None
        }
    } else {
        None
    }
}

fn starts_with_text(s: &str, prefix: &str) -> (r: bool)
    ensures
        r == prefix@.is_prefix_of(s@),
{
    let n = prefix.unicode_len();
    if n > s.unicode_len() {
        return false;
    }
    let head = s.substring_char(0, n);
    str_eq(head, prefix)
}

} // verus!
