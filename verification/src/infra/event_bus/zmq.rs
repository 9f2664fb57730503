use vstd::prelude::*;
use crate::common::text::{find_char, first_index, lemma_first_index, owned, str_eq};
use crate::common::types::{is_validation_error, validation_error, Error};

verus! {

/// Number of times a broken connection is tried again.
pub const MAX_RECONNECT_ATTEMPTS: u32 = 3;

/// A topic may carry a message: it is not empty and holds no space.
pub open spec fn topic_failure(topic: Seq<char>) -> Option<Seq<char>> {
    if topic.len() == 0 {
        Some("Topic cannot be empty"@)
    } else if topic.contains(' ') {
        Some("Topic cannot contain spaces"@)
    } else {
        None
    }
}

/// Why an address cannot be used by the event bus, if it cannot.
pub open spec fn address_failure(address: Seq<char>) -> Option<Seq<char>> {
    if address.len() == 0 {
        Some("Address cannot be empty"@)
    } else if !("tcp://"@.is_prefix_of(address)) && !("ipc://"@.is_prefix_of(address)) {
        Some("Invalid address format"@)
    } else {
        None
    }
}

/// The message that carries `data` on `topic`: the topic, a space, the data.
pub open spec fn frame(topic: Seq<char>, data: Seq<char>) -> Seq<char> {
    topic + seq![' '] + data
}

/// What a subscriber to `topic` takes from a message: the text after the
/// first space, when the text before it is the topic.
pub open spec fn frame_payload(message: Seq<char>, topic: Seq<char>) -> Option<Seq<char>> {
    match first_index(message, ' ') {
        Some(p) => if message.take(p) == topic {
            Some(message.skip(p + 1))
        } else {
            None
        },
        None => None,
    }
}

/// What happens after an attempt to reconnect.
#[derive(Debug, Clone, Copy, PartialEq, Eq, Structural)]
pub enum ReconnectStep {
    /// The socket is connected again.
    Connected,
    /// Wait, then make the next attempt.
    Retry,
    /// The last attempt failed: report the error.
    GiveUp,
}

/// The step after reconnect attempt `attempt` (counted from one).
pub open spec fn next_step(attempt: u32, connected: bool) -> ReconnectStep {
    if connected {
        ReconnectStep::Connected
    } else if attempt >= MAX_RECONNECT_ATTEMPTS {
        ReconnectStep::GiveUp
    } else {
        ReconnectStep::Retry
    }
}

/// Event bus over a ZeroMQ address: the address and whether it runs.
#[derive(Debug)]
pub struct ZMQEventBus {
    address: String,
    is_running: bool,
}

fn starts_with(s: &str, prefix: &str) -> (r: bool)
    ensures
        r == prefix@.is_prefix_of(s@),
{
    let n = prefix.unicode_len();
    if n > s.unicode_len() {
        return false;
    }
    let head = s.substring_char(0, n);
    let r = str_eq(head, prefix);
    assert(r == (s@.subrange(0, n as int) == prefix@));
    r
}

impl ZMQEventBus {
    /// The address the bus uses.
    pub closed spec fn address(&self) -> Seq<char> {
        self.address@
    }

    /// Whether the bus runs.
    pub closed spec fn running(&self) -> bool {
        self.is_running
    }

    /// Creates a new event bus on an address, running.
    pub fn new(address: String) -> (r: Result<Self, Error>)
        ensures
            r is Ok <==> address_failure(address@) is None,
            r matches Err(e) ==> is_validation_error(e, address_failure(address@)->Some_0),
            r matches Ok(b) ==> b.address() == address@ && b.running(),
    {
        if address.as_str().unicode_len() == 0 {
            return Err(validation_error("Address cannot be empty"));
        }
        if !starts_with(address.as_str(), "tcp://") && !starts_with(address.as_str(), "ipc://") {
            return Err(validation_error("Invalid address format"));
        }
        Ok(ZMQEventBus { address, is_running: true })
    }

    /// The address the bus uses.
    pub fn get_address(&self) -> (r: &String)
        ensures
            r@ == self.address(),
    {
        &self.address
    }

    /// Whether the bus runs.
    pub fn is_running(&self) -> (r: bool)
        ensures
            r == self.running(),
    {
        self.is_running
    }

    /// Stops all event bus operations
    pub fn shutdown(&mut self) -> (r: Result<(), Error>)
        ensures
            r is Ok,
            !final(self).running(),
            final(self).address() == old(self).address(),
    {
        self.is_running = false;
        Ok(())
    }

    /// Validates a topic string
    pub fn validate_topic(topic: &str) -> (r: Result<(), Error>)
        ensures
            r is Ok <==> topic_failure(topic@) is None,
            r matches Err(e) ==> is_validation_error(e, topic_failure(topic@)->Some_0),
    {
        if topic.unicode_len() == 0 {
            return Err(validation_error("Topic cannot be empty"));
        }
        match find_char(topic, ' ') {
            Some(i) => {
                proof {
                    lemma_first_index(topic@, ' ');
                }
                Err(validation_error("Topic cannot contain spaces"))
            },
            None => {
                proof {
                    lemma_first_index(topic@, ' ');
                }
                Ok(())
            },
        }
    }

    /// A list of topics to subscribe to may not be empty.
    pub fn check_topic_list(topics: &Vec<String>) -> (r: Result<(), Error>)
        ensures
            r is Ok <==> topics@.len() > 0,
            r matches Err(e) ==> is_validation_error(e, "Topics list cannot be empty"@),
    {
        if topics.len() == 0 {
            return Err(validation_error("Topics list cannot be empty"));
        }
        Ok(())
    }

    /// The message that publishes `data` on `topic`.
    pub fn frame_message(topic: &str, data: &str) -> (r: String)
        ensures
            r@ == frame(topic@, data@),
    {
        let r = owned(topic).concat(" ").concat(data);
        proof {
            reveal_strlit(" ");
        }
        assert(r@ =~= frame(topic@, data@));
        r
    }

    /// What a subscriber to `topic` takes from a received message.
    pub fn message_payload(message: &str, topic: &str) -> (r: Option<String>)
        ensures
            r is Some <==> frame_payload(message@, topic@) is Some,
            r matches Some(p) ==> p@ == frame_payload(message@, topic@)->Some_0,
    {
        match find_char(message, ' ') {
            Some(p) => {
                proof {
                    lemma_first_index(message@, ' ');
                }
                let head = message.substring_char(0, p);
                if str_eq(head, topic) {
                    let n = message.unicode_len();
                    Some(String::from_str(message.substring_char(p + 1, n)))
                } else {
                    None
                }
            },
            None => None,
        }
    }

    /// The step after reconnect attempt `attempt` (counted from one).
    pub fn reconnect_step(attempt: u32, connected: bool) -> (r: ReconnectStep)
        ensures
            r == next_step(attempt, connected),
    {
        if connected {
            ReconnectStep::Connected
        } else if attempt >= MAX_RECONNECT_ATTEMPTS {
            ReconnectStep::GiveUp
        } else {
            ReconnectStep::Retry
        }
    }
}

/// A connection that keeps failing is tried exactly
/// `MAX_RECONNECT_ATTEMPTS` times: each failed attempt before the last is
/// retried, the last gives up, and a success ends the attempts at once.
pub proof fn law_reconnect_attempts(attempt: u32)
    requires
        1 <= attempt <= MAX_RECONNECT_ATTEMPTS,
    ensures
        next_step(attempt, true) == ReconnectStep::Connected,
        attempt < MAX_RECONNECT_ATTEMPTS ==> next_step(attempt, false) == ReconnectStep::Retry,
        attempt == MAX_RECONNECT_ATTEMPTS ==> next_step(attempt, false) == ReconnectStep::GiveUp,
{
}

/// A subscriber to a valid topic takes back exactly the data that was
/// published on it.
pub proof fn law_frame_round_trip(topic: Seq<char>, data: Seq<char>)
    requires
        topic_failure(topic) is None,
    ensures
        frame_payload(frame(topic, data), topic) == Some(data),
{
    let m = frame(topic, data);
    assert forall|j: int| 0 <= j < topic.len() implies m[j] != ' ' by {
        assert(m[j] == topic[j]);
        assert(topic.contains(topic[j]));
    }
    crate::common::text::lemma_first_index_at(m, ' ', topic.len() as int);
    assert(m.take(topic.len() as int) =~= topic);
    assert(m.skip(topic.len() as int + 1) =~= data);
}

/// A message published on one valid topic is not taken by a subscriber to
/// another valid topic.
pub proof fn law_frame_other_topic(topic: Seq<char>, other: Seq<char>, data: Seq<char>)
    requires
        topic_failure(topic) is None,
        topic_failure(other) is None,
        topic != other,
    ensures
        frame_payload(frame(topic, data), other) is None,
{
    law_frame_round_trip(topic, data);
    let m = frame(topic, data);
    assert(m.take(topic.len() as int) =~= topic);
}

} // verus!
