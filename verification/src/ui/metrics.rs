use vstd::prelude::*;
use crate::common::text::clone_strings;
use crate::common::types::{is_operation_error, is_validation_error, operation_error, validation_error, Error};
use crate::ui::lifecycle::{fresh, started, stopped, subscribed, StartRefusal, SubscriberState};



verus! {

/// Why a list of topics cannot feed the subscriber, if it cannot.
pub open spec fn topics_failure(topics: Seq<Seq<char>>) -> Option<Seq<char>> {
    if topics.len() == 0 {
        Some("Topics list cannot be empty"@)
    } else if exists|i: int| 0 <= i < topics.len() && #[trigger] topics[i].len() == 0 {
        Some("Topic cannot be empty"@)
    } else {
        None
    }
}

/// What the subscriber holds: its topics and where it stands.
pub ghost struct MetricsSubscriberView {
    pub topics: Seq<Seq<char>>,
    pub state: SubscriberState,
}

/// Metrics collector and reporter: its topics and where it stands.
#[derive(Debug)]
pub struct MetricsSubscriber {
    topics: Vec<String>,
    state: SubscriberState,
}

impl View for MetricsSubscriber {
    type V = MetricsSubscriberView;

    closed spec fn view(&self) -> MetricsSubscriberView {
        MetricsSubscriberView { topics: self.topics.deep_view(), state: self.state }
    }
}

impl MetricsSubscriber {
    /// Creates a new subscriber, stopped and without a callback.
    pub fn new(topics: Vec<String>) -> (r: Result<Self, Error>)
        ensures
            r is Ok <==> topics_failure(topics.deep_view()) is None,
            r matches Err(e) ==> is_validation_error(e, topics_failure(topics.deep_view())->Some_0),
            r matches Ok(s) ==> s@ == (MetricsSubscriberView { topics: topics.deep_view(), state: fresh() }),
    {
        if topics.len() == 0 {
            return Err(validation_error("Topics list cannot be empty"));
        }
        let mut i: usize = 0;
        while i < topics.len()
            invariant
                i <= topics@.len(),
                forall|j: int| 0 <= j < i ==> (#[trigger] topics@[j])@.len() > 0,
            decreases topics@.len() - i,
        {
            if topics[i].as_str().unicode_len() == 0 {
                proof {
                    assert(topics.deep_view()[i as int].len() == 0);
                }
                return Err(validation_error("Topic cannot be empty"));
            }
            i = i + 1;
        }
        proof {
            assert forall|j: int| 0 <= j < topics.deep_view().len() implies #[trigger] topics.deep_view()[j].len() != 0 by {
                assert(topics.deep_view()[j] == topics@[j]@);
            }
        }
        Ok(MetricsSubscriber { topics, state: SubscriberState::new() })
    }

    /// Sets the callback; refused while running.
    pub fn subscribe(&mut self) -> (r: Result<(), Error>)
        ensures
            r is Ok <==> subscribed(old(self)@.state) is Some,
            r matches Err(e) ==> is_operation_error(e, "Cannot subscribe while running"@),
            final(self)@.topics == old(self)@.topics,
            r is Ok ==> final(self)@.state == subscribed(old(self)@.state)->Some_0,
            r is Err ==> final(self)@.state == old(self)@.state,
    {
        if !self.state.subscribe() {
            return Err(operation_error("Cannot subscribe while running"));
        }
        Ok(())
    }

    /// Starts the subscriber if it is stopped and has a callback.
    pub fn start(&mut self) -> (r: Result<(), Error>)
        ensures
            r is Ok <==> started(old(self)@.state) is Ok,
            started(old(self)@.state) == Err::<SubscriberState, StartRefusal>(
                StartRefusal::AlreadyRunning,
            ) ==> (r matches Err(e) && is_operation_error(e, "Metrics subscriber already running"@)),
            started(old(self)@.state) == Err::<SubscriberState, StartRefusal>(
                StartRefusal::CallbackNotSet,
            ) ==> (r matches Err(e) && is_operation_error(e, "Callback not set"@)),
            final(self)@.topics == old(self)@.topics,
            r is Ok ==> final(self)@.state == started(old(self)@.state)->Ok_0,
            r is Err ==> final(self)@.state == old(self)@.state,
    {
        match self.state.start() {
            Ok(()) => Ok(()),
            Err(StartRefusal::AlreadyRunning) => Err(operation_error("Metrics subscriber already running")),
            Err(StartRefusal::CallbackNotSet) => Err(operation_error("Callback not set")),
        }
    }

    /// Stops the subscriber; never refused.
    pub fn stop(&mut self) -> (r: Result<(), Error>)
        ensures
            r is Ok,
            final(self)@ == (MetricsSubscriberView { state: stopped(old(self)@.state), ..old(self)@ }),
    {
        self.state.stop();
        Ok(())
    }

    /// Whether incoming events are handled; they are dropped while stopped.
    pub fn accepts_events(&self) -> (r: bool)
        ensures
            r == self@.state.running,
    {
        self.state.running
    }

    /// Returns the list of topics this subscriber is interested in
    pub fn get_source_topics(&self) -> (r: Vec<String>)
        ensures
            r.deep_view() == self@.topics,
    {
        clone_strings(&self.topics)
    }
}

} // verus!
