use vstd::prelude::*;

verus! {

/// Where a subscriber stands: whether it runs and whether it has a callback.
#[derive(Debug, Clone, Copy, PartialEq, Eq, Structural)]
pub struct SubscriberState {
    pub running: bool,
    pub callback_set: bool,
}

/// Why a subscriber refuses to start.
#[derive(Debug, Clone, Copy, PartialEq, Eq, Structural)]
pub enum StartRefusal {
    AlreadyRunning,
    CallbackNotSet,
}

/// A new subscriber: stopped, without a callback.
pub open spec fn fresh() -> SubscriberState {
    SubscriberState { running: false, callback_set: false }
}

/// The state after setting the callback; `None` when it is refused, which
/// it is while the subscriber runs.
pub open spec fn subscribed(s: SubscriberState) -> Option<SubscriberState> {
    if s.running {
        None
    } else {
        Some(SubscriberState { callback_set: true, ..s })
    }
}

/// The state after starting, or why starting is refused.
pub open spec fn started(s: SubscriberState) -> Result<SubscriberState, StartRefusal> {
    if s.running {
        Err(StartRefusal::AlreadyRunning)
    } else if !s.callback_set {
        Err(StartRefusal::CallbackNotSet)
    } else {
        Ok(SubscriberState { running: true, ..s })
    }
}

/// The state after stopping; stopping is never refused.
pub open spec fn stopped(s: SubscriberState) -> SubscriberState {
    SubscriberState { running: false, ..s }
}

impl SubscriberState {
    pub fn new() -> (r: SubscriberState)
        ensures
            r == fresh(),
    {
        SubscriberState { running: false, callback_set: false }
    }

    /// Records that a callback is set, unless the subscriber runs.
    pub fn subscribe(&mut self) -> (ok: bool)
        ensures
            ok == subscribed(*old(self)) is Some,
            ok ==> *final(self) == subscribed(*old(self))->Some_0,
            !ok ==> *final(self) == *old(self),
    {
        if self.running {
            return false;
        }
        self.callback_set = true;
        true
    }

    /// Starts the subscriber if it is stopped and has a callback.
    pub fn start(&mut self) -> (r: Result<(), StartRefusal>)
        ensures
            r matches Err(e) ==> started(*old(self)) == Err::<SubscriberState, StartRefusal>(e)
                && *final(self) == *old(self),
            r is Ok ==> started(*old(self)) == Ok::<SubscriberState, StartRefusal>(*final(self)),
    {
        if self.running {
            return Err(StartRefusal::AlreadyRunning);
        }
        if !self.callback_set {
            return Err(StartRefusal::CallbackNotSet);
        }
        self.running = true;
        Ok(())
    }

    /// Stops the subscriber.
    pub fn stop(&mut self)
        ensures
            *final(self) == stopped(*old(self)),
    {
        self.running = false;
    }
}

/// A new subscriber does not start before a callback is set, and starts
/// once one is.
pub proof fn law_start_needs_callback()
    ensures
        started(fresh()) == Err::<SubscriberState, StartRefusal>(StartRefusal::CallbackNotSet),
        started(subscribed(fresh())->Some_0) is Ok,
{
}

/// A running subscriber refuses a new callback and a second start.
pub proof fn law_running_refuses(s: SubscriberState)
    requires
        started(s) is Ok,
    ensures
        subscribed(started(s)->Ok_0) is None,
        started(started(s)->Ok_0) == Err::<SubscriberState, StartRefusal>(
            StartRefusal::AlreadyRunning,
        ),
{
}

/// Stopping keeps the callback, so a stopped subscriber can start again
/// and can take a new callback.
pub proof fn law_stop_allows_restart(s: SubscriberState)
    requires
        started(s) is Ok,
    ensures
        !stopped(started(s)->Ok_0).running,
        started(stopped(started(s)->Ok_0)) is Ok,
        subscribed(stopped(started(s)->Ok_0)) is Some,
{
}

} // verus!
