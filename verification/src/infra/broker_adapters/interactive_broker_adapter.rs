use vstd::prelude::*;
use crate::common::types::{is_operation_error, is_validation_error, operation_error, Error};
use crate::config::BrokerConfig;
use crate::infra::broker_adapters::base::{
    broker_endpoint, broker_failure, BaseBrokerAdapter, BrokerAdapterImpl,
};

verus! {

/// Interactive Broker adapter: the endpoint and whether it is started.
#[derive(Debug)]
pub struct InteractiveBrokerAdapter {
    base: BrokerAdapterImpl,
    is_running: bool,
}

impl InteractiveBrokerAdapter {
    /// The endpoint the adapter talks to.
    pub closed spec fn api(&self) -> Seq<char> {
        self.base.api()
    }

    /// The topics the adapter publishes to.
    pub closed spec fn sinks(&self) -> Seq<Seq<char>> {
        self.base.sinks()
    }

    /// Whether the adapter is started.
    pub closed spec fn running(&self) -> bool {
        self.is_running
    }

    /// Creates a new InteractiveBrokerAdapter instance, not started.
    pub fn new(config: BrokerConfig) -> (r: Result<Self, Error>)
        ensures
            r is Ok <==> broker_failure(config) is None,
            r matches Err(e) ==> is_validation_error(e, broker_failure(config)->Some_0),
            r matches Ok(a) ==> a.api() == broker_endpoint(config) && !a.running() && a.sinks().len()
                == 0,
    {
        let base = BrokerAdapterImpl::new(config)?;
        Ok(InteractiveBrokerAdapter { base, is_running: false })
    }

    /// Starts the adapter.
    pub fn start(&mut self)
        ensures
            final(self).running(),
            final(self).api() == old(self).api(),
            final(self).sinks() == old(self).sinks(),
    {
        self.is_running = true;
    }

    /// Stops the adapter.
    pub fn stop(&mut self)
        ensures
            !final(self).running(),
            final(self).api() == old(self).api(),
            final(self).sinks() == old(self).sinks(),
    {
        self.is_running = false;
    }

    /// Whether the adapter is started: orders and status queries are
    /// refused until it is.
    pub fn ensure_running(&self) -> (r: Result<(), Error>)
        ensures
            r is Ok <==> self.running(),
            r matches Err(e) ==> is_operation_error(e, "Broker adapter not started"@),
    {
        if !self.is_running {
            return Err(operation_error("Broker adapter not started"));
        }
        Ok(())
    }

    pub fn get_sink_topics(&self) -> (r: Vec<String>)
        ensures
            r.deep_view() == self.sinks(),
    {
        self.base.get_sink_topics()
    }
}

impl BaseBrokerAdapter for InteractiveBrokerAdapter {
    fn get_broker_api(&self) -> (r: String)
        ensures
            r@ == self.api(),
    {
        self.base.get_broker_api()
    }
}

} // verus!
