//! A forwarder that forwards nothing, for systems where no real forwarder
//! can be made.
use vstd::prelude::*;
use crate::input_forwarding::error::InputForwardingError;
use crate::input_forwarding::types::{InputEvent, MonitorConfiguration};

verus! {

/// A forwarder that accepts every event and configuration and replays
/// nothing; it is created disabled and stays so.
pub struct StubInputForwarder {
    enabled: bool,
}

impl StubInputForwarder {
    pub closed spec fn forwarding(&self) -> bool {
        self.enabled
    }

    #[verifier::type_invariant]
    spec fn stays_disabled(&self) -> bool {
        !self.enabled
    }

    /// Create the stub, disabled.
    pub fn new() -> (s: Self)
        ensures
            !s.forwarding(),
    {
        StubInputForwarder { enabled: false }
    }

    /// Accept an event; nothing is replayed.
    pub fn forward_event(&self, event: &InputEvent) -> (res: Result<(), InputForwardingError>)
        ensures
            res is Ok,
    {
        Ok(())
    }

    /// Accepted and ignored: the stub stays disabled.
    pub fn set_enabled(&self, enabled: bool)
        ensures
            !self.forwarding(),
    {
        proof {
            use_type_invariant(self);
        }
    }

    /// Accept any monitor layout.
    pub fn configure_monitors(&mut self, monitors: Vec<MonitorConfiguration>) -> (res: Result<(), InputForwardingError>)
        ensures
            res is Ok,
            !final(self).forwarding(),
    {
        proof {
            use_type_invariant(&*self);
        }
        Ok(())
    }
}

} // verus!
