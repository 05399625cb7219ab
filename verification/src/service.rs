//! Services: the top level of the attribute tree.

use vstd::prelude::*;
use crate::chan::{
    handle_channel, handle_result, observe_handle, orphan_handle_sender, parse_handle,
    publish_handle, HandleReceiver, HandleSender,
};
use crate::characteristic::Characteristic;
use crate::error::Error;
use crate::uuidfmt::{format_uuid_hyphenated, spec_uuid_hyphenated};

verus! {

/// Local service exposed over the bus.
pub struct Service {
    /// 128-bit service UUID.
    pub uuid: u128,
    /// Service handle; `None` lets the daemon allocate one.
    pub handle: Option<u16>,
    /// Whether this service is primary (false means secondary).
    pub primary: bool,
    /// The characteristics this service owns, in declaration order.
    pub characteristics: Vec<Characteristic>,
    /// Control handle for the service once it has been registered.
    pub control_handle: ServiceControlHandle,
}

impl Service {
    /// A pre-assigned handle is never the reserved zero value, and every
    /// owned characteristic is well-formed.
    pub open spec fn wf(&self) -> bool {
        &&& self.handle matches Some(h) ==> h != 0
        &&& forall|i: int|
            0 <= i < self.characteristics@.len() ==> (#[trigger] self.characteristics@[i]).wf()
    }
}

/// An object to control a service once it has been registered.
pub struct ServiceControl {
    handle_rx: HandleReceiver,
}

impl ServiceControl {
    /// Gets the assigned handle of the service, or `NotRegistered` if
    /// none has ever been assigned.
    pub fn handle(&self) -> (r: Result<u16, Error>)
        ensures
            r is Err ==> r == Err::<u16, Error>(Error::NotRegistered),
    {
        handle_result(observe_handle(&self.handle_rx))
    }
}

/// A handle to control a service once it has been registered.
pub struct ServiceControlHandle {
    pub(crate) handle_tx: HandleSender,
}

impl ServiceControlHandle {
    /// A control handle with no paired control object: handles published
    /// through it are observed by nobody.
    pub fn new() -> Self {
        ServiceControlHandle { handle_tx: orphan_handle_sender() }
    }
}

/// Creates a `ServiceControl` and its associated handle.
pub fn service_control() -> (ServiceControl, ServiceControlHandle) {
    let (handle_tx, handle_rx) = handle_channel();
    (ServiceControl { handle_rx }, ServiceControlHandle { handle_tx })
}

/// A service as published on the bus.
pub struct RegisteredService {
    /// The registered service definition.
    pub s: Service,
}

impl RegisteredService {
    /// Wraps a service for publication.  A pre-assigned handle is
    /// published to the control object at once.
    pub fn new(s: Service) -> (r: Self)
        ensures
            r.s == s,
    {
        match s.handle {
            Some(h) => publish_handle(&s.control_handle.handle_tx, Some(h)),
            None => (),
        }
        RegisteredService { s }
    }

    /// The `UUID` property: the service identity, hyphenated.
    pub fn uuid_property(&self) -> (r: String)
        ensures
            r@ == spec_uuid_hyphenated(self.s.uuid),
    {
        format_uuid_hyphenated(self.s.uuid)
    }

    /// The `Handle` property: the pre-assigned handle, zero when the
    /// daemon is to allocate one.
    pub fn handle_property(&self) -> (r: u16)
        ensures
            r == (match self.s.handle {
                Some(h) => h,
                None => 0u16,
            }),
    {
        match self.s.handle {
            Some(h) => h,
            None => 0,
        }
    }

    /// A write to the `Handle` property: the daemon assigned a handle;
    /// publish it to the control object (zero clears the assignment).
    pub fn set_handle_property(&self, v: u16) {
        publish_handle(&self.s.control_handle.handle_tx, parse_handle(v));
    }
}

} // verus!
