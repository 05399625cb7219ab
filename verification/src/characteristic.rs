//! Characteristics: capability description, dispatch of incoming calls,
//! and the stream-mode negotiation.

use vstd::prelude::*;
use crate::chan::{
    handle_channel, handle_result, observe_handle, orphan_handle_sender, parse_handle,
    publish_handle, HandleReceiver, HandleSender,
};
use crate::descriptor::Descriptor;
use crate::error::Error;
use crate::flags::CharacteristicFlags;
use crate::notify::CharacteristicNotifier;
use crate::reject::Reject;
use crate::request::{
    spec_acquire_request, spec_read_request, spec_write_request, CallFailure,
    CharacteristicAcquireRequest, CharacteristicReadRequest, CharacteristicWriteRequest,
    OptionDict,
};
use crate::uuidfmt::{format_uuid_hyphenated, spec_uuid_hyphenated};

verus! {

/// Characteristic read capability: protocol-level security flags, with
/// the read handler itself supplied by the embedding layer.
#[derive(Clone, Copy, Debug, PartialEq, Eq, Structural)]
pub struct CharacteristicRead {
    /// If set allows clients to read this characteristic.
    pub read: bool,
    /// Require encryption.
    pub encrypt_read: bool,
    /// Require authentication.
    pub encrypt_authenticated_read: bool,
    /// Require security.
    pub secure_read: bool,
}

impl Default for CharacteristicRead {
    /// A read capability with every flag cleared.
    fn default() -> (r: Self)
        ensures
            r == (CharacteristicRead {
                read: false,
                encrypt_read: false,
                encrypt_authenticated_read: false,
                secure_read: false,
            }),
    {
        CharacteristicRead {
            read: false,
            encrypt_read: false,
            encrypt_authenticated_read: false,
            secure_read: false,
        }
    }
}

impl CharacteristicRead {
    /// Copies these read flags into an advertised flag word.
    pub fn set_characteristic_flags(&self, f: &mut CharacteristicFlags)
        ensures
            *final(f) == (CharacteristicFlags {
                read: self.read,
                encrypt_read: self.encrypt_read,
                encrypt_authenticated_read: self.encrypt_authenticated_read,
                secure_read: self.secure_read,
                ..*old(f)
            }),
    {
        f.read = self.read;
        f.encrypt_read = self.encrypt_read;
        f.encrypt_authenticated_read = self.encrypt_authenticated_read;
        f.secure_read = self.secure_read;
    }
}

/// How writes reach a characteristic: through the write handler, called
/// once per request, or over a raw byte stream acquired by the daemon.
#[derive(Clone, Copy, Debug, PartialEq, Eq, Structural)]
pub enum CharacteristicWriteMethod {
    /// Call the write handler for each write request.
    Fun,
    /// Provide written data over an acquired byte stream.
    Io,
}

impl Default for CharacteristicWriteMethod {
    /// Writes go through the handler unless stream mode is chosen.
    fn default() -> (r: Self)
        ensures
            r == CharacteristicWriteMethod::Fun,
    {
        CharacteristicWriteMethod::Fun
    }
}

/// Characteristic write capability.
#[derive(Clone, Copy, Debug, PartialEq, Eq, Structural)]
pub struct CharacteristicWrite {
    /// If set allows clients to use the Write Command operation.
    pub write: bool,
    /// If set allows clients to use the Write Request/Response operation.
    pub write_without_response: bool,
    /// If set allows clients to use the Reliable Writes procedure.
    pub reliable_write: bool,
    /// If set allows clients to use the Signed Write Without Response
    /// procedure.
    pub authenticated_signed_writes: bool,
    /// Require encryption.
    pub encrypt_write: bool,
    /// Require authentication.
    pub encrypt_authenticated_write: bool,
    /// Require security.
    pub secure_write: bool,
    /// Write value method.
    pub method: CharacteristicWriteMethod,
}

impl Default for CharacteristicWrite {
    /// A write capability with every flag cleared, handler mode.
    fn default() -> (r: Self)
        ensures
            r == (CharacteristicWrite {
                write: false,
                write_without_response: false,
                reliable_write: false,
                authenticated_signed_writes: false,
                encrypt_write: false,
                encrypt_authenticated_write: false,
                secure_write: false,
                method: CharacteristicWriteMethod::Fun,
            }),
    {
        CharacteristicWrite {
            write: false,
            write_without_response: false,
            reliable_write: false,
            authenticated_signed_writes: false,
            encrypt_write: false,
            encrypt_authenticated_write: false,
            secure_write: false,
            method: CharacteristicWriteMethod::Fun,
        }
    }
}

impl CharacteristicWrite {
    /// Copies these write flags into an advertised flag word.
    pub fn set_characteristic_flags(&self, f: &mut CharacteristicFlags)
        ensures
            *final(f) == (CharacteristicFlags {
                write: self.write,
                write_without_response: self.write_without_response,
                reliable_write: self.reliable_write,
                authenticated_signed_writes: self.authenticated_signed_writes,
                encrypt_write: self.encrypt_write,
                encrypt_authenticated_write: self.encrypt_authenticated_write,
                secure_write: self.secure_write,
                ..*old(f)
            }),
    {
        f.write = self.write;
        f.write_without_response = self.write_without_response;
        f.reliable_write = self.reliable_write;
        f.authenticated_signed_writes = self.authenticated_signed_writes;
        f.encrypt_write = self.encrypt_write;
        f.encrypt_authenticated_write = self.encrypt_authenticated_write;
        f.secure_write = self.secure_write;
    }
}

/// How notifications leave a characteristic: through the notify handler,
/// called once per session start, or over a raw byte stream.
#[derive(Clone, Copy, Debug, PartialEq, Eq, Structural)]
pub enum CharacteristicNotifyMethod {
    /// Call the notify handler when a client starts a session.
    Fun,
    /// Write notification data over an acquired byte stream.
    Io,
}

impl Default for CharacteristicNotifyMethod {
    /// Notifications go through the handler unless stream mode is chosen.
    fn default() -> (r: Self)
        ensures
            r == CharacteristicNotifyMethod::Fun,
    {
        CharacteristicNotifyMethod::Fun
    }
}

/// Characteristic notify capability.
#[derive(Clone, Copy, Debug, PartialEq, Eq, Structural)]
pub struct CharacteristicNotify {
    /// If set allows the client to use the Handle Value Notification
    /// operation.
    pub notify: bool,
    /// If set allows the client to use the Handle Value
    /// Indication/Confirmation operation.
    ///
    /// Confirmations are awaited only when this is set and `notify` is
    /// not.
    pub indicate: bool,
    /// Notification and indication method.
    pub method: CharacteristicNotifyMethod,
}

impl Default for CharacteristicNotify {
    /// A notify capability with every flag cleared, handler mode.
    fn default() -> (r: Self)
        ensures
            r == (CharacteristicNotify {
                notify: false,
                indicate: false,
                method: CharacteristicNotifyMethod::Fun,
            }),
    {
        CharacteristicNotify {
            notify: false,
            indicate: false,
            method: CharacteristicNotifyMethod::Fun,
        }
    }
}

impl CharacteristicNotify {
    /// Copies these notify flags into an advertised flag word.
    pub fn set_characteristic_flags(&self, f: &mut CharacteristicFlags)
        ensures
            *final(f) == (CharacteristicFlags {
                notify: self.notify,
                indicate: self.indicate,
                ..*old(f)
            }),
    {
        f.notify = self.notify;
        f.indicate = self.indicate;
    }
}

/// Local characteristic exposed over the bus.
pub struct Characteristic {
    /// 128-bit characteristic UUID.
    pub uuid: u128,
    /// Characteristic handle; `None` lets the daemon allocate one.
    pub handle: Option<u16>,
    /// If set, permits broadcasts of the characteristic value.
    pub broadcast: bool,
    /// If set a client can write the user description descriptor.
    pub writable_auxiliaries: bool,
    /// Authorize flag.
    pub authorize: bool,
    /// The descriptors this characteristic owns, in declaration order.
    pub descriptors: Vec<Descriptor>,
    /// Read capability, absent when the characteristic is not readable.
    pub read: Option<CharacteristicRead>,
    /// Write capability, absent when the characteristic is not writable.
    pub write: Option<CharacteristicWrite>,
    /// Notify capability, absent when the characteristic cannot notify.
    pub notify: Option<CharacteristicNotify>,
    /// Control handle for the characteristic once it has been registered.
    pub control_handle: CharacteristicControlHandle,
}

impl Characteristic {
    /// A pre-assigned handle is never the reserved zero value, and every
    /// owned descriptor is well-formed.
    pub open spec fn wf(&self) -> bool {
        &&& self.handle matches Some(h) ==> h != 0
        &&& forall|i: int|
            0 <= i < self.descriptors@.len() ==> (#[trigger] self.descriptors@[i]).wf()
    }

    /// Copies the characteristic's own flags into an advertised flag
    /// word.
    pub fn set_characteristic_flags(&self, f: &mut CharacteristicFlags)
        ensures
            *final(f) == (CharacteristicFlags {
                broadcast: self.broadcast,
                writable_auxiliaries: self.writable_auxiliaries,
                authorize: self.authorize,
                ..*old(f)
            }),
    {
        f.broadcast = self.broadcast;
        f.writable_auxiliaries = self.writable_auxiliaries;
        f.authorize = self.authorize;
    }
}

/// The write capability is present and in stream mode.
pub open spec fn spec_write_method_io(c: Characteristic) -> bool {
    c.write matches Some(w) && w.method is Io
}

/// The notify capability is present and in stream mode.
pub open spec fn spec_notify_method_io(c: Characteristic) -> bool {
    c.notify matches Some(n) && n.method is Io
}

/// The flag word a characteristic advertises: its own flags plus those
/// of each capability it has.
pub open spec fn spec_characteristic_advertised_flags(c: Characteristic) -> CharacteristicFlags {
    CharacteristicFlags {
        broadcast: c.broadcast,
        read: c.read matches Some(r) && r.read,
        write_without_response: c.write matches Some(w) && w.write_without_response,
        write: c.write matches Some(w) && w.write,
        notify: c.notify matches Some(n) && n.notify,
        indicate: c.notify matches Some(n) && n.indicate,
        authenticated_signed_writes: c.write matches Some(w) && w.authenticated_signed_writes,
        reliable_write: c.write matches Some(w) && w.reliable_write,
        writable_auxiliaries: c.writable_auxiliaries,
        encrypt_read: c.read matches Some(r) && r.encrypt_read,
        encrypt_write: c.write matches Some(w) && w.encrypt_write,
        encrypt_authenticated_read: c.read matches Some(r) && r.encrypt_authenticated_read,
        encrypt_authenticated_write: c.write matches Some(w) && w.encrypt_authenticated_write,
        secure_read: c.read matches Some(r) && r.secure_read,
        secure_write: c.write matches Some(w) && w.secure_write,
        authorize: c.authorize,
    }
}

/// An object to control a characteristic once it has been registered.
///
/// The stream-mode session queues (the next write request, the next
/// notification stream) are owned by the embedding layer, which awaits
/// them and maps what a queue hands back through
/// [`session_result`].
pub struct CharacteristicControl {
    handle_rx: HandleReceiver,
}

impl CharacteristicControl {
    /// Gets the assigned handle of the characteristic, or
    /// `NotRegistered` if none has ever been assigned.
    pub fn handle(&self) -> (r: Result<u16, Error>)
        ensures
            r is Err ==> r == Err::<u16, Error>(Error::NotRegistered),
    {
        handle_result(observe_handle(&self.handle_rx))
    }
}

/// What a closed or live session queue hands the awaiting control
/// object: the next session value, or `NotRegistered` once the
/// registered characteristic (the sending side) is gone.
pub fn session_result<T>(received: Option<T>) -> (r: Result<T, Error>)
    ensures
        r == (match received {
            Some(v) => Ok::<T, Error>(v),
            None => Err(Error::NotRegistered),
        }),
{
    match received {
        Some(v) => Ok(v),
        None => Err(Error::NotRegistered),
    }
}

/// A handle to control a characteristic once it has been registered.
pub struct CharacteristicControlHandle {
    /// The sender half of the characteristic's handle cell.
    pub handle_tx: HandleSender,
    /// The owner retained the queue on which stream-mode write requests
    /// are delivered.
    pub write_request_retained: bool,
    /// The owner retained the queue on which stream-mode notification
    /// sessions are delivered.
    pub notify_writer_retained: bool,
}

impl CharacteristicControlHandle {
    /// A control handle with no paired control object: no session queue
    /// is retained, so stream-mode capabilities are disabled at
    /// registration.
    pub fn new() -> (r: Self)
        ensures
            !r.write_request_retained,
            !r.notify_writer_retained,
    {
        CharacteristicControlHandle {
            handle_tx: orphan_handle_sender(),
            write_request_retained: false,
            notify_writer_retained: false,
        }
    }
}

/// Creates a `CharacteristicControl` and its associated handle.
pub fn characteristic_control() -> (r: (CharacteristicControl, CharacteristicControlHandle))
    ensures
        r.1.write_request_retained,
        r.1.notify_writer_retained,
{
    let (handle_tx, handle_rx) = handle_channel();
    (
        CharacteristicControl { handle_rx },
        CharacteristicControlHandle {
            handle_tx,
            write_request_retained: true,
            notify_writer_retained: true,
        },
    )
}

/// What registration makes of a characteristic: a stream-mode capability
/// whose session queue was not retained is silently disabled, never
/// advertised; a retained queue serves no purpose unless the matching
/// capability is in stream mode, so retention is collapsed to the
/// conjunction.
pub open spec fn spec_collapse(c: Characteristic) -> Characteristic {
    Characteristic {
        control_handle: CharacteristicControlHandle {
            write_request_retained: c.control_handle.write_request_retained
                && spec_write_method_io(c),
            notify_writer_retained: c.control_handle.notify_writer_retained
                && spec_notify_method_io(c),
            ..c.control_handle
        },
        ..c
    }
}

/// How a `ReadValue` call is dispatched: a decode failure is an
/// invalid-argument error; a characteristic without a read capability
/// rejects with `NotSupported` and no handler runs; otherwise the
/// decoded request goes to the read handler.
pub open spec fn spec_characteristic_read_call(c: Characteristic, dict: OptionDict) -> Result<
    CharacteristicReadRequest,
    CallFailure,
> {
    match spec_read_request(dict) {
        Err(e) => Err(CallFailure::InvalidArguments(e)),
        Ok(req) => if c.read is None {
            Err(CallFailure::Rejected(Reject::NotSupported))
        } else {
            Ok(req)
        },
    }
}

/// How a `WriteValue` call is dispatched: only a write capability in
/// handler mode accepts it; stream-mode writes belong to `AcquireWrite`
/// and are rejected here, as is a missing capability.
pub open spec fn spec_characteristic_write_call(c: Characteristic, dict: OptionDict) -> Result<
    CharacteristicWriteRequest,
    CallFailure,
> {
    match spec_write_request(dict) {
        Err(e) => Err(CallFailure::InvalidArguments(e)),
        Ok(req) => if c.write matches Some(w) && w.method is Fun {
            Ok(req)
        } else {
            Err(CallFailure::Rejected(Reject::NotSupported))
        },
    }
}

/// How a `StartNotify` call is dispatched: only a notify capability in
/// handler mode accepts it (stream-mode sessions start through
/// `AcquireNotify` instead), and the session confirms each emission
/// exactly when indication is in use alone.
pub open spec fn spec_start_notify_call(c: Characteristic) -> Result<
    CharacteristicNotifier,
    Reject,
> {
    match c.notify {
        Some(n) => if n.method is Fun {
            Ok(CharacteristicNotifier::spec_fresh(n.indicate && !n.notify))
        } else {
            Err(Reject::NotSupported)
        },
        None => Err(Reject::NotSupported),
    }
}

/// How an `AcquireWrite` call is dispatched: a decode failure is an
/// invalid-argument error; without a retained stream-mode write queue
/// the call rejects with `NotSupported`; otherwise the request — whose
/// transfer unit becomes the negotiated one — is handed to whoever
/// awaits write requests.
pub open spec fn spec_acquire_write_call(c: Characteristic, dict: OptionDict) -> Result<
    CharacteristicAcquireRequest,
    CallFailure,
> {
    match spec_acquire_request(dict) {
        Err(e) => Err(CallFailure::InvalidArguments(e)),
        Ok(req) => if c.control_handle.write_request_retained {
            Ok(req)
        } else {
            Err(CallFailure::Rejected(Reject::NotSupported))
        },
    }
}

/// How an `AcquireNotify` call is dispatched, in the same shape as
/// `AcquireWrite`; the daemon has already committed to the session, so
/// there is no accept/reject step afterwards.
pub open spec fn spec_acquire_notify_call(c: Characteristic, dict: OptionDict) -> Result<
    CharacteristicAcquireRequest,
    CallFailure,
> {
    match spec_acquire_request(dict) {
        Err(e) => Err(CallFailure::InvalidArguments(e)),
        Ok(req) => if c.control_handle.notify_writer_retained {
            Ok(req)
        } else {
            Err(CallFailure::Rejected(Reject::NotSupported))
        },
    }
}

/// A characteristic as published on the bus.
pub struct RegisteredCharacteristic {
    /// The registered characteristic definition, after capability
    /// collapse.
    pub c: Characteristic,
}

impl RegisteredCharacteristic {
    /// Wraps a characteristic for publication.  A pre-assigned handle is
    /// published to the control object at once, and stream-mode
    /// capabilities without a retained session queue are disabled.
    pub fn new(c: Characteristic) -> (r: Self)
        ensures
            r.c == spec_collapse(c),
    {
        match c.handle {
            Some(h) => publish_handle(&c.control_handle.handle_tx, Some(h)),
            None => (),
        }
        let mut c = c;
        let keep_write = match &c.write {
            Some(w) => match w.method {
                CharacteristicWriteMethod::Io => true,
                CharacteristicWriteMethod::Fun => false,
            },
            None => false,
        };
        let keep_notify = match &c.notify {
            Some(n) => match n.method {
                CharacteristicNotifyMethod::Io => true,
                CharacteristicNotifyMethod::Fun => false,
            },
            None => false,
        };
        if !keep_write {
            c.control_handle.write_request_retained = false;
        }
        if !keep_notify {
            c.control_handle.notify_writer_retained = false;
        }
        RegisteredCharacteristic { c }
    }

    /// The `UUID` property: the characteristic identity, hyphenated.
    pub fn uuid_property(&self) -> (r: String)
        ensures
            r@ == spec_uuid_hyphenated(self.c.uuid),
    {
        format_uuid_hyphenated(self.c.uuid)
    }

    /// The `Flags` property source: the advertised flag word.
    pub fn advertised_flags(&self) -> (r: CharacteristicFlags)
        ensures
            r == spec_characteristic_advertised_flags(self.c),
    {
        let mut f = CharacteristicFlags::default();
        self.c.set_characteristic_flags(&mut f);
        match &self.c.read {
            Some(read) => read.set_characteristic_flags(&mut f),
            None => (),
        }
        match &self.c.write {
            Some(write) => write.set_characteristic_flags(&mut f),
            None => (),
        }
        match &self.c.notify {
            Some(notify) => notify.set_characteristic_flags(&mut f),
            None => (),
        }
        f
    }

    /// The `Handle` property: the pre-assigned handle, zero when the
    /// daemon is to allocate one.
    pub fn handle_property(&self) -> (r: u16)
        ensures
            r == (match self.c.handle {
                Some(h) => h,
                None => 0u16,
            }),
    {
        match self.c.handle {
            Some(h) => h,
            None => 0,
        }
    }

    /// A write to the `Handle` property: publish the daemon's assignment
    /// to the control object (zero clears the assignment).
    pub fn set_handle_property(&self, v: u16) {
        publish_handle(&self.c.control_handle.handle_tx, parse_handle(v));
    }

    /// The `WriteAcquired` property: `false` while a stream-mode write
    /// is enabled but not yet engaged, and omitted entirely when the
    /// capability is disabled.
    pub fn write_acquired_property(&self) -> (r: Option<bool>)
        ensures
            r == (if self.c.control_handle.write_request_retained {
                Some(false)
            } else {
                None::<bool>
            }),
    {
        if self.c.control_handle.write_request_retained {
            Some(false)
        } else {
            None
        }
    }

    /// The `NotifyAcquired` property, in the same shape as
    /// `WriteAcquired`.
    pub fn notify_acquired_property(&self) -> (r: Option<bool>)
        ensures
            r == (if self.c.control_handle.notify_writer_retained {
                Some(false)
            } else {
                None::<bool>
            }),
    {
        if self.c.control_handle.notify_writer_retained {
            Some(false)
        } else {
            None
        }
    }

    /// Dispatches a `ReadValue` call: decodes the options and decides
    /// whether the read handler runs.
    pub fn read_value_call(&self, dict: &OptionDict) -> (r: Result<
        CharacteristicReadRequest,
        CallFailure,
    >)
        ensures
            r == spec_characteristic_read_call(self.c, *dict),
    {
        let req = match CharacteristicReadRequest::from_dict(dict) {
            Err(e) => {
                return Err(CallFailure::InvalidArguments(e));
            },
            Ok(req) => req,
        };
        match &self.c.read {
            None => Err(CallFailure::Rejected(Reject::NotSupported)),
            Some(_) => Ok(req),
        }
    }

    /// Dispatches a `WriteValue` call: decodes the options and decides
    /// whether the write handler runs; stream-mode writes are rejected
    /// here.
    pub fn write_value_call(&self, dict: &OptionDict) -> (r: Result<
        CharacteristicWriteRequest,
        CallFailure,
    >)
        ensures
            r == spec_characteristic_write_call(self.c, *dict),
    {
        let req = match CharacteristicWriteRequest::from_dict(dict) {
            Err(e) => {
                return Err(CallFailure::InvalidArguments(e));
            },
            Ok(req) => req,
        };
        match &self.c.write {
            Some(w) => match w.method {
                CharacteristicWriteMethod::Fun => Ok(req),
                CharacteristicWriteMethod::Io => Err(
                    CallFailure::Rejected(Reject::NotSupported),
                ),
            },
            None => Err(CallFailure::Rejected(Reject::NotSupported)),
        }
    }

    /// Dispatches a `StartNotify` call: a handler-mode notify capability
    /// starts a fresh session whose notifier is handed to the user's
    /// handler; anything else rejects with `NotSupported`.
    pub fn start_notify_call(&self) -> (r: Result<CharacteristicNotifier, Reject>)
        ensures
            r == spec_start_notify_call(self.c),
            r matches Ok(s) ==> s.wf(),
    {
        match &self.c.notify {
            Some(n) => match n.method {
                CharacteristicNotifyMethod::Fun => Ok(
                    CharacteristicNotifier::new(n.indicate && !n.notify),
                ),
                CharacteristicNotifyMethod::Io => Err(Reject::NotSupported),
            },
            None => Err(Reject::NotSupported),
        }
    }

    /// Dispatches an `AcquireWrite` call: decodes the options and, where
    /// stream-mode write is enabled, yields the request whose transfer
    /// unit becomes the negotiated one.
    pub fn acquire_write_call(&self, dict: &OptionDict) -> (r: Result<
        CharacteristicAcquireRequest,
        CallFailure,
    >)
        ensures
            r == spec_acquire_write_call(self.c, *dict),
    {
        let req = match CharacteristicAcquireRequest::from_dict(dict) {
            Err(e) => {
                return Err(CallFailure::InvalidArguments(e));
            },
            Ok(req) => req,
        };
        if self.c.control_handle.write_request_retained {
            Ok(req)
        } else {
            Err(CallFailure::Rejected(Reject::NotSupported))
        }
    }

    /// Dispatches an `AcquireNotify` call, in the same shape as
    /// `AcquireWrite`.
    pub fn acquire_notify_call(&self, dict: &OptionDict) -> (r: Result<
        CharacteristicAcquireRequest,
        CallFailure,
    >)
        ensures
            r == spec_acquire_notify_call(self.c, *dict),
    {
        let req = match CharacteristicAcquireRequest::from_dict(dict) {
            Err(e) => {
                return Err(CallFailure::InvalidArguments(e));
            },
            Ok(req) => req,
        };
        if self.c.control_handle.notify_writer_retained {
            Ok(req)
        } else {
            Err(CallFailure::Rejected(Reject::NotSupported))
        }
    }
}

/// Law: a `ReadValue` call against a characteristic with no read
/// capability always rejects with `NotSupported` — on every decodable
/// option dictionary the dispatch yields no request, so no handler is
/// ever invoked.
pub proof fn lemma_read_without_capability_rejected(c: Characteristic, dict: OptionDict)
    requires
        c.read is None,
        spec_read_request(dict) is Ok,
    ensures
        spec_characteristic_read_call(c, dict) == Err::<
            CharacteristicReadRequest,
            CallFailure,
        >(CallFailure::Rejected(Reject::NotSupported)),
{
}

/// Law: an `AcquireWrite` call against a characteristic whose
/// stream-mode write is disabled rejects with `NotSupported`, whatever
/// write capability it advertises; with stream mode enabled the call
/// succeeds and the negotiated transfer unit equals the requested one.
pub proof fn lemma_acquire_write_negotiation(c: Characteristic, dict: OptionDict)
    requires
        spec_acquire_request(dict) is Ok,
    ensures
        !c.control_handle.write_request_retained ==> spec_acquire_write_call(c, dict) == Err::<
            CharacteristicAcquireRequest,
            CallFailure,
        >(CallFailure::Rejected(Reject::NotSupported)),
        c.control_handle.write_request_retained ==> (spec_acquire_write_call(c, dict) matches Ok(a)
            && a.mtu == spec_acquire_request(dict)->Ok_0.mtu),
{
}

} // verus!
