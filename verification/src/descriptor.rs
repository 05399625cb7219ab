//! Characteristic descriptors: the leaves of the attribute tree.

use vstd::prelude::*;
use crate::chan::{
    handle_channel, handle_result, observe_handle, orphan_handle_sender, parse_handle,
    publish_handle, HandleReceiver, HandleSender,
};
use crate::error::Error;
use crate::flags::CharacteristicDescriptorFlags;
use crate::reject::Reject;
use crate::request::{
    spec_read_descriptor_request, spec_write_descriptor_request, CallFailure, OptionDict,
    ReadDescriptorRequest, WriteDescriptorRequest,
};
use crate::uuidfmt::{format_uuid_hyphenated, spec_uuid_hyphenated};

verus! {

/// Descriptor read capability: protocol-level security flags, with the
/// read handler itself supplied by the embedding layer.
#[derive(Clone, Copy, Debug, PartialEq, Eq, Structural)]
pub struct DescriptorRead {
    /// If set allows clients to read this descriptor.
    pub read: bool,
    /// Require encryption.
    pub encrypt_read: bool,
    /// Require authentication.
    pub encrypt_authenticated_read: bool,
    /// Require security.
    pub secure_read: bool,
}

impl Default for DescriptorRead {
    /// A read capability with every flag cleared.
    fn default() -> (r: Self)
        ensures
            r == (DescriptorRead {
                read: false,
                encrypt_read: false,
                encrypt_authenticated_read: false,
                secure_read: false,
            }),
    {
        DescriptorRead {
            read: false,
            encrypt_read: false,
            encrypt_authenticated_read: false,
            secure_read: false,
        }
    }
}

impl DescriptorRead {
    /// Copies these read flags into an advertised flag word.
    pub fn set_descriptor_flags(&self, f: &mut CharacteristicDescriptorFlags)
        ensures
            *final(f) == (CharacteristicDescriptorFlags {
                read: self.read,
                encrypt_read: self.encrypt_read,
                encrypt_authenticated_read: self.encrypt_authenticated_read,
                secure_read: self.secure_read,
                ..*old(f)
            }),
    {
        f.read = self.read;
        f.encrypt_read = self.encrypt_read;
        f.encrypt_authenticated_read = self.encrypt_authenticated_read;
        f.secure_read = self.secure_read;
    }
}

/// Descriptor write capability: protocol-level security flags, with the
/// write handler itself supplied by the embedding layer.
#[derive(Clone, Copy, Debug, PartialEq, Eq, Structural)]
pub struct DescriptorWrite {
    /// If set allows clients to write this descriptor.
    pub write: bool,
    /// Require encryption.
    pub encrypt_write: bool,
    /// Require authentication.
    pub encrypt_authenticated_write: bool,
    /// Require security.
    pub secure_write: bool,
}

impl Default for DescriptorWrite {
    /// A write capability with every flag cleared.
    fn default() -> (r: Self)
        ensures
            r == (DescriptorWrite {
                write: false,
                encrypt_write: false,
                encrypt_authenticated_write: false,
                secure_write: false,
            }),
    {
        DescriptorWrite {
            write: false,
            encrypt_write: false,
            encrypt_authenticated_write: false,
            secure_write: false,
        }
    }
}

impl DescriptorWrite {
    /// Copies these write flags into an advertised flag word.
    pub fn set_descriptor_flags(&self, f: &mut CharacteristicDescriptorFlags)
        ensures
            *final(f) == (CharacteristicDescriptorFlags {
                write: self.write,
                encrypt_write: self.encrypt_write,
                encrypt_authenticated_write: self.encrypt_authenticated_write,
                secure_write: self.secure_write,
                ..*old(f)
            }),
    {
        f.write = self.write;
        f.encrypt_write = self.encrypt_write;
        f.encrypt_authenticated_write = self.encrypt_authenticated_write;
        f.secure_write = self.secure_write;
    }
}

/// Local characteristic descriptor exposed over the bus.
pub struct Descriptor {
    /// 128-bit descriptor UUID.
    pub uuid: u128,
    /// Descriptor handle; `None` lets the daemon allocate one.
    pub handle: Option<u16>,
    /// Authorize flag.
    pub authorize: bool,
    /// Read capability, absent when the descriptor is not readable.
    pub read: Option<DescriptorRead>,
    /// Write capability, absent when the descriptor is not writable.
    pub write: Option<DescriptorWrite>,
    /// Control handle for the descriptor once it has been registered.
    pub control_handle: DescriptorControlHandle,
}

impl Descriptor {
    /// A pre-assigned handle is never the reserved zero value.
    pub open spec fn wf(&self) -> bool {
        self.handle matches Some(h) ==> h != 0
    }

    /// Copies the descriptor's own flags into an advertised flag word.
    pub fn set_descriptor_flags(&self, f: &mut CharacteristicDescriptorFlags)
        ensures
            *final(f) == (CharacteristicDescriptorFlags { authorize: self.authorize, ..*old(f) }),
    {
        f.authorize = self.authorize;
    }
}

/// The flag word a descriptor advertises: its own flags plus those of
/// each capability it has.
pub open spec fn spec_descriptor_advertised_flags(d: Descriptor) -> CharacteristicDescriptorFlags {
    CharacteristicDescriptorFlags {
        read: d.read matches Some(r) && r.read,
        write: d.write matches Some(w) && w.write,
        encrypt_read: d.read matches Some(r) && r.encrypt_read,
        encrypt_write: d.write matches Some(w) && w.encrypt_write,
        encrypt_authenticated_read: d.read matches Some(r) && r.encrypt_authenticated_read,
        encrypt_authenticated_write: d.write matches Some(w) && w.encrypt_authenticated_write,
        secure_read: d.read matches Some(r) && r.secure_read,
        secure_write: d.write matches Some(w) && w.secure_write,
        authorize: d.authorize,
    }
}

/// An object to control a descriptor once it has been registered.
pub struct DescriptorControl {
    handle_rx: HandleReceiver,
}

impl DescriptorControl {
    /// Gets the assigned handle of the descriptor, or `NotRegistered` if
    /// none has ever been assigned.
    pub fn handle(&self) -> (r: Result<u16, Error>)
        ensures
            r is Err ==> r == Err::<u16, Error>(Error::NotRegistered),
    {
        handle_result(observe_handle(&self.handle_rx))
    }
}

/// A handle to control a descriptor once it has been registered.
pub struct DescriptorControlHandle {
    pub(crate) handle_tx: HandleSender,
}

impl DescriptorControlHandle {
    /// A control handle with no paired control object.
    pub fn new() -> Self {
        DescriptorControlHandle { handle_tx: orphan_handle_sender() }
    }
}

/// Creates a `DescriptorControl` and its associated handle.
pub fn descriptor_control() -> (DescriptorControl, DescriptorControlHandle) {
    let (handle_tx, handle_rx) = handle_channel();
    (DescriptorControl { handle_rx }, DescriptorControlHandle { handle_tx })
}

/// How a descriptor `ReadValue` call is dispatched: a decode failure is
/// an invalid-argument error; a descriptor without a read capability
/// rejects with `NotSupported` and no handler runs; otherwise the decoded
/// request goes to the read handler.
pub open spec fn spec_descriptor_read_call(d: Descriptor, dict: OptionDict) -> Result<
    ReadDescriptorRequest,
    CallFailure,
> {
    match spec_read_descriptor_request(dict) {
        Err(e) => Err(CallFailure::InvalidArguments(e)),
        Ok(req) => if d.read is None {
            Err(CallFailure::Rejected(Reject::NotSupported))
        } else {
            Ok(req)
        },
    }
}

/// How a descriptor `WriteValue` call is dispatched, in the same shape as
/// the read dispatch.
pub open spec fn spec_descriptor_write_call(d: Descriptor, dict: OptionDict) -> Result<
    WriteDescriptorRequest,
    CallFailure,
> {
    match spec_write_descriptor_request(dict) {
        Err(e) => Err(CallFailure::InvalidArguments(e)),
        Ok(req) => if d.write is None {
            Err(CallFailure::Rejected(Reject::NotSupported))
        } else {
            Ok(req)
        },
    }
}

/// A descriptor as published on the bus.
pub struct RegisteredDescriptor {
    /// The registered descriptor definition.
    pub d: Descriptor,
}

impl RegisteredDescriptor {
    /// Wraps a descriptor for publication.  A pre-assigned handle is
    /// published to the control object at once.
    pub fn new(d: Descriptor) -> (r: Self)
        ensures
            r.d == d,
    {
        match d.handle {
            Some(h) => publish_handle(&d.control_handle.handle_tx, Some(h)),
            None => (),
        }
        RegisteredDescriptor { d }
    }

    /// The `UUID` property: the descriptor identity, hyphenated.
    pub fn uuid_property(&self) -> (r: String)
        ensures
            r@ == spec_uuid_hyphenated(self.d.uuid),
    {
        format_uuid_hyphenated(self.d.uuid)
    }

    /// The `Flags` property source: the advertised flag word.
    pub fn advertised_flags(&self) -> (r: CharacteristicDescriptorFlags)
        ensures
            r == spec_descriptor_advertised_flags(self.d),
    {
        let mut f = CharacteristicDescriptorFlags::default();
        self.d.set_descriptor_flags(&mut f);
        match &self.d.read {
            Some(read) => read.set_descriptor_flags(&mut f),
            None => (),
        }
        match &self.d.write {
            Some(write) => write.set_descriptor_flags(&mut f),
            None => (),
        }
        f
    }

    /// The `Handle` property: the pre-assigned handle, zero when the
    /// daemon is to allocate one.
    pub fn handle_property(&self) -> (r: u16)
        ensures
            r == (match self.d.handle {
                Some(h) => h,
                None => 0u16,
            }),
    {
        match self.d.handle {
            Some(h) => h,
            None => 0,
        }
    }

    /// A write to the `Handle` property: publish the daemon's assignment
    /// to the control object (zero clears the assignment).
    pub fn set_handle_property(&self, v: u16) {
        publish_handle(&self.d.control_handle.handle_tx, parse_handle(v));
    }

    /// Dispatches a `ReadValue` call: decodes the options and decides
    /// whether the read handler runs.
    pub fn read_value_call(&self, dict: &OptionDict) -> (r: Result<
        ReadDescriptorRequest,
        CallFailure,
    >)
        ensures
            r == spec_descriptor_read_call(self.d, *dict),
    {
        let req = match ReadDescriptorRequest::from_dict(dict) {
            Err(e) => {
                return Err(CallFailure::InvalidArguments(e));
            },
            Ok(req) => req,
        };
        match &self.d.read {
            None => Err(CallFailure::Rejected(Reject::NotSupported)),
            Some(_) => Ok(req),
        }
    }

    /// Dispatches a `WriteValue` call: decodes the options and decides
    /// whether the write handler runs.
    pub fn write_value_call(&self, dict: &OptionDict) -> (r: Result<
        WriteDescriptorRequest,
        CallFailure,
    >)
        ensures
            r == spec_descriptor_write_call(self.d, *dict),
    {
        let req = match WriteDescriptorRequest::from_dict(dict) {
            Err(e) => {
                return Err(CallFailure::InvalidArguments(e));
            },
            Ok(req) => req,
        };
        match &self.d.write {
            None => Err(CallFailure::Rejected(Reject::NotSupported)),
            Some(_) => Ok(req),
        }
    }
}

} // verus!
