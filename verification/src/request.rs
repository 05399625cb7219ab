//! Incoming request decoding.
//!
//! The daemon hands each read, write or acquire call an option dictionary.
//! The embedding layer lifts the handful of keys this framework consumes
//! into an [`OptionDict`] of plain values; decoding them into the typed
//! request structs — with their defaults, their required fields and the
//! treatment of unrecognized values — happens here.  A decode failure is a
//! local invalid-argument error and never reaches a user handler.

use vstd::prelude::*;

verus! {

/// Physical transport of a connection.
#[derive(Clone, Copy, Debug, PartialEq, Eq, Structural)]
pub enum LinkType {
    /// Basic Rate / Enhanced Data Rate.
    BrEdr,
    /// Low Energy.
    Le,
}

/// How a `"link"` value is read: the two known transport names parse,
/// anything else is ignored rather than being an error.
pub open spec fn spec_parse_link(s: Seq<char>) -> Option<LinkType> {
    if s == "BR/EDR"@ {
        Some(LinkType::BrEdr)
    } else if s == "LE"@ {
        Some(LinkType::Le)
    } else {
        None
    }
}

impl LinkType {
    /// Parses a transport name; unrecognized names yield `None`.
    pub fn parse(s: &String) -> (r: Option<LinkType>)
        ensures
            r == spec_parse_link(s@),
    {
        if *s == String::from_str("BR/EDR") {
            Some(LinkType::BrEdr)
        } else if *s == String::from_str("LE") {
            Some(LinkType::Le)
        } else {
            None
        }
    }
}

/// Write operation requested by the remote device.
#[derive(Clone, Copy, Debug, PartialEq, Eq, Structural)]
pub enum WriteValueType {
    /// Write without response.
    Command,
    /// Write with required response.
    Request,
    /// Reliable write procedure.
    Reliable,
}

/// How a `"type"` value is read; an unrecognized name is a decode error.
pub open spec fn spec_parse_write_type(s: Seq<char>) -> Option<WriteValueType> {
    if s == "command"@ {
        Some(WriteValueType::Command)
    } else if s == "request"@ {
        Some(WriteValueType::Request)
    } else if s == "reliable"@ {
        Some(WriteValueType::Reliable)
    } else {
        None
    }
}

impl Default for WriteValueType {
    /// A write with no stated operation kind is a write command.
    fn default() -> (r: Self)
        ensures
            r == WriteValueType::Command,
    {
        WriteValueType::Command
    }
}

impl WriteValueType {
    /// Parses a write operation name; unrecognized names yield `None`.
    pub fn parse(s: &String) -> (r: Option<WriteValueType>)
        ensures
            r == spec_parse_write_type(s@),
    {
        if *s == String::from_str("command") {
            Some(WriteValueType::Command)
        } else if *s == String::from_str("request") {
            Some(WriteValueType::Request)
        } else if *s == String::from_str("reliable") {
            Some(WriteValueType::Reliable)
        } else {
            None
        }
    }
}

/// The option-dictionary keys this framework consumes, lifted to plain
/// values.  A field is `None` when the key is absent from the incoming
/// dictionary (or its value has the wrong type, which the bus layer treats
/// the same way).
#[derive(Clone, Debug)]
pub struct OptionDict {
    /// `"offset"`: start offset of the access.
    pub offset: Option<u16>,
    /// `"mtu"`: exchanged maximum transfer unit.
    pub mtu: Option<u16>,
    /// `"link"`: transport name.
    pub link: Option<String>,
    /// `"type"`: write operation name.
    pub op_type: Option<String>,
    /// `"prepare-authorize"`: prepare authorization request.
    pub prepare_authorize: Option<bool>,
}

impl OptionDict {
    /// A dictionary with no keys at all.
    pub fn empty() -> (r: Self)
        ensures
            r.offset is None,
            r.mtu is None,
            r.link is None,
            r.op_type is None,
            r.prepare_authorize is None,
    {
        OptionDict { offset: None, mtu: None, link: None, op_type: None, prepare_authorize: None }
    }
}

/// Failure to decode an option dictionary: a required key was absent, or a
/// value was unrecognized.  Reported to the caller as an invalid-argument
/// error; never surfaced as a [`crate::reject::Reject`].
#[derive(Clone, Copy, Debug, PartialEq, Eq, Structural)]
pub enum DecodeError {
    /// The required `"offset"` key is absent.
    MissingOffset,
    /// The required `"mtu"` key is absent.
    MissingMtu,
    /// The required `"prepare-authorize"` key is absent.
    MissingPrepareAuthorize,
    /// The `"type"` value names no known write operation.
    InvalidWriteType,
}

/// The link field of a decoded request: absent stays absent, and an
/// unrecognized name is ignored rather than rejected.
pub open spec fn spec_opt_link(l: Option<String>) -> Option<LinkType> {
    match l {
        None => None,
        Some(s) => spec_parse_link(s@),
    }
}

/// An absent offset defaults to zero.
pub open spec fn spec_offset_or_zero(o: Option<u16>) -> u16 {
    match o {
        None => 0u16,
        Some(v) => v,
    }
}

/// Parses the optional link field of `dict`.
fn decode_link(dict: &OptionDict) -> (r: Option<LinkType>)
    ensures
        r == spec_opt_link(dict.link),
{
    match &dict.link {
        None => None,
        Some(s) => LinkType::parse(s),
    }
}

/// How an incoming bus call fails: either a rejection the user's handler
/// or the dispatch rules chose, carried verbatim to the remote caller, or
/// an invalid-argument error from decoding the option dictionary.
#[derive(Clone, Copy, Debug, PartialEq, Eq, Structural)]
pub enum CallFailure {
    /// The call is rejected; the remote caller sees the specific reason.
    Rejected(crate::reject::Reject),
    /// The option dictionary could not be decoded; reported locally as an
    /// invalid-argument error.
    InvalidArguments(DecodeError),
}

/// Lifts a handler outcome into the call's reply: a success is returned
/// as is, and a rejection is carried to the remote caller as the call's
/// error, with its specific reason observable.
pub fn handler_reply<T>(outcome: Result<T, crate::reject::Reject>) -> (r: Result<T, CallFailure>)
    ensures
        r == (match outcome {
            Ok(v) => Ok::<T, CallFailure>(v),
            Err(rej) => Err(CallFailure::Rejected(rej)),
        }),
{
    match outcome {
        Ok(v) => Ok(v),
        Err(rej) => Err(CallFailure::Rejected(rej)),
    }
}

/// Read value request against a characteristic.
#[derive(Clone, Copy, Debug, PartialEq, Eq, Structural)]
pub struct CharacteristicReadRequest {
    /// Offset.
    pub offset: u16,
    /// Exchanged MTU.
    pub mtu: u16,
    /// Link type.
    pub link: Option<LinkType>,
}

/// How a characteristic read request is decoded: the MTU is required, the
/// offset defaults to zero, the link is best-effort.
pub open spec fn spec_read_request(d: OptionDict) -> Result<
    CharacteristicReadRequest,
    DecodeError,
> {
    match d.mtu {
        None => Err(DecodeError::MissingMtu),
        Some(m) => Ok(
            CharacteristicReadRequest {
                offset: spec_offset_or_zero(d.offset),
                mtu: m,
                link: spec_opt_link(d.link),
            },
        ),
    }
}

impl CharacteristicReadRequest {
    /// Decodes a read request from the incoming option dictionary.
    pub fn from_dict(dict: &OptionDict) -> (r: Result<Self, DecodeError>)
        ensures
            r == spec_read_request(*dict),
    {
        let mtu = match dict.mtu {
            None => {
                return Err(DecodeError::MissingMtu);
            },
            Some(m) => m,
        };
        let offset = match dict.offset {
            None => 0u16,
            Some(o) => o,
        };
        Ok(CharacteristicReadRequest { offset, mtu, link: decode_link(dict) })
    }
}

/// Write value request against a characteristic.
#[derive(Clone, Copy, Debug, PartialEq, Eq, Structural)]
pub struct CharacteristicWriteRequest {
    /// Start offset.
    pub offset: u16,
    /// Write operation type.
    pub op_type: WriteValueType,
    /// Exchanged MTU.
    pub mtu: u16,
    /// Link type.
    pub link: Option<LinkType>,
    /// True if this is a prepare authorization request.
    pub prepare_authorize: bool,
}

/// How a characteristic write request is decoded: an unrecognized write
/// operation name fails first, then the required MTU; the offset and the
/// prepare-authorize flag default to zero and false.
pub open spec fn spec_write_request(d: OptionDict) -> Result<
    CharacteristicWriteRequest,
    DecodeError,
> {
    if d.op_type matches Some(s) && spec_parse_write_type(s@) is None {
        Err(DecodeError::InvalidWriteType)
    } else if d.mtu is None {
        Err(DecodeError::MissingMtu)
    } else {
        Ok(
            CharacteristicWriteRequest {
                offset: spec_offset_or_zero(d.offset),
                op_type: match d.op_type {
                    None => WriteValueType::Command,
                    Some(s) => spec_parse_write_type(s@)->Some_0,
                },
                mtu: d.mtu->Some_0,
                link: spec_opt_link(d.link),
                prepare_authorize: match d.prepare_authorize {
                    None => false,
                    Some(b) => b,
                },
            },
        )
    }
}

impl CharacteristicWriteRequest {
    /// Decodes a write request from the incoming option dictionary.
    pub fn from_dict(dict: &OptionDict) -> (r: Result<Self, DecodeError>)
        ensures
            r == spec_write_request(*dict),
    {
        let op_type = match &dict.op_type {
            None => WriteValueType::Command,
            Some(s) => {
                match WriteValueType::parse(s) {
                    None => {
                        return Err(DecodeError::InvalidWriteType);
                    },
                    Some(t) => t,
                }
            },
        };
        let mtu = match dict.mtu {
            None => {
                return Err(DecodeError::MissingMtu);
            },
            Some(m) => m,
        };
        let offset = match dict.offset {
            None => 0u16,
            Some(o) => o,
        };
        let prepare_authorize = match dict.prepare_authorize {
            None => false,
            Some(b) => b,
        };
        Ok(
            CharacteristicWriteRequest {
                offset,
                op_type,
                mtu,
                link: decode_link(dict),
                prepare_authorize,
            },
        )
    }
}

/// Request to move a characteristic's write or notify path onto a raw
/// byte stream.
#[derive(Clone, Copy, Debug, PartialEq, Eq, Structural)]
pub struct CharacteristicAcquireRequest {
    /// Exchanged MTU.
    pub mtu: u16,
    /// Link type.
    pub link: Option<LinkType>,
}

/// How an acquire request is decoded: the MTU is required, the link is
/// best-effort.
pub open spec fn spec_acquire_request(d: OptionDict) -> Result<
    CharacteristicAcquireRequest,
    DecodeError,
> {
    match d.mtu {
        None => Err(DecodeError::MissingMtu),
        Some(m) => Ok(CharacteristicAcquireRequest { mtu: m, link: spec_opt_link(d.link) }),
    }
}

impl CharacteristicAcquireRequest {
    /// Decodes an acquire request from the incoming option dictionary.
    pub fn from_dict(dict: &OptionDict) -> (r: Result<Self, DecodeError>)
        ensures
            r == spec_acquire_request(*dict),
    {
        let mtu = match dict.mtu {
            None => {
                return Err(DecodeError::MissingMtu);
            },
            Some(m) => m,
        };
        Ok(CharacteristicAcquireRequest { mtu, link: decode_link(dict) })
    }
}

/// Read value request against a characteristic descriptor.
#[derive(Clone, Copy, Debug, PartialEq, Eq, Structural)]
pub struct ReadDescriptorRequest {
    /// Offset.
    pub offset: u16,
    /// Link type.
    pub link: Option<LinkType>,
}

/// How a descriptor read request is decoded: the offset is required here,
/// the link is best-effort.
pub open spec fn spec_read_descriptor_request(d: OptionDict) -> Result<
    ReadDescriptorRequest,
    DecodeError,
> {
    match d.offset {
        None => Err(DecodeError::MissingOffset),
        Some(o) => Ok(ReadDescriptorRequest { offset: o, link: spec_opt_link(d.link) }),
    }
}

impl ReadDescriptorRequest {
    /// Decodes a descriptor read request from the incoming dictionary.
    pub fn from_dict(dict: &OptionDict) -> (r: Result<Self, DecodeError>)
        ensures
            r == spec_read_descriptor_request(*dict),
    {
        let offset = match dict.offset {
            None => {
                return Err(DecodeError::MissingOffset);
            },
            Some(o) => o,
        };
        Ok(ReadDescriptorRequest { offset, link: decode_link(dict) })
    }
}

/// Write value request against a characteristic descriptor.
#[derive(Clone, Copy, Debug, PartialEq, Eq, Structural)]
pub struct WriteDescriptorRequest {
    /// Offset.
    pub offset: u16,
    /// Link type.
    pub link: Option<LinkType>,
    /// True if this is a prepare authorization request.
    pub prepare_authorize: bool,
}

/// How a descriptor write request is decoded: the offset and the
/// prepare-authorize flag are both required here.
pub open spec fn spec_write_descriptor_request(d: OptionDict) -> Result<
    WriteDescriptorRequest,
    DecodeError,
> {
    if d.offset is None {
        Err(DecodeError::MissingOffset)
    } else if d.prepare_authorize is None {
        Err(DecodeError::MissingPrepareAuthorize)
    } else {
        Ok(
            WriteDescriptorRequest {
                offset: d.offset->Some_0,
                link: spec_opt_link(d.link),
                prepare_authorize: d.prepare_authorize->Some_0,
            },
        )
    }
}

impl WriteDescriptorRequest {
    /// Decodes a descriptor write request from the incoming dictionary.
    pub fn from_dict(dict: &OptionDict) -> (r: Result<Self, DecodeError>)
        ensures
            r == spec_write_descriptor_request(*dict),
    {
        let offset = match dict.offset {
            None => {
                return Err(DecodeError::MissingOffset);
            },
            Some(o) => o,
        };
        let prepare_authorize = match dict.prepare_authorize {
            None => {
                return Err(DecodeError::MissingPrepareAuthorize);
            },
            Some(b) => b,
        };
        Ok(WriteDescriptorRequest { offset, link: decode_link(dict), prepare_authorize })
    }
}

} // verus!
