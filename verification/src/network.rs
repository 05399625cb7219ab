//! Mesh network operations.
//!
//! Joining, attaching to and leaving a mesh network are outbound daemon
//! calls.  Validating the inputs — the application path's grammar, the
//! hexadecimal access token — and assembling each call's arguments is
//! done here; the embedding layer only carries the prepared call onto
//! the bus.

use vstd::prelude::*;
use vstd::string::*;
use crate::error::Error;
use crate::objpath::{is_valid_object_path, spec_valid_object_path};
use crate::text::{parse_hex_u64, spec_parse_hex_u64};
use crate::uuidfmt::{spec_uuid_be_bytes, uuid_be_bytes};

verus! {

/// One prepared call against the mesh daemon's network interface.
#[derive(Debug)]
pub enum MeshCall {
    /// `Join`: provision the application at this path into the network,
    /// with the device UUID as its sixteen big-endian bytes.
    Join { path: String, uuid: Vec<u8> },
    /// `Attach`: attach the application at this path using an access
    /// token from an earlier join.
    Attach { path: String, token: u64 },
    /// `Cancel`: cancel an outstanding provisioning request.
    Cancel,
    /// `Leave`: leave the network joined under this access token.
    Leave { token: u64 },
}

/// Interface to a mesh network.
pub struct Network {}

impl Network {
    /// Creates the network interface.
    pub fn new() -> Network {
        Network {  }
    }

    /// Prepares a `Join` call: the application path must be a
    /// well-formed object path, and the device UUID travels as its
    /// sixteen big-endian bytes.
    pub fn join(&self, path: &str, uuid: u128) -> (r: Result<MeshCall, Error>)
        ensures
            !spec_valid_object_path(path@) ==> r == Err::<MeshCall, Error>(Error::InvalidValue),
            spec_valid_object_path(path@) ==> (r matches Ok(MeshCall::Join { path: p, uuid: b })
                && p@ == path@ && b@ == spec_uuid_be_bytes(uuid)),
    {
        if !is_valid_object_path(path) {
            return Err(Error::InvalidValue);
        }
        Ok(MeshCall::Join { path: path.to_owned(), uuid: uuid_be_bytes(uuid) })
    }

    /// Prepares an `Attach` call: the access token must be a valid
    /// hexadecimal token and the application path well-formed.
    pub fn attach(&self, path: &str, token: &str) -> (r: Result<MeshCall, Error>)
        ensures
            spec_parse_hex_u64(token@) is None ==> r == Err::<MeshCall, Error>(Error::InvalidValue),
            spec_parse_hex_u64(token@) is Some && !spec_valid_object_path(path@) ==> r == Err::<
                MeshCall,
                Error,
            >(Error::InvalidValue),
            spec_parse_hex_u64(token@) is Some && spec_valid_object_path(path@) ==> (r matches Ok(
                MeshCall::Attach { path: p, token: t },
            ) && p@ == path@ && t == spec_parse_hex_u64(token@)->Some_0),
    {
        let token_int = match parse_hex_u64(token) {
            None => {
                return Err(Error::InvalidValue);
            },
            Some(t) => t,
        };
        if !is_valid_object_path(path) {
            return Err(Error::InvalidValue);
        }
        Ok(MeshCall::Attach { path: path.to_owned(), token: token_int })
    }

    /// Prepares a `Cancel` call.
    pub fn cancel(&self) -> (r: MeshCall)
        ensures
            r is Cancel,
    {
        MeshCall::Cancel
    }

    /// Prepares a `Leave` call: the access token must be a valid
    /// hexadecimal token.
    pub fn leave(&self, token: &str) -> (r: Result<MeshCall, Error>)
        ensures
            spec_parse_hex_u64(token@) is None ==> r == Err::<MeshCall, Error>(Error::InvalidValue),
            spec_parse_hex_u64(token@) is Some ==> (r matches Ok(MeshCall::Leave { token: t }) && t
                == spec_parse_hex_u64(token@)->Some_0),
    {
        let token_int = match parse_hex_u64(token) {
            None => {
                return Err(Error::InvalidValue);
            },
            Some(t) => t,
        };
        Ok(MeshCall::Leave { token: token_int })
    }
}

} // verus!
