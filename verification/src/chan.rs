//! The handle broadcast channel.
//!
//! Every attribute owns a single-writer observable cell that publishes the
//! numeric handle currently assigned to it; any number of holders of the
//! paired receiver observe the latest published value.  The cell is a
//! `tokio::sync::watch` channel carrying `Option<u16>`; the sender side is
//! held by the registered attribute, the receiver side by the user-facing
//! control object.  What a receiver observes depends on sends made by other
//! tasks, so nothing is promised of the observed value itself; the verified
//! mapping from an observation to the caller-visible result is
//! [`handle_result`].

use vstd::prelude::*;
use crate::error::Error;

verus! {

#[verifier::external_type_specification]
#[verifier::external_body]
#[verifier::reject_recursive_types(T)]
pub struct ExWatchSender<T>(tokio::sync::watch::Sender<T>);

#[verifier::external_type_specification]
#[verifier::external_body]
#[verifier::reject_recursive_types(T)]
pub struct ExWatchReceiver<T>(tokio::sync::watch::Receiver<T>);

/// The sender half of one attribute's handle cell.
pub type HandleSender = tokio::sync::watch::Sender<Option<u16>>;

/// The receiver half of one attribute's handle cell.
pub type HandleReceiver = tokio::sync::watch::Receiver<Option<u16>>;

/// Relies on `tokio::sync::watch::channel`: creates a connected
/// sender/receiver pair whose initial value is the argument; here the
/// initial value is `None`, "no handle assigned yet".
#[verifier::external_body]
pub(crate) fn handle_channel() -> (HandleSender, HandleReceiver) {
    tokio::sync::watch::channel(None)
}

/// A sender whose receiver half is dropped at once.  Used where an
/// attribute was built without a paired control object, so no holder can
/// ever observe the cell.
pub(crate) fn orphan_handle_sender() -> HandleSender {
    let (handle_tx, _) = handle_channel();
    handle_tx
}

/// Relies on `tokio::sync::watch::Sender::send`: replaces the value held by
/// the cell, so that subsequent observations see it (last value wins, no
/// history).  The error returned when every receiver is gone is discarded,
/// as publishing to nobody is harmless.
#[verifier::external_body]
pub(crate) fn publish_handle(tx: &HandleSender, value: Option<u16>) {
    let _ = tx.send(value);
}

/// Relies on `tokio::sync::watch::Receiver::borrow`: yields the value most
/// recently sent on the paired sender (or the initial value).  Which send
/// that is depends on the interleaving of tasks, so nothing is stated of
/// the result.
#[verifier::external_body]
pub(crate) fn observe_handle(rx: &HandleReceiver) -> Option<u16> {
    *rx.borrow()
}

/// What an observation of the handle cell means to the caller: the latest
/// published handle, or `NotRegistered` if none was ever assigned.
pub open spec fn spec_handle_result(observed: Option<u16>) -> Result<u16, Error> {
    match observed {
        Some(h) => Ok(h),
        None => Err(Error::NotRegistered),
    }
}

/// Maps an observation of the handle cell to the caller-visible result.
pub fn handle_result(observed: Option<u16>) -> (r: Result<u16, Error>)
    ensures
        r == spec_handle_result(observed),
{
    match observed {
        Some(h) => Ok(h),
        None => Err(Error::NotRegistered),
    }
}

/// Turns the raw value of a handle property write into the published
/// handle: zero means "clear the assignment".
pub fn parse_handle(v: u16) -> (r: Option<u16>)
    ensures
        v == 0 ==> r is None,
        v != 0 ==> r == Some(v),
{
    if v == 0 {
        None
    } else {
        Some(v)
    }
}

} // verus!
