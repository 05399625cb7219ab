//! Errors reported to the local owner of the published attributes.

use vstd::prelude::*;

verus! {

/// Error returned to the process hosting the attribute tree.
///
/// These never travel to the remote daemon; the only error category the
/// protocol exposes to the far end is [`crate::reject::Reject`].
#[derive(Clone, Copy, Debug, PartialEq, Eq, Structural)]
pub enum Error {
    /// No handle has ever been assigned, or the session channel is gone.
    NotRegistered,
    /// The underlying bus connection has been dropped.
    DBusConnectionLost,
    /// The notification session was stopped by the receiving device.
    NotificationSessionStopped,
    /// An indication was sent but the session ended before it was confirmed.
    IndicationUnconfirmed,
    /// A value (an object path, a token) failed validation.
    InvalidValue,
}

} // verus!
