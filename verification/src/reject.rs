//! Error responses to Bluetooth requests made against us.

use vstd::prelude::*;
use vstd::string::*;

verus! {

/// Error response from us to a Bluetooth request.
///
/// This is the only error category the remote caller can observe; the
/// variant is carried verbatim in the name of the bus error.
#[derive(Clone, Copy, Debug, PartialEq, Eq, Structural)]
pub enum Reject {
    /// The request failed.
    Failed,
    /// A request is already in progress.
    InProgress,
    /// The offset is invalid for the property.
    InvalidOffset,
    /// The value length is invalid for the property.
    InvalidValueLength,
    /// The request is not permitted.
    NotPermitted,
    /// The request is not authorized.
    NotAuthorized,
    /// The request is not supported.
    NotSupported,
}

/// Result of a Bluetooth request to us.
pub type ReqResult<T> = Result<T, Reject>;

/// The short wire name of each rejection reason.
pub open spec fn spec_reject_name(r: Reject) -> Seq<char> {
    match r {
        Reject::Failed => "Failed"@,
        Reject::InProgress => "InProgress"@,
        Reject::InvalidOffset => "InvalidOffset"@,
        Reject::InvalidValueLength => "InvalidValueLength"@,
        Reject::NotPermitted => "NotPermitted"@,
        Reject::NotAuthorized => "NotAuthorized"@,
        Reject::NotSupported => "NotSupported"@,
    }
}

/// Prefix of every error name we send on the bus.
pub open spec fn spec_err_prefix() -> Seq<char> {
    "org.bluez.Error."@
}

impl Default for Reject {
    /// A request fails with `Failed` unless a more specific reason is given.
    fn default() -> (r: Self)
        ensures
            r == Reject::Failed,
    {
        Self::Failed
    }
}

impl Reject {
    /// The short wire name of this rejection reason.
    pub fn name(&self) -> (r: &'static str)
        ensures
            r@ == spec_reject_name(*self),
    {
        match self {
            Reject::Failed => "Failed",
            Reject::InProgress => "InProgress",
            Reject::InvalidOffset => "InvalidOffset",
            Reject::InvalidValueLength => "InvalidValueLength",
            Reject::NotPermitted => "NotPermitted",
            Reject::NotAuthorized => "NotAuthorized",
            Reject::NotSupported => "NotSupported",
        }
    }

    /// The full name of the bus error that carries this rejection:
    /// the fixed error prefix followed by the short name.
    pub fn error_name(&self) -> (r: String)
        ensures
            r@ == spec_err_prefix() + spec_reject_name(*self),
    {
        let mut s = String::from_str("org.bluez.Error.");
        s.append(self.name());
        s
    }
}

} // verus!
