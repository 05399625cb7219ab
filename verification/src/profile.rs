//! Profiles: registered client-role instances.
//!
//! Registering a profile announces support for a set of services by
//! UUID, asking the daemon to auto-connect devices that offer them.  A
//! profile publishes a single object and is torn down like an
//! application: unregister first, then remove the published object.

use vstd::prelude::*;
use vstd::string::*;
use crate::application::TeardownStep;
use crate::uuidfmt::{
    format_uuid_hyphenated, format_uuid_simple, fresh_uuid, spec_uuid_hyphenated, spec_uuid_simple,
};

verus! {

/// Local profile (client-role) instance.
pub struct Profile {
    /// The 128-bit service UUIDs to auto-connect.
    pub uuids: Vec<u128>,
}

impl Profile {
    /// The `UUIDs` property source: the service identities, hyphenated,
    /// in declared order.
    pub fn uuid_strings(&self) -> (r: Vec<String>)
        ensures
            r@.len() == self.uuids@.len(),
            forall|m: int|
                0 <= m < r@.len() ==> (#[trigger] r@[m])@ == spec_uuid_hyphenated(self.uuids@[m]),
    {
        let n = self.uuids.len();
        let mut r: Vec<String> = Vec::new();
        let mut i: usize = 0;
        while i < n
            invariant
                i <= n,
                n == self.uuids@.len(),
                r@.len() == i,
                forall|m: int|
                    0 <= m < i ==> (#[trigger] r@[m])@ == spec_uuid_hyphenated(self.uuids@[m]),
            decreases n - i,
        {
            r.push(format_uuid_hyphenated(self.uuids[i]));
            i = i + 1;
        }
        r
    }

    /// Publishes the profile under a freshly generated path and hands it
    /// back with the release handle.
    pub fn register(self) -> (r: (Profile, ProfileHandle))
        ensures
            r.0 == self,
            !r.1.released,
            (exists|u: u128|
                r.1.name@ == "/io/crates/tokio_bluez/gatt/profile/"@ + spec_uuid_simple(u)),
    {
        let u = fresh_uuid();
        let mut path = String::from_str("/io/crates/tokio_bluez/gatt/profile/");
        let tail = format_uuid_simple(u);
        path.append(tail.as_str());
        proof {
            assert(path@ == "/io/crates/tokio_bluez/gatt/profile/"@ + spec_uuid_simple(u));
        }
        (self, ProfileHandle { name: path, released: false })
    }
}

/// Handle to a published profile.
///
/// Its only operation is release, which unpublishes the profile exactly
/// once.
pub struct ProfileHandle {
    /// The path of the published profile object.
    pub name: String,
    /// Whether the handle has already been released.
    pub released: bool,
}

impl ProfileHandle {
    /// Releases the handle.  The first release yields the teardown
    /// steps — the unregister call, then the removal of the published
    /// object; any further release yields nothing and changes nothing.
    pub fn release(&mut self) -> (steps: Vec<TeardownStep>)
        ensures
            old(self).released ==> (*final(self) == *old(self) && steps@.len() == 0),
            !old(self).released ==> (final(self).released && final(self).name == old(self).name
                && steps@ =~= seq![
                TeardownStep::Unregister,
                TeardownStep::Remove(old(self).name),
            ]),
    {
        if self.released {
            return Vec::new();
        }
        self.released = true;
        let mut steps: Vec<TeardownStep> = Vec::new();
        steps.push(TeardownStep::Unregister);
        steps.push(TeardownStep::Remove(self.name.clone()));
        steps
    }
}

} // verus!
