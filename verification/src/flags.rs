//! Protocol flag words advertised for characteristics and descriptors.
//!
//! The daemon learns an attribute's capabilities from its `Flags` property,
//! a list of fixed flag words derived from the capability booleans.  The
//! words and their order are part of the wire contract.

use vstd::prelude::*;
use vstd::string::*;

verus! {

/// The views of a list of flag words.
pub open spec fn views_of(s: Seq<String>) -> Seq<Seq<char>> {
    s.map_values(|x: String| x@)
}

/// Appends `name` when `b` is set, else leaves the list unchanged.
pub open spec fn opt_flag(s: Seq<Seq<char>>, b: bool, name: Seq<char>) -> Seq<Seq<char>> {
    if b {
        s.push(name)
    } else {
        s
    }
}

/// Pushes one flag word when its capability boolean is set.
fn push_flag(v: &mut Vec<String>, b: bool, name: &str)
    ensures
        views_of(final(v)@) == opt_flag(views_of(old(v)@), b, name@),
{
    if b {
        v.push(String::from_str(name));
    }
    assert(views_of(v@) =~= opt_flag(views_of(old(v)@), b, name@));
}

/// Capability flags of a characteristic, in the order they are advertised.
#[derive(Clone, Copy, Debug, PartialEq, Eq, Structural)]
pub struct CharacteristicFlags {
    pub broadcast: bool,
    pub read: bool,
    pub write_without_response: bool,
    pub write: bool,
    pub notify: bool,
    pub indicate: bool,
    pub authenticated_signed_writes: bool,
    pub reliable_write: bool,
    pub writable_auxiliaries: bool,
    pub encrypt_read: bool,
    pub encrypt_write: bool,
    pub encrypt_authenticated_read: bool,
    pub encrypt_authenticated_write: bool,
    pub secure_read: bool,
    pub secure_write: bool,
    pub authorize: bool,
}

/// The flag words a characteristic advertises, in their fixed order.
pub open spec fn spec_characteristic_flag_words(f: CharacteristicFlags) -> Seq<Seq<char>> {
    opt_flag(
        opt_flag(
            opt_flag(
                opt_flag(
                    opt_flag(
                        opt_flag(
                            opt_flag(
                                opt_flag(
                                    opt_flag(
                                        opt_flag(
                                            opt_flag(
                                                opt_flag(
                                                    opt_flag(
                                                        opt_flag(
                                                            opt_flag(
                                                                opt_flag(
                                                                    Seq::empty(),
                                                                    f.broadcast,
                                                                    "broadcast"@,
                                                                ),
                                                                f.read,
                                                                "read"@,
                                                            ),
                                                            f.write_without_response,
                                                            "write-without-response"@,
                                                        ),
                                                        f.write,
                                                        "write"@,
                                                    ),
                                                    f.notify,
                                                    "notify"@,
                                                ),
                                                f.indicate,
                                                "indicate"@,
                                            ),
                                            f.authenticated_signed_writes,
                                            "authenticated-signed-writes"@,
                                        ),
                                        f.reliable_write,
                                        "reliable-write"@,
                                    ),
                                    f.writable_auxiliaries,
                                    "writable-auxiliaries"@,
                                ),
                                f.encrypt_read,
                                "encrypt-read"@,
                            ),
                            f.encrypt_write,
                            "encrypt-write"@,
                        ),
                        f.encrypt_authenticated_read,
                        "encrypt-authenticated-read"@,
                    ),
                    f.encrypt_authenticated_write,
                    "encrypt-authenticated-write"@,
                ),
                f.secure_read,
                "secure-read"@,
            ),
            f.secure_write,
            "secure-write"@,
        ),
        f.authorize,
        "authorize"@,
    )
}

impl Default for CharacteristicFlags {
    /// A characteristic advertises nothing until a capability is set.
    fn default() -> (r: Self)
        ensures
            r == (CharacteristicFlags {
                broadcast: false,
                read: false,
                write_without_response: false,
                write: false,
                notify: false,
                indicate: false,
                authenticated_signed_writes: false,
                reliable_write: false,
                writable_auxiliaries: false,
                encrypt_read: false,
                encrypt_write: false,
                encrypt_authenticated_read: false,
                encrypt_authenticated_write: false,
                secure_read: false,
                secure_write: false,
                authorize: false,
            }),
    {
        CharacteristicFlags {
            broadcast: false,
            read: false,
            write_without_response: false,
            write: false,
            notify: false,
            indicate: false,
            authenticated_signed_writes: false,
            reliable_write: false,
            writable_auxiliaries: false,
            encrypt_read: false,
            encrypt_write: false,
            encrypt_authenticated_read: false,
            encrypt_authenticated_write: false,
            secure_read: false,
            secure_write: false,
            authorize: false,
        }
    }
}

impl CharacteristicFlags {
    /// Renders the advertised flag word list.
    pub fn to_vec(&self) -> (r: Vec<String>)
        ensures
            views_of(r@) == spec_characteristic_flag_words(*self),
    {
        let mut v: Vec<String> = Vec::new();
        assert(views_of(v@) =~= Seq::<Seq<char>>::empty());
        push_flag(&mut v, self.broadcast, "broadcast");
        push_flag(&mut v, self.read, "read");
        push_flag(&mut v, self.write_without_response, "write-without-response");
        push_flag(&mut v, self.write, "write");
        push_flag(&mut v, self.notify, "notify");
        push_flag(&mut v, self.indicate, "indicate");
        push_flag(&mut v, self.authenticated_signed_writes, "authenticated-signed-writes");
        push_flag(&mut v, self.reliable_write, "reliable-write");
        push_flag(&mut v, self.writable_auxiliaries, "writable-auxiliaries");
        push_flag(&mut v, self.encrypt_read, "encrypt-read");
        push_flag(&mut v, self.encrypt_write, "encrypt-write");
        push_flag(&mut v, self.encrypt_authenticated_read, "encrypt-authenticated-read");
        push_flag(&mut v, self.encrypt_authenticated_write, "encrypt-authenticated-write");
        push_flag(&mut v, self.secure_read, "secure-read");
        push_flag(&mut v, self.secure_write, "secure-write");
        push_flag(&mut v, self.authorize, "authorize");
        v
    }
}

/// Capability flags of a characteristic descriptor, in advertised order.
#[derive(Clone, Copy, Debug, PartialEq, Eq, Structural)]
pub struct CharacteristicDescriptorFlags {
    pub read: bool,
    pub write: bool,
    pub encrypt_read: bool,
    pub encrypt_write: bool,
    pub encrypt_authenticated_read: bool,
    pub encrypt_authenticated_write: bool,
    pub secure_read: bool,
    pub secure_write: bool,
    pub authorize: bool,
}

/// The flag words a descriptor advertises, in their fixed order.
pub open spec fn spec_descriptor_flag_words(f: CharacteristicDescriptorFlags) -> Seq<Seq<char>> {
    opt_flag(
        opt_flag(
            opt_flag(
                opt_flag(
                    opt_flag(
                        opt_flag(
                            opt_flag(
                                opt_flag(
                                    opt_flag(Seq::empty(), f.read, "read"@),
                                    f.write,
                                    "write"@,
                                ),
                                f.encrypt_read,
                                "encrypt-read"@,
                            ),
                            f.encrypt_write,
                            "encrypt-write"@,
                        ),
                        f.encrypt_authenticated_read,
                        "encrypt-authenticated-read"@,
                    ),
                    f.encrypt_authenticated_write,
                    "encrypt-authenticated-write"@,
                ),
                f.secure_read,
                "secure-read"@,
            ),
            f.secure_write,
            "secure-write"@,
        ),
        f.authorize,
        "authorize"@,
    )
}

impl Default for CharacteristicDescriptorFlags {
    /// A descriptor advertises nothing until a capability is set.
    fn default() -> (r: Self)
        ensures
            r == (CharacteristicDescriptorFlags {
                read: false,
                write: false,
                encrypt_read: false,
                encrypt_write: false,
                encrypt_authenticated_read: false,
                encrypt_authenticated_write: false,
                secure_read: false,
                secure_write: false,
                authorize: false,
            }),
    {
        CharacteristicDescriptorFlags {
            read: false,
            write: false,
            encrypt_read: false,
            encrypt_write: false,
            encrypt_authenticated_read: false,
            encrypt_authenticated_write: false,
            secure_read: false,
            secure_write: false,
            authorize: false,
        }
    }
}

impl CharacteristicDescriptorFlags {
    /// Renders the advertised flag word list.
    pub fn to_vec(&self) -> (r: Vec<String>)
        ensures
            views_of(r@) == spec_descriptor_flag_words(*self),
    {
        let mut v: Vec<String> = Vec::new();
        assert(views_of(v@) =~= Seq::<Seq<char>>::empty());
        push_flag(&mut v, self.read, "read");
        push_flag(&mut v, self.write, "write");
        push_flag(&mut v, self.encrypt_read, "encrypt-read");
        push_flag(&mut v, self.encrypt_write, "encrypt-write");
        push_flag(&mut v, self.encrypt_authenticated_read, "encrypt-authenticated-read");
        push_flag(&mut v, self.encrypt_authenticated_write, "encrypt-authenticated-write");
        push_flag(&mut v, self.secure_read, "secure-read");
        push_flag(&mut v, self.secure_write, "secure-write");
        push_flag(&mut v, self.authorize, "authorize");
        v
    }
}

} // verus!
