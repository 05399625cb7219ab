//! 128-bit attribute identities.
//!
//! Attributes are identified by 128-bit UUIDs, held here as plain `u128`
//! values.  The bus properties carry them in the standard hyphenated
//! lower-case form; freshly generated root paths embed the condensed form
//! without hyphens.

use vstd::prelude::*;
use vstd::string::*;
use crate::text::{format_hex_fixed, spec_hex_fixed};

verus! {

/// The condensed rendering of a UUID: its 32 nibbles, lower case.
pub open spec fn spec_uuid_simple(u: u128) -> Seq<char> {
    spec_hex_fixed(u as nat, 32)
}

/// The hyphenated rendering of a UUID: groups of 8, 4, 4, 4 and 12
/// nibbles, lower case, separated by hyphens.
pub open spec fn spec_uuid_hyphenated(u: u128) -> Seq<char> {
    spec_hex_fixed((u as nat) / 0x1000000000000000000000000, 8) + "-"@ + spec_hex_fixed(
        ((u as nat) / 0x100000000000000000000) % 0x10000,
        4,
    ) + "-"@ + spec_hex_fixed(((u as nat) / 0x10000000000000000) % 0x10000, 4) + "-"@
        + spec_hex_fixed(((u as nat) / 0x1000000000000) % 0x10000, 4) + "-"@ + spec_hex_fixed(
        (u as nat) % 0x1000000000000,
        12,
    )
}

/// Renders a UUID in its condensed form, 32 nibbles without hyphens.
pub fn format_uuid_simple(u: u128) -> (r: String)
    ensures
        r@ == spec_uuid_simple(u),
{
    format_hex_fixed(u, 32)
}

/// Renders a UUID in its standard hyphenated form.
pub fn format_uuid_hyphenated(u: u128) -> (r: String)
    ensures
        r@ == spec_uuid_hyphenated(u),
{
    let mut s = format_hex_fixed(u / 0x1000000000000000000000000, 8);
    s.append("-");
    let g2 = format_hex_fixed((u / 0x100000000000000000000) % 0x10000, 4);
    s.append(g2.as_str());
    s.append("-");
    let g3 = format_hex_fixed((u / 0x10000000000000000) % 0x10000, 4);
    s.append(g3.as_str());
    s.append("-");
    let g4 = format_hex_fixed((u / 0x1000000000000) % 0x10000, 4);
    s.append(g4.as_str());
    s.append("-");
    let g5 = format_hex_fixed(u % 0x1000000000000, 12);
    s.append(g5.as_str());
    s
}

/// The big-endian bytes of the low `width` bytes of a number, most
/// significant first.
pub open spec fn spec_be_bytes(n: nat, width: nat) -> Seq<u8>
    decreases width,
{
    if width == 0 {
        Seq::empty()
    } else {
        spec_be_bytes(n / 256, (width - 1) as nat).push((n % 256) as u8)
    }
}

/// The sixteen big-endian bytes of a UUID.
pub open spec fn spec_uuid_be_bytes(u: u128) -> Seq<u8> {
    spec_be_bytes(u as nat, 16)
}

/// Renders the low `width` bytes of a number, most significant first.
fn be_bytes(n: u128, width: u32) -> (r: Vec<u8>)
    ensures
        r@ == spec_be_bytes(n as nat, width as nat),
    decreases width,
{
    if width == 0 {
        let v: Vec<u8> = Vec::new();
        assert(v@ =~= spec_be_bytes(n as nat, width as nat));
        v
    } else {
        let mut v = be_bytes(n / 256, width - 1);
        v.push((n % 256) as u8);
        assert(v@ =~= spec_be_bytes(n as nat, width as nat));
        v
    }
}

/// Renders a UUID as its sixteen big-endian bytes.
pub fn uuid_be_bytes(u: u128) -> (r: Vec<u8>)
    ensures
        r@ == spec_uuid_be_bytes(u),
{
    be_bytes(u, 16)
}

/// Relies on `uuid::Uuid::new_v4`: draws a fresh random (version 4)
/// UUID, here taken as its 128-bit value.  The value is random; nothing
/// is promised of it.
#[verifier::external_body]
pub(crate) fn fresh_uuid() -> u128 {
    uuid::Uuid::new_v4().as_u128()
}

} // verus!
