//! Names of hosts and where they may lead.

use vstd::prelude::*;

use crate::net::types::ErrorCode;
use crate::text::{
    ascii_lowered, contains_char, eq_ignore_ascii_case, lemma_utf8_len, str_eq, utf8_len,
};

verus! {

/// How many bytes the name of a host may have.
pub const MAX_HOST_BYTES: usize = 255;

/// An address of a host.
#[derive(Debug, Clone, Copy, PartialEq, Eq, Structural)]
pub enum IpAddr {
    /// The four bytes of an address of the fourth version.
    V4(u8, u8, u8, u8),
    /// An address of the sixth version as one number.
    V6(u128),
}

/// The address stays on this machine.
pub open spec fn stays_local(ip: IpAddr) -> bool {
    match ip {
        IpAddr::V4(first, _, _, _) => first == 127,
        IpAddr::V6(value) => value == 1,
    }
}

/// Whether an address stays on this machine.
pub fn is_loopback(ip: IpAddr) -> (r: bool)
    ensures
        r == stays_local(ip),
{
    match ip {
        IpAddr::V4(first, _, _, _) => first == 127,
        IpAddr::V6(value) => value == 1,
    }
}

/// A name that can be looked up: not empty, not too long, and without zero bytes.
pub open spec fn host_valid(host: Seq<char>) -> bool {
    host.len() > 0 && utf8_len(host) <= MAX_HOST_BYTES && !host.contains('\0')
}

/// Checks that a name can be looked up.
pub fn validate_host(host: &str) -> (r: Result<(), ErrorCode>)
    ensures
        match r {
            Ok(()) => host_valid(host@),
            Err(code) => code == ErrorCode::AddressNotAvailable && !host_valid(host@),
        },
{
    proof {
        lemma_utf8_len(host@);
        reveal_strlit("");
        if host@.len() == 0 {
            assert(host@ =~= ""@);
        }
    }
    if str_eq(host, "") || host.as_bytes().len() > MAX_HOST_BYTES || contains_char(host, '\0') {
        Err(ErrorCode::AddressNotAvailable)
    } else {
        Ok(())
    }
}

/// The host names the machine itself, whatever the case of its letters.
pub open spec fn is_localhost(host: Seq<char>) -> bool {
    ascii_lowered(host) == ascii_lowered("localhost"@)
}

/// A server may be bound to this host: it is the machine itself by name, or an address that
/// stays on it.
pub open spec fn bindable(host: Seq<char>, ip: Option<IpAddr>) -> bool {
    is_localhost(host) || (ip is Some && stays_local(ip->Some_0))
}

/// Whether a server may be bound to a host. `ip` is the address that the host spells, if it
/// spells one. No other name is ever looked up.
pub fn is_loopback_bind_host(host: &str, ip: Option<IpAddr>) -> (r: bool)
    ensures
        r == bindable(host@, ip),
{
    if eq_ignore_ascii_case(host, "localhost") {
        return true;
    }
    match ip {
        Some(address) => is_loopback(address),
        None => false,
    }
}

/// The host to bind: never a name.
pub open spec fn bind_host(host: Seq<char>) -> Seq<char> {
    if is_localhost(host) {
        "127.0.0.1"@
    } else {
        host
    }
}

/// The host to bind. The name of the machine itself is never looked up: it could lead elsewhere.
pub fn concrete_host(host: &str) -> (r: String)
    ensures
        r@ == bind_host(host@),
{
    if eq_ignore_ascii_case(host, "localhost") {
        "127.0.0.1".to_owned()
    } else {
        host.to_owned()
    }
}

} // verus!
