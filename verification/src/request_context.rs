//! What a capsule may learn of who stands behind a connection.

use vstd::prelude::*;

use crate::connections::Connections;
use crate::net::types::ErrorCode;

verus! {

/// The handle by which requests of a connection are told apart. `open` says whether there is
/// such a stream at all.
pub fn connection_owner(connections: &Connections, rep: u32, open: bool) -> (r: Result<
    Option<String>,
    ErrorCode,
>)
    ensures
        r == (if !open {
            Err::<Option<String>, ErrorCode>(ErrorCode::InvalidHandle)
        } else if connections@.contains_key(rep) {
            Ok::<Option<String>, ErrorCode>(Some(connections@[rep].request_owner))
        } else {
            Ok::<Option<String>, ErrorCode>(None)
        }),
{
    if !open {
        return Err(ErrorCode::InvalidHandle);
    }
    match connections.lookup(rep) {
        Some(identity) => Ok(Some(identity.request_owner)),
        None => Ok(None),
    }
}

/// The principal that was verified for a connection.
pub fn connection_principal(connections: &Connections, rep: u32, open: bool) -> (r: Result<
    Option<String>,
    ErrorCode,
>)
    ensures
        r == (if !open {
            Err::<Option<String>, ErrorCode>(ErrorCode::InvalidHandle)
        } else if connections@.contains_key(rep) {
            Ok::<Option<String>, ErrorCode>(Some(connections@[rep].principal))
        } else {
            Ok::<Option<String>, ErrorCode>(None)
        }),
{
    if !open {
        return Err(ErrorCode::InvalidHandle);
    }
    match connections.lookup(rep) {
        Some(identity) => Ok(Some(identity.principal)),
        None => Ok(None),
    }
}

} // verus!
