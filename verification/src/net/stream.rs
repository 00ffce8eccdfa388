//! Reading from and writing to streams.

use vstd::prelude::*;

use crate::connections::{ClientConnections, ConnectionIdentity, Connections};
use crate::host_state::types::MessageOrigin;
use crate::net::frame::MAX_BYTES_PER_CALL;
use crate::net::lifecycle::{emit_client_disconnect, LifecycleEvent};
use crate::net::quota::StreamCounts;
use crate::net::types::{
    is_peer_disconnect, is_unknown, map_io_err, map_write_frame_err, maps_to, peer_gone, ErrorCode,
    IoError, NetReadStatus,
};
use crate::text::concat2;

verus! {

/// What kind of stream it is, with the times that were set for it, in milliseconds.
#[derive(Debug, Clone, Copy, PartialEq, Eq, Structural)]
pub enum Transport {
    Unix,
    Tcp {
        read_timeout: Option<u64>,
        write_timeout: Option<u64>,
    },
}

/// How long a write may take: as long as was set for the stream, or else longer for more bytes.
pub open spec fn deadline(transport: Transport, len: int) -> int {
    match transport {
        Transport::Tcp { write_timeout: Some(ms), .. } => ms as int,
        _ => 5000 + len / 1024,
    }
}

/// How long a write may take, in milliseconds. A peer that does not read never holds a write up
/// for ever.
pub fn write_deadline(transport: Transport, len: usize) -> (ms: u64)
    ensures
        ms == deadline(transport, len as int),
{
    let ceiling: u64 = 5000 + len as u64 / 1024;
    match transport {
        Transport::Tcp { write_timeout: Some(ms), .. } => ms,
        _ => ceiling,
    }
}

impl Transport {
    /// Sets how long a read may take. Only a TCP stream has such a time.
    pub fn set_read_timeout(&mut self, ms: Option<u64>) -> (r: Result<(), ErrorCode>)
        ensures
            match *old(self) {
                Transport::Unix => r == Err::<(), ErrorCode>(ErrorCode::NotTcp) && *final(self)
                    == *old(self),
                Transport::Tcp { read_timeout, write_timeout } => r is Ok && *final(self)
                    == (Transport::Tcp { read_timeout: ms, write_timeout }),
            },
    {
        match *self {
            Transport::Unix => Err(ErrorCode::NotTcp),
            Transport::Tcp { read_timeout: _, write_timeout } => {
                *self = Transport::Tcp { read_timeout: ms, write_timeout };
                Ok(())
            },
        }
    }

    /// Sets how long a write may take.
    pub fn set_write_timeout(&mut self, ms: Option<u64>) -> (r: Result<(), ErrorCode>)
        ensures
            match *old(self) {
                Transport::Unix => r == Err::<(), ErrorCode>(ErrorCode::NotTcp) && *final(self)
                    == *old(self),
                Transport::Tcp { read_timeout, write_timeout } => r is Ok && *final(self)
                    == (Transport::Tcp { read_timeout, write_timeout: ms }),
            },
    {
        match *self {
            Transport::Unix => Err(ErrorCode::NotTcp),
            Transport::Tcp { read_timeout, write_timeout: _ } => {
                *self = Transport::Tcp { read_timeout, write_timeout: ms };
                Ok(())
            },
        }
    }

    /// How long a read may take.
    pub fn read_timeout(&self) -> (r: Result<Option<u64>, ErrorCode>)
        ensures
            r == (match *self {
                Transport::Unix => Err::<Option<u64>, ErrorCode>(ErrorCode::NotTcp),
                Transport::Tcp { read_timeout, write_timeout } => Ok(read_timeout),
            }),
    {
        match *self {
            Transport::Unix => Err(ErrorCode::NotTcp),
            Transport::Tcp { read_timeout, write_timeout: _ } => Ok(read_timeout),
        }
    }

    /// How long a write may take.
    pub fn write_timeout(&self) -> (r: Result<Option<u64>, ErrorCode>)
        ensures
            r == (match *self {
                Transport::Unix => Err::<Option<u64>, ErrorCode>(ErrorCode::NotTcp),
                Transport::Tcp { read_timeout, write_timeout } => Ok(write_timeout),
            }),
    {
        match *self {
            Transport::Unix => Err(ErrorCode::NotTcp),
            Transport::Tcp { read_timeout: _, write_timeout } => Ok(write_timeout),
        }
    }
}

/// What a capsule gets of a framed read. One that was cancelled looks like an end, so that a
/// loop of reads ends with it.
pub fn read_result(outcome: Option<Result<NetReadStatus, String>>) -> (r: Result<
    NetReadStatus,
    ErrorCode,
>)
    ensures
        match outcome {
            Some(Ok(status)) => r == Ok::<NetReadStatus, ErrorCode>(status),
            Some(Err(text)) => r is Err && is_unknown(r->Err_0, text@),
            None => r == Ok::<NetReadStatus, ErrorCode>(NetReadStatus::Closed),
        },
{
    match outcome {
        Some(Ok(status)) => Ok(status),
        Some(Err(text)) => Err(ErrorCode::Unknown(text)),
        None => Ok(NetReadStatus::Closed),
    }
}

/// From whom the frame came that the capsule read last.
pub struct Ingress {
    pub principal: Option<String>,
    pub device_key_id: Option<String>,
    pub origin: Option<MessageOrigin>,
}

impl Ingress {
    /// Nobody is noted.
    pub open spec fn is_empty(self) -> bool {
        self.principal is None && self.device_key_id is None && self.origin is None
    }

    /// Exactly this peer is noted, as one on the local socket.
    pub open spec fn is_from(self, identity: ConnectionIdentity) -> bool {
        &&& self.principal == Some(identity.principal)
        &&& self.device_key_id == identity.device_key_id
        &&& self.origin == Some(MessageOrigin::LocalSocket)
    }

    /// Nobody is noted.
    pub fn new() -> (ingress: Self)
        ensures
            ingress.is_empty(),
    {
        Ingress { principal: None, device_key_id: None, origin: None }
    }

    /// Notes from whom a frame came. Only the capsule that serves the local socket notes anybody.
    /// A frame of a verified connection notes its peer; anything else forgets whoever was noted,
    /// altogether, so that nothing later goes out in a name that is no longer there.
    pub fn record_read(
        &mut self,
        has_uplink_capability: bool,
        connections: &Connections,
        rep: u32,
        result: &Result<NetReadStatus, ErrorCode>,
    )
        ensures
            if !has_uplink_capability {
                *final(self) == *old(self)
            } else if *result is Ok && result->Ok_0 is Data && connections@.contains_key(rep) {
                final(self).is_from(connections@[rep])
            } else {
                final(self).is_empty()
            },
    {
        if !has_uplink_capability {
            return;
        }
        let bound = match result {
            Ok(NetReadStatus::Data(_)) => connections.lookup(rep),
            _ => None,
        };
        match bound {
            Some(identity) => {
                self.principal = Some(identity.principal);
                self.device_key_id = identity.device_key_id;
                self.origin = Some(MessageOrigin::LocalSocket);
            },
            None => {
                self.principal = None;
                self.device_key_id = None;
                self.origin = None;
            },
        }
    }
}

/// What became of a framed write.
pub enum FrameWrite {
    Written,
    Failed(IoError),
    TimedOut,
    Cancelled,
}

/// What a capsule gets of a framed write. No failure is passed over.
pub fn write_result(outcome: &FrameWrite) -> (r: Result<(), ErrorCode>)
    ensures
        match *outcome {
            FrameWrite::Written => r is Ok,
            FrameWrite::Failed(error) => {
                &&& r is Err
                &&& if peer_gone(error.kind) {
                    r->Err_0 == ErrorCode::ConnectionReset
                } else {
                    is_unknown(r->Err_0, "write: "@ + error.text@)
                }
            },
            FrameWrite::TimedOut => r is Err && is_unknown(
                r->Err_0,
                "write timed out: peer not draining"@,
            ),
            FrameWrite::Cancelled => r == Err::<(), ErrorCode>(ErrorCode::Closed),
        },
{
    match outcome {
        FrameWrite::Written => Ok(()),
        FrameWrite::Failed(error) => Err(map_write_frame_err(error)),
        FrameWrite::TimedOut => Err(
            ErrorCode::Unknown("write timed out: peer not draining".to_owned()),
        ),
        FrameWrite::Cancelled => Err(ErrorCode::Closed),
    }
}

/// How many bytes one read gives at most.
pub fn read_limit(max_bytes: u32) -> (n: usize)
    ensures
        n == (if max_bytes <= MAX_BYTES_PER_CALL {
            max_bytes as int
        } else {
            MAX_BYTES_PER_CALL as int
        }),
{
    let wanted: usize = max_bytes as usize;
    if wanted <= MAX_BYTES_PER_CALL {
        wanted
    } else {
        MAX_BYTES_PER_CALL
    }
}

/// What became of reading bytes.
pub enum ByteRead {
    Bytes(Vec<u8>),
    Failed(IoError),
    TimedOut,
    Cancelled,
}

/// What a capsule gets of reading bytes. A peer that is gone is an end like any other; a read
/// that was cancelled is not.
pub fn read_bytes_result(outcome: ByteRead) -> (r: Result<Vec<u8>, ErrorCode>)
    ensures
        match outcome {
            ByteRead::Bytes(bytes) => r == Ok::<Vec<u8>, ErrorCode>(bytes),
            ByteRead::Failed(error) => if peer_gone(error.kind) {
                r is Ok && r->Ok_0@.len() == 0
            } else {
                r is Err && is_unknown(r->Err_0, "read error: "@ + error.text@)
            },
            ByteRead::TimedOut => r == Err::<Vec<u8>, ErrorCode>(ErrorCode::WouldBlock),
            ByteRead::Cancelled => r == Err::<Vec<u8>, ErrorCode>(ErrorCode::Closed),
        },
{
    match outcome {
        ByteRead::Bytes(bytes) => Ok(bytes),
        ByteRead::Failed(error) => {
            if is_peer_disconnect(&error) {
                Ok(Vec::new())
            } else {
                Err(ErrorCode::Unknown(concat2("read error: ", error.text.as_str())))
            }
        },
        ByteRead::TimedOut => Err(ErrorCode::WouldBlock),
        ByteRead::Cancelled => Err(ErrorCode::Closed),
    }
}

/// What a capsule gets of looking at bytes ahead. Only a TCP stream can be looked into.
pub fn peek_result(transport: Transport, outcome: ByteRead) -> (r: Result<Vec<u8>, ErrorCode>)
    ensures
        match transport {
            Transport::Unix => r == Err::<Vec<u8>, ErrorCode>(ErrorCode::NotTcp),
            Transport::Tcp { read_timeout, write_timeout } => match outcome {
                ByteRead::Bytes(bytes) => r == Ok::<Vec<u8>, ErrorCode>(bytes),
                ByteRead::Failed(error) => r is Err && maps_to(error, r->Err_0),
                ByteRead::TimedOut => r == Err::<Vec<u8>, ErrorCode>(ErrorCode::WouldBlock),
                ByteRead::Cancelled => r == Err::<Vec<u8>, ErrorCode>(ErrorCode::Closed),
            },
        },
{
    match transport {
        Transport::Unix => Err(ErrorCode::NotTcp),
        Transport::Tcp { .. } => match outcome {
            ByteRead::Bytes(bytes) => Ok(bytes),
            ByteRead::Failed(error) => Err(map_io_err(&error)),
            ByteRead::TimedOut => Err(ErrorCode::WouldBlock),
            ByteRead::Cancelled => Err(ErrorCode::Closed),
        },
    }
}

/// What became of writing bytes.
pub enum ByteWrite {
    Wrote(usize),
    Failed(IoError),
    TimedOut,
    Cancelled,
}

/// What a capsule gets of writing bytes.
pub fn write_bytes_result(outcome: &ByteWrite) -> (r: Result<u32, ErrorCode>)
    ensures
        match *outcome {
            ByteWrite::Wrote(n) => r is Ok && r->Ok_0 == (if n <= u32::MAX {
                n as int
            } else {
                u32::MAX as int
            }),
            ByteWrite::Failed(error) => r is Err && is_unknown(
                r->Err_0,
                "write error: "@ + error.text@,
            ),
            ByteWrite::TimedOut => r == Err::<u32, ErrorCode>(ErrorCode::WouldBlock),
            ByteWrite::Cancelled => r == Err::<u32, ErrorCode>(ErrorCode::Closed),
        },
{
    match outcome {
        ByteWrite::Wrote(n) => {
            let wrote: u64 = *n as u64;
            if wrote <= 0xffff_ffff {
                Ok(wrote as u32)
            } else {
                Ok(0xffff_ffff)
            }
        },
        ByteWrite::Failed(error) => Err(
            ErrorCode::Unknown(concat2("write error: ", error.text.as_str())),
        ),
        ByteWrite::TimedOut => Err(ErrorCode::WouldBlock),
        ByteWrite::Cancelled => Err(ErrorCode::Closed),
    }
}

/// The seconds between the probes of an idle connection: at least one.
pub fn keepalive_secs(secs: u64) -> (n: u64)
    ensures
        n == (if secs < 1 {
            1
        } else {
            secs
        }),
{
    if secs < 1 {
        1
    } else {
        secs
    }
}

/// What an operation on a socket comes to. Only a TCP stream has such operations; `transport` is
/// the stream, if there is one, and `outcome` is what came of it unless it was cancelled.
pub fn with_tcp_stream<T>(transport: Option<Transport>, outcome: Option<Result<T, IoError>>) -> (r:
    Result<T, ErrorCode>)
    ensures
        match transport {
            None => r == Err::<T, ErrorCode>(ErrorCode::InvalidHandle),
            Some(Transport::Unix) => r == Err::<T, ErrorCode>(ErrorCode::NotTcp),
            Some(Transport::Tcp { .. }) => match outcome {
                None => r == Err::<T, ErrorCode>(ErrorCode::Closed),
                Some(Err(error)) => r is Err && maps_to(error, r->Err_0),
                Some(Ok(value)) => r == Ok::<T, ErrorCode>(value),
            },
        },
{
    match transport {
        None => Err(ErrorCode::InvalidHandle),
        Some(Transport::Unix) => Err(ErrorCode::NotTcp),
        Some(Transport::Tcp { .. }) => match outcome {
            None => Err(ErrorCode::Closed),
            Some(Err(error)) => Err(map_io_err(&error)),
            Some(Ok(value)) => Ok(value),
        },
    }
}

/// How probing of an idle connection is reported: the socket does not tell its time, so zero
/// stands for any.
pub fn keepalive(probing: bool) -> (secs: Option<u64>)
    ensures
        secs == (if probing {
            Some(0u64)
        } else {
            None
        }),
{
    if probing {
        Some(0)
    } else {
        None
    }
}

/// How long a closed socket lingers, in milliseconds. A time that does not fit is the longest.
pub fn linger(ms: Option<u128>) -> (r: Option<u64>)
    ensures
        r == (match ms {
            Some(n) if n <= u64::MAX => Some(n as u64),
            Some(_) => Some(u64::MAX),
            None => None,
        }),
{
    match ms {
        Some(n) => if n <= 0xffff_ffff_ffff_ffff {
            Some(n as u64)
        } else {
            Some(u64::MAX)
        },
        None => None,
    }
}

/// Gives up a stream: it no longer counts if it was open, its peer is no longer known, and if it
/// was a client, it is told that it is gone.
pub fn close_stream(
    rep: u32,
    was_open: bool,
    counts: &mut StreamCounts,
    connections: &mut Connections,
    clients: &mut ClientConnections,
) -> (event: Option<LifecycleEvent>)
    ensures
        *final(counts) == (if was_open {
            old(counts).closed()
        } else {
            *old(counts)
        }),
        final(connections)@ == old(connections)@.remove(rep),
        final(clients)@ == old(clients)@.remove(rep),
        match event {
            Some(told) => old(clients)@.contains_key(rep) && told.is_disconnect(old(clients)@[rep]),
            None => !old(clients)@.contains_key(rep),
        },
{
    if was_open {
        counts.release_net_stream();
    }
    connections.unbind(rep);
    emit_client_disconnect(clients, rep)
}

/// What is noted of a peer is noted as a whole: there is an origin exactly where there is a
/// principal, and no device without one.
pub proof fn law_ingress_in_lockstep(ingress: Ingress, identity: ConnectionIdentity)
    requires
        ingress.is_empty() || ingress.is_from(identity),
    ensures
        ingress.principal is Some <==> ingress.origin is Some,
        ingress.device_key_id is Some ==> ingress.principal is Some,
        ingress.principal is Some ==> ingress.principal->Some_0 == identity.principal,
{
}

} // verus!
