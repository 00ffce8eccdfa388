//! Errors of the network interface.

use vstd::prelude::*;

use crate::process::types::{quote, quoted};
use crate::text::{concat2, concat3};

verus! {

/// Why a network operation was refused or failed.
#[derive(Debug, PartialEq, Eq)]
pub enum ErrorCode {
    CapabilityDenied,
    AirlockRejected,
    Quota,
    InvalidHandle,
    NotTcp,
    Closed,
    Timeout,
    WouldBlock,
    NameUnresolvable,
    ConnectionRefused,
    ConnectionReset,
    AddressInUse,
    AddressNotAvailable,
    Unknown(String),
}

/// What the operating system says of a failure.
#[derive(Debug, Clone, Copy, PartialEq, Eq, Structural)]
pub enum IoErrorKind {
    WouldBlock,
    ConnectionRefused,
    ConnectionReset,
    ConnectionAborted,
    BrokenPipe,
    UnexpectedEof,
    TimedOut,
    AddrInUse,
    AddrNotAvailable,
    PermissionDenied,
    InvalidInput,
    /// Anything else.
    Other,
}

/// A failure of the operating system.
pub struct IoError {
    pub kind: IoErrorKind,
    /// In its own words.
    pub text: String,
}

/// What a read of a frame gives.
#[derive(Debug, PartialEq, Eq)]
pub enum NetReadStatus {
    Data(Vec<u8>),
    /// The peer is gone.
    Closed,
    /// Nothing has arrived yet.
    Pending,
}

impl ErrorCode {
    /// The same code.
    pub fn copy(&self) -> (r: Self)
        ensures
            r == *self,
    {
        match self {
            ErrorCode::CapabilityDenied => ErrorCode::CapabilityDenied,
            ErrorCode::AirlockRejected => ErrorCode::AirlockRejected,
            ErrorCode::Quota => ErrorCode::Quota,
            ErrorCode::InvalidHandle => ErrorCode::InvalidHandle,
            ErrorCode::NotTcp => ErrorCode::NotTcp,
            ErrorCode::Closed => ErrorCode::Closed,
            ErrorCode::Timeout => ErrorCode::Timeout,
            ErrorCode::WouldBlock => ErrorCode::WouldBlock,
            ErrorCode::NameUnresolvable => ErrorCode::NameUnresolvable,
            ErrorCode::ConnectionRefused => ErrorCode::ConnectionRefused,
            ErrorCode::ConnectionReset => ErrorCode::ConnectionReset,
            ErrorCode::AddressInUse => ErrorCode::AddressInUse,
            ErrorCode::AddressNotAvailable => ErrorCode::AddressNotAvailable,
            ErrorCode::Unknown(text) => ErrorCode::Unknown(text.clone()),
        }
    }

    /// The code as it appears in a message about it.
    pub open spec fn shown(self) -> Seq<char> {
        match self {
            ErrorCode::CapabilityDenied => "ErrorCode::CapabilityDenied"@,
            ErrorCode::AirlockRejected => "ErrorCode::AirlockRejected"@,
            ErrorCode::Quota => "ErrorCode::Quota"@,
            ErrorCode::InvalidHandle => "ErrorCode::InvalidHandle"@,
            ErrorCode::NotTcp => "ErrorCode::NotTcp"@,
            ErrorCode::Closed => "ErrorCode::Closed"@,
            ErrorCode::Timeout => "ErrorCode::Timeout"@,
            ErrorCode::WouldBlock => "ErrorCode::WouldBlock"@,
            ErrorCode::NameUnresolvable => "ErrorCode::NameUnresolvable"@,
            ErrorCode::ConnectionRefused => "ErrorCode::ConnectionRefused"@,
            ErrorCode::ConnectionReset => "ErrorCode::ConnectionReset"@,
            ErrorCode::AddressInUse => "ErrorCode::AddressInUse"@,
            ErrorCode::AddressNotAvailable => "ErrorCode::AddressNotAvailable"@,
            ErrorCode::Unknown(text) => "ErrorCode::Unknown("@ + quoted(text@) + ")"@,
        }
    }

    /// The code as it appears in a message about it.
    pub fn show(&self) -> (text: String)
        ensures
            text@ == self.shown(),
    {
        match self {
            ErrorCode::CapabilityDenied => "ErrorCode::CapabilityDenied".to_owned(),
            ErrorCode::AirlockRejected => "ErrorCode::AirlockRejected".to_owned(),
            ErrorCode::Quota => "ErrorCode::Quota".to_owned(),
            ErrorCode::InvalidHandle => "ErrorCode::InvalidHandle".to_owned(),
            ErrorCode::NotTcp => "ErrorCode::NotTcp".to_owned(),
            ErrorCode::Closed => "ErrorCode::Closed".to_owned(),
            ErrorCode::Timeout => "ErrorCode::Timeout".to_owned(),
            ErrorCode::WouldBlock => "ErrorCode::WouldBlock".to_owned(),
            ErrorCode::NameUnresolvable => "ErrorCode::NameUnresolvable".to_owned(),
            ErrorCode::ConnectionRefused => "ErrorCode::ConnectionRefused".to_owned(),
            ErrorCode::ConnectionReset => "ErrorCode::ConnectionReset".to_owned(),
            ErrorCode::AddressInUse => "ErrorCode::AddressInUse".to_owned(),
            ErrorCode::AddressNotAvailable => "ErrorCode::AddressNotAvailable".to_owned(),
            ErrorCode::Unknown(text) => {
                let inner = quote(text.as_str());
                concat3("ErrorCode::Unknown(", inner.as_str(), ")")
            },
        }
    }
}

/// `code` is what a failure of the operating system is to the capsule.
pub open spec fn maps_to(error: IoError, code: ErrorCode) -> bool {
    match error.kind {
        IoErrorKind::WouldBlock => code == ErrorCode::WouldBlock,
        IoErrorKind::ConnectionRefused => code == ErrorCode::ConnectionRefused,
        IoErrorKind::ConnectionReset => code == ErrorCode::ConnectionReset,
        IoErrorKind::ConnectionAborted => code == ErrorCode::ConnectionReset,
        IoErrorKind::BrokenPipe => code == ErrorCode::ConnectionReset,
        IoErrorKind::TimedOut => code == ErrorCode::Timeout,
        IoErrorKind::AddrInUse => code == ErrorCode::AddressInUse,
        IoErrorKind::AddrNotAvailable => code == ErrorCode::AddressNotAvailable,
        IoErrorKind::UnexpectedEof => is_unknown(code, error.text@),
        IoErrorKind::PermissionDenied => is_unknown(code, error.text@),
        IoErrorKind::InvalidInput => is_unknown(code, error.text@),
        IoErrorKind::Other => is_unknown(code, error.text@),
    }
}

/// `code` is an unknown error with this text.
pub open spec fn is_unknown(code: ErrorCode, text: Seq<char>) -> bool {
    code is Unknown && code->Unknown_0@ == text
}

/// What a failure of the operating system is to the capsule.
pub fn map_io_err(error: &IoError) -> (code: ErrorCode)
    ensures
        maps_to(*error, code),
{
    match error.kind {
        IoErrorKind::WouldBlock => ErrorCode::WouldBlock,
        IoErrorKind::ConnectionRefused => ErrorCode::ConnectionRefused,
        IoErrorKind::ConnectionReset => ErrorCode::ConnectionReset,
        IoErrorKind::ConnectionAborted => ErrorCode::ConnectionReset,
        IoErrorKind::BrokenPipe => ErrorCode::ConnectionReset,
        IoErrorKind::TimedOut => ErrorCode::Timeout,
        IoErrorKind::AddrInUse => ErrorCode::AddressInUse,
        IoErrorKind::AddrNotAvailable => ErrorCode::AddressNotAvailable,
        _ => ErrorCode::Unknown(error.text.clone()),
    }
}

/// The failure is an ordinary end of a connection.
pub open spec fn peer_gone(kind: IoErrorKind) -> bool {
    ||| kind == IoErrorKind::BrokenPipe
    ||| kind == IoErrorKind::ConnectionReset
    ||| kind == IoErrorKind::ConnectionAborted
    ||| kind == IoErrorKind::UnexpectedEof
}

/// Whether a failure is an ordinary end of a connection.
pub fn is_peer_disconnect(error: &IoError) -> (r: bool)
    ensures
        r == peer_gone(error.kind),
{
    match error.kind {
        IoErrorKind::BrokenPipe => true,
        IoErrorKind::ConnectionReset => true,
        IoErrorKind::ConnectionAborted => true,
        IoErrorKind::UnexpectedEof => true,
        _ => false,
    }
}

/// What a failed write of a frame is to the capsule. A peer that is gone is told from a failure
/// that may pass.
pub fn map_write_frame_err(error: &IoError) -> (code: ErrorCode)
    ensures
        if peer_gone(error.kind) {
            code == ErrorCode::ConnectionReset
        } else {
            is_unknown(code, "write: "@ + error.text@)
        },
{
    if is_peer_disconnect(error) {
        ErrorCode::ConnectionReset
    } else {
        ErrorCode::Unknown(concat2("write: ", error.text.as_str()))
    }
}

} // verus!
