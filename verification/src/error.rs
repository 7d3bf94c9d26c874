//! Error codes and the stream shutdown direction.

use vstd::prelude::*;

verus! {

/// A QUIC error.
#[derive(Clone, Copy, Debug, PartialEq, Eq, Structural)]
pub enum Error {
    /// There is no more work to do.
    Done,
    /// The provided buffer is too short.
    BufferTooShort,
    /// The provided packet cannot be parsed because its version is unknown.
    UnknownVersion,
    /// The provided packet cannot be parsed because it contains an invalid
    /// frame.
    InvalidFrame,
    /// The provided packet cannot be parsed.
    InvalidPacket,
    /// The operation cannot be completed because the connection is in an
    /// invalid state.
    InvalidState,
    /// The operation cannot be completed because the stream is in an
    /// invalid state.
    InvalidStreamState,
    /// The peer's transport params cannot be parsed.
    InvalidTransportParam,
    /// A cryptographic operation failed.
    CryptoFail,
    /// The TLS handshake failed.
    TlsFail,
    /// The peer violated the local flow control limits.
    FlowControl,
    /// The peer violated the local stream limits.
    StreamLimit,
    /// The received data exceeds the stream's final size.
    FinalSize,
    /// Error in congestion control.
    CongestionControl,
    /// Error in scheduler type.
    SchedulerType,
}

/// The QUIC transport error code that is sent on the wire for `e`.
pub open spec fn wire_code(e: Error) -> u64 {
    match e {
        Error::Done => 0x0,
        Error::InvalidFrame => 0x7,
        Error::InvalidStreamState => 0x5,
        Error::InvalidTransportParam => 0x8,
        Error::CryptoFail => 0x100,
        Error::TlsFail => 0x100,
        Error::FlowControl => 0x3,
        Error::StreamLimit => 0x4,
        Error::FinalSize => 0x6,
        _ => 0xa,
    }
}

/// The numeric code of `e` in the C API: the variants are numbered
/// -1, -2, ... in the order of their declaration.
pub open spec fn c_code(e: Error) -> int {
    match e {
        Error::Done => -1,
        Error::BufferTooShort => -2,
        Error::UnknownVersion => -3,
        Error::InvalidFrame => -4,
        Error::InvalidPacket => -5,
        Error::InvalidState => -6,
        Error::InvalidStreamState => -7,
        Error::InvalidTransportParam => -8,
        Error::CryptoFail => -9,
        Error::TlsFail => -10,
        Error::FlowControl => -11,
        Error::StreamLimit => -12,
        Error::FinalSize => -13,
        Error::CongestionControl => -14,
        Error::SchedulerType => -15,
    }
}

/// The transport error codes: `Done` is 0x0 (no error), `InvalidFrame`
/// 0x7 (FRAME_ENCODING_ERROR), `InvalidStreamState` 0x5
/// (STREAM_STATE_ERROR), `InvalidTransportParam` 0x8
/// (TRANSPORT_PARAMETER_ERROR), `CryptoFail` and `TlsFail` 0x100 (CRYPTO_ERROR),
/// `FlowControl` 0x3 (FLOW_CONTROL_ERROR), `StreamLimit` 0x4
/// (STREAM_LIMIT_ERROR), `FinalSize` 0x6 (FINAL_SIZE_ERROR); every other
/// error is sent as 0xa (PROTOCOL_VIOLATION).
pub proof fn lemma_wire_codes(e: Error)
    ensures
        e == Error::Done ==> wire_code(e) == 0x0,
        e == Error::InvalidFrame ==> wire_code(e) == 0x7,
        e == Error::InvalidStreamState ==> wire_code(e) == 0x5,
        e == Error::InvalidTransportParam ==> wire_code(e) == 0x8,
        e == Error::CryptoFail ==> wire_code(e) == 0x100,
        e == Error::TlsFail ==> wire_code(e) == 0x100,
        e == Error::FlowControl ==> wire_code(e) == 0x3,
        e == Error::StreamLimit ==> wire_code(e) == 0x4,
        e == Error::FinalSize ==> wire_code(e) == 0x6,
        wire_code(e) == 0xa <==> (e == Error::BufferTooShort || e == Error::UnknownVersion || e
            == Error::InvalidPacket || e == Error::InvalidState || e == Error::CongestionControl
            || e == Error::SchedulerType),
{
}

/// The C codes: the errors are numbered from -1 down in the order in
/// which they are declared, `Done` -1 to `SchedulerType` -15, each code
/// used once.
pub proof fn lemma_c_codes(e: Error, f: Error)
    ensures
        -15 <= c_code(e) <= -1,
        c_code(e) == c_code(f) ==> e == f,
        e == Error::Done ==> c_code(e) == -1,
        e == Error::BufferTooShort ==> c_code(e) == -2,
        e == Error::UnknownVersion ==> c_code(e) == -3,
        e == Error::InvalidFrame ==> c_code(e) == -4,
        e == Error::InvalidPacket ==> c_code(e) == -5,
        e == Error::InvalidState ==> c_code(e) == -6,
        e == Error::InvalidStreamState ==> c_code(e) == -7,
        e == Error::InvalidTransportParam ==> c_code(e) == -8,
        e == Error::CryptoFail ==> c_code(e) == -9,
        e == Error::TlsFail ==> c_code(e) == -10,
        e == Error::FlowControl ==> c_code(e) == -11,
        e == Error::StreamLimit ==> c_code(e) == -12,
        e == Error::FinalSize ==> c_code(e) == -13,
        e == Error::CongestionControl ==> c_code(e) == -14,
        e == Error::SchedulerType ==> c_code(e) == -15,
{
}

impl Error {
    /// Returns the transport error code that is sent to the peer in a
    /// CONNECTION_CLOSE frame.
    pub fn to_wire(self) -> (code: u64)
        ensures
            code == wire_code(self),
    {
        match self {
            Error::Done => 0x0,
            Error::InvalidFrame => 0x7,
            Error::InvalidStreamState => 0x5,
            Error::InvalidTransportParam => 0x8,
            Error::CryptoFail => 0x100,
            Error::TlsFail => 0x100,
            Error::FlowControl => 0x3,
            Error::StreamLimit => 0x4,
            Error::FinalSize => 0x6,
            _ => 0xa,
        }
    }

    /// Returns the error's code in the C API.
    pub fn to_c(self) -> (code: isize)
        ensures
            code as int == c_code(self),
    {
        match self {
            Error::Done => -1,
            Error::BufferTooShort => -2,
            Error::UnknownVersion => -3,
            Error::InvalidFrame => -4,
            Error::InvalidPacket => -5,
            Error::InvalidState => -6,
            Error::InvalidStreamState => -7,
            Error::InvalidTransportParam => -8,
            Error::CryptoFail => -9,
            Error::TlsFail => -10,
            Error::FlowControl => -11,
            Error::StreamLimit => -12,
            Error::FinalSize => -13,
            Error::CongestionControl => -14,
            Error::SchedulerType => -15,
        }
    }
}

/// The stream's side to shutdown.
#[derive(Clone, Copy, Debug, PartialEq, Eq, Structural)]
pub enum Shutdown {
    /// Stop receiving stream data.
    Read,
    /// Stop sending stream data.
    Write,
}

/// A specialized `Result` type for quiche operations.
pub type Result<T> = core::result::Result<T, Error>;

} // verus!
