//! The error taxonomy of the PCP codec.

use vstd::prelude::*;

use crate::op_code::OpCode;
use crate::option_code::OptionCode;

verus! {

/// Everything that can go wrong while decoding a PCP packet or while
/// assembling one through the validated constructors.
///
/// Decode errors surface to the caller and never kill the service.
#[derive(Clone, Copy, Debug, PartialEq, Eq, Structural)]
pub enum ParsingError {
    /// The value is not an opcode.
    NotAnOpCode(u8),
    /// The value is not an option code.
    NotAnOptionCode(u8),
    /// The value is not a result code.
    NotAResultCode(u8),
    /// The value is not an IANA protocol number.
    NotAProtocolNumber(u8),
    /// The slice is too short for the data expected in it; the value
    /// is the length of the slice.
    InvalidSliceLength(usize),
    /// The option length field (second value) is invalid for that
    /// option code (first value).
    InvalidOptionLength(OptionCode, usize),
    /// The version is not supported; only version 2 is.
    VersionNotSupported(u8),
    /// The `R` bit of the header says the packet is not a response.
    NotAResponse,
    /// The `R` bit of the header says the packet is not a request.
    NotARequest,
    /// The filter option prefix is too short for an IPv4-mapped
    /// remote address, which needs a prefix of at least 96 bits.
    InvalidPrefix(u8),
    /// The option code (second value) may not appear beside that
    /// opcode (first value).
    InvalidOption(OpCode, OptionCode),
    /// The assembled packet would exceed the maximum packet size;
    /// the value is its size.
    PacketTooBig(usize),
    /// The remote peer port of a PEER request is zero, which the
    /// protocol forbids.
    ZeroRemotePeerPort,
}

} // verus!
