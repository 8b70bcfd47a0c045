//! The result code field of PCP response headers.

use vstd::prelude::*;

use crate::parsing_error::ParsingError;

verus! {

/// The `Result Code` field of a PCP response header, per RFC 6887.
#[derive(Clone, Copy, Debug, PartialEq, Eq, Structural)]
pub enum ResultCode {
    /// Success.
    Success,
    /// The version number of the request is not recognized.
    UnsuppVersion,
    /// The operation is disabled for this client or forbidden by the
    /// server's security policy.
    NotAuthorized,
    /// The request could not be successfully parsed.
    MalformedRequest,
    /// Unsupported opcode.
    UnsuppCode,
    /// Unsupported option.
    UnsuppOption,
    /// Malformed option.
    MalformedOption,
    /// The server or the device it controls is experiencing a network
    /// failure.
    NetworkFailure,
    /// The server has insufficient resources for the operation.
    NoResources,
    /// Unsupported transport protocol.
    UnsuppProtocol,
    /// The mapping would exceed the subscriber's port quota.
    UserExQuota,
    /// The suggested external port and/or address cannot be provided.
    CannotProvideExternal,
    /// The source address of the request does not match the client
    /// address field, because of an unexpected NAT on the path.
    AddressMismatch,
    /// The server was not able to create the filters in the request.
    ExcessiveRemotePeers,
}

/// Wire value of a result code.
pub open spec fn result_code_value(c: ResultCode) -> u8 {
    match c {
        ResultCode::Success => 0,
        ResultCode::UnsuppVersion => 1,
        ResultCode::NotAuthorized => 2,
        ResultCode::MalformedRequest => 3,
        ResultCode::UnsuppCode => 4,
        ResultCode::UnsuppOption => 5,
        ResultCode::MalformedOption => 6,
        ResultCode::NetworkFailure => 7,
        ResultCode::NoResources => 8,
        ResultCode::UnsuppProtocol => 9,
        ResultCode::UserExQuota => 10,
        ResultCode::CannotProvideExternal => 11,
        ResultCode::AddressMismatch => 12,
        ResultCode::ExcessiveRemotePeers => 13,
    }
}

/// Result code denoted by a wire byte, if any.
pub open spec fn spec_result_code_from(b: u8) -> Option<ResultCode> {
    if b == 0 {
        Some(ResultCode::Success)
    } else if b == 1 {
        Some(ResultCode::UnsuppVersion)
    } else if b == 2 {
        Some(ResultCode::NotAuthorized)
    } else if b == 3 {
        Some(ResultCode::MalformedRequest)
    } else if b == 4 {
        Some(ResultCode::UnsuppCode)
    } else if b == 5 {
        Some(ResultCode::UnsuppOption)
    } else if b == 6 {
        Some(ResultCode::MalformedOption)
    } else if b == 7 {
        Some(ResultCode::NetworkFailure)
    } else if b == 8 {
        Some(ResultCode::NoResources)
    } else if b == 9 {
        Some(ResultCode::UnsuppProtocol)
    } else if b == 10 {
        Some(ResultCode::UserExQuota)
    } else if b == 11 {
        Some(ResultCode::CannotProvideExternal)
    } else if b == 12 {
        Some(ResultCode::AddressMismatch)
    } else if b == 13 {
        Some(ResultCode::ExcessiveRemotePeers)
    } else {
        None
    }
}

/// Every result code's wire value parses back to it.
pub proof fn lemma_result_code_round_trip(c: ResultCode)
    ensures
        spec_result_code_from(result_code_value(c)) == Some(c),
{
}


/// The explanation string of each result code, with the wording of
/// RFC 6887.
pub open spec fn result_explanation(c: ResultCode) -> Seq<char> {
    match c {
        ResultCode::Success => "Success"@,
        ResultCode::UnsuppVersion => "The version number at the start of the PCP Request header is not recognized by this PCP server"@,
        ResultCode::NotAuthorized => "The requested operation is disabled for this PCP client, or the PCP client requested an operation that cannot be fulfilled by the PCP server's security policy"@,
        ResultCode::MalformedRequest => "The request could not be successfully parsed"@,
        ResultCode::UnsuppCode => "Unsupported Opcode"@,
        ResultCode::UnsuppOption => "Unsupported option"@,
        ResultCode::MalformedOption => "Malformed option"@,
        ResultCode::NetworkFailure => "The PCP server or the device it controls is experiencing a network failure of some sort"@,
        ResultCode::NoResources => "Request is well-formed and valid, but the server has insufficient resources to complete the requested operation at this time"@,
        ResultCode::UnsuppProtocol => "Unsupported transport protocol"@,
        ResultCode::UserExQuota => "This attempt to create a new mapping would exceed this subscriber's port quota"@,
        ResultCode::CannotProvideExternal => "The suggested external port and/or external address cannot be provided"@,
        ResultCode::AddressMismatch => "The source IP address of the request packet does not match the contents of the PCP Client's IP Address field, due to an unexpected NAT on the path between the PCP client and the PCP-controlled NAT or firewall"@,
        ResultCode::ExcessiveRemotePeers => "The PCP server was not able to create the filters in this request"@,
    }
}

impl ResultCode {
    /// Returns the wire value of this result code.
    pub fn code(&self) -> (r: u8)
        ensures
            r == result_code_value(*self),
    {
        match self {
            ResultCode::Success => 0,
            ResultCode::UnsuppVersion => 1,
            ResultCode::NotAuthorized => 2,
            ResultCode::MalformedRequest => 3,
            ResultCode::UnsuppCode => 4,
            ResultCode::UnsuppOption => 5,
            ResultCode::MalformedOption => 6,
            ResultCode::NetworkFailure => 7,
            ResultCode::NoResources => 8,
            ResultCode::UnsuppProtocol => 9,
            ResultCode::UserExQuota => 10,
            ResultCode::CannotProvideExternal => 11,
            ResultCode::AddressMismatch => 12,
            ResultCode::ExcessiveRemotePeers => 13,
        }
    }

    /// Parses a result code from its wire byte.
    pub fn from_byte(b: u8) -> (r: Result<ResultCode, ParsingError>)
        ensures
            r == (match spec_result_code_from(b) {
                Some(c) => Ok::<ResultCode, ParsingError>(c),
                None => Err::<ResultCode, ParsingError>(ParsingError::NotAResultCode(b)),
            }),
    {
        match b {
            0 => Ok(ResultCode::Success),
            1 => Ok(ResultCode::UnsuppVersion),
            2 => Ok(ResultCode::NotAuthorized),
            3 => Ok(ResultCode::MalformedRequest),
            4 => Ok(ResultCode::UnsuppCode),
            5 => Ok(ResultCode::UnsuppOption),
            6 => Ok(ResultCode::MalformedOption),
            7 => Ok(ResultCode::NetworkFailure),
            8 => Ok(ResultCode::NoResources),
            9 => Ok(ResultCode::UnsuppProtocol),
            10 => Ok(ResultCode::UserExQuota),
            11 => Ok(ResultCode::CannotProvideExternal),
            12 => Ok(ResultCode::AddressMismatch),
            13 => Ok(ResultCode::ExcessiveRemotePeers),
            _ => Err(ParsingError::NotAResultCode(b)),
        }
    }

    /// A human-readable explanation of the result code, with the
    /// wording of RFC 6887.
    pub fn explain(&self) -> (r: &'static str)
        ensures
            r@ == result_explanation(*self),
    {
        match self {
            ResultCode::Success => "Success",
            ResultCode::UnsuppVersion => "The version number at the start of the PCP Request header is not recognized by this PCP server",
            ResultCode::NotAuthorized => "The requested operation is disabled for this PCP client, or the PCP client requested an operation that cannot be fulfilled by the PCP server's security policy",
            ResultCode::MalformedRequest => "The request could not be successfully parsed",
            ResultCode::UnsuppCode => "Unsupported Opcode",
            ResultCode::UnsuppOption => "Unsupported option",
            ResultCode::MalformedOption => "Malformed option",
            ResultCode::NetworkFailure => "The PCP server or the device it controls is experiencing a network failure of some sort",
            ResultCode::NoResources => "Request is well-formed and valid, but the server has insufficient resources to complete the requested operation at this time",
            ResultCode::UnsuppProtocol => "Unsupported transport protocol",
            ResultCode::UserExQuota => "This attempt to create a new mapping would exceed this subscriber's port quota",
            ResultCode::CannotProvideExternal => "The suggested external port and/or external address cannot be provided",
            ResultCode::AddressMismatch => "The source IP address of the request packet does not match the contents of the PCP Client's IP Address field, due to an unexpected NAT on the path between the PCP client and the PCP-controlled NAT or firewall",
            ResultCode::ExcessiveRemotePeers => "The PCP server was not able to create the filters in this request",
        }
    }
}

} // verus!
