//! The option code field of a PCP option header.

use vstd::prelude::*;

use crate::parsing_error::ParsingError;

verus! {

/// The `Option Code` field contained in a PCP option header.
///
/// Only three option codes are defined by RFC 6887.
#[derive(Clone, Copy, Debug, PartialEq, Eq, Structural)]
pub enum OptionCode {
    /// The MAP or PEER request is for a host other than the sender.
    ThirdParty,
    /// The server should not create an alternative mapping when the
    /// suggested external port and address cannot be mapped.
    PreferFailure,
    /// A filter for incoming packets.
    Filter,
}

/// Wire value of an option code.
pub open spec fn option_code_value(c: OptionCode) -> u8 {
    match c {
        OptionCode::ThirdParty => 1,
        OptionCode::PreferFailure => 2,
        OptionCode::Filter => 3,
    }
}

/// Option code denoted by a wire byte, if any.
pub open spec fn spec_option_code_from(b: u8) -> Option<OptionCode> {
    if b == 1 {
        Some(OptionCode::ThirdParty)
    } else if b == 2 {
        Some(OptionCode::PreferFailure)
    } else if b == 3 {
        Some(OptionCode::Filter)
    } else {
        None
    }
}

/// Semantic payload length, in bytes, of an option with this code.
/// The value of the `Option Length` header field must equal it.
pub open spec fn option_payload_len(c: OptionCode) -> u16 {
    match c {
        OptionCode::ThirdParty => 16,
        OptionCode::PreferFailure => 0,
        OptionCode::Filter => 20,
    }
}

/// Every option code's wire value parses back to it.
pub proof fn lemma_option_code_round_trip(c: OptionCode)
    ensures
        spec_option_code_from(option_code_value(c)) == Some(c),
{
}

impl OptionCode {
    /// Returns the wire value of this option code.
    pub fn code(&self) -> (r: u8)
        ensures
            r == option_code_value(*self),
    {
        match self {
            OptionCode::ThirdParty => 1,
            OptionCode::PreferFailure => 2,
            OptionCode::Filter => 3,
        }
    }

    /// Parses an option code from its wire byte.
    pub fn from_byte(b: u8) -> (r: Result<OptionCode, ParsingError>)
        ensures
            r == (match spec_option_code_from(b) {
                Some(c) => Ok::<OptionCode, ParsingError>(c),
                None => Err::<OptionCode, ParsingError>(ParsingError::NotAnOptionCode(b)),
            }),
    {
        match b {
            1 => Ok(OptionCode::ThirdParty),
            2 => Ok(OptionCode::PreferFailure),
            3 => Ok(OptionCode::Filter),
            _ => Err(ParsingError::NotAnOptionCode(b)),
        }
    }

    /// Returns the semantic payload length required for this code.
    pub fn payload_len(&self) -> (r: u16)
        ensures
            r == option_payload_len(*self),
    {
        match self {
            OptionCode::ThirdParty => 16,
            OptionCode::PreferFailure => 0,
            OptionCode::Filter => 20,
        }
    }
}

} // verus!
