//! The operation code field of PCP request and response headers.

use vstd::prelude::*;

use crate::option_code::OptionCode;
use crate::parsing_error::ParsingError;

verus! {

/// The `Opcode` field of PCP headers.
///
/// In a request it names the operation the server has to perform; in a
/// response it is copied from the request being answered.
#[derive(Clone, Copy, Debug, PartialEq, Eq, Structural)]
pub enum OpCode {
    /// Rapid-recovery announcement from the server.
    Announce,
    /// Create an explicit dynamic mapping between an internal
    /// address + port and an external address + port.
    Mapping,
    /// Create or extend a dynamic outbound mapping to a remote peer.
    Peer,
}

/// Wire value of an opcode (the low 7 bits of the second header byte).
pub open spec fn op_code_value(c: OpCode) -> u8 {
    match c {
        OpCode::Announce => 0,
        OpCode::Mapping => 1,
        OpCode::Peer => 2,
    }
}

/// Opcode denoted by a wire value, if any.
pub open spec fn spec_op_code_from(b: u8) -> Option<OpCode> {
    if b == 0 {
        Some(OpCode::Announce)
    } else if b == 1 {
        Some(OpCode::Mapping)
    } else if b == 2 {
        Some(OpCode::Peer)
    } else {
        None
    }
}

/// Whether option code `o` may appear in a packet with opcode `c`:
/// MAP accepts every defined option, PEER only THIRD_PARTY, and
/// ANNOUNCE accepts none.
pub open spec fn spec_is_option_valid(c: OpCode, o: OptionCode) -> bool {
    match c {
        OpCode::Announce => false,
        OpCode::Mapping => true,
        OpCode::Peer => o is ThirdParty,
    }
}

/// Every opcode's wire value parses back to it.
pub proof fn lemma_op_code_round_trip(c: OpCode)
    ensures
        spec_op_code_from(op_code_value(c)) == Some(c),
{
}

impl OpCode {
    /// Returns the wire value of this opcode.
    pub fn code(&self) -> (r: u8)
        ensures
            r == op_code_value(*self),
    {
        match self {
            OpCode::Announce => 0,
            OpCode::Mapping => 1,
            OpCode::Peer => 2,
        }
    }

    /// Parses an opcode from its 7-bit wire value.
    pub fn from_byte(b: u8) -> (r: Result<OpCode, ParsingError>)
        ensures
            r == (match spec_op_code_from(b) {
                Some(c) => Ok::<OpCode, ParsingError>(c),
                None => Err::<OpCode, ParsingError>(ParsingError::NotAnOpCode(b)),
            }),
    {
        match b {
            0 => Ok(OpCode::Announce),
            1 => Ok(OpCode::Mapping),
            2 => Ok(OpCode::Peer),
            _ => Err(ParsingError::NotAnOpCode(b)),
        }
    }

    /// Returns all the option codes that are valid beside this opcode.
    pub fn valid_options(&self) -> (r: Vec<OptionCode>)
        ensures
            forall|o: OptionCode| r@.contains(o) <==> spec_is_option_valid(*self, o),
    {
        match self {
            OpCode::Announce => {
                let r: Vec<OptionCode> = Vec::new();
                assert(forall|o: OptionCode| !r@.contains(o));
                r
            },
            OpCode::Mapping => {
                let mut r: Vec<OptionCode> = Vec::new();
                r.push(OptionCode::ThirdParty);
                r.push(OptionCode::PreferFailure);
                r.push(OptionCode::Filter);
                assert(forall|o: OptionCode| spec_is_option_valid(OpCode::Mapping, o)
                    ==> (o == OptionCode::ThirdParty || o == OptionCode::PreferFailure
                        || o == OptionCode::Filter));
                assert(r@[0] == OptionCode::ThirdParty);
                assert(r@[1] == OptionCode::PreferFailure);
                assert(r@[2] == OptionCode::Filter);
                r
            },
            OpCode::Peer => {
                let mut r: Vec<OptionCode> = Vec::new();
                r.push(OptionCode::ThirdParty);
                assert(r@[0] == OptionCode::ThirdParty);
                r
            },
        }
    }

    /// Checks whether the provided option code is valid for this opcode.
    pub fn is_option_valid(&self, option: OptionCode) -> (r: bool)
        ensures
            r == spec_is_option_valid(*self, option),
    {
        match self {
            OpCode::Announce => false,
            OpCode::Mapping => true,
            OpCode::Peer => matches!(option, OptionCode::ThirdParty),
        }
    }
}

} // verus!
