//! The fixed 24-byte request and response headers, and the 4-byte
//! option header.

use vstd::prelude::*;

use crate::addr::Ipv6Address;
use crate::op_code::{op_code_value, OpCode};
use crate::option_code::{option_code_value, option_payload_len, OptionCode};
use crate::result_code::{result_code_value, ResultCode};
use crate::wire::{be16, be32, push_addr16, push_be16, push_be32, push_u8, push_zeros, zero_bytes};

verus! {

/// PCP request header: version, opcode, requested lifetime and the
/// client's own address.
#[derive(Clone, Copy, Debug, PartialEq)]
pub struct RequestHeader {
    /// Version of the protocol; only 2 is supported.
    pub version: u8,
    /// The operation the request asks for.
    pub opcode: OpCode,
    /// Requested lifetime of the mapping, in seconds.
    pub lifetime: u32,
    /// Address of the client sending the request.
    pub address: Ipv6Address,
}

/// The 24 wire bytes of a request header. The second byte carries the
/// opcode with its most significant bit clear: the `R` bit of a
/// request is 0.
pub open spec fn request_header_bytes(h: RequestHeader) -> Seq<u8> {
    seq![h.version, op_code_value(h.opcode)] + zero_bytes(2) + be32(h.lifetime) + h.address.0@
}

impl RequestHeader {
    /// Size of the request header, in bytes.
    pub const SIZE: usize = 24;

    /// Builds a MAP request header.
    pub fn map(version: u8, lifetime: u32, address: Ipv6Address) -> (r: RequestHeader)
        ensures
            r == (RequestHeader { version, opcode: OpCode::Mapping, lifetime, address }),
    {
        RequestHeader { version, opcode: OpCode::Mapping, lifetime, address }
    }

    /// Builds a PEER request header.
    pub fn peer(version: u8, lifetime: u32, address: Ipv6Address) -> (r: RequestHeader)
        ensures
            r == (RequestHeader { version, opcode: OpCode::Peer, lifetime, address }),
    {
        RequestHeader { version, opcode: OpCode::Peer, lifetime, address }
    }

    /// Builds an ANNOUNCE request header; an announce carries no
    /// lifetime.
    pub fn announce(version: u8, address: Ipv6Address) -> (r: RequestHeader)
        ensures
            r == (RequestHeader { version, opcode: OpCode::Announce, lifetime: 0, address }),
    {
        RequestHeader { version, opcode: OpCode::Announce, lifetime: 0, address }
    }

    /// Size of this header on the wire, in bytes.
    pub fn size(&self) -> (r: usize)
        ensures
            r == request_header_bytes(*self).len(),
    {
        24
    }

    /// Appends the wire bytes of this header to `buf`.
    pub fn copy_to(&self, buf: &mut Vec<u8>)
        ensures
            final(buf)@ =~= old(buf)@ + request_header_bytes(*self),
    {
        push_u8(buf, self.version);
        push_u8(buf, self.opcode.code());
        push_zeros(buf, 2);
        push_be32(buf, self.lifetime);
        push_addr16(buf, &self.address.0);
        assert(buf@ =~= old(buf)@ + request_header_bytes(*self));
    }
}

/// PCP response header: version, opcode, result code, assigned
/// lifetime and the server's epoch.
#[derive(Clone, Copy, Debug, PartialEq)]
pub struct ResponseHeader {
    /// Version of the protocol; only 2 is supported.
    pub version: u8,
    /// The operation the response answers.
    pub opcode: OpCode,
    /// The result of the operation.
    pub result: ResultCode,
    /// Assigned lifetime, in seconds; on an error response, how long
    /// the same request would keep failing.
    pub lifetime: u32,
    /// The server's epoch, for loss-of-state detection.
    pub epoch: u32,
}

/// The 24 wire bytes of a response header. The second byte carries
/// the opcode with its most significant bit set: the `R` bit of a
/// response is 1.
pub open spec fn response_header_bytes(h: ResponseHeader) -> Seq<u8> {
    seq![h.version, (128 + op_code_value(h.opcode)) as u8, 0u8, result_code_value(h.result)]
        + be32(h.lifetime) + be32(h.epoch) + zero_bytes(12)
}

impl ResponseHeader {
    /// Size of the response header, in bytes.
    pub const SIZE: usize = 24;

    /// Size of this header on the wire, in bytes.
    pub fn size(&self) -> (r: usize)
        ensures
            r == response_header_bytes(*self).len(),
    {
        24
    }

    /// Appends the wire bytes of this header to `buf`.
    pub fn copy_to(&self, buf: &mut Vec<u8>)
        ensures
            final(buf)@ =~= old(buf)@ + response_header_bytes(*self),
    {
        push_u8(buf, self.version);
        push_u8(buf, 128 + self.opcode.code());
        push_u8(buf, 0);
        push_u8(buf, self.result.code());
        push_be32(buf, self.lifetime);
        push_be32(buf, self.epoch);
        push_zeros(buf, 12);
        assert(buf@ =~= old(buf)@ + response_header_bytes(*self));
    }
}

/// PCP option header: the option code and the semantic length of the
/// option's payload.
#[derive(Clone, Copy, Debug, PartialEq)]
pub struct OptionHeader {
    /// The code naming the option.
    pub code: OptionCode,
    /// Semantic length of the option payload, excluding padding.
    pub length: u16,
}

/// The 4 wire bytes of an option header.
pub open spec fn option_header_bytes(h: OptionHeader) -> Seq<u8> {
    seq![option_code_value(h.code), 0u8] + be16(h.length)
}

impl OptionHeader {
    /// Size of the option header, in bytes.
    pub const SIZE: usize = 4;

    /// Builds a FILTER option header.
    pub fn filter() -> (r: OptionHeader)
        ensures
            r == (OptionHeader { code: OptionCode::Filter, length: 20u16 }),
            r.length == option_payload_len(r.code),
    {
        OptionHeader { code: OptionCode::Filter, length: 20 }
    }

    /// Builds a THIRD_PARTY option header.
    pub fn third_party() -> (r: OptionHeader)
        ensures
            r == (OptionHeader { code: OptionCode::ThirdParty, length: 16u16 }),
            r.length == option_payload_len(r.code),
    {
        OptionHeader { code: OptionCode::ThirdParty, length: 16 }
    }

    /// Builds a PREFER_FAILURE option header.
    pub fn prefer_failure() -> (r: OptionHeader)
        ensures
            r == (OptionHeader { code: OptionCode::PreferFailure, length: 0u16 }),
            r.length == option_payload_len(r.code),
    {
        OptionHeader { code: OptionCode::PreferFailure, length: 0 }
    }

    /// Size of this header on the wire, in bytes.
    pub fn size(&self) -> (r: usize)
        ensures
            r == option_header_bytes(*self).len(),
    {
        4
    }

    /// Appends the wire bytes of this header to `buf`.
    pub fn copy_to(&self, buf: &mut Vec<u8>)
        ensures
            final(buf)@ =~= old(buf)@ + option_header_bytes(*self),
    {
        push_u8(buf, self.code.code());
        push_u8(buf, 0);
        push_be16(buf, self.length);
        assert(buf@ =~= old(buf)@ + option_header_bytes(*self));
    }

    /// The wire bytes of this header, as a fresh buffer.
    pub fn bytes(&self) -> (r: Vec<u8>)
        ensures
            r@ =~= option_header_bytes(*self),
    {
        let mut buf: Vec<u8> = Vec::new();
        self.copy_to(&mut buf);
        buf
    }
}

} // verus!
