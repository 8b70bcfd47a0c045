//! Zero-copy views over the wire form of PCP responses and options.
//!
//! Each slice type wraps a borrowed byte region that has been checked
//! to hold a valid value of its kind; accessors read single fields
//! without copying the rest, and `parse` copies the fields out into
//! the owned packet types. The checks and values are the ones the
//! model in [`crate::parse`] assigns to the bytes.

use vstd::prelude::*;

use crate::addr::Ipv6Address;
use crate::headers::{OptionHeader, ResponseHeader};
use crate::op_code::{spec_op_code_from, OpCode};
use crate::option_code::{option_payload_len, spec_option_code_from, OptionCode};
use crate::packet::{option_wf, OptionPayload, PacketOption};
use crate::parse::{
    option_error_at, response_error, response_header_at, response_header_error,
    response_parses_to, response_payload_at,
};
use crate::parsing_error::ParsingError;
use crate::payloads::{
    FilterOptionPayload, MapResponsePayload, PeerResponsePayload, ThirdPartyOptionPayload,
};
use crate::protocols::{spec_protocol_from, ProtocolNumber};
use crate::response::{response_wf, spec_response_payload_opcode, ResponsePacket, ResponsePayload};
use crate::result_code::{spec_result_code_from, ResultCode};
use crate::wire::{be16_val, be32_val, read_addr16, read_be16, read_be32, read_nonce, read_u8};

verus! {

/// The option header denoted by a 4-byte region.
pub open spec fn header_region_at(hs: Seq<u8>, h: OptionHeader) -> bool {
    &&& spec_option_code_from(hs[0]) == Some(h.code)
    &&& h.length == be16_val(hs[2], hs[3])
}

/// The option payload denoted by a payload region.
pub open spec fn payload_region_at(ps: Seq<u8>, p: OptionPayload) -> bool {
    match p {
        OptionPayload::Filter(f) => {
            &&& f.prefix == ps[1]
            &&& f.remote_port == be16_val(ps[2], ps[3])
            &&& f.remote_addr.0@ == ps.subrange(4, 20)
        },
        OptionPayload::ThirdParty(t) => t.address.0@ == ps.subrange(0, 16),
        OptionPayload::PreferFailure => true,
    }
}

/// A checked view of a PCP response header.
pub struct ResponseHeaderSlice<'a> {
    /// The viewed 24-byte region.
    pub slice: &'a [u8],
}

impl<'a> ResponseHeaderSlice<'a> {
    /// The region holds exactly the 24 header bytes and passes every
    /// header check.
    pub open spec fn wf(self) -> bool {
        &&& self.slice@.len() == 24
        &&& response_header_error(self.slice@) is None
    }

    /// Checks the leading response header of `s` and returns a view
    /// of its 24 bytes, or the exact error the header produces.
    pub fn try_parse(s: &'a [u8]) -> (r: Result<ResponseHeaderSlice<'a>, ParsingError>)
        ensures
            (match r {
                Ok(h) => response_header_error(s@) is None && h.slice@ == s@.subrange(0, 24)
                    && h.wf(),
                Err(e) => response_header_error(s@) == Some(e),
            }),
    {
        let n = s.len();
        if n > 1100 {
            return Err(ParsingError::PacketTooBig(n));
        }
        if n < 24 {
            return Err(ParsingError::InvalidSliceLength(n));
        }
        let version = read_u8(s, 0);
        if version != 2 {
            return Err(ParsingError::VersionNotSupported(version));
        }
        let b1 = read_u8(s, 1);
        if b1 < 128 {
            return Err(ParsingError::NotAResponse);
        }
        if let Err(e) = OpCode::from_byte(b1 - 128) {
            return Err(e);
        }
        if let Err(e) = ResultCode::from_byte(read_u8(s, 3)) {
            return Err(e);
        }
        let region = vstd::slice::slice_subrange(s, 0, 24);
        assert(response_header_error(region@) is None);
        Ok(ResponseHeaderSlice { slice: region })
    }

    /// Returns the protocol version of the response.
    pub fn version(&self) -> (r: u8)
        requires
            self.wf(),
        ensures
            r == self.slice@[0],
    {
        read_u8(self.slice, 0)
    }

    /// Returns the opcode the response answers.
    pub fn opcode(&self) -> (r: OpCode)
        requires
            self.wf(),
        ensures
            spec_op_code_from((self.slice@[1] - 128) as u8) == Some(r),
    {
        let b1 = read_u8(self.slice, 1);
        match OpCode::from_byte(b1 - 128) {
            Ok(c) => c,
            Err(_) => vstd::pervasive::unreached(),
        }
    }

    /// Returns the result code of the response.
    pub fn result_code(&self) -> (r: ResultCode)
        requires
            self.wf(),
        ensures
            spec_result_code_from(self.slice@[3]) == Some(r),
    {
        match ResultCode::from_byte(read_u8(self.slice, 3)) {
            Ok(c) => c,
            Err(_) => vstd::pervasive::unreached(),
        }
    }

    /// Returns the assigned lifetime, in seconds.
    pub fn lifetime(&self) -> (r: u32)
        requires
            self.wf(),
        ensures
            r == be32_val(self.slice@[4], self.slice@[5], self.slice@[6], self.slice@[7]),
    {
        read_be32(self.slice, 4)
    }

    /// Returns the server's epoch field.
    pub fn epoch(&self) -> (r: u32)
        requires
            self.wf(),
        ensures
            r == be32_val(self.slice@[8], self.slice@[9], self.slice@[10], self.slice@[11]),
    {
        read_be32(self.slice, 8)
    }

    /// Returns the underlying 24 header bytes.
    pub fn slice(&self) -> (r: &[u8])
        ensures
            r@ == self.slice@,
    {
        self.slice
    }

    /// Copies the header fields out into an owned header.
    pub fn parse(&self) -> (r: ResponseHeader)
        requires
            self.wf(),
        ensures
            response_header_at(self.slice@, r),
    {
        ResponseHeader {
            version: self.version(),
            opcode: self.opcode(),
            result: self.result_code(),
            lifetime: self.lifetime(),
            epoch: self.epoch(),
        }
    }
}

/// A checked view of a PCP option header.
pub struct OptionHeaderSlice<'a> {
    /// The viewed 4-byte region.
    pub slice: &'a [u8],
}

impl<'a> OptionHeaderSlice<'a> {
    /// The region holds exactly the 4 option header bytes, with a
    /// known option code and the length defined for it.
    pub open spec fn wf(self) -> bool {
        &&& self.slice@.len() == 4
        &&& spec_option_code_from(self.slice@[0]) is Some
        &&& be16_val(self.slice@[2], self.slice@[3]) == option_payload_len(
            spec_option_code_from(self.slice@[0])->Some_0,
        )
    }

    /// Checks the leading option header of `s` and returns a view of
    /// its 4 bytes: the slice must be long enough, the option code
    /// known, and the length field the one defined for the code.
    pub fn try_parse(s: &'a [u8]) -> (r: Result<OptionHeaderSlice<'a>, ParsingError>)
        ensures
            (match r {
                Ok(h) => {
                    &&& s@.len() >= 4
                    &&& h.slice@ == s@.subrange(0, 4)
                    &&& h.wf()
                },
                Err(e) => e == (if s@.len() < 4 {
                    ParsingError::InvalidSliceLength(s@.len() as usize)
                } else {
                    match spec_option_code_from(s@[0]) {
                        None => ParsingError::NotAnOptionCode(s@[0]),
                        Some(c) => ParsingError::InvalidOptionLength(
                            c,
                            be16_val(s@[2], s@[3]) as usize,
                        ),
                    }
                }),
            }),
    {
        let n = s.len();
        if n < 4 {
            return Err(ParsingError::InvalidSliceLength(n));
        }
        let code = match OptionCode::from_byte(read_u8(s, 0)) {
            Ok(c) => c,
            Err(e) => {
                return Err(e);
            },
        };
        let length = read_be16(s, 2);
        if length != code.payload_len() {
            return Err(ParsingError::InvalidOptionLength(code, length as usize));
        }
        Ok(OptionHeaderSlice { slice: vstd::slice::slice_subrange(s, 0, 4) })
    }

    /// Returns the option code.
    pub fn code(&self) -> (r: OptionCode)
        requires
            self.wf(),
        ensures
            spec_option_code_from(self.slice@[0]) == Some(r),
    {
        match OptionCode::from_byte(read_u8(self.slice, 0)) {
            Ok(c) => c,
            Err(_) => vstd::pervasive::unreached(),
        }
    }

    /// Returns the semantic length of the option payload.
    pub fn length(&self) -> (r: u16)
        requires
            self.wf(),
        ensures
            r == be16_val(self.slice@[2], self.slice@[3]),
    {
        read_be16(self.slice, 2)
    }

    /// Returns the underlying 4 header bytes.
    pub fn slice(&self) -> (r: &[u8])
        ensures
            r@ == self.slice@,
    {
        self.slice
    }

    /// Copies the header fields out into an owned option header.
    pub fn parse(&self) -> (r: OptionHeader)
        requires
            self.wf(),
        ensures
            header_region_at(self.slice@, r),
            r.length == option_payload_len(r.code),
    {
        OptionHeader { code: self.code(), length: self.length() }
    }
}

/// A checked view of a FILTER option payload.
pub struct FilterOptionPayloadSlice<'a> {
    /// The viewed 20-byte region.
    pub slice: &'a [u8],
}

impl<'a> FilterOptionPayloadSlice<'a> {
    /// The region holds exactly the 20 payload bytes and obeys the
    /// prefix rule for IPv4-mapped remote addresses.
    pub open spec fn wf(self) -> bool {
        &&& self.slice@.len() == 20
        &&& (crate::addr::spec_is_v4_mapped(self.slice@.subrange(4, 20)) ==> self.slice@[1] >= 96)
    }

    /// Checks the leading FILTER payload of `s` and returns a view of
    /// its 20 bytes; an IPv4-mapped remote address with a prefix
    /// below 96 is rejected.
    pub fn try_parse(s: &'a [u8]) -> (r: Result<FilterOptionPayloadSlice<'a>, ParsingError>)
        ensures
            (match r {
                Ok(p) => s@.len() >= 20 && p.slice@ == s@.subrange(0, 20) && p.wf(),
                Err(e) => e == (if s@.len() < 20 {
                    ParsingError::InvalidSliceLength(s@.len() as usize)
                } else {
                    ParsingError::InvalidPrefix(s@[1])
                }),
            }),
    {
        let n = s.len();
        if n < 20 {
            return Err(ParsingError::InvalidSliceLength(n));
        }
        let prefix = read_u8(s, 1);
        let addr = Ipv6Address(read_addr16(s, 4));
        if addr.is_v4_mapped() && prefix < 96 {
            return Err(ParsingError::InvalidPrefix(prefix));
        }
        let region = vstd::slice::slice_subrange(s, 0, 20);
        assert(region@.subrange(4, 20) =~= s@.subrange(4, 20));
        Ok(FilterOptionPayloadSlice { slice: region })
    }

    /// Returns the prefix length of the filter.
    pub fn prefix(&self) -> (r: u8)
        requires
            self.wf(),
        ensures
            r == self.slice@[1],
    {
        read_u8(self.slice, 1)
    }

    /// Returns the remote peer port of the filter.
    pub fn remote_port(&self) -> (r: u16)
        requires
            self.wf(),
        ensures
            r == be16_val(self.slice@[2], self.slice@[3]),
    {
        read_be16(self.slice, 2)
    }

    /// Returns the remote peer address of the filter.
    pub fn remote_address(&self) -> (r: Ipv6Address)
        requires
            self.wf(),
        ensures
            r.0@ == self.slice@.subrange(4, 20),
    {
        Ipv6Address(read_addr16(self.slice, 4))
    }

    /// Returns the underlying 20 payload bytes.
    pub fn slice(&self) -> (r: &[u8])
        ensures
            r@ == self.slice@,
    {
        self.slice
    }

    /// Copies the payload fields out into an owned payload.
    pub fn parse(&self) -> (r: FilterOptionPayload)
        requires
            self.wf(),
        ensures
            payload_region_at(self.slice@, OptionPayload::Filter(r)),
    {
        FilterOptionPayload {
            prefix: self.prefix(),
            remote_port: self.remote_port(),
            remote_addr: self.remote_address(),
        }
    }
}

/// A checked view of a THIRD_PARTY option payload.
pub struct ThirdPartyOptionPayloadSlice<'a> {
    /// The viewed 16-byte region.
    pub slice: &'a [u8],
}

impl<'a> ThirdPartyOptionPayloadSlice<'a> {
    /// The region holds exactly the 16 payload bytes.
    pub open spec fn wf(self) -> bool {
        self.slice@.len() == 16
    }

    /// Checks the leading THIRD_PARTY payload of `s` and returns a
    /// view of its 16 bytes.
    pub fn try_parse(s: &'a [u8]) -> (r: Result<ThirdPartyOptionPayloadSlice<'a>, ParsingError>)
        ensures
            (match r {
                Ok(p) => s@.len() >= 16 && p.slice@ == s@.subrange(0, 16) && p.wf(),
                Err(e) => s@.len() < 16 && e == ParsingError::InvalidSliceLength(
                    s@.len() as usize,
                ),
            }),
    {
        let n = s.len();
        if n < 16 {
            return Err(ParsingError::InvalidSliceLength(n));
        }
        Ok(ThirdPartyOptionPayloadSlice { slice: vstd::slice::slice_subrange(s, 0, 16) })
    }

    /// Returns the internal address carried by the option.
    pub fn address(&self) -> (r: Ipv6Address)
        requires
            self.wf(),
        ensures
            r.0@ == self.slice@.subrange(0, 16),
    {
        let a = Ipv6Address(read_addr16(self.slice, 0));
        proof {
            assert(self.slice@.subrange(0, 16) =~= self.slice@);
        }
        a
    }

    /// Returns the underlying 16 payload bytes.
    pub fn slice(&self) -> (r: &[u8])
        ensures
            r@ == self.slice@,
    {
        self.slice
    }

    /// Copies the payload out into an owned payload.
    pub fn parse(&self) -> (r: ThirdPartyOptionPayload)
        requires
            self.wf(),
        ensures
            payload_region_at(self.slice@, OptionPayload::ThirdParty(r)),
    {
        ThirdPartyOptionPayload { address: self.address() }
    }
}

/// A checked view of one option payload of any kind.
pub enum OptionPayloadSlice<'a> {
    /// A FILTER payload view.
    Filter(FilterOptionPayloadSlice<'a>),
    /// A THIRD_PARTY payload view.
    ThirdParty(ThirdPartyOptionPayloadSlice<'a>),
    /// A PREFER_FAILURE payload view: an empty region.
    PreferFailure(&'a [u8]),
}

impl<'a> OptionPayloadSlice<'a> {
    /// The region of each kind is well formed; a PREFER_FAILURE
    /// payload is empty.
    pub open spec fn wf(self) -> bool {
        match self {
            OptionPayloadSlice::Filter(p) => p.wf(),
            OptionPayloadSlice::ThirdParty(p) => p.wf(),
            OptionPayloadSlice::PreferFailure(s) => s@.len() == 0,
        }
    }

    /// The bytes of the viewed region.
    pub open spec fn spec_slice(self) -> Seq<u8> {
        match self {
            OptionPayloadSlice::Filter(p) => p.slice@,
            OptionPayloadSlice::ThirdParty(p) => p.slice@,
            OptionPayloadSlice::PreferFailure(s) => s@,
        }
    }

    /// Size of the viewed payload, in bytes.
    pub fn size(&self) -> (r: usize)
        requires
            self.wf(),
        ensures
            r == self.spec_slice().len(),
    {
        match self {
            OptionPayloadSlice::Filter(_) => 20,
            OptionPayloadSlice::ThirdParty(_) => 16,
            OptionPayloadSlice::PreferFailure(_) => 0,
        }
    }

    /// Returns the underlying payload bytes.
    pub fn slice(&self) -> (r: &[u8])
        ensures
            r@ == self.spec_slice(),
    {
        match self {
            OptionPayloadSlice::Filter(p) => p.slice(),
            OptionPayloadSlice::ThirdParty(p) => p.slice(),
            OptionPayloadSlice::PreferFailure(s) => s,
        }
    }

    /// Copies the payload out into an owned payload.
    pub fn parse(&self) -> (r: OptionPayload)
        requires
            self.wf(),
        ensures
            payload_region_at(self.spec_slice(), r),
            crate::packet::option_payload_bytes(r).len() == self.spec_slice().len(),
            crate::packet::option_payload_code(r) == (match self {
                OptionPayloadSlice::Filter(_) => OptionCode::Filter,
                OptionPayloadSlice::ThirdParty(_) => OptionCode::ThirdParty,
                OptionPayloadSlice::PreferFailure(_) => OptionCode::PreferFailure,
            }),
    {
        match self {
            OptionPayloadSlice::Filter(p) => OptionPayload::Filter(p.parse()),
            OptionPayloadSlice::ThirdParty(p) => OptionPayload::ThirdParty(p.parse()),
            OptionPayloadSlice::PreferFailure(_) => OptionPayload::PreferFailure,
        }
    }
}

/// A checked view of one whole packet option: its header view and
/// its payload view, cut from one contiguous region.
pub struct PacketOptionSlice<'a> {
    /// The view of the option header.
    pub header: OptionHeaderSlice<'a>,
    /// The view of the option payload.
    pub payload: OptionPayloadSlice<'a>,
}

impl<'a> PacketOptionSlice<'a> {
    /// Both views are well formed and agree on the option code and
    /// payload size.
    pub open spec fn wf(self) -> bool {
        &&& self.header.wf()
        &&& self.payload.wf()
        &&& spec_option_code_from(self.header.slice@[0]) == Some(
            match self.payload {
                OptionPayloadSlice::Filter(_) => OptionCode::Filter,
                OptionPayloadSlice::ThirdParty(_) => OptionCode::ThirdParty,
                OptionPayloadSlice::PreferFailure(_) => OptionCode::PreferFailure,
            },
        )
    }

    /// Checks the leading option of `s` against the containing
    /// opcode `op` and returns views of its header and payload. The
    /// checks and the error returned are those of the model's option
    /// scan at position 0.
    pub fn try_parse(op: OpCode, s: &'a [u8]) -> (r: Result<PacketOptionSlice<'a>, ParsingError>)
        ensures
            (match r {
                Ok(o) => {
                    &&& option_error_at(op, s@, 0) is Ok
                    &&& option_error_at(op, s@, 0)->Ok_0 == 4 + o.payload.spec_slice().len()
                    &&& o.wf()
                    &&& o.header.slice@ == s@.subrange(0, 4)
                    &&& o.payload.spec_slice() == s@.subrange(
                        4,
                        4 + o.payload.spec_slice().len() as int,
                    )
                },
                Err(e) => option_error_at(op, s@, 0) == Err::<int, ParsingError>(e),
            }),
    {
        let n = s.len();
        if n < 4 {
            return Err(ParsingError::InvalidSliceLength(n));
        }
        let code = match OptionCode::from_byte(read_u8(s, 0)) {
            Ok(c) => c,
            Err(e) => {
                return Err(e);
            },
        };
        let length = read_be16(s, 2);
        if length != code.payload_len() {
            return Err(ParsingError::InvalidOptionLength(code, length as usize));
        }
        if !op.is_option_valid(code) {
            return Err(ParsingError::InvalidOption(op, code));
        }
        assert(crate::parse::padded_len(length) == length) by {
            assert(length == 20 || length == 16 || length == 0);
        }
        if n < 4 + (length as usize) {
            return Err(ParsingError::InvalidSliceLength(n));
        }
        let header = OptionHeaderSlice { slice: vstd::slice::slice_subrange(s, 0, 4) };
        let payload = match code {
            OptionCode::Filter => {
                let region = vstd::slice::slice_subrange(s, 4, 24);
                let p = FilterOptionPayloadSlice { slice: region };
                let prefix = read_u8(region, 1);
                let addr = Ipv6Address(read_addr16(region, 4));
                proof {
                    assert(region@.subrange(4, 20) =~= s@.subrange(8, 24));
                }
                if addr.is_v4_mapped() && prefix < 96 {
                    return Err(ParsingError::InvalidPrefix(prefix));
                }
                OptionPayloadSlice::Filter(p)
            },
            OptionCode::ThirdParty => OptionPayloadSlice::ThirdParty(
                ThirdPartyOptionPayloadSlice { slice: vstd::slice::slice_subrange(s, 4, 20) },
            ),
            OptionCode::PreferFailure => OptionPayloadSlice::PreferFailure(
                vstd::slice::slice_subrange(s, 4, 4),
            ),
        };
        Ok(PacketOptionSlice { header, payload })
    }

    /// Size of the whole option on the wire, in bytes.
    pub fn size(&self) -> (r: usize)
        requires
            self.wf(),
        ensures
            r == 4 + self.payload.spec_slice().len(),
    {
        4 + self.payload.size()
    }

    /// Returns the payload view.
    pub fn payload(&self) -> (r: &OptionPayloadSlice<'a>)
        ensures
            r == &self.payload,
    {
        &self.payload
    }

    /// Returns the header view.
    pub fn header(&self) -> (r: &OptionHeaderSlice<'a>)
        ensures
            r == &self.header,
    {
        &self.header
    }

    /// Copies the option out into an owned option, structurally well
    /// formed by construction.
    pub fn parse(&self) -> (r: PacketOption)
        requires
            self.wf(),
        ensures
            option_wf(r),
            header_region_at(self.header.slice@, r.header),
            payload_region_at(self.payload.spec_slice(), r.payload),
    {
        let header = self.header.parse();
        let payload = self.payload.parse();
        PacketOption { header, payload }
    }
}

/// A checked view of the opcode-specific payload of a response.
pub enum ResponsePayloadSlice<'a> {
    /// A MAP response payload view.
    Mapping(MapResponsePayloadSlice<'a>),
    /// A PEER response payload view.
    Peer(PeerResponsePayloadSlice<'a>),
    /// An ANNOUNCE response has no payload: an empty region.
    Announce(&'a [u8]),
}

/// A checked view of a MAP response payload.
pub struct MapResponsePayloadSlice<'a> {
    /// The viewed 36-byte region.
    pub slice: &'a [u8],
}

impl<'a> MapResponsePayloadSlice<'a> {
    /// The region holds exactly the 36 payload bytes with a known
    /// protocol number.
    pub open spec fn wf(self) -> bool {
        &&& self.slice@.len() == 36
        &&& spec_protocol_from(self.slice@[12]) is Some
    }

    /// Checks the leading MAP response payload of `s` and returns a
    /// view of its 36 bytes.
    pub fn try_parse(s: &'a [u8]) -> (r: Result<MapResponsePayloadSlice<'a>, ParsingError>)
        ensures
            (match r {
                Ok(p) => s@.len() >= 36 && p.slice@ == s@.subrange(0, 36) && p.wf(),
                Err(e) => e == (if s@.len() < 36 {
                    ParsingError::InvalidSliceLength(s@.len() as usize)
                } else {
                    ParsingError::NotAProtocolNumber(s@[12])
                }),
            }),
    {
        let n = s.len();
        if n < 36 {
            return Err(ParsingError::InvalidSliceLength(n));
        }
        if let Err(e) = ProtocolNumber::from_byte(read_u8(s, 12)) {
            return Err(e);
        }
        Ok(MapResponsePayloadSlice { slice: vstd::slice::slice_subrange(s, 0, 36) })
    }

    /// Returns the 12 nonce bytes.
    pub fn nonce(&self) -> (r: &[u8])
        requires
            self.wf(),
        ensures
            r@ == self.slice@.subrange(0, 12),
    {
        vstd::slice::slice_subrange(self.slice, 0, 12)
    }

    /// Returns the protocol of the mapping.
    pub fn protocol(&self) -> (r: ProtocolNumber)
        requires
            self.wf(),
        ensures
            spec_protocol_from(self.slice@[12]) == Some(r),
    {
        match ProtocolNumber::from_byte(read_u8(self.slice, 12)) {
            Ok(p) => p,
            Err(_) => vstd::pervasive::unreached(),
        }
    }

    /// Returns the internal port of the mapping.
    pub fn internal_port(&self) -> (r: u16)
        requires
            self.wf(),
        ensures
            r == be16_val(self.slice@[16], self.slice@[17]),
    {
        read_be16(self.slice, 16)
    }

    /// Returns the assigned external port.
    pub fn external_port(&self) -> (r: u16)
        requires
            self.wf(),
        ensures
            r == be16_val(self.slice@[18], self.slice@[19]),
    {
        read_be16(self.slice, 18)
    }

    /// Returns the assigned external address.
    pub fn external_address(&self) -> (r: Ipv6Address)
        requires
            self.wf(),
        ensures
            r.0@ == self.slice@.subrange(20, 36),
    {
        Ipv6Address(read_addr16(self.slice, 20))
    }

    /// Returns the underlying 36 payload bytes.
    pub fn slice(&self) -> (r: &[u8])
        ensures
            r@ == self.slice@,
    {
        self.slice
    }

    /// Copies the payload fields out into an owned payload.
    pub fn parse(&self) -> (r: MapResponsePayload)
        requires
            self.wf(),
        ensures
            response_payload_at(self.slice@, 0, ResponsePayload::Mapping(r)),
    {
        let r = MapResponsePayload {
            nonce: read_nonce(self.slice, 0),
            protocol: self.protocol(),
            internal_port: self.internal_port(),
            external_port: self.external_port(),
            external_addr: self.external_address(),
        };
        r
    }
}

/// A checked view of a PEER response payload.
pub struct PeerResponsePayloadSlice<'a> {
    /// The viewed 56-byte region.
    pub slice: &'a [u8],
}

impl<'a> PeerResponsePayloadSlice<'a> {
    /// The region holds exactly the 56 payload bytes with a known
    /// protocol number and a non-zero remote port.
    pub open spec fn wf(self) -> bool {
        &&& self.slice@.len() == 56
        &&& spec_protocol_from(self.slice@[12]) is Some
        &&& be16_val(self.slice@[36], self.slice@[37]) != 0
    }

    /// Checks the leading PEER response payload of `s` and returns a
    /// view of its 56 bytes; a zero remote peer port is rejected.
    pub fn try_parse(s: &'a [u8]) -> (r: Result<PeerResponsePayloadSlice<'a>, ParsingError>)
        ensures
            (match r {
                Ok(p) => s@.len() >= 56 && p.slice@ == s@.subrange(0, 56) && p.wf(),
                Err(e) => e == (if s@.len() < 56 {
                    ParsingError::InvalidSliceLength(s@.len() as usize)
                } else if spec_protocol_from(s@[12]) is None {
                    ParsingError::NotAProtocolNumber(s@[12])
                } else {
                    ParsingError::ZeroRemotePeerPort
                }),
            }),
    {
        let n = s.len();
        if n < 56 {
            return Err(ParsingError::InvalidSliceLength(n));
        }
        if let Err(e) = ProtocolNumber::from_byte(read_u8(s, 12)) {
            return Err(e);
        }
        if read_be16(s, 36) == 0 {
            return Err(ParsingError::ZeroRemotePeerPort);
        }
        Ok(PeerResponsePayloadSlice { slice: vstd::slice::slice_subrange(s, 0, 56) })
    }

    /// Returns the 12 nonce bytes.
    pub fn nonce(&self) -> (r: &[u8])
        requires
            self.wf(),
        ensures
            r@ == self.slice@.subrange(0, 12),
    {
        vstd::slice::slice_subrange(self.slice, 0, 12)
    }

    /// Returns the protocol of the mapping.
    pub fn protocol(&self) -> (r: ProtocolNumber)
        requires
            self.wf(),
        ensures
            spec_protocol_from(self.slice@[12]) == Some(r),
    {
        match ProtocolNumber::from_byte(read_u8(self.slice, 12)) {
            Ok(p) => p,
            Err(_) => vstd::pervasive::unreached(),
        }
    }

    /// Returns the internal port of the mapping.
    pub fn internal_port(&self) -> (r: u16)
        requires
            self.wf(),
        ensures
            r == be16_val(self.slice@[16], self.slice@[17]),
    {
        read_be16(self.slice, 16)
    }

    /// Returns the assigned external port.
    pub fn external_port(&self) -> (r: u16)
        requires
            self.wf(),
        ensures
            r == be16_val(self.slice@[18], self.slice@[19]),
    {
        read_be16(self.slice, 18)
    }

    /// Returns the assigned external address.
    pub fn external_address(&self) -> (r: Ipv6Address)
        requires
            self.wf(),
        ensures
            r.0@ == self.slice@.subrange(20, 36),
    {
        Ipv6Address(read_addr16(self.slice, 20))
    }

    /// Returns the remote peer's port.
    pub fn remote_port(&self) -> (r: u16)
        requires
            self.wf(),
        ensures
            r == be16_val(self.slice@[36], self.slice@[37]),
            r != 0,
    {
        read_be16(self.slice, 36)
    }

    /// Returns the remote peer's address.
    pub fn remote_address(&self) -> (r: Ipv6Address)
        requires
            self.wf(),
        ensures
            r.0@ == self.slice@.subrange(40, 56),
    {
        Ipv6Address(read_addr16(self.slice, 40))
    }

    /// Returns the underlying 56 payload bytes.
    pub fn slice(&self) -> (r: &[u8])
        ensures
            r@ == self.slice@,
    {
        self.slice
    }

    /// Copies the payload fields out into an owned payload.
    pub fn parse(&self) -> (r: PeerResponsePayload)
        requires
            self.wf(),
        ensures
            response_payload_at(self.slice@, 0, ResponsePayload::Peer(r)),
            r.remote_port != 0,
    {
        PeerResponsePayload {
            nonce: read_nonce(self.slice, 0),
            protocol: self.protocol(),
            internal_port: self.internal_port(),
            external_port: self.external_port(),
            external_addr: self.external_address(),
            remote_port: self.remote_port(),
            remote_addr: self.remote_address(),
        }
    }
}

impl<'a> ResponsePayloadSlice<'a> {
    /// The region of each kind is well formed; an ANNOUNCE payload
    /// is empty.
    pub open spec fn wf(self) -> bool {
        match self {
            ResponsePayloadSlice::Mapping(p) => p.wf(),
            ResponsePayloadSlice::Peer(p) => p.wf(),
            ResponsePayloadSlice::Announce(s) => s@.len() == 0,
        }
    }

    /// The bytes of the viewed region.
    pub open spec fn spec_slice(self) -> Seq<u8> {
        match self {
            ResponsePayloadSlice::Mapping(p) => p.slice@,
            ResponsePayloadSlice::Peer(p) => p.slice@,
            ResponsePayloadSlice::Announce(s) => s@,
        }
    }

    /// Size of the viewed payload, in bytes.
    pub fn size(&self) -> (r: usize)
        requires
            self.wf(),
        ensures
            r == self.spec_slice().len(),
    {
        match self {
            ResponsePayloadSlice::Mapping(_) => 36,
            ResponsePayloadSlice::Peer(_) => 56,
            ResponsePayloadSlice::Announce(_) => 0,
        }
    }

    /// Returns the underlying payload bytes.
    pub fn slice(&self) -> (r: &[u8])
        ensures
            r@ == self.spec_slice(),
    {
        match self {
            ResponsePayloadSlice::Mapping(p) => p.slice(),
            ResponsePayloadSlice::Peer(p) => p.slice(),
            ResponsePayloadSlice::Announce(s) => s,
        }
    }

    /// Copies the payload out into an owned response payload.
    pub fn parse(&self) -> (r: ResponsePayload)
        requires
            self.wf(),
        ensures
            response_payload_at(self.spec_slice(), 0, r),
            spec_response_payload_opcode(r) == (match self {
                ResponsePayloadSlice::Mapping(_) => OpCode::Mapping,
                ResponsePayloadSlice::Peer(_) => OpCode::Peer,
                ResponsePayloadSlice::Announce(_) => OpCode::Announce,
            }),
    {
        match self {
            ResponsePayloadSlice::Mapping(p) => ResponsePayload::Mapping(p.parse()),
            ResponsePayloadSlice::Peer(p) => ResponsePayload::Peer(p.parse()),
            ResponsePayloadSlice::Announce(_) => ResponsePayload::Announce,
        }
    }
}

/// A checked view of a whole PCP response packet: the validated
/// header, payload and option regions of one datagram.
pub struct ResponsePacketSlice<'a> {
    /// The whole viewed datagram.
    pub whole: &'a [u8],
    /// The view of the response header.
    pub header: ResponseHeaderSlice<'a>,
    /// The view of the opcode-specific payload.
    pub payload: ResponsePayloadSlice<'a>,
    /// The views of the options, in wire order.
    pub options: Vec<PacketOptionSlice<'a>>,
}

impl<'a> ResponsePacketSlice<'a> {
    /// The viewed datagram decodes without error.
    pub open spec fn wf(self) -> bool {
        response_error(self.whole@) is None
    }

    /// Checks a whole datagram and returns a view of its parts, or
    /// the exact error of the model in [`crate::parse`].
    pub fn try_parse(s: &'a [u8]) -> (r: Result<ResponsePacketSlice<'a>, ParsingError>)
        ensures
            (match r {
                Ok(p) => response_error(s@) is None && p.whole@ == s@ && p.wf(),
                Err(e) => response_error(s@) == Some(e),
            }),
    {
        let packet = match crate::decode::decode_response(s) {
            Ok(p) => p,
            Err(e) => {
                return Err(e);
            },
        };
        let n = s.len();
        let header = ResponseHeaderSlice { slice: vstd::slice::slice_subrange(s, 0, 24) };
        proof {
            assert(header.slice@[0] == s@[0] && header.slice@[1] == s@[1] && header.slice@[3]
                == s@[3]);
            assert(response_header_error(header.slice@) is None);
        }
        let plen = packet.payload.size();
        let payload = match &packet.payload {
            ResponsePayload::Mapping(_) => {
                let region = vstd::slice::slice_subrange(s, 24, 60);
                assert(region@[12] == s@[36]);
                ResponsePayloadSlice::Mapping(MapResponsePayloadSlice { slice: region })
            },
            ResponsePayload::Peer(_) => {
                let region = vstd::slice::slice_subrange(s, 24, 80);
                assert(region@[12] == s@[36] && region@[36] == s@[60] && region@[37] == s@[61]);
                ResponsePayloadSlice::Peer(PeerResponsePayloadSlice { slice: region })
            },
            ResponsePayload::Announce => ResponsePayloadSlice::Announce(
                vstd::slice::slice_subrange(s, 24, 24),
            ),
        };
        let opcode = header.opcode();
        let mut options: Vec<PacketOptionSlice<'a>> = Vec::new();
        let mut at: usize = 24 + plen;
        while at < n
            invariant
                24 + plen <= at <= n == s@.len(),
                n <= 1100,
                crate::parse::options_error(opcode, s@, at as int) is None,
            decreases n - at,
        {
            let region = vstd::slice::slice_subrange(s, at, n);
            proof {
                lemma_option_error_localize(opcode, s@, at as int);
            }
            let o = match PacketOptionSlice::try_parse(opcode, region) {
                Ok(o) => o,
                Err(_) => vstd::pervasive::unreached(),
            };
            let sz = o.size();
            proof {
                assert(option_error_at(opcode, region@, 0) == option_error_at(
                    opcode,
                    s@,
                    at as int,
                ));
            }
            at = at + sz;
            options.push(o);
        }
        Ok(ResponsePacketSlice { whole: s, header, payload, options })
    }

    /// Returns the option views of the packet.
    pub fn options(&self) -> (r: &Vec<PacketOptionSlice<'a>>)
        ensures
            r == &self.options,
    {
        &self.options
    }

    /// Returns the payload view of the packet.
    pub fn payload(&self) -> (r: &ResponsePayloadSlice<'a>)
        ensures
            r == &self.payload,
    {
        &self.payload
    }

    /// Returns the header view of the packet.
    pub fn header(&self) -> (r: &ResponseHeaderSlice<'a>)
        ensures
            r == &self.header,
    {
        &self.header
    }

    /// Copies the packet out into an owned response packet: exactly
    /// the packet the model assigns to the viewed datagram.
    pub fn parse(&self) -> (r: ResponsePacket)
        requires
            self.wf(),
        ensures
            response_parses_to(self.whole@, r),
            response_wf(r),
    {
        match crate::decode::decode_response(self.whole) {
            Ok(p) => p,
            Err(_) => vstd::pervasive::unreached(),
        }
    }
}

/// A successful option scan at `at` in `s` equals the scan of the
/// remaining buffer at position 0, and the same holds of the error.
proof fn lemma_option_error_localize(op: OpCode, s: Seq<u8>, at: int)
    requires
        0 <= at <= s.len(),
    ensures
        option_error_at(op, s.subrange(at, s.len() as int), 0) == option_error_at(op, s, at),
{
    let sub = s.subrange(at, s.len() as int);
    if at + 4 <= s.len() {
        assert(sub[0] == s[at] && sub[2] == s[at + 2] && sub[3] == s[at + 3]);
        if spec_option_code_from(s[at]) is Some {
            let code = spec_option_code_from(s[at])->Some_0;
            let length = be16_val(s[at + 2], s[at + 3]);
            if length == option_payload_len(code) && crate::op_code::spec_is_option_valid(
                op,
                code,
            ) && at + 4 + crate::parse::padded_len(length) <= s.len() && code is Filter {
                assert(sub[5] == s[at + 5]);
                assert(sub.subrange(8, 24) =~= s.subrange(at + 8, at + 24));
                assert(crate::parse::v4_mapped_at(sub, 8) == crate::parse::v4_mapped_at(
                    s,
                    at + 8,
                ));
            }
        }
    }
}

} // verus!
