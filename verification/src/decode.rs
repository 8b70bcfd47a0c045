//! The executable decoder, proved equal to the model in
//! [`crate::parse`].

use vstd::prelude::*;

use crate::addr::Ipv6Address;
use crate::headers::{OptionHeader, RequestHeader, ResponseHeader};
use crate::op_code::OpCode;
use crate::option_code::OptionCode;
use crate::packet::{
    option_check, options_len, request_wf, OptionPayload, PacketOption, RequestPacket,
    RequestPayload,
};
use crate::parse::{
    option_at, option_error_at, options_error, options_parse_to, request_error, request_parses_to,
    response_error, response_parses_to,
};
use crate::parsing_error::ParsingError;
use crate::payloads::{
    FilterOptionPayload, MapRequestPayload, MapResponsePayload, PeerRequestPayload,
    PeerResponsePayload, ThirdPartyOptionPayload,
};
use crate::protocols::ProtocolNumber;
use crate::response::{response_wf, ResponsePacket, ResponsePayload};
use crate::result_code::ResultCode;
use crate::wire::{read_addr16, read_be16, read_be32, read_nonce, read_u8};

verus! {

/// A scanned options trailer pins the total wire size of the list
/// and leaves every option passing the constructor checks.
pub proof fn lemma_options_parse_props(
    op: OpCode,
    s: Seq<u8>,
    at: int,
    opts: Seq<PacketOption>,
)
    requires
        0 <= at <= s.len(),
        options_parse_to(op, s, at, opts),
    ensures
        options_len(opts) == s.len() - at,
        forall|i: int| 0 <= i < opts.len() ==> option_check(op, #[trigger] opts[i]) is None,
    decreases opts.len(),
{
    if opts.len() > 0 {
        let o = opts[0];
        let consumed = option_error_at(op, s, at)->Ok_0;
        assert(option_check(op, o) is None);
        assert(crate::packet::option_bytes(o).len() == consumed) by {
            assert(o.header.length == crate::option_code::option_payload_len(o.header.code));
        }
        lemma_options_parse_props(op, s, at + consumed, opts.drop_first());
        assert(forall|i: int|
            1 <= i < opts.len() ==> #[trigger] opts[i] == opts.drop_first()[i - 1]);
    }
}

/// Parses the options trailer of a packet, starting at `at0` and
/// ending exactly at the end of the buffer.
fn parse_options(op: OpCode, s: &[u8], at0: usize) -> (r: Result<Vec<PacketOption>, ParsingError>)
    requires
        at0 <= s@.len() <= 1100,
    ensures
        (match r {
            Ok(v) => options_error(op, s@, at0 as int) is None && options_parse_to(
                op,
                s@,
                at0 as int,
                v@,
            ),
            Err(e) => options_error(op, s@, at0 as int) == Some(e),
        }),
{
    let n = s.len();
    let mut opts: Vec<PacketOption> = Vec::new();
    let mut at: usize = at0;
    while at < n
        invariant
            at0 <= at <= n == s@.len(),
            n <= 1100,
            options_error(op, s@, at0 as int) == options_error(op, s@, at as int),
            forall|rest: Seq<PacketOption>|
                options_parse_to(op, s@, at as int, rest) ==> options_parse_to(
                    op,
                    s@,
                    at0 as int,
                    opts@ + rest,
                ),
        decreases n - at,
    {
        let ghost at_i = at as int;
        if at + 4 > n {
            return Err(ParsingError::InvalidSliceLength(n - at));
        }
        let code = match OptionCode::from_byte(read_u8(s, at)) {
            Ok(c) => c,
            Err(e) => {
                return Err(e);
            },
        };
        let length = read_be16(s, at + 2);
        if length != code.payload_len() {
            return Err(ParsingError::InvalidOptionLength(code, length as usize));
        }
        if !op.is_option_valid(code) {
            return Err(ParsingError::InvalidOption(op, code));
        }
        let padded: usize = (length as usize) + (((4 - (length as usize) % 4)) % 4);
        assert(padded == crate::parse::padded_len(length));
        if at + 4 + padded > n {
            return Err(ParsingError::InvalidSliceLength(n - at));
        }
        let payload = match code {
            OptionCode::Filter => {
                let prefix = read_u8(s, at + 5);
                let remote_addr = Ipv6Address(read_addr16(s, at + 8));
                if remote_addr.is_v4_mapped() && prefix < 96 {
                    return Err(ParsingError::InvalidPrefix(prefix));
                }
                OptionPayload::Filter(
                    FilterOptionPayload {
                        prefix,
                        remote_port: read_be16(s, at + 6),
                        remote_addr,
                    },
                )
            },
            OptionCode::ThirdParty => OptionPayload::ThirdParty(
                ThirdPartyOptionPayload { address: Ipv6Address(read_addr16(s, at + 4)) },
            ),
            OptionCode::PreferFailure => OptionPayload::PreferFailure,
        };
        let o = PacketOption { header: OptionHeader { code, length }, payload };
        proof {
            assert(option_error_at(op, s@, at_i) == Ok::<int, ParsingError>(4 + padded as int));
            assert(option_at(s@, at_i, o));
            assert forall|rest: Seq<PacketOption>|
                options_parse_to(op, s@, at_i + 4 + padded, rest) implies options_parse_to(
                op,
                s@,
                at0 as int,
                opts@.push(o) + rest,
            ) by {
                let with_o = seq![o] + rest;
                assert(with_o[0] == o);
                assert(with_o.drop_first() =~= rest);
                assert(options_parse_to(op, s@, at_i, with_o));
                assert(opts@ + with_o =~= opts@.push(o) + rest);
            }
        }
        opts.push(o);
        at = at + 4 + padded;
    }
    proof {
        assert(options_parse_to(op, s@, at as int, Seq::<PacketOption>::empty()));
        assert(opts@ + Seq::<PacketOption>::empty() =~= opts@);
    }
    Ok(opts)
}

/// Decodes a PCP response packet from its wire bytes. The result is
/// exactly what the model in [`crate::parse`] assigns to the bytes:
/// the packet they denote, or the first error of the taxonomy they
/// produce.
pub fn decode_response(s: &[u8]) -> (r: Result<ResponsePacket, ParsingError>)
    ensures
        (match r {
            Ok(p) => response_error(s@) is None && response_parses_to(s@, p) && response_wf(p),
            Err(e) => response_error(s@) == Some(e),
        }),
{
    let n = s.len();
    if n > 1100 {
        return Err(ParsingError::PacketTooBig(n));
    }
    if n < 24 {
        return Err(ParsingError::InvalidSliceLength(n));
    }
    let version = read_u8(s, 0);
    if version != 2 {
        return Err(ParsingError::VersionNotSupported(version));
    }
    let b1 = read_u8(s, 1);
    if b1 < 128 {
        return Err(ParsingError::NotAResponse);
    }
    let opcode = match OpCode::from_byte(b1 - 128) {
        Ok(c) => c,
        Err(e) => {
            return Err(e);
        },
    };
    let result = match ResultCode::from_byte(read_u8(s, 3)) {
        Ok(c) => c,
        Err(e) => {
            return Err(e);
        },
    };
    let header = ResponseHeader {
        version,
        opcode,
        result,
        lifetime: read_be32(s, 4),
        epoch: read_be32(s, 8),
    };
    let payload = match opcode {
        OpCode::Mapping => {
            if n < 60 {
                return Err(ParsingError::InvalidSliceLength(n - 24));
            }
            let protocol = match ProtocolNumber::from_byte(read_u8(s, 36)) {
                Ok(p) => p,
                Err(e) => {
                    return Err(e);
                },
            };
            ResponsePayload::Mapping(
                MapResponsePayload {
                    nonce: read_nonce(s, 24),
                    protocol,
                    internal_port: read_be16(s, 40),
                    external_port: read_be16(s, 42),
                    external_addr: Ipv6Address(read_addr16(s, 44)),
                },
            )
        },
        OpCode::Peer => {
            if n < 80 {
                return Err(ParsingError::InvalidSliceLength(n - 24));
            }
            let protocol = match ProtocolNumber::from_byte(read_u8(s, 36)) {
                Ok(p) => p,
                Err(e) => {
                    return Err(e);
                },
            };
            let remote_port = read_be16(s, 60);
            if remote_port == 0 {
                return Err(ParsingError::ZeroRemotePeerPort);
            }
            ResponsePayload::Peer(
                PeerResponsePayload {
                    nonce: read_nonce(s, 24),
                    protocol,
                    internal_port: read_be16(s, 40),
                    external_port: read_be16(s, 42),
                    external_addr: Ipv6Address(read_addr16(s, 44)),
                    remote_port,
                    remote_addr: Ipv6Address(read_addr16(s, 64)),
                },
            )
        },
        OpCode::Announce => ResponsePayload::Announce,
    };
    let at0: usize = 24 + payload.size();
    let options = match parse_options(opcode, s, at0) {
        Ok(v) => v,
        Err(e) => {
            return Err(e);
        },
    };
    let packet = ResponsePacket { header, payload, options };
    proof {
        lemma_options_parse_props(opcode, s@, at0 as int, packet.options@);
    }
    Ok(packet)
}

/// Decodes a PCP request packet from its wire bytes, with the same
/// exactness as [`decode_response`].
pub fn decode_request(s: &[u8]) -> (r: Result<RequestPacket, ParsingError>)
    ensures
        (match r {
            Ok(p) => request_error(s@) is None && request_parses_to(s@, p) && request_wf(p),
            Err(e) => request_error(s@) == Some(e),
        }),
{
    let n = s.len();
    if n > 1100 {
        return Err(ParsingError::PacketTooBig(n));
    }
    if n < 24 {
        return Err(ParsingError::InvalidSliceLength(n));
    }
    let version = read_u8(s, 0);
    if version != 2 {
        return Err(ParsingError::VersionNotSupported(version));
    }
    let b1 = read_u8(s, 1);
    if b1 >= 128 {
        return Err(ParsingError::NotARequest);
    }
    let opcode = match OpCode::from_byte(b1) {
        Ok(c) => c,
        Err(e) => {
            return Err(e);
        },
    };
    let header = RequestHeader {
        version,
        opcode,
        lifetime: read_be32(s, 4),
        address: Ipv6Address(read_addr16(s, 8)),
    };
    let payload = match opcode {
        OpCode::Mapping => {
            if n < 60 {
                return Err(ParsingError::InvalidSliceLength(n - 24));
            }
            let protocol = match ProtocolNumber::from_byte(read_u8(s, 36)) {
                Ok(p) => p,
                Err(e) => {
                    return Err(e);
                },
            };
            RequestPayload::Mapping(
                MapRequestPayload {
                    nonce: read_nonce(s, 24),
                    protocol,
                    internal_port: read_be16(s, 40),
                    external_port: read_be16(s, 42),
                    external_addr: Ipv6Address(read_addr16(s, 44)),
                },
            )
        },
        OpCode::Peer => {
            if n < 80 {
                return Err(ParsingError::InvalidSliceLength(n - 24));
            }
            let protocol = match ProtocolNumber::from_byte(read_u8(s, 36)) {
                Ok(p) => p,
                Err(e) => {
                    return Err(e);
                },
            };
            let remote_port = read_be16(s, 60);
            if remote_port == 0 {
                return Err(ParsingError::ZeroRemotePeerPort);
            }
            RequestPayload::Peer(
                PeerRequestPayload {
                    nonce: read_nonce(s, 24),
                    protocol,
                    internal_port: read_be16(s, 40),
                    external_port: read_be16(s, 42),
                    external_addr: Ipv6Address(read_addr16(s, 44)),
                    remote_port,
                    remote_addr: Ipv6Address(read_addr16(s, 64)),
                },
            )
        },
        OpCode::Announce => RequestPayload::Announce,
    };
    let at0: usize = 24 + payload.size();
    let options = match parse_options(opcode, s, at0) {
        Ok(v) => v,
        Err(e) => {
            return Err(e);
        },
    };
    let packet = RequestPacket { header, payload, options };
    proof {
        lemma_options_parse_props(opcode, s@, at0 as int, packet.options@);
    }
    Ok(packet)
}

} // verus!
