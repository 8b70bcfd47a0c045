//! The mathematical model of PCP packet decoding.
//!
//! `*_error` spec functions say exactly which [`ParsingError`] a byte
//! sequence produces, if any; `*_at` and `*_parses_to` predicates say
//! what decoded value a byte sequence denotes. The executable decoder
//! in [`crate::slices`] is proved equal to them, and the round-trip
//! laws at the end of this module state that decoding inverts
//! encoding: every well-formed packet's wire bytes parse back to the
//! packet, consuming the header, the payload and each option's padded
//! extent exactly.

use vstd::prelude::*;

use crate::headers::{RequestHeader, ResponseHeader};
use crate::op_code::{op_code_value, spec_is_option_valid, spec_op_code_from, OpCode};
use crate::option_code::{option_code_value, option_payload_len, spec_option_code_from, OptionCode};
use crate::packet::{
    option_bytes, option_check, options_bytes, request_packet_bytes, request_payload_bytes,
    request_wf, spec_request_payload_opcode, OptionPayload, PacketOption, RequestPacket,
    RequestPayload,
};
use crate::parsing_error::ParsingError;
use crate::protocols::{protocol_value, spec_protocol_from};
use crate::response::{
    response_packet_bytes, response_payload_bytes, response_wf, spec_response_payload_opcode,
    ResponsePacket, ResponsePayload,
};
use crate::result_code::{result_code_value, spec_result_code_from};
use crate::wire::{be16, be16_val, be32, be32_val};

verus! {

broadcast use vstd::array::group_array_axioms;

/// The padded extent of an option payload: its semantic length,
/// rounded up to the next multiple of 4. Padding bytes do not count
/// toward the length field.
pub open spec fn padded_len(length: u16) -> int {
    length + ((4 - length % 4) % 4)
}

/// Whether 16 bytes within `s` starting at `at` are an IPv4-mapped
/// IPv6 address.
pub open spec fn v4_mapped_at(s: Seq<u8>, at: int) -> bool {
    crate::addr::spec_is_v4_mapped(s.subrange(at, at + 16))
}

/// Scans one option at position `at`: reads the 4-byte option header,
/// requires the declared length to match the defined size for the
/// code, the code to be legal for the containing opcode, the padded
/// extent to fit, and a FILTER payload to obey the prefix rule.
/// Returns the number of bytes the option occupies, or the error.
pub open spec fn option_error_at(op: OpCode, s: Seq<u8>, at: int) -> Result<int, ParsingError> {
    if at + 4 > s.len() {
        Err(ParsingError::InvalidSliceLength((s.len() - at) as usize))
    } else {
        match spec_option_code_from(s[at]) {
            None => Err(ParsingError::NotAnOptionCode(s[at])),
            Some(code) => {
                let length = be16_val(s[at + 2], s[at + 3]);
                if length != option_payload_len(code) {
                    Err(ParsingError::InvalidOptionLength(code, length as usize))
                } else if !spec_is_option_valid(op, code) {
                    Err(ParsingError::InvalidOption(op, code))
                } else if at + 4 + padded_len(length) > s.len() {
                    Err(ParsingError::InvalidSliceLength((s.len() - at) as usize))
                } else if code is Filter && v4_mapped_at(s, at + 8) && s[at + 5] < 96 {
                    Err(ParsingError::InvalidPrefix(s[at + 5]))
                } else {
                    Ok(4 + padded_len(length))
                }
            },
        }
    }
}

/// Scans the options trailer from `at` to the end of the buffer,
/// reporting the first failing option, if any.
pub open spec fn options_error(op: OpCode, s: Seq<u8>, at: int) -> Option<ParsingError>
    decreases s.len() - at,
    when 0 <= at <= s.len() via options_error_decreases
{
    if at == s.len() {
        None
    } else {
        match option_error_at(op, s, at) {
            Err(e) => Some(e),
            Ok(consumed) => options_error(op, s, at + consumed),
        }
    }
}

#[via_fn]
proof fn options_error_decreases(op: OpCode, s: Seq<u8>, at: int) {
}

/// The option value denoted by the bytes at position `at`.
pub open spec fn option_at(s: Seq<u8>, at: int, o: PacketOption) -> bool {
    &&& spec_option_code_from(s[at]) == Some(o.header.code)
    &&& o.header.length == be16_val(s[at + 2], s[at + 3])
    &&& match o.payload {
        OptionPayload::Filter(f) => {
            &&& o.header.code == OptionCode::Filter
            &&& f.prefix == s[at + 5]
            &&& f.remote_port == be16_val(s[at + 6], s[at + 7])
            &&& f.remote_addr.0@ == s.subrange(at + 8, at + 24)
        },
        OptionPayload::ThirdParty(t) => {
            &&& o.header.code == OptionCode::ThirdParty
            &&& t.address.0@ == s.subrange(at + 4, at + 20)
        },
        OptionPayload::PreferFailure => o.header.code == OptionCode::PreferFailure,
    }
}

/// The option list denoted by the bytes from `at` to the end of the
/// buffer: each option's padded extent is consumed exactly, and the
/// list ends exactly at the end of the buffer.
pub open spec fn options_parse_to(
    op: OpCode,
    s: Seq<u8>,
    at: int,
    opts: Seq<PacketOption>,
) -> bool
    decreases opts.len(),
{
    if opts.len() == 0 {
        at == s.len()
    } else {
        &&& option_error_at(op, s, at) is Ok
        &&& option_at(s, at, opts[0])
        &&& options_parse_to(op, s, at + option_error_at(op, s, at)->Ok_0, opts.drop_first())
    }
}

/// Checks of the fixed response header: the overall packet size cap,
/// the length, the version, the `R` bit, the opcode and the result
/// code, in that order.
pub open spec fn response_header_error(s: Seq<u8>) -> Option<ParsingError> {
    if s.len() > 1100 {
        Some(ParsingError::PacketTooBig(s.len() as usize))
    } else if s.len() < 24 {
        Some(ParsingError::InvalidSliceLength(s.len() as usize))
    } else if s[0] != 2 {
        Some(ParsingError::VersionNotSupported(s[0]))
    } else if s[1] < 128 {
        Some(ParsingError::NotAResponse)
    } else if spec_op_code_from((s[1] - 128) as u8) is None {
        Some(ParsingError::NotAnOpCode((s[1] - 128) as u8))
    } else if spec_result_code_from(s[3]) is None {
        Some(ParsingError::NotAResultCode(s[3]))
    } else {
        None
    }
}

/// The response header denoted by the first 24 bytes.
pub open spec fn response_header_at(s: Seq<u8>, h: ResponseHeader) -> bool {
    &&& h.version == s[0]
    &&& spec_op_code_from((s[1] - 128) as u8) == Some(h.opcode)
    &&& spec_result_code_from(s[3]) == Some(h.result)
    &&& h.lifetime == be32_val(s[4], s[5], s[6], s[7])
    &&& h.epoch == be32_val(s[8], s[9], s[10], s[11])
}

/// Wire size of the opcode-specific response (and request) payload.
pub open spec fn payload_wire_len(op: OpCode) -> int {
    match op {
        OpCode::Mapping => 36,
        OpCode::Peer => 56,
        OpCode::Announce => 0,
    }
}

/// Checks of the opcode-specific payload at position 24: its extent,
/// the protocol number, and a non-zero remote port on PEER.
pub open spec fn payload_error(s: Seq<u8>, op: OpCode) -> Option<ParsingError> {
    match op {
        OpCode::Mapping => if s.len() < 60 {
            Some(ParsingError::InvalidSliceLength((s.len() - 24) as usize))
        } else if spec_protocol_from(s[36]) is None {
            Some(ParsingError::NotAProtocolNumber(s[36]))
        } else {
            None
        },
        OpCode::Peer => if s.len() < 80 {
            Some(ParsingError::InvalidSliceLength((s.len() - 24) as usize))
        } else if spec_protocol_from(s[36]) is None {
            Some(ParsingError::NotAProtocolNumber(s[36]))
        } else if be16_val(s[60], s[61]) == 0 {
            Some(ParsingError::ZeroRemotePeerPort)
        } else {
            None
        },
        OpCode::Announce => None,
    }
}

/// The response payload denoted by the bytes at position `at`.
pub open spec fn response_payload_at(s: Seq<u8>, at: int, p: ResponsePayload) -> bool {
    match p {
        ResponsePayload::Mapping(m) => {
            &&& m.nonce@ == s.subrange(at, at + 12)
            &&& spec_protocol_from(s[at + 12]) == Some(m.protocol)
            &&& m.internal_port == be16_val(s[at + 16], s[at + 17])
            &&& m.external_port == be16_val(s[at + 18], s[at + 19])
            &&& m.external_addr.0@ == s.subrange(at + 20, at + 36)
        },
        ResponsePayload::Peer(m) => {
            &&& m.nonce@ == s.subrange(at, at + 12)
            &&& spec_protocol_from(s[at + 12]) == Some(m.protocol)
            &&& m.internal_port == be16_val(s[at + 16], s[at + 17])
            &&& m.external_port == be16_val(s[at + 18], s[at + 19])
            &&& m.external_addr.0@ == s.subrange(at + 20, at + 36)
            &&& m.remote_port == be16_val(s[at + 36], s[at + 37])
            &&& m.remote_addr.0@ == s.subrange(at + 40, at + 56)
        },
        ResponsePayload::Announce => true,
    }
}

/// The exact error a byte sequence produces when decoded as a
/// response packet, if any: the header checks, then the payload
/// checks, then the options trailer.
pub open spec fn response_error(s: Seq<u8>) -> Option<ParsingError> {
    match response_header_error(s) {
        Some(e) => Some(e),
        None => match spec_op_code_from((s[1] - 128) as u8) {
            Some(op) => match payload_error(s, op) {
                Some(e) => Some(e),
                None => options_error(op, s, 24 + payload_wire_len(op)),
            },
            None => None,
        },
    }
}

/// The response packet a byte sequence denotes. Together with
/// [`response_error`] being `None` this pins the decoder's result
/// down to the views of its fields.
pub open spec fn response_parses_to(s: Seq<u8>, p: ResponsePacket) -> bool {
    &&& response_header_error(s) is None
    &&& response_header_at(s, p.header)
    &&& p.header.opcode == spec_response_payload_opcode(p.payload)
    &&& payload_error(s, p.header.opcode) is None
    &&& response_payload_at(s, 24, p.payload)
    &&& options_parse_to(p.header.opcode, s, 24 + payload_wire_len(p.header.opcode), p.options@)
}

/// Checks of the fixed request header: the overall packet size cap,
/// the length, the version, the `R` bit and the opcode, in that
/// order.
pub open spec fn request_header_error(s: Seq<u8>) -> Option<ParsingError> {
    if s.len() > 1100 {
        Some(ParsingError::PacketTooBig(s.len() as usize))
    } else if s.len() < 24 {
        Some(ParsingError::InvalidSliceLength(s.len() as usize))
    } else if s[0] != 2 {
        Some(ParsingError::VersionNotSupported(s[0]))
    } else if s[1] >= 128 {
        Some(ParsingError::NotARequest)
    } else if spec_op_code_from(s[1]) is None {
        Some(ParsingError::NotAnOpCode(s[1]))
    } else {
        None
    }
}

/// The request header denoted by the first 24 bytes.
pub open spec fn request_header_at(s: Seq<u8>, h: RequestHeader) -> bool {
    &&& h.version == s[0]
    &&& spec_op_code_from(s[1]) == Some(h.opcode)
    &&& h.lifetime == be32_val(s[4], s[5], s[6], s[7])
    &&& h.address.0@ == s.subrange(8, 24)
}

/// The request payload denoted by the bytes at position `at`.
pub open spec fn request_payload_at(s: Seq<u8>, at: int, p: RequestPayload) -> bool {
    match p {
        RequestPayload::Mapping(m) => {
            &&& m.nonce@ == s.subrange(at, at + 12)
            &&& spec_protocol_from(s[at + 12]) == Some(m.protocol)
            &&& m.internal_port == be16_val(s[at + 16], s[at + 17])
            &&& m.external_port == be16_val(s[at + 18], s[at + 19])
            &&& m.external_addr.0@ == s.subrange(at + 20, at + 36)
        },
        RequestPayload::Peer(m) => {
            &&& m.nonce@ == s.subrange(at, at + 12)
            &&& spec_protocol_from(s[at + 12]) == Some(m.protocol)
            &&& m.internal_port == be16_val(s[at + 16], s[at + 17])
            &&& m.external_port == be16_val(s[at + 18], s[at + 19])
            &&& m.external_addr.0@ == s.subrange(at + 20, at + 36)
            &&& m.remote_port == be16_val(s[at + 36], s[at + 37])
            &&& m.remote_addr.0@ == s.subrange(at + 40, at + 56)
        },
        RequestPayload::Announce => true,
    }
}

/// The exact error a byte sequence produces when decoded as a
/// request packet, if any.
pub open spec fn request_error(s: Seq<u8>) -> Option<ParsingError> {
    match request_header_error(s) {
        Some(e) => Some(e),
        None => match spec_op_code_from(s[1]) {
            Some(op) => match payload_error(s, op) {
                Some(e) => Some(e),
                None => options_error(op, s, 24 + payload_wire_len(op)),
            },
            None => None,
        },
    }
}

/// The request packet a byte sequence denotes.
pub open spec fn request_parses_to(s: Seq<u8>, p: RequestPacket) -> bool {
    &&& request_header_error(s) is None
    &&& request_header_at(s, p.header)
    &&& p.header.opcode == spec_request_payload_opcode(p.payload)
    &&& payload_error(s, p.header.opcode) is None
    &&& request_payload_at(s, 24, p.payload)
    &&& options_parse_to(p.header.opcode, s, 24 + payload_wire_len(p.header.opcode), p.options@)
}


/// One well-formed option's wire bytes, standing at `at` inside a
/// larger buffer, scan without error and denote that option, and its
/// scan consumes exactly its padded extent.
pub proof fn lemma_option_round_trip(op: OpCode, s: Seq<u8>, at: int, o: PacketOption)
    requires
        0 <= at,
        at + option_bytes(o).len() <= s.len(),
        s.subrange(at, at + option_bytes(o).len()) == option_bytes(o),
        option_check(op, o) is None,
    ensures
        option_error_at(op, s, at) == Ok::<int, ParsingError>(option_bytes(o).len() as int),
        option_at(s, at, o),
{
    let sz = option_bytes(o).len() as int;
    let code = o.header.code;
    let length = o.header.length;
    assert(forall|k: int|
        0 <= k < sz ==> s[at + k] == #[trigger] option_bytes(o)[k]) by {
        assert(forall|k: int|
            0 <= k < sz ==> s.subrange(at, at + sz)[k] == #[trigger] option_bytes(o)[k]);
    }
    assert(option_bytes(o)[0] == option_code_value(code));
    assert(option_bytes(o)[2] == be16(length)[0]);
    assert(option_bytes(o)[3] == be16(length)[1]);
    crate::option_code::lemma_option_code_round_trip(code);
    crate::wire::lemma_be16_round_trip(length);
    assert(spec_option_code_from(s[at]) == Some(code));
    assert(be16_val(s[at + 2], s[at + 3]) == length);
    assert(length == option_payload_len(code));
    assert(padded_len(length) == length) by {
        assert(length == 20 || length == 16 || length == 0);
    }
    assert(sz == 4 + length);
    match o.payload {
        OptionPayload::Filter(f) => {
            assert(option_bytes(o)[5] == f.prefix);
            assert(option_bytes(o)[6] == be16(f.remote_port)[0]);
            assert(option_bytes(o)[7] == be16(f.remote_port)[1]);
            crate::wire::lemma_be16_round_trip(f.remote_port);
            assert(s.subrange(at + 8, at + 24) =~= f.remote_addr.0@) by {
                assert(forall|j: int|
                    0 <= j < 16 ==> option_bytes(o)[8 + j] == #[trigger] f.remote_addr.0@[j]);
            }
            assert(v4_mapped_at(s, at + 8) == crate::addr::spec_is_v4_mapped(f.remote_addr.0@));
        },
        OptionPayload::ThirdParty(t) => {
            assert(s.subrange(at + 4, at + 20) =~= t.address.0@) by {
                assert(forall|j: int|
                    0 <= j < 16 ==> option_bytes(o)[4 + j] == #[trigger] t.address.0@[j]);
            }
        },
        OptionPayload::PreferFailure => {},
    }
}

/// A well-formed options trailer that fills the buffer from `at` to
/// its end scans without error and denotes exactly that option list.
pub proof fn lemma_options_round_trip(op: OpCode, s: Seq<u8>, at: int, opts: Seq<PacketOption>)
    requires
        0 <= at,
        at + options_bytes(opts).len() == s.len(),
        s.subrange(at, s.len() as int) == options_bytes(opts),
        forall|i: int| 0 <= i < opts.len() ==> option_check(op, #[trigger] opts[i]) is None,
    ensures
        options_parse_to(op, s, at, opts),
        options_error(op, s, at) is None,
    decreases opts.len(),
{
    if opts.len() == 0 {
        assert(at == s.len());
    } else {
        let o = opts[0];
        let sz = option_bytes(o).len() as int;
        let rest = opts.drop_first();
        assert(options_bytes(opts) == option_bytes(o) + options_bytes(rest));
        assert(forall|k: int|
            0 <= k < s.len() - at ==> s[at + k] == #[trigger] options_bytes(opts)[k]) by {
            assert(forall|k: int|
                0 <= k < s.len() - at ==> s.subrange(at, s.len() as int)[k]
                    == #[trigger] options_bytes(opts)[k]);
        }
        assert(s.subrange(at, at + sz) =~= option_bytes(o));
        lemma_option_round_trip(op, s, at, o);
        assert(s.subrange(at + sz, s.len() as int) =~= options_bytes(rest)) by {
            assert(forall|k: int|
                0 <= k < s.len() - at - sz ==> options_bytes(opts)[sz + k]
                    == #[trigger] options_bytes(rest)[k]);
        }
        assert(forall|i: int| 0 <= i < rest.len() ==> option_check(op, #[trigger] rest[i]) is None)
            by {
            assert(forall|i: int| 0 <= i < rest.len() ==> #[trigger] rest[i] == opts[i + 1]);
        }
        lemma_options_round_trip(op, s, at + sz, rest);
    }
}

/// Decoding inverts encoding for responses: the wire bytes of every
/// well-formed response packet decode without error and denote that
/// packet, the parser consuming exactly the header, the payload and
/// each option's padded extent.
pub proof fn lemma_response_round_trip(p: ResponsePacket)
    requires
        response_wf(p),
    ensures
        response_error(response_packet_bytes(p)) is None,
        response_parses_to(response_packet_bytes(p), p),
{
    let s = response_packet_bytes(p);
    let hb = crate::headers::response_header_bytes(p.header);
    let pb = response_payload_bytes(p.payload);
    let ob = options_bytes(p.options@);
    let plen = payload_wire_len(p.header.opcode);
    crate::packet::lemma_options_bytes_len(p.options@);
    assert(hb.len() == 24);
    assert(pb.len() == plen);
    assert(s.len() == crate::response::response_size(p) <= 1100);
    assert(forall|k: int| 0 <= k < 24 ==> s[k] == #[trigger] hb[k]);
    assert(forall|k: int| 0 <= k < pb.len() ==> s[24 + k] == #[trigger] pb[k]);
    assert(forall|k: int| 0 <= k < ob.len() ==> s[24 + plen + k] == #[trigger] ob[k]);

    // Header fields.
    let opv = op_code_value(p.header.opcode);
    assert(s[0] == p.header.version);
    assert(s[1] == (128 + opv) as u8);
    assert((s[1] - 128) as u8 == opv);
    crate::op_code::lemma_op_code_round_trip(p.header.opcode);
    assert(s[3] == result_code_value(p.header.result));
    crate::result_code::lemma_result_code_round_trip(p.header.result);
    assert(hb[4] == be32(p.header.lifetime)[0] && hb[5] == be32(p.header.lifetime)[1] && hb[6]
        == be32(p.header.lifetime)[2] && hb[7] == be32(p.header.lifetime)[3]);
    crate::wire::lemma_be32_round_trip(p.header.lifetime);
    assert(hb[8] == be32(p.header.epoch)[0] && hb[9] == be32(p.header.epoch)[1] && hb[10] == be32(
        p.header.epoch,
    )[2] && hb[11] == be32(p.header.epoch)[3]);
    crate::wire::lemma_be32_round_trip(p.header.epoch);
    assert(response_header_error(s) is None);
    assert(response_header_at(s, p.header));

    // Payload fields.
    match p.payload {
        ResponsePayload::Mapping(m) => {
            assert(m.nonce@ =~= s.subrange(24, 36)) by {
                assert(forall|j: int| 0 <= j < 12 ==> pb[j] == #[trigger] m.nonce@[j]);
            }
            assert(pb[12] == protocol_value(m.protocol));
            crate::protocols::lemma_protocol_round_trip(m.protocol);
            assert(pb[16] == be16(m.internal_port)[0] && pb[17] == be16(m.internal_port)[1]);
            crate::wire::lemma_be16_round_trip(m.internal_port);
            assert(pb[18] == be16(m.external_port)[0] && pb[19] == be16(m.external_port)[1]);
            crate::wire::lemma_be16_round_trip(m.external_port);
            assert(m.external_addr.0@ =~= s.subrange(44, 60)) by {
                assert(forall|j: int|
                    0 <= j < 16 ==> pb[20 + j] == #[trigger] m.external_addr.0@[j]);
            }
        },
        ResponsePayload::Peer(m) => {
            assert(m.nonce@ =~= s.subrange(24, 36)) by {
                assert(forall|j: int| 0 <= j < 12 ==> pb[j] == #[trigger] m.nonce@[j]);
            }
            assert(pb[12] == protocol_value(m.protocol));
            crate::protocols::lemma_protocol_round_trip(m.protocol);
            assert(pb[16] == be16(m.internal_port)[0] && pb[17] == be16(m.internal_port)[1]);
            crate::wire::lemma_be16_round_trip(m.internal_port);
            assert(pb[18] == be16(m.external_port)[0] && pb[19] == be16(m.external_port)[1]);
            crate::wire::lemma_be16_round_trip(m.external_port);
            assert(m.external_addr.0@ =~= s.subrange(44, 60)) by {
                assert(forall|j: int|
                    0 <= j < 16 ==> pb[20 + j] == #[trigger] m.external_addr.0@[j]);
            }
            assert(pb[36] == be16(m.remote_port)[0] && pb[37] == be16(m.remote_port)[1]);
            crate::wire::lemma_be16_round_trip(m.remote_port);
            assert(m.remote_addr.0@ =~= s.subrange(64, 80)) by {
                assert(forall|j: int|
                    0 <= j < 16 ==> pb[40 + j] == #[trigger] m.remote_addr.0@[j]);
            }
        },
        ResponsePayload::Announce => {},
    }
    assert(payload_error(s, p.header.opcode) is None);
    assert(response_payload_at(s, 24, p.payload));

    // Options trailer.
    assert(s.subrange(24 + plen, s.len() as int) =~= ob);
    lemma_options_round_trip(p.header.opcode, s, 24 + plen, p.options@);
}

/// Decoding inverts encoding for requests: the wire bytes of every
/// well-formed request packet decode without error and denote that
/// packet.
pub proof fn lemma_request_round_trip(p: RequestPacket)
    requires
        request_wf(p),
    ensures
        request_error(request_packet_bytes(p)) is None,
        request_parses_to(request_packet_bytes(p), p),
{
    let s = request_packet_bytes(p);
    let hb = crate::headers::request_header_bytes(p.header);
    let pb = request_payload_bytes(p.payload);
    let ob = options_bytes(p.options@);
    let plen = payload_wire_len(p.header.opcode);
    crate::packet::lemma_options_bytes_len(p.options@);
    assert(hb.len() == 24);
    assert(pb.len() == plen);
    assert(s.len() == crate::packet::request_size(p) <= 1100);
    assert(forall|k: int| 0 <= k < 24 ==> s[k] == #[trigger] hb[k]);
    assert(forall|k: int| 0 <= k < pb.len() ==> s[24 + k] == #[trigger] pb[k]);
    assert(forall|k: int| 0 <= k < ob.len() ==> s[24 + plen + k] == #[trigger] ob[k]);

    // Header fields.
    assert(s[0] == p.header.version);
    assert(s[1] == op_code_value(p.header.opcode));
    assert(s[1] < 128);
    crate::op_code::lemma_op_code_round_trip(p.header.opcode);
    assert(hb[4] == be32(p.header.lifetime)[0] && hb[5] == be32(p.header.lifetime)[1] && hb[6]
        == be32(p.header.lifetime)[2] && hb[7] == be32(p.header.lifetime)[3]);
    crate::wire::lemma_be32_round_trip(p.header.lifetime);
    assert(p.header.address.0@ =~= s.subrange(8, 24)) by {
        assert(forall|j: int| 0 <= j < 16 ==> hb[8 + j] == #[trigger] p.header.address.0@[j]);
    }
    assert(request_header_error(s) is None);
    assert(request_header_at(s, p.header));

    // Payload fields.
    match p.payload {
        RequestPayload::Mapping(m) => {
            assert(m.nonce@ =~= s.subrange(24, 36)) by {
                assert(forall|j: int| 0 <= j < 12 ==> pb[j] == #[trigger] m.nonce@[j]);
            }
            assert(pb[12] == protocol_value(m.protocol));
            crate::protocols::lemma_protocol_round_trip(m.protocol);
            assert(pb[16] == be16(m.internal_port)[0] && pb[17] == be16(m.internal_port)[1]);
            crate::wire::lemma_be16_round_trip(m.internal_port);
            assert(pb[18] == be16(m.external_port)[0] && pb[19] == be16(m.external_port)[1]);
            crate::wire::lemma_be16_round_trip(m.external_port);
            assert(m.external_addr.0@ =~= s.subrange(44, 60)) by {
                assert(forall|j: int|
                    0 <= j < 16 ==> pb[20 + j] == #[trigger] m.external_addr.0@[j]);
            }
        },
        RequestPayload::Peer(m) => {
            assert(m.nonce@ =~= s.subrange(24, 36)) by {
                assert(forall|j: int| 0 <= j < 12 ==> pb[j] == #[trigger] m.nonce@[j]);
            }
            assert(pb[12] == protocol_value(m.protocol));
            crate::protocols::lemma_protocol_round_trip(m.protocol);
            assert(pb[16] == be16(m.internal_port)[0] && pb[17] == be16(m.internal_port)[1]);
            crate::wire::lemma_be16_round_trip(m.internal_port);
            assert(pb[18] == be16(m.external_port)[0] && pb[19] == be16(m.external_port)[1]);
            crate::wire::lemma_be16_round_trip(m.external_port);
            assert(m.external_addr.0@ =~= s.subrange(44, 60)) by {
                assert(forall|j: int|
                    0 <= j < 16 ==> pb[20 + j] == #[trigger] m.external_addr.0@[j]);
            }
            assert(pb[36] == be16(m.remote_port)[0] && pb[37] == be16(m.remote_port)[1]);
            crate::wire::lemma_be16_round_trip(m.remote_port);
            assert(m.remote_addr.0@ =~= s.subrange(64, 80)) by {
                assert(forall|j: int|
                    0 <= j < 16 ==> pb[40 + j] == #[trigger] m.remote_addr.0@[j]);
            }
        },
        RequestPayload::Announce => {},
    }
    assert(payload_error(s, p.header.opcode) is None);
    assert(request_payload_at(s, 24, p.payload));

    // Options trailer.
    assert(s.subrange(24 + plen, s.len() as int) =~= ob);
    lemma_options_round_trip(p.header.opcode, s, 24 + plen, p.options@);
}


/// Two options denoted by the same position of the same buffer are
/// the same option.
proof fn lemma_option_at_unique(s: Seq<u8>, at: int, o1: PacketOption, o2: PacketOption)
    requires
        option_at(s, at, o1),
        option_at(s, at, o2),
    ensures
        o1 == o2,
{
    match (o1.payload, o2.payload) {
        (OptionPayload::Filter(f1), OptionPayload::Filter(f2)) => {
            assert(f1.remote_addr.0@ =~= f2.remote_addr.0@);
            assert(f1.remote_addr.0 == f2.remote_addr.0);
        },
        (OptionPayload::ThirdParty(t1), OptionPayload::ThirdParty(t2)) => {
            assert(t1.address.0@ =~= t2.address.0@);
            assert(t1.address.0 == t2.address.0);
        },
        _ => {},
    }
}

/// One options trailer denotes at most one option list.
proof fn lemma_options_parse_unique(
    op: OpCode,
    s: Seq<u8>,
    at: int,
    o1: Seq<PacketOption>,
    o2: Seq<PacketOption>,
)
    requires
        options_parse_to(op, s, at, o1),
        options_parse_to(op, s, at, o2),
    ensures
        o1 =~= o2,
    decreases o1.len(),
{
    if o1.len() == 0 {
        assert(o2.len() == 0);
    } else {
        assert(o2.len() > 0);
        lemma_option_at_unique(s, at, o1[0], o2[0]);
        let consumed = option_error_at(op, s, at)->Ok_0;
        lemma_options_parse_unique(op, s, at + consumed, o1.drop_first(), o2.drop_first());
        assert forall|i: int| 0 <= i < o1.len() implies o1[i] == o2[i] by {
            if i > 0 {
                assert(o1[i] == o1.drop_first()[i - 1]);
                assert(o2[i] == o2.drop_first()[i - 1]);
            }
        }
    }
}

/// A byte sequence denotes at most one request packet, up to the
/// view of its option list.
pub proof fn lemma_request_parse_unique(s: Seq<u8>, p1: RequestPacket, p2: RequestPacket)
    requires
        request_parses_to(s, p1),
        request_parses_to(s, p2),
    ensures
        p1.header == p2.header,
        p1.payload == p2.payload,
        p1.options@ == p2.options@,
{
    assert(p1.header.address.0@ =~= p2.header.address.0@);
    assert(p1.header.address.0 == p2.header.address.0);
    match (p1.payload, p2.payload) {
        (RequestPayload::Mapping(m1), RequestPayload::Mapping(m2)) => {
            assert(m1.nonce@ =~= m2.nonce@);
            assert(m1.nonce == m2.nonce);
            assert(m1.external_addr.0@ =~= m2.external_addr.0@);
            assert(m1.external_addr.0 == m2.external_addr.0);
        },
        (RequestPayload::Peer(m1), RequestPayload::Peer(m2)) => {
            assert(m1.nonce@ =~= m2.nonce@);
            assert(m1.nonce == m2.nonce);
            assert(m1.external_addr.0@ =~= m2.external_addr.0@);
            assert(m1.external_addr.0 == m2.external_addr.0);
            assert(m1.remote_addr.0@ =~= m2.remote_addr.0@);
            assert(m1.remote_addr.0 == m2.remote_addr.0);
        },
        _ => {},
    }
    lemma_options_parse_unique(
        p1.header.opcode,
        s,
        24 + payload_wire_len(p1.header.opcode),
        p1.options@,
        p2.options@,
    );
}

/// A byte sequence denotes at most one response packet, up to the
/// view of its option list.
pub proof fn lemma_response_parse_unique(s: Seq<u8>, p1: ResponsePacket, p2: ResponsePacket)
    requires
        response_parses_to(s, p1),
        response_parses_to(s, p2),
    ensures
        p1.header == p2.header,
        p1.payload == p2.payload,
        p1.options@ == p2.options@,
{
    match (p1.payload, p2.payload) {
        (ResponsePayload::Mapping(m1), ResponsePayload::Mapping(m2)) => {
            assert(m1.nonce@ =~= m2.nonce@);
            assert(m1.nonce == m2.nonce);
            assert(m1.external_addr.0@ =~= m2.external_addr.0@);
            assert(m1.external_addr.0 == m2.external_addr.0);
        },
        (ResponsePayload::Peer(m1), ResponsePayload::Peer(m2)) => {
            assert(m1.nonce@ =~= m2.nonce@);
            assert(m1.nonce == m2.nonce);
            assert(m1.external_addr.0@ =~= m2.external_addr.0@);
            assert(m1.external_addr.0 == m2.external_addr.0);
            assert(m1.remote_addr.0@ =~= m2.remote_addr.0@);
            assert(m1.remote_addr.0 == m2.remote_addr.0);
        },
        _ => {},
    }
    lemma_options_parse_unique(
        p1.header.opcode,
        s,
        24 + payload_wire_len(p1.header.opcode),
        p1.options@,
        p2.options@,
    );
}

/// Decoding inverts encoding, packet for packet: whatever the
/// decoder returns for the wire bytes of a well-formed request is
/// that request, up to the view of its option list.
pub proof fn lemma_decode_inverts_encode(req: RequestPacket, p: RequestPacket)
    requires
        request_wf(req),
        request_parses_to(request_packet_bytes(req), p),
    ensures
        p.header == req.header,
        p.payload == req.payload,
        p.options@ == req.options@,
{
    lemma_request_round_trip(req);
    lemma_request_parse_unique(request_packet_bytes(req), p, req);
}

} // verus!
