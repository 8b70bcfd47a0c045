//! Tests of the wire codec: encoding, decoding, the error taxonomy
//! and the matching predicate.

use pcp::addr::Ipv6Address;
use pcp::decode::{decode_request, decode_response};
use pcp::headers::{OptionHeader, RequestHeader, ResponseHeader};
use pcp::op_code::OpCode;
use pcp::option_code::OptionCode;
use pcp::packet::{OptionPayload, PacketOption, RequestPacket, RequestPayload};
use pcp::parsing_error::ParsingError;
use pcp::payloads::{MapResponsePayload, PeerResponsePayload};
use pcp::protocols::ProtocolNumber;
use pcp::response::{ResponsePacket, ResponsePayload};
use pcp::result_code::ResultCode;
use pcp::slices::{OptionHeaderSlice, ResponsePacketSlice};

fn loopback() -> Ipv6Address {
    // The address "::1".
    let mut a = [0u8; 16];
    a[15] = 1;
    Ipv6Address(a)
}

fn v4_mapped(a: u8, b: u8, c: u8, d: u8) -> Ipv6Address {
    let mut x = [0u8; 16];
    x[10] = 0xff;
    x[11] = 0xff;
    x[12] = a;
    x[13] = b;
    x[14] = c;
    x[15] = d;
    Ipv6Address(x)
}

fn unspecified() -> Ipv6Address {
    Ipv6Address([0u8; 16])
}

#[test]
fn roundtrip() {
    // Response header: version 2, ANNOUNCE, AddressMismatch,
    // lifetime 1, epoch 1.
    let h = ResponseHeader {
        version: 2,
        opcode: OpCode::Announce,
        result: ResultCode::AddressMismatch,
        lifetime: 1,
        epoch: 1,
    };
    let mut b: Vec<u8> = Vec::new();
    h.copy_to(&mut b);
    let hs = pcp::slices::ResponseHeaderSlice::try_parse(&b).unwrap();
    assert_eq!(h, hs.parse());

    // Request headers through whole packets.
    let p = RequestPacket::announce(2, loopback());
    assert_eq!(Ok(p.clone()), decode_request(&p.bytes()));
    assert_eq!(p.header, RequestHeader::announce(2, loopback()));

    let p = RequestPacket::map(
        2,
        10,
        loopback(),
        [0u8; 12],
        None,
        0,
        0,
        unspecified(),
        Vec::new(),
    )
    .unwrap();
    assert_eq!(p.header, RequestHeader::map(2, 10, loopback()));
    assert_eq!(Ok(p.clone()), decode_request(&p.bytes()));

    let p = RequestPacket::peer(
        2,
        10,
        loopback(),
        [0u8; 12],
        None,
        0,
        0,
        unspecified(),
        9,
        loopback(),
        Vec::new(),
    )
    .unwrap();
    assert_eq!(p.header, RequestHeader::peer(2, 10, loopback()));
    assert_eq!(Ok(p.clone()), decode_request(&p.bytes()));

    // Option headers.
    for h in [
        OptionHeader::prefer_failure(),
        OptionHeader::third_party(),
        OptionHeader::filter(),
    ] {
        let b = h.bytes();
        let hs = OptionHeaderSlice::try_parse(&b).unwrap();
        assert_eq!(h, hs.parse());
    }
}

#[test]
fn map_request_encode() {
    // internal_port 6000, lifetime 120, TCP, zero nonce, client
    // 192.168.1.101 as an IPv4-mapped address, unspecified external.
    let p = RequestPacket::map(
        2,
        120,
        v4_mapped(192, 168, 1, 101),
        [0u8; 12],
        Some(ProtocolNumber::Tcp),
        6000,
        0,
        unspecified(),
        Vec::new(),
    )
    .unwrap();
    let b = p.bytes();
    assert_eq!(b.len(), 60);
    let mut expected = vec![0x02, 0x01, 0x00, 0x00, 0x00, 0x00, 0x00, 0x78];
    expected.extend_from_slice(&v4_mapped(192, 168, 1, 101).0);
    expected.extend_from_slice(&[0u8; 12]);
    expected.extend_from_slice(&[0x06, 0x00, 0x00, 0x00]);
    expected.extend_from_slice(&[0x17, 0x70]);
    expected.extend_from_slice(&[0x00, 0x00]);
    expected.extend_from_slice(&[0u8; 16]);
    assert_eq!(b, expected);
}

#[test]
fn filter_option_rejection() {
    let opts = vec![PacketOption::filter(90, 0, v4_mapped(1, 2, 3, 4))];
    let r = RequestPacket::map(
        2,
        120,
        v4_mapped(192, 168, 1, 101),
        [0u8; 12],
        Some(ProtocolNumber::Tcp),
        6000,
        0,
        unspecified(),
        opts,
    );
    assert_eq!(r.unwrap_err(), ParsingError::InvalidPrefix(90));

    let opts = vec![PacketOption::filter(96, 0, v4_mapped(1, 2, 3, 4))];
    let p = RequestPacket::map(
        2,
        120,
        v4_mapped(192, 168, 1, 101),
        [0u8; 12],
        Some(ProtocolNumber::Tcp),
        6000,
        0,
        unspecified(),
        opts,
    )
    .unwrap();
    // One option: a 4-byte header and exactly 20 bytes of payload.
    assert_eq!(p.size(), 60 + 4 + 20);
    assert_eq!(p.bytes().len(), 84);
}

#[test]
fn peer_request_roundtrip_with_option() {
    let opts = vec![PacketOption::third_party(loopback())];
    let p = RequestPacket::peer(
        2,
        900,
        loopback(),
        [7u8; 12],
        Some(ProtocolNumber::Udp),
        5000,
        5001,
        v4_mapped(10, 0, 0, 1),
        4242,
        v4_mapped(93, 184, 216, 34),
        opts,
    )
    .unwrap();
    let b = p.bytes();
    assert_eq!(b.len(), 24 + 56 + 20);
    assert_eq!(decode_request(&b), Ok(p));
}

#[test]
fn peer_zero_remote_port_rejected() {
    let r = RequestPacket::peer(
        2,
        900,
        loopback(),
        [7u8; 12],
        None,
        5000,
        0,
        unspecified(),
        0,
        loopback(),
        Vec::new(),
    );
    assert_eq!(r.unwrap_err(), ParsingError::ZeroRemotePeerPort);
}

#[test]
fn version_rejected_by_builder() {
    let r = RequestPacket::map(
        1,
        120,
        loopback(),
        [0u8; 12],
        None,
        0,
        0,
        unspecified(),
        Vec::new(),
    );
    assert_eq!(r.unwrap_err(), ParsingError::VersionNotSupported(1));
}

#[test]
fn option_illegal_for_peer() {
    let opts = vec![PacketOption::prefer_failure()];
    let r = RequestPacket::peer(
        2,
        900,
        loopback(),
        [7u8; 12],
        None,
        5000,
        0,
        unspecified(),
        4242,
        loopback(),
        opts,
    );
    assert_eq!(
        r.unwrap_err(),
        ParsingError::InvalidOption(OpCode::Peer, OptionCode::PreferFailure)
    );
}

fn success_map_response(nonce: [u8; 12], lifetime: u32, epoch: u32) -> ResponsePacket {
    ResponsePacket {
        header: ResponseHeader {
            version: 2,
            opcode: OpCode::Mapping,
            result: ResultCode::Success,
            lifetime,
            epoch,
        },
        payload: ResponsePayload::Mapping(MapResponsePayload {
            nonce,
            protocol: ProtocolNumber::Tcp,
            internal_port: 6000,
            external_port: 33000,
            external_addr: v4_mapped(203, 0, 113, 9),
        }),
        options: Vec::new(),
    }
}

#[test]
fn response_roundtrip() {
    let r = success_map_response([3u8; 12], 60, 10);
    let b = r.bytes();
    assert_eq!(b.len(), 60);
    assert_eq!(decode_response(&b), Ok(r));
}

#[test]
fn response_decode_errors() {
    let good = success_map_response([3u8; 12], 60, 10).bytes();

    // Too short for a header.
    assert_eq!(
        decode_response(&good[..10]),
        Err(ParsingError::InvalidSliceLength(10))
    );
    // Wrong version.
    let mut b = good.clone();
    b[0] = 1;
    assert_eq!(decode_response(&b), Err(ParsingError::VersionNotSupported(1)));
    // R bit clear: not a response.
    let mut b = good.clone();
    b[1] = 0x01;
    assert_eq!(decode_response(&b), Err(ParsingError::NotAResponse));
    // Unknown opcode.
    let mut b = good.clone();
    b[1] = 0x80 | 0x55;
    assert_eq!(decode_response(&b), Err(ParsingError::NotAnOpCode(0x55)));
    // Unknown result code.
    let mut b = good.clone();
    b[3] = 200;
    assert_eq!(decode_response(&b), Err(ParsingError::NotAResultCode(200)));
    // Unknown protocol number.
    let mut b = good.clone();
    b[36] = 200;
    assert_eq!(decode_response(&b), Err(ParsingError::NotAProtocolNumber(200)));
    // Truncated payload.
    assert_eq!(
        decode_response(&good[..40]),
        Err(ParsingError::InvalidSliceLength(16))
    );
    // Oversize packet.
    let big = vec![0u8; 1101];
    assert_eq!(decode_response(&big), Err(ParsingError::PacketTooBig(1101)));
    // A request is not a response.
    let req = RequestPacket::announce(2, loopback()).bytes();
    assert_eq!(decode_request(&req).unwrap().header.opcode, OpCode::Announce);
    assert_eq!(decode_response(&req), Err(ParsingError::NotAResponse));
    assert_eq!(decode_request(&good), Err(ParsingError::NotARequest));
}

#[test]
fn response_option_errors() {
    let mut b = success_map_response([3u8; 12], 60, 10).bytes();
    // Append an option header with an unknown code.
    b.extend_from_slice(&[9, 0, 0, 0]);
    assert_eq!(decode_response(&b), Err(ParsingError::NotAnOptionCode(9)));

    // A THIRD_PARTY option with a wrong length field.
    let mut b = success_map_response([3u8; 12], 60, 10).bytes();
    b.extend_from_slice(&[1, 0, 0, 12]);
    b.extend_from_slice(&[0u8; 12]);
    assert_eq!(
        decode_response(&b),
        Err(ParsingError::InvalidOptionLength(OptionCode::ThirdParty, 12))
    );

    // A FILTER option on an ANNOUNCE response is illegal.
    let mut b = ResponsePacket {
        header: ResponseHeader {
            version: 2,
            opcode: OpCode::Announce,
            result: ResultCode::Success,
            lifetime: 0,
            epoch: 1,
        },
        payload: ResponsePayload::Announce,
        options: Vec::new(),
    }
    .bytes();
    b.extend_from_slice(&[3, 0, 0, 20]);
    b.extend_from_slice(&[0u8; 20]);
    assert_eq!(
        decode_response(&b),
        Err(ParsingError::InvalidOption(OpCode::Announce, OptionCode::Filter))
    );

    // A FILTER option whose IPv4-mapped address has an over-narrow
    // prefix.
    let mut b = success_map_response([3u8; 12], 60, 10).bytes();
    b.extend_from_slice(&[3, 0, 0, 20]);
    b.push(0);
    b.push(90);
    b.extend_from_slice(&[0, 0]);
    b.extend_from_slice(&v4_mapped(1, 2, 3, 4).0);
    assert_eq!(decode_response(&b), Err(ParsingError::InvalidPrefix(90)));

    // The same filter with prefix 96 decodes.
    let mut b = success_map_response([3u8; 12], 60, 10).bytes();
    b.extend_from_slice(&[3, 0, 0, 20]);
    b.push(0);
    b.push(96);
    b.extend_from_slice(&[0, 0]);
    b.extend_from_slice(&v4_mapped(1, 2, 3, 4).0);
    let p = decode_response(&b).unwrap();
    assert_eq!(p.options.len(), 1);
    assert_eq!(p.options[0].header.code, OptionCode::Filter);
}

#[test]
fn matching_predicate() {
    let req = RequestPacket::map(
        2,
        120,
        loopback(),
        [3u8; 12],
        Some(ProtocolNumber::Tcp),
        6000,
        0,
        unspecified(),
        Vec::new(),
    )
    .unwrap();
    let resp = success_map_response([3u8; 12], 60, 10);
    assert!(resp.matches(&req));

    // A response protocol of 0 means "all protocols" and matches.
    let mut wild = success_map_response([3u8; 12], 60, 10);
    match &mut wild.payload {
        ResponsePayload::Mapping(m) => m.protocol = ProtocolNumber::Hopopt,
        _ => unreachable!(),
    }
    assert!(wild.matches(&req));

    // A different nonce does not match.
    let other = success_map_response([4u8; 12], 60, 10);
    assert!(!other.matches(&req));

    // A PEER response with an assigned external port matches a
    // request that left the port to the server.
    let preq = RequestPacket::peer(
        2,
        900,
        loopback(),
        [7u8; 12],
        Some(ProtocolNumber::Udp),
        5000,
        0,
        unspecified(),
        4242,
        v4_mapped(93, 184, 216, 34),
        Vec::new(),
    )
    .unwrap();
    let presp = ResponsePacket {
        header: ResponseHeader {
            version: 2,
            opcode: OpCode::Peer,
            result: ResultCode::Success,
            lifetime: 900,
            epoch: 3,
        },
        payload: ResponsePayload::Peer(PeerResponsePayload {
            nonce: [7u8; 12],
            protocol: ProtocolNumber::Udp,
            internal_port: 5000,
            external_port: 40001,
            external_addr: v4_mapped(203, 0, 113, 9),
            remote_port: 4242,
            remote_addr: v4_mapped(93, 184, 216, 34),
        }),
        options: Vec::new(),
    };
    assert!(presp.matches(&preq));
}

#[test]
fn code_tables() {
    assert_eq!(OpCode::from_byte(0), Ok(OpCode::Announce));
    assert_eq!(OpCode::from_byte(1), Ok(OpCode::Mapping));
    assert_eq!(OpCode::from_byte(2), Ok(OpCode::Peer));
    assert_eq!(OpCode::from_byte(3), Err(ParsingError::NotAnOpCode(3)));
    assert_eq!(OptionCode::from_byte(3), Ok(OptionCode::Filter));
    assert_eq!(OptionCode::from_byte(0), Err(ParsingError::NotAnOptionCode(0)));
    assert_eq!(ResultCode::from_byte(12), Ok(ResultCode::AddressMismatch));
    assert_eq!(ResultCode::from_byte(14), Err(ParsingError::NotAResultCode(14)));
    assert_eq!(ProtocolNumber::from_byte(6), Ok(ProtocolNumber::Tcp));
    assert_eq!(ProtocolNumber::from_byte(17), Ok(ProtocolNumber::Udp));
    assert_eq!(ProtocolNumber::from_byte(253), Ok(ProtocolNumber::Test1));
    assert_eq!(
        ProtocolNumber::from_byte(150),
        Err(ParsingError::NotAProtocolNumber(150))
    );
    assert_eq!(ProtocolNumber::Tcp.code(), 6);
    assert_eq!(ResultCode::Success.explain(), "Success");

    assert!(OpCode::Mapping.is_option_valid(OptionCode::Filter));
    assert!(OpCode::Mapping.is_option_valid(OptionCode::PreferFailure));
    assert!(OpCode::Peer.is_option_valid(OptionCode::ThirdParty));
    assert!(!OpCode::Peer.is_option_valid(OptionCode::Filter));
    assert!(!OpCode::Announce.is_option_valid(OptionCode::ThirdParty));
    assert_eq!(OpCode::Announce.valid_options().len(), 0);
    assert_eq!(OpCode::Mapping.valid_options().len(), 3);
    assert_eq!(OpCode::Peer.valid_options(), vec![OptionCode::ThirdParty]);
}

#[test]
fn packet_slice_views() {
    let mut resp = success_map_response([5u8; 12], 77, 42);
    resp.options.push(PacketOption::third_party(loopback()));
    let b = resp.bytes();
    let view = ResponsePacketSlice::try_parse(&b).unwrap();
    assert_eq!(view.header().version(), 2);
    assert_eq!(view.header().opcode(), OpCode::Mapping);
    assert_eq!(view.header().result_code(), ResultCode::Success);
    assert_eq!(view.header().lifetime(), 77);
    assert_eq!(view.header().epoch(), 42);
    assert_eq!(view.options().len(), 1);
    let o = &view.options()[0];
    assert_eq!(o.header().code(), OptionCode::ThirdParty);
    assert_eq!(o.header().length(), 16);
    assert_eq!(o.size(), 20);
    match o.payload() {
        pcp::slices::OptionPayloadSlice::ThirdParty(t) => {
            assert_eq!(t.address(), loopback());
        }
        _ => unreachable!(),
    }
    match view.payload() {
        pcp::slices::ResponsePayloadSlice::Mapping(m) => {
            assert_eq!(m.protocol(), ProtocolNumber::Tcp);
            assert_eq!(m.internal_port(), 6000);
            assert_eq!(m.external_port(), 33000);
            assert_eq!(m.nonce(), &[5u8; 12][..]);
        }
        _ => unreachable!(),
    }
    assert_eq!(view.parse(), resp);
}

#[test]
fn option_payload_identity() {
    // A decoded THIRD_PARTY option carries the address bytes of the
    // wire, not of the request that provoked it.
    let mut resp = success_map_response([5u8; 12], 77, 42);
    resp.options.push(PacketOption::third_party(v4_mapped(172, 16, 0, 7)));
    let b = resp.bytes();
    let p = decode_response(&b).unwrap();
    match &p.options[0].payload {
        OptionPayload::ThirdParty(t) => assert_eq!(t.address, v4_mapped(172, 16, 0, 7)),
        _ => unreachable!(),
    }
    match &p.payload {
        ResponsePayload::Mapping(m) => {
            assert_eq!(m.external_addr, v4_mapped(203, 0, 113, 9));
        }
        _ => unreachable!(),
    }
}

#[test]
fn announce_request_payload_is_empty() {
    let p = RequestPacket::announce(2, loopback());
    assert_eq!(p.payload, RequestPayload::Announce);
    assert_eq!(p.bytes().len(), 24);
    assert_eq!(p.header.lifetime, 0);
}

#[test]
fn byte_cursor() {
    let data = [1u8, 2, 3, 4, 5, 6, 7, 8, 9];
    let mut d = pcp::util::Deserializer::new(&data);
    assert!(!d.is_empty());
    let a: u8 = d.deserialize().unwrap();
    assert_eq!(a, 1);
    let b: u16 = d.deserialize().unwrap();
    assert_eq!(b, 0x0203);
    let c: u32 = d.deserialize().unwrap();
    assert_eq!(c, 0x0405_0607);
    d.skip(1).unwrap();
    assert_eq!(d.advance_at_most(5), &[9u8][..]);
    assert!(d.is_empty());
    let e: Result<u32, ParsingError> = d.deserialize();
    assert_eq!(e, Err(ParsingError::InvalidSliceLength(0)));
}

#[test]
fn map_request_roundtrip_with_every_option() {
    let opts = vec![
        PacketOption::filter(128, 7777, loopback()),
        PacketOption::filter(96, 0, v4_mapped(198, 51, 100, 17)),
        PacketOption::prefer_failure(),
        PacketOption::third_party(v4_mapped(10, 1, 2, 3)),
    ];
    let p = RequestPacket::map(
        2,
        3600,
        v4_mapped(192, 168, 1, 101),
        [9u8; 12],
        Some(ProtocolNumber::Tcp),
        6000,
        33000,
        v4_mapped(203, 0, 113, 9),
        opts,
    )
    .unwrap();
    let b = p.bytes();
    assert_eq!(b.len(), 24 + 36 + 24 + 24 + 4 + 20);
    assert_eq!(decode_request(&b), Ok(p));
}
