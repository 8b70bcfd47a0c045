//! PCP response packets and the request/response matching predicate.

use vstd::prelude::*;

use crate::addr::{addr_eq, nonce_eq};
use crate::headers::{response_header_bytes, ResponseHeader};
use crate::op_code::OpCode;
use crate::packet::{
    first_bad_option, option_check, options_bytes, options_len, PacketOption, RequestPacket,
    RequestPayload,
};
use crate::payloads::{
    map_response_payload_bytes, peer_response_payload_bytes, MapResponsePayload,
    PeerResponsePayload,
};
use crate::protocols::ProtocolNumber;

verus! {

/// The opcode-specific payload of a response.
#[derive(Clone, Copy, Debug, PartialEq)]
pub enum ResponsePayload {
    /// A MAP response payload.
    Mapping(MapResponsePayload),
    /// A PEER response payload.
    Peer(PeerResponsePayload),
    /// An ANNOUNCE response carries no payload.
    Announce,
}

/// The opcode a response payload belongs to.
pub open spec fn spec_response_payload_opcode(p: ResponsePayload) -> OpCode {
    match p {
        ResponsePayload::Mapping(_) => OpCode::Mapping,
        ResponsePayload::Peer(_) => OpCode::Peer,
        ResponsePayload::Announce => OpCode::Announce,
    }
}

/// The wire bytes of a response payload.
pub open spec fn response_payload_bytes(p: ResponsePayload) -> Seq<u8> {
    match p {
        ResponsePayload::Mapping(m) => map_response_payload_bytes(m),
        ResponsePayload::Peer(m) => peer_response_payload_bytes(m),
        ResponsePayload::Announce => Seq::<u8>::empty(),
    }
}

impl ResponsePayload {
    /// The opcode this payload belongs to.
    pub fn opcode(&self) -> (r: OpCode)
        ensures
            r == spec_response_payload_opcode(*self),
    {
        match self {
            ResponsePayload::Mapping(_) => OpCode::Mapping,
            ResponsePayload::Peer(_) => OpCode::Peer,
            ResponsePayload::Announce => OpCode::Announce,
        }
    }

    /// Size of this payload on the wire, in bytes.
    pub fn size(&self) -> (r: usize)
        ensures
            r == response_payload_bytes(*self).len(),
    {
        match self {
            ResponsePayload::Mapping(m) => m.size(),
            ResponsePayload::Peer(m) => m.size(),
            ResponsePayload::Announce => 0,
        }
    }

    /// Appends the wire bytes of this payload to `buf`.
    pub fn copy_to(&self, buf: &mut Vec<u8>)
        ensures
            final(buf)@ =~= old(buf)@ + response_payload_bytes(*self),
    {
        match self {
            ResponsePayload::Mapping(m) => m.copy_to(buf),
            ResponsePayload::Peer(m) => m.copy_to(buf),
            ResponsePayload::Announce => {},
        }
    }
}

/// A PCP response packet: header, opcode-specific payload and
/// options. Responses normally arrive from the network and are
/// produced by the decoder; the encoder here serves tests and
/// tooling that fabricate server traffic.
#[derive(Clone, Debug, PartialEq)]
pub struct ResponsePacket {
    /// The response header.
    pub header: ResponseHeader,
    /// The opcode-specific payload.
    pub payload: ResponsePayload,
    /// The options of the response, in wire order.
    pub options: Vec<PacketOption>,
}

/// The exact wire bytes of a response packet.
pub open spec fn response_packet_bytes(p: ResponsePacket) -> Seq<u8> {
    response_header_bytes(p.header) + response_payload_bytes(p.payload) + options_bytes(p.options@)
}

/// Total wire size of a response packet, in bytes.
pub open spec fn response_size(p: ResponsePacket) -> nat {
    24 + response_payload_bytes(p.payload).len() + options_len(p.options@)
}

/// Well-formedness of a response packet: exactly what the decoder
/// guarantees of every packet it returns. The version is 2, the
/// header opcode names the payload, a PEER response has a non-zero
/// remote port, every option is legal for the opcode, structurally
/// well formed and obeys the filter-prefix rule, and the whole packet
/// fits in [`crate::MAX_PACKET_SIZE`] bytes.
pub open spec fn response_wf(p: ResponsePacket) -> bool {
    &&& p.header.version == 2
    &&& p.header.opcode == spec_response_payload_opcode(p.payload)
    &&& match p.payload {
        ResponsePayload::Peer(pp) => pp.remote_port != 0,
        _ => true,
    }
    &&& forall|i: int|
        0 <= i < p.options@.len() ==> option_check(p.header.opcode, #[trigger] p.options@[i])
            is None
    &&& response_size(p) <= 1100
}

/// Whether a response answers a request, for the purpose of finding
/// the owning mapping. Opcode and version must agree; MAP compares
/// nonce, protocol (a response protocol of 0 means "all") and
/// internal port; PEER compares nonce, protocol, internal port,
/// remote address and port, and the external port unless the request
/// left it to the server (0); ANNOUNCE matches ANNOUNCE.
pub open spec fn spec_matches(resp: ResponsePacket, req: RequestPacket) -> bool {
    &&& resp.header.opcode == req.header.opcode
    &&& resp.header.version == req.header.version
    &&& match (resp.payload, req.payload) {
        (ResponsePayload::Announce, RequestPayload::Announce) => true,
        (ResponsePayload::Mapping(res), RequestPayload::Mapping(r)) => {
            &&& (res.protocol == r.protocol || res.protocol == ProtocolNumber::Hopopt)
            &&& res.internal_port == r.internal_port
            &&& res.nonce@ == r.nonce@
        },
        (ResponsePayload::Peer(res), RequestPayload::Peer(r)) => {
            &&& res.protocol == r.protocol
            &&& (res.external_port == r.external_port || r.external_port == 0)
            &&& res.internal_port == r.internal_port
            &&& res.nonce@ == r.nonce@
            &&& res.remote_addr.0@ == r.remote_addr.0@
            &&& res.remote_port == r.remote_port
        },
        _ => false,
    }
}

impl ResponsePacket {
    /// Size of this packet on the wire, in bytes.
    pub fn size(&self) -> (r: usize)
        requires
            response_wf(*self),
        ensures
            r == response_size(*self),
            r <= 1100,
    {
        let total = 24 + (self.payload.size() as u128) + crate::packet::options_total_len(
            &self.options,
        );
        total as usize
    }

    /// Appends the wire bytes of this packet to `buf`.
    pub fn copy_to(&self, buf: &mut Vec<u8>)
        requires
            response_wf(*self),
        ensures
            final(buf)@ =~= old(buf)@ + response_packet_bytes(*self),
    {
        let s = Ghost(self.options@);
        self.header.copy_to(buf);
        self.payload.copy_to(buf);
        let mut i: usize = 0;
        proof {
            assert(s@.skip(0) =~= s@);
        }
        assert(buf@ + options_bytes(s@.skip(0)) =~= old(buf)@ + response_packet_bytes(*self));
        while i < self.options.len()
            invariant
                i <= self.options@.len(),
                s@ == self.options@,
                buf@ + options_bytes(s@.skip(i as int)) =~= old(buf)@ + response_packet_bytes(
                    *self,
                ),
            decreases self.options@.len() - i,
        {
            let o = &self.options[i];
            proof {
                assert(s@.skip(i as int).len() > 0);
                assert(s@.skip(i as int)[0] == s@[i as int]);
                assert(s@.skip(i as int).drop_first() =~= s@.skip(i as int + 1));
            }
            o.copy_to(buf);
            i += 1;
        }
        proof {
            assert(s@.skip(s@.len() as int).len() == 0);
        }
        assert(buf@ =~= old(buf)@ + response_packet_bytes(*self));
    }

    /// The exact wire form of this packet, as a fresh buffer.
    pub fn bytes(&self) -> (r: Vec<u8>)
        requires
            response_wf(*self),
        ensures
            r@ =~= response_packet_bytes(*self),
    {
        let mut buf: Vec<u8> = Vec::new();
        self.copy_to(&mut buf);
        buf
    }

    /// Decides whether this response answers `req`.
    pub fn matches(&self, req: &RequestPacket) -> (r: bool)
        ensures
            r == spec_matches(*self, *req),
    {
        if !(self.header.opcode == req.header.opcode && self.header.version
            == req.header.version) {
            return false;
        }
        match (&self.payload, &req.payload) {
            (ResponsePayload::Announce, RequestPayload::Announce) => true,
            (ResponsePayload::Mapping(res), RequestPayload::Mapping(r)) => (res.protocol
                == r.protocol || matches!(res.protocol, ProtocolNumber::Hopopt))
                && res.internal_port == r.internal_port && nonce_eq(&res.nonce, &r.nonce),
            (ResponsePayload::Peer(res), RequestPayload::Peer(r)) => res.protocol == r.protocol
                && (res.external_port == r.external_port || r.external_port == 0)
                && res.internal_port == r.internal_port && nonce_eq(&res.nonce, &r.nonce)
                && addr_eq(&res.remote_addr, &r.remote_addr) && res.remote_port == r.remote_port,
            _ => false,
        }
    }
}

} // verus!
