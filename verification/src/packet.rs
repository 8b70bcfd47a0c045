//! PCP packet options and request packets.
//!
//! A request packet is assembled through the validated constructors
//! [`RequestPacket::map`], [`RequestPacket::peer`] and
//! [`RequestPacket::announce`]; encoding a packet that passed those
//! checks never fails and never exceeds [`crate::MAX_PACKET_SIZE`]
//! bytes.

use vstd::prelude::*;

use crate::addr::{spec_is_v4_mapped, Ipv6Address};
use crate::headers::{option_header_bytes, request_header_bytes, OptionHeader, RequestHeader};
use crate::op_code::{spec_is_option_valid, OpCode};
use crate::option_code::{option_payload_len, OptionCode};
use crate::parsing_error::ParsingError;
use crate::payloads::{
    filter_option_payload_bytes, map_request_payload_bytes, peer_request_payload_bytes,
    third_party_option_payload_bytes, FilterOptionPayload, MapRequestPayload, PeerRequestPayload,
    ThirdPartyOptionPayload,
};
use crate::protocols::ProtocolNumber;

verus! {

/// The payload of a packet option.
#[derive(Clone, Copy, Debug, PartialEq)]
pub enum OptionPayload {
    /// A FILTER option payload.
    Filter(FilterOptionPayload),
    /// A THIRD_PARTY option payload.
    ThirdParty(ThirdPartyOptionPayload),
    /// A PREFER_FAILURE option carries no payload.
    PreferFailure,
}

/// The option code a payload belongs to.
pub open spec fn option_payload_code(p: OptionPayload) -> OptionCode {
    match p {
        OptionPayload::Filter(_) => OptionCode::Filter,
        OptionPayload::ThirdParty(_) => OptionCode::ThirdParty,
        OptionPayload::PreferFailure => OptionCode::PreferFailure,
    }
}

/// The wire bytes of an option payload.
pub open spec fn option_payload_bytes(p: OptionPayload) -> Seq<u8> {
    match p {
        OptionPayload::Filter(f) => filter_option_payload_bytes(f),
        OptionPayload::ThirdParty(t) => third_party_option_payload_bytes(t),
        OptionPayload::PreferFailure => Seq::<u8>::empty(),
    }
}

impl OptionPayload {
    /// Builds a FILTER option payload.
    pub fn filter(prefix: u8, remote_port: u16, remote_addr: Ipv6Address) -> (r: OptionPayload)
        ensures
            r == OptionPayload::Filter(FilterOptionPayload { prefix, remote_port, remote_addr }),
    {
        OptionPayload::Filter(FilterOptionPayload::new(prefix, remote_port, remote_addr))
    }

    /// Builds a THIRD_PARTY option payload.
    pub fn third_party(address: Ipv6Address) -> (r: OptionPayload)
        ensures
            r == OptionPayload::ThirdParty(ThirdPartyOptionPayload { address }),
    {
        OptionPayload::ThirdParty(ThirdPartyOptionPayload::new(address))
    }

    /// Builds a PREFER_FAILURE option payload.
    pub fn prefer_failure() -> (r: OptionPayload)
        ensures
            r == OptionPayload::PreferFailure,
    {
        OptionPayload::PreferFailure
    }

    /// Size of this payload on the wire, in bytes.
    pub fn size(&self) -> (r: usize)
        ensures
            r == option_payload_bytes(*self).len(),
    {
        match self {
            OptionPayload::Filter(f) => f.size(),
            OptionPayload::ThirdParty(t) => t.size(),
            OptionPayload::PreferFailure => 0,
        }
    }

    /// Appends the wire bytes of this payload to `buf`.
    pub fn copy_to(&self, buf: &mut Vec<u8>)
        ensures
            final(buf)@ =~= old(buf)@ + option_payload_bytes(*self),
    {
        match self {
            OptionPayload::Filter(f) => f.copy_to(buf),
            OptionPayload::ThirdParty(t) => t.copy_to(buf),
            OptionPayload::PreferFailure => {},
        }
    }
}

/// A PCP packet option: an option header and the matching payload.
#[derive(Clone, Copy, Debug, PartialEq)]
pub struct PacketOption {
    /// The option header.
    pub header: OptionHeader,
    /// The option payload.
    pub payload: OptionPayload,
}

/// Structural well-formedness of an option: the header names the
/// payload that follows it and carries that payload's semantic
/// length.
pub open spec fn option_wf(o: PacketOption) -> bool {
    &&& o.header.code == option_payload_code(o.payload)
    &&& o.header.length == option_payload_len(o.header.code)
}

/// The filter-prefix rule: an IPv4-mapped remote address needs a
/// prefix of at least 96 bits. Options other than FILTER satisfy it
/// trivially.
pub open spec fn option_prefix_ok(o: PacketOption) -> bool {
    match o.payload {
        OptionPayload::Filter(f) => spec_is_v4_mapped(f.remote_addr.0@) ==> f.prefix >= 96,
        _ => true,
    }
}

/// The wire bytes of one option: header then payload. Every defined
/// option payload length (20, 16 and 0) is already a multiple of 4,
/// so no padding bytes follow.
pub open spec fn option_bytes(o: PacketOption) -> Seq<u8> {
    option_header_bytes(o.header) + option_payload_bytes(o.payload)
}

/// The wire bytes of a list of options, in order.
pub open spec fn options_bytes(s: Seq<PacketOption>) -> Seq<u8>
    decreases s.len(),
{
    if s.len() == 0 {
        Seq::<u8>::empty()
    } else {
        option_bytes(s[0]) + options_bytes(s.drop_first())
    }
}

/// Total wire size of a list of options, in bytes.
pub open spec fn options_len(s: Seq<PacketOption>) -> nat
    decreases s.len(),
{
    if s.len() == 0 {
        0
    } else {
        option_bytes(s[0]).len() + options_len(s.drop_first())
    }
}

/// The wire size of a list of options is the length of its bytes.
pub proof fn lemma_options_bytes_len(s: Seq<PacketOption>)
    ensures
        options_bytes(s).len() == options_len(s),
    decreases s.len(),
{
    if s.len() > 0 {
        lemma_options_bytes_len(s.drop_first());
    }
}

/// The check a request constructor runs on one option: it must be
/// legal for the opcode, structurally well formed, and obey the
/// filter-prefix rule; the first failure names the error returned.
pub open spec fn option_check(op: OpCode, o: PacketOption) -> Option<ParsingError> {
    if !spec_is_option_valid(op, o.header.code) {
        Some(ParsingError::InvalidOption(op, o.header.code))
    } else if !option_wf(o) {
        Some(ParsingError::InvalidOptionLength(o.header.code, o.header.length as usize))
    } else {
        match o.payload {
            OptionPayload::Filter(f) => if spec_is_v4_mapped(f.remote_addr.0@) && f.prefix < 96 {
                Some(ParsingError::InvalidPrefix(f.prefix))
            } else {
                None
            },
            _ => None,
        }
    }
}

/// The first failing option check over a list of options, if any.
pub open spec fn first_bad_option(op: OpCode, s: Seq<PacketOption>) -> Option<ParsingError>
    decreases s.len(),
{
    if s.len() == 0 {
        None
    } else if option_check(op, s[0]) is Some {
        option_check(op, s[0])
    } else {
        first_bad_option(op, s.drop_first())
    }
}

impl PacketOption {
    /// Builds a FILTER option, which restricts the remote peers that
    /// may use the mapping.
    pub fn filter(prefix: u8, remote_port: u16, remote_addr: Ipv6Address) -> (r: PacketOption)
        ensures
            r.header == (OptionHeader { code: OptionCode::Filter, length: 20u16 }),
            r.payload == OptionPayload::Filter(
                FilterOptionPayload { prefix, remote_port, remote_addr },
            ),
            option_wf(r),
    {
        PacketOption {
            header: OptionHeader::filter(),
            payload: OptionPayload::filter(prefix, remote_port, remote_addr),
        }
    }

    /// Builds a THIRD_PARTY option, which makes the mapping on behalf
    /// of another host.
    pub fn third_party(address: Ipv6Address) -> (r: PacketOption)
        ensures
            r.header == (OptionHeader { code: OptionCode::ThirdParty, length: 16u16 }),
            r.payload == OptionPayload::ThirdParty(ThirdPartyOptionPayload { address }),
            option_wf(r),
    {
        PacketOption {
            header: OptionHeader::third_party(),
            payload: OptionPayload::third_party(address),
        }
    }

    /// Builds a PREFER_FAILURE option, which tells the server to fail
    /// rather than map an alternative external port or address.
    pub fn prefer_failure() -> (r: PacketOption)
        ensures
            r.header == (OptionHeader { code: OptionCode::PreferFailure, length: 0u16 }),
            r.payload == OptionPayload::PreferFailure,
            option_wf(r),
    {
        PacketOption { header: OptionHeader::prefer_failure(), payload: OptionPayload::prefer_failure() }
    }

    /// Size of this option on the wire, in bytes.
    pub fn size(&self) -> (r: usize)
        ensures
            r == option_bytes(*self).len(),
    {
        4 + self.payload.size()
    }

    /// Appends the wire bytes of this option to `buf`.
    pub fn copy_to(&self, buf: &mut Vec<u8>)
        ensures
            final(buf)@ =~= old(buf)@ + option_bytes(*self),
    {
        self.header.copy_to(buf);
        self.payload.copy_to(buf);
        assert(buf@ =~= old(buf)@ + option_bytes(*self));
    }

    /// Runs the constructor check on this option.
    fn check(&self, op: OpCode) -> (r: Option<ParsingError>)
        ensures
            r == option_check(op, *self),
    {
        if !op.is_option_valid(self.header.code) {
            return Some(ParsingError::InvalidOption(op, self.header.code));
        }
        let code_matches = match (&self.header.code, &self.payload) {
            (OptionCode::Filter, OptionPayload::Filter(_)) => true,
            (OptionCode::ThirdParty, OptionPayload::ThirdParty(_)) => true,
            (OptionCode::PreferFailure, OptionPayload::PreferFailure) => true,
            _ => false,
        };
        if !(code_matches && self.header.length == self.header.code.payload_len()) {
            return Some(
                ParsingError::InvalidOptionLength(self.header.code, self.header.length as usize),
            );
        }
        match &self.payload {
            OptionPayload::Filter(f) => {
                if f.remote_addr.is_v4_mapped() && f.prefix < 96 {
                    Some(ParsingError::InvalidPrefix(f.prefix))
                } else {
                    None
                }
            },
            _ => None,
        }
    }
}

/// Checks every option of a request against its opcode, reporting
/// the first failure in constructor order.
fn check_options(op: OpCode, options: &Vec<PacketOption>) -> (r: Option<ParsingError>)
    ensures
        r == first_bad_option(op, options@),
        r is None ==> forall|i: int|
            0 <= i < options@.len() ==> option_check(op, #[trigger] options@[i]) is None,
{
    let s = Ghost(options@);
    let mut i: usize = 0;
    proof {
        assert(s@.skip(0) =~= s@);
    }
    while i < options.len()
        invariant
            i <= options@.len(),
            s@ == options@,
            first_bad_option(op, s@) == first_bad_option(op, s@.skip(i as int)),
            forall|j: int| 0 <= j < i ==> option_check(op, #[trigger] options@[j]) is None,
        decreases options@.len() - i,
    {
        let o = &options[i];
        proof {
            assert(s@.skip(i as int).len() > 0);
            assert(s@.skip(i as int)[0] == s@[i as int]);
            assert(s@.skip(i as int).drop_first() =~= s@.skip(i as int + 1));
        }
        match o.check(op) {
            Some(e) => {
                return Some(e);
            },
            None => {},
        }
        i += 1;
    }
    proof {
        assert(s@.skip(s@.len() as int).len() == 0);
    }
    None
}

/// The opcode-specific payload of a request.
#[derive(Clone, Copy, Debug, PartialEq)]
pub enum RequestPayload {
    /// A MAP request payload.
    Mapping(MapRequestPayload),
    /// A PEER request payload.
    Peer(PeerRequestPayload),
    /// An ANNOUNCE request carries no payload.
    Announce,
}

/// The wire bytes of a request payload.
pub open spec fn request_payload_bytes(p: RequestPayload) -> Seq<u8> {
    match p {
        RequestPayload::Mapping(m) => map_request_payload_bytes(m),
        RequestPayload::Peer(m) => peer_request_payload_bytes(m),
        RequestPayload::Announce => Seq::<u8>::empty(),
    }
}

impl RequestPayload {
    /// The opcode this payload belongs to.
    pub fn opcode(&self) -> (r: OpCode)
        ensures
            r == spec_request_payload_opcode(*self),
    {
        match self {
            RequestPayload::Mapping(_) => OpCode::Mapping,
            RequestPayload::Peer(_) => OpCode::Peer,
            RequestPayload::Announce => OpCode::Announce,
        }
    }

    /// Size of this payload on the wire, in bytes.
    pub fn size(&self) -> (r: usize)
        ensures
            r == request_payload_bytes(*self).len(),
    {
        match self {
            RequestPayload::Mapping(m) => m.size(),
            RequestPayload::Peer(m) => m.size(),
            RequestPayload::Announce => 0,
        }
    }

    /// Appends the wire bytes of this payload to `buf`.
    pub fn copy_to(&self, buf: &mut Vec<u8>)
        ensures
            final(buf)@ =~= old(buf)@ + request_payload_bytes(*self),
    {
        match self {
            RequestPayload::Mapping(m) => m.copy_to(buf),
            RequestPayload::Peer(m) => m.copy_to(buf),
            RequestPayload::Announce => {},
        }
    }
}

/// The opcode a request payload belongs to.
pub open spec fn spec_request_payload_opcode(p: RequestPayload) -> OpCode {
    match p {
        RequestPayload::Mapping(_) => OpCode::Mapping,
        RequestPayload::Peer(_) => OpCode::Peer,
        RequestPayload::Announce => OpCode::Announce,
    }
}

/// A PCP request packet: header, opcode-specific payload and options.
#[derive(Clone, Debug, PartialEq)]
pub struct RequestPacket {
    /// The request header.
    pub header: RequestHeader,
    /// The opcode-specific payload.
    pub payload: RequestPayload,
    /// The options of the request, in wire order.
    pub options: Vec<PacketOption>,
}

/// The exact wire bytes of a request packet.
pub open spec fn request_packet_bytes(p: RequestPacket) -> Seq<u8> {
    request_header_bytes(p.header) + request_payload_bytes(p.payload) + options_bytes(p.options@)
}

/// Total wire size of a request packet, in bytes.
pub open spec fn request_size(p: RequestPacket) -> nat {
    24 + request_payload_bytes(p.payload).len() + options_len(p.options@)
}

/// The bytes of a request packet are exactly `request_size` long.
pub proof fn lemma_request_bytes_len(p: RequestPacket)
    ensures
        request_packet_bytes(p).len() == request_size(p),
{
    lemma_options_bytes_len(p.options@);
}

/// The wire form of every request that passed the constructor checks
/// fits in [`crate::MAX_PACKET_SIZE`] bytes.
pub proof fn lemma_encode_bounded(p: RequestPacket)
    requires
        request_wf(p),
    ensures
        request_packet_bytes(p).len() <= 1100,
{
    lemma_request_bytes_len(p);
}

/// Well-formedness of a request packet: what the validated
/// constructors establish. The protocol version is 2, the header
/// opcode names the payload, a PEER request has a non-zero remote
/// port, every option is legal for the opcode, structurally well
/// formed and obeys the filter-prefix rule, and the whole packet fits
/// in [`crate::MAX_PACKET_SIZE`] bytes.
pub open spec fn request_wf(p: RequestPacket) -> bool {
    &&& p.header.version == 2
    &&& p.header.opcode == spec_request_payload_opcode(p.payload)
    &&& match p.payload {
        RequestPayload::Peer(pp) => pp.remote_port != 0,
        _ => true,
    }
    &&& forall|i: int|
        0 <= i < p.options@.len() ==> option_check(p.header.opcode, #[trigger] p.options@[i])
            is None
    &&& request_size(p) <= 1100
}

/// Sums the wire sizes of a list of options without any overflow,
/// whatever their number.
pub(crate) fn options_total_len(options: &Vec<PacketOption>) -> (r: u128)
    ensures
        r == options_len(options@),
        r <= 24 * options@.len(),
{
    let s = Ghost(options@);
    let mut total: u128 = 0;
    let mut i: usize = 0;
    proof {
        assert(s@.skip(0) =~= s@);
    }
    while i < options.len()
        invariant
            i <= options@.len(),
            s@ == options@,
            total <= 24 * i,
            options_len(s@) == total + options_len(s@.skip(i as int)),
        decreases options@.len() - i,
    {
        let o = &options[i];
        proof {
            assert(s@.skip(i as int).len() > 0);
            assert(s@.skip(i as int)[0] == s@[i as int]);
            assert(s@.skip(i as int).drop_first() =~= s@.skip(i as int + 1));
        }
        let sz = o.size();
        assert(sz <= 24);
        total = total + sz as u128;
        i += 1;
    }
    proof {
        assert(s@.skip(s@.len() as int).len() == 0);
    }
    total
}

impl RequestPacket {
    /// Size of this packet on the wire, in bytes.
    pub fn size(&self) -> (r: usize)
        requires
            request_wf(*self),
        ensures
            r == request_size(*self),
            r <= 1100,
    {
        let total = 24 + (self.payload.size() as u128) + options_total_len(&self.options);
        total as usize
    }

    /// Appends the wire bytes of this packet to `buf`. Encoding a
    /// packet that passed the constructor checks cannot fail.
    pub fn copy_to(&self, buf: &mut Vec<u8>)
        requires
            request_wf(*self),
        ensures
            final(buf)@ =~= old(buf)@ + request_packet_bytes(*self),
    {
        let s = Ghost(self.options@);
        self.header.copy_to(buf);
        self.payload.copy_to(buf);
        let mut i: usize = 0;
        proof {
            assert(s@.skip(0) =~= s@);
        }
        assert(buf@ + options_bytes(s@.skip(0)) =~= old(buf)@ + request_packet_bytes(*self));
        while i < self.options.len()
            invariant
                i <= self.options@.len(),
                s@ == self.options@,
                buf@ + options_bytes(s@.skip(i as int)) =~= old(buf)@ + request_packet_bytes(
                    *self,
                ),
            decreases self.options@.len() - i,
        {
            let o = &self.options[i];
            proof {
                assert(s@.skip(i as int).len() > 0);
                assert(s@.skip(i as int)[0] == s@[i as int]);
                assert(s@.skip(i as int).drop_first() =~= s@.skip(i as int + 1));
            }
            o.copy_to(buf);
            i += 1;
        }
        proof {
            assert(s@.skip(s@.len() as int).len() == 0);
        }
        assert(buf@ =~= old(buf)@ + request_packet_bytes(*self));
    }

    /// The exact wire form of this packet, as a fresh buffer. It is
    /// never longer than [`crate::MAX_PACKET_SIZE`] bytes.
    pub fn bytes(&self) -> (r: Vec<u8>)
        requires
            request_wf(*self),
        ensures
            r@ =~= request_packet_bytes(*self),
            r@.len() <= 1100,
    {
        let mut buf: Vec<u8> = Vec::new();
        self.copy_to(&mut buf);
        proof {
            lemma_request_bytes_len(*self);
        }
        buf
    }

    /// Builds a PCP MAP request.
    ///
    /// The checks run in this order: each option in turn (legality
    /// for MAP, structure, filter prefix), then the version, then the
    /// total size; the first failure is returned.
    pub fn map(
        version: u8,
        lifetime: u32,
        internal_addr: Ipv6Address,
        nonce: [u8; 12],
        protocol: Option<ProtocolNumber>,
        internal_port: u16,
        external_port: u16,
        external_addr: Ipv6Address,
        options: Vec<PacketOption>,
    ) -> (r: Result<RequestPacket, ParsingError>)
        ensures
            r == spec_build_map(
                version,
                lifetime,
                internal_addr,
                nonce,
                protocol,
                internal_port,
                external_port,
                external_addr,
                options,
            ),
            r is Ok ==> request_wf(r->Ok_0),
    {
        match check_options(OpCode::Mapping, &options) {
            Some(e) => Err(e),
            None => {
                if version != 2 {
                    Err(ParsingError::VersionNotSupported(version))
                } else {
                    let payload = RequestPayload::Mapping(
                        MapRequestPayload::new(
                            nonce,
                            protocol,
                            internal_port,
                            external_port,
                            external_addr,
                        ),
                    );
                    proof {
                        vstd::std_specs::vec::axiom_spec_len(&options);
                    }
                    let total = 24 + (payload.size() as u128) + options_total_len(&options);
                    if total > 1100 {
                        Err(ParsingError::PacketTooBig(#[verifier::truncate] (total as usize)))
                    } else {
                        let packet = RequestPacket {
                            header: RequestHeader::map(version, lifetime, internal_addr),
                            payload,
                            options,
                        };
                        Ok(packet)
                    }
                }
            },
        }
    }

    /// Builds a PCP PEER request.
    ///
    /// The checks run in this order: each option in turn (legality
    /// for PEER, structure), then the version, then the remote port,
    /// then the total size; the first failure is returned.
    pub fn peer(
        version: u8,
        lifetime: u32,
        internal_addr: Ipv6Address,
        nonce: [u8; 12],
        protocol: Option<ProtocolNumber>,
        internal_port: u16,
        external_port: u16,
        external_addr: Ipv6Address,
        remote_port: u16,
        remote_addr: Ipv6Address,
        options: Vec<PacketOption>,
    ) -> (r: Result<RequestPacket, ParsingError>)
        ensures
            r == spec_build_peer(
                version,
                lifetime,
                internal_addr,
                nonce,
                protocol,
                internal_port,
                external_port,
                external_addr,
                remote_port,
                remote_addr,
                options,
            ),
            r is Ok ==> request_wf(r->Ok_0),
    {
        match check_options(OpCode::Peer, &options) {
            Some(e) => Err(e),
            None => {
                if version != 2 {
                    Err(ParsingError::VersionNotSupported(version))
                } else if remote_port == 0 {
                    Err(ParsingError::ZeroRemotePeerPort)
                } else {
                    let payload = RequestPayload::Peer(
                        PeerRequestPayload::new(
                            nonce,
                            protocol,
                            internal_port,
                            external_port,
                            external_addr,
                            remote_port,
                            remote_addr,
                        ),
                    );
                    proof {
                        vstd::std_specs::vec::axiom_spec_len(&options);
                    }
                    let total = 24 + (payload.size() as u128) + options_total_len(&options);
                    if total > 1100 {
                        Err(ParsingError::PacketTooBig(#[verifier::truncate] (total as usize)))
                    } else {
                        let packet = RequestPacket {
                            header: RequestHeader::peer(version, lifetime, internal_addr),
                            payload,
                            options,
                        };
                        Ok(packet)
                    }
                }
            },
        }
    }

    /// Builds a PCP ANNOUNCE request; it has no payload and accepts
    /// no options.
    pub fn announce(version: u8, address: Ipv6Address) -> (r: RequestPacket)
        requires
            version == 2,
        ensures
            r.header == (RequestHeader {
                version,
                opcode: OpCode::Announce,
                lifetime: 0u32,
                address,
            }),
            r.payload == RequestPayload::Announce,
            r.options@.len() == 0,
            request_wf(r),
    {
        RequestPacket {
            header: RequestHeader::announce(version, address),
            payload: RequestPayload::Announce,
            options: Vec::new(),
        }
    }
}

/// The result of building a MAP request: the constructor checks in
/// order, then the assembled packet.
pub open spec fn spec_build_map(
    version: u8,
    lifetime: u32,
    internal_addr: Ipv6Address,
    nonce: [u8; 12],
    protocol: Option<ProtocolNumber>,
    internal_port: u16,
    external_port: u16,
    external_addr: Ipv6Address,
    options: Vec<PacketOption>,
) -> Result<RequestPacket, ParsingError> {
    let payload = RequestPayload::Mapping(
        MapRequestPayload {
            nonce,
            protocol: match protocol {
                Some(p) => p,
                None => ProtocolNumber::Hopopt,
            },
            internal_port,
            external_port,
            external_addr,
        },
    );
    let size = 24 + request_payload_bytes(payload).len() + options_len(options@);
    match first_bad_option(OpCode::Mapping, options@) {
        Some(e) => Err(e),
        None => if version != 2 {
            Err(ParsingError::VersionNotSupported(version))
        } else if size > 1100 {
            Err(ParsingError::PacketTooBig(size as usize))
        } else {
            Ok(
                RequestPacket {
                    header: RequestHeader {
                        version,
                        opcode: OpCode::Mapping,
                        lifetime,
                        address: internal_addr,
                    },
                    payload,
                    options,
                },
            )
        },
    }
}

/// The result of building a PEER request: the constructor checks in
/// order, then the assembled packet.
pub open spec fn spec_build_peer(
    version: u8,
    lifetime: u32,
    internal_addr: Ipv6Address,
    nonce: [u8; 12],
    protocol: Option<ProtocolNumber>,
    internal_port: u16,
    external_port: u16,
    external_addr: Ipv6Address,
    remote_port: u16,
    remote_addr: Ipv6Address,
    options: Vec<PacketOption>,
) -> Result<RequestPacket, ParsingError> {
    let payload = RequestPayload::Peer(
        PeerRequestPayload {
            nonce,
            protocol: match protocol {
                Some(p) => p,
                None => ProtocolNumber::Hopopt,
            },
            internal_port,
            external_port,
            external_addr,
            remote_port,
            remote_addr,
        },
    );
    let size = 24 + request_payload_bytes(payload).len() + options_len(options@);
    match first_bad_option(OpCode::Peer, options@) {
        Some(e) => Err(e),
        None => if version != 2 {
            Err(ParsingError::VersionNotSupported(version))
        } else if remote_port == 0 {
            Err(ParsingError::ZeroRemotePeerPort)
        } else if size > 1100 {
            Err(ParsingError::PacketTooBig(size as usize))
        } else {
            Ok(
                RequestPacket {
                    header: RequestHeader {
                        version,
                        opcode: OpCode::Peer,
                        lifetime,
                        address: internal_addr,
                    },
                    payload,
                    options,
                },
            )
        },
    }
}

} // verus!
