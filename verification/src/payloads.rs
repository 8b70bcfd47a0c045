//! Opcode-specific payloads and option payloads of PCP packets.
//!
//! Each owned payload type has a spec function giving its exact wire
//! bytes and a `copy_to` method, proved to append exactly those bytes
//! to the output buffer.

use vstd::prelude::*;

use crate::addr::Ipv6Address;
use crate::protocols::{protocol_value, ProtocolNumber};
use crate::wire::{be16, push_addr16, push_be16, push_nonce, push_u8, push_zeros, zero_bytes};

verus! {

/// PCP MAP request payload: mapping nonce, protocol, internal port,
/// suggested external port and suggested external address.
#[derive(Clone, Copy, Debug, PartialEq)]
pub struct MapRequestPayload {
    /// Random data binding the request to its response.
    pub nonce: [u8; 12],
    /// Protocol of the mapping; `Hopopt` (0) means every protocol.
    pub protocol: ProtocolNumber,
    /// The internal port to which packets will be mapped.
    pub internal_port: u16,
    /// Suggested external port; 0 lets the server choose.
    pub external_port: u16,
    /// Suggested external address; unspecified lets the server choose.
    pub external_addr: Ipv6Address,
}

/// The 36 wire bytes of a MAP request payload.
pub open spec fn map_request_payload_bytes(p: MapRequestPayload) -> Seq<u8> {
    p.nonce@ + seq![protocol_value(p.protocol)] + zero_bytes(3) + be16(p.internal_port) + be16(
        p.external_port,
    ) + p.external_addr.0@
}

impl MapRequestPayload {
    /// Size of the MAP request payload, in bytes.
    pub const SIZE: usize = 36;

    /// Builds a MAP request payload. A missing protocol stands for
    /// "all protocols", carried on the wire as protocol number 0.
    pub fn new(
        nonce: [u8; 12],
        protocol: Option<ProtocolNumber>,
        internal_port: u16,
        external_port: u16,
        external_addr: Ipv6Address,
    ) -> (r: MapRequestPayload)
        ensures
            r == (MapRequestPayload {
                nonce,
                protocol: match protocol {
                    Some(p) => p,
                    None => ProtocolNumber::Hopopt,
                },
                internal_port,
                external_port,
                external_addr,
            }),
    {
        MapRequestPayload {
            nonce,
            protocol: match protocol {
                Some(p) => p,
                None => ProtocolNumber::Hopopt,
            },
            internal_port,
            external_port,
            external_addr,
        }
    }

    /// Size of this payload on the wire, in bytes.
    pub fn size(&self) -> (r: usize)
        ensures
            r == map_request_payload_bytes(*self).len(),
    {
        36
    }

    /// Appends the wire bytes of this payload to `buf`.
    pub fn copy_to(&self, buf: &mut Vec<u8>)
        ensures
            final(buf)@ =~= old(buf)@ + map_request_payload_bytes(*self),
    {
        push_nonce(buf, &self.nonce);
        push_u8(buf, self.protocol.code());
        push_zeros(buf, 3);
        push_be16(buf, self.internal_port);
        push_be16(buf, self.external_port);
        push_addr16(buf, &self.external_addr.0);
        assert(buf@ =~= old(buf)@ + map_request_payload_bytes(*self));
    }
}

/// PCP MAP response payload: the request fields with the assigned
/// external port and address filled in by the server.
#[derive(Clone, Copy, Debug, PartialEq)]
pub struct MapResponsePayload {
    /// Random data, copied from the corresponding request.
    pub nonce: [u8; 12],
    /// Protocol of the mapping; 0 refers to every protocol.
    pub protocol: ProtocolNumber,
    /// The internal port of the mapping.
    pub internal_port: u16,
    /// The assigned external port.
    pub external_port: u16,
    /// The assigned external address.
    pub external_addr: Ipv6Address,
}

/// The 36 wire bytes of a MAP response payload.
pub open spec fn map_response_payload_bytes(p: MapResponsePayload) -> Seq<u8> {
    p.nonce@ + seq![protocol_value(p.protocol)] + zero_bytes(3) + be16(p.internal_port) + be16(
        p.external_port,
    ) + p.external_addr.0@
}

impl MapResponsePayload {
    /// Size of the MAP response payload, in bytes.
    pub const SIZE: usize = 36;

    /// Size of this payload on the wire, in bytes.
    pub fn size(&self) -> (r: usize)
        ensures
            r == map_response_payload_bytes(*self).len(),
    {
        36
    }

    /// Appends the wire bytes of this payload to `buf`.
    pub fn copy_to(&self, buf: &mut Vec<u8>)
        ensures
            final(buf)@ =~= old(buf)@ + map_response_payload_bytes(*self),
    {
        push_nonce(buf, &self.nonce);
        push_u8(buf, self.protocol.code());
        push_zeros(buf, 3);
        push_be16(buf, self.internal_port);
        push_be16(buf, self.external_port);
        push_addr16(buf, &self.external_addr.0);
        assert(buf@ =~= old(buf)@ + map_response_payload_bytes(*self));
    }
}

/// PCP PEER request payload: the MAP fields plus the remote peer's
/// port and address.
#[derive(Clone, Copy, Debug, PartialEq)]
pub struct PeerRequestPayload {
    /// Random data binding the request to its response.
    pub nonce: [u8; 12],
    /// Protocol of the mapping.
    pub protocol: ProtocolNumber,
    /// The internal port of the mapping.
    pub internal_port: u16,
    /// Suggested external port; 0 lets the server choose.
    pub external_port: u16,
    /// Suggested external address; unspecified lets the server choose.
    pub external_addr: Ipv6Address,
    /// The remote peer's port; the protocol forbids 0 here.
    pub remote_port: u16,
    /// The remote peer's address.
    pub remote_addr: Ipv6Address,
}

/// The 56 wire bytes of a PEER request payload.
pub open spec fn peer_request_payload_bytes(p: PeerRequestPayload) -> Seq<u8> {
    p.nonce@ + seq![protocol_value(p.protocol)] + zero_bytes(3) + be16(p.internal_port) + be16(
        p.external_port,
    ) + p.external_addr.0@ + be16(p.remote_port) + zero_bytes(2) + p.remote_addr.0@
}

impl PeerRequestPayload {
    /// Size of the PEER request payload, in bytes.
    pub const SIZE: usize = 56;

    /// Builds a PEER request payload. A missing protocol stands for
    /// "all protocols", carried on the wire as protocol number 0.
    pub fn new(
        nonce: [u8; 12],
        protocol: Option<ProtocolNumber>,
        internal_port: u16,
        external_port: u16,
        external_addr: Ipv6Address,
        remote_port: u16,
        remote_addr: Ipv6Address,
    ) -> (r: PeerRequestPayload)
        ensures
            r == (PeerRequestPayload {
                nonce,
                protocol: match protocol {
                    Some(p) => p,
                    None => ProtocolNumber::Hopopt,
                },
                internal_port,
                external_port,
                external_addr,
                remote_port,
                remote_addr,
            }),
    {
        PeerRequestPayload {
            nonce,
            protocol: match protocol {
                Some(p) => p,
                None => ProtocolNumber::Hopopt,
            },
            internal_port,
            external_port,
            external_addr,
            remote_port,
            remote_addr,
        }
    }

    /// Size of this payload on the wire, in bytes.
    pub fn size(&self) -> (r: usize)
        ensures
            r == peer_request_payload_bytes(*self).len(),
    {
        56
    }

    /// Appends the wire bytes of this payload to `buf`.
    pub fn copy_to(&self, buf: &mut Vec<u8>)
        ensures
            final(buf)@ =~= old(buf)@ + peer_request_payload_bytes(*self),
    {
        push_nonce(buf, &self.nonce);
        push_u8(buf, self.protocol.code());
        push_zeros(buf, 3);
        push_be16(buf, self.internal_port);
        push_be16(buf, self.external_port);
        push_addr16(buf, &self.external_addr.0);
        push_be16(buf, self.remote_port);
        push_zeros(buf, 2);
        push_addr16(buf, &self.remote_addr.0);
        assert(buf@ =~= old(buf)@ + peer_request_payload_bytes(*self));
    }
}

/// PCP PEER response payload: the request fields with the assigned
/// external port and address filled in by the server.
#[derive(Clone, Copy, Debug, PartialEq)]
pub struct PeerResponsePayload {
    /// Random data, copied from the corresponding request.
    pub nonce: [u8; 12],
    /// Protocol of the mapping.
    pub protocol: ProtocolNumber,
    /// The internal port of the mapping.
    pub internal_port: u16,
    /// The assigned external port.
    pub external_port: u16,
    /// The assigned external address.
    pub external_addr: Ipv6Address,
    /// The remote peer's port.
    pub remote_port: u16,
    /// The remote peer's address.
    pub remote_addr: Ipv6Address,
}

/// The 56 wire bytes of a PEER response payload.
pub open spec fn peer_response_payload_bytes(p: PeerResponsePayload) -> Seq<u8> {
    p.nonce@ + seq![protocol_value(p.protocol)] + zero_bytes(3) + be16(p.internal_port) + be16(
        p.external_port,
    ) + p.external_addr.0@ + be16(p.remote_port) + zero_bytes(2) + p.remote_addr.0@
}

impl PeerResponsePayload {
    /// Size of the PEER response payload, in bytes.
    pub const SIZE: usize = 56;

    /// Size of this payload on the wire, in bytes.
    pub fn size(&self) -> (r: usize)
        ensures
            r == peer_response_payload_bytes(*self).len(),
    {
        56
    }

    /// Appends the wire bytes of this payload to `buf`.
    pub fn copy_to(&self, buf: &mut Vec<u8>)
        ensures
            final(buf)@ =~= old(buf)@ + peer_response_payload_bytes(*self),
    {
        push_nonce(buf, &self.nonce);
        push_u8(buf, self.protocol.code());
        push_zeros(buf, 3);
        push_be16(buf, self.internal_port);
        push_be16(buf, self.external_port);
        push_addr16(buf, &self.external_addr.0);
        push_be16(buf, self.remote_port);
        push_zeros(buf, 2);
        push_addr16(buf, &self.remote_addr.0);
        assert(buf@ =~= old(buf)@ + peer_response_payload_bytes(*self));
    }
}

/// FILTER option payload: restricts which remote peers may use the
/// mapping.
#[derive(Clone, Copy, Debug, PartialEq)]
pub struct FilterOptionPayload {
    /// How many leading bits of the remote address the filter checks.
    pub prefix: u8,
    /// The port the remote peer has to use; 0 means every port.
    pub remote_port: u16,
    /// The address the remote peer has to use.
    pub remote_addr: Ipv6Address,
}

/// The 20 wire bytes of a FILTER option payload.
pub open spec fn filter_option_payload_bytes(p: FilterOptionPayload) -> Seq<u8> {
    seq![0u8, p.prefix] + be16(p.remote_port) + p.remote_addr.0@
}

impl FilterOptionPayload {
    /// Size of the FILTER option payload, in bytes.
    pub const SIZE: usize = 20;

    /// Builds a FILTER option payload.
    pub fn new(prefix: u8, remote_port: u16, remote_addr: Ipv6Address) -> (r: FilterOptionPayload)
        ensures
            r == (FilterOptionPayload { prefix, remote_port, remote_addr }),
    {
        FilterOptionPayload { prefix, remote_port, remote_addr }
    }

    /// Size of this payload on the wire, in bytes.
    pub fn size(&self) -> (r: usize)
        ensures
            r == filter_option_payload_bytes(*self).len(),
    {
        20
    }

    /// Appends the wire bytes of this payload to `buf`.
    pub fn copy_to(&self, buf: &mut Vec<u8>)
        ensures
            final(buf)@ =~= old(buf)@ + filter_option_payload_bytes(*self),
    {
        push_u8(buf, 0);
        push_u8(buf, self.prefix);
        push_be16(buf, self.remote_port);
        push_addr16(buf, &self.remote_addr.0);
        assert(buf@ =~= old(buf)@ + filter_option_payload_bytes(*self));
    }
}

/// THIRD_PARTY option payload: the internal address of the host on
/// whose behalf the mapping is made.
#[derive(Clone, Copy, Debug, PartialEq)]
pub struct ThirdPartyOptionPayload {
    /// Internal address for the mapping.
    pub address: Ipv6Address,
}

/// The 16 wire bytes of a THIRD_PARTY option payload.
pub open spec fn third_party_option_payload_bytes(p: ThirdPartyOptionPayload) -> Seq<u8> {
    p.address.0@
}

impl ThirdPartyOptionPayload {
    /// Size of the THIRD_PARTY option payload, in bytes.
    pub const SIZE: usize = 16;

    /// Builds a THIRD_PARTY option payload.
    pub fn new(address: Ipv6Address) -> (r: ThirdPartyOptionPayload)
        ensures
            r == (ThirdPartyOptionPayload { address }),
    {
        ThirdPartyOptionPayload { address }
    }

    /// Size of this payload on the wire, in bytes.
    pub fn size(&self) -> (r: usize)
        ensures
            r == third_party_option_payload_bytes(*self).len(),
    {
        16
    }

    /// Appends the wire bytes of this payload to `buf`.
    pub fn copy_to(&self, buf: &mut Vec<u8>)
        ensures
            final(buf)@ =~= old(buf)@ + third_party_option_payload_bytes(*self),
    {
        push_addr16(buf, &self.address.0);
    }
}

/// PREFER_FAILURE option payload; it carries no data.
#[derive(Clone, Copy, Debug, PartialEq)]
pub struct PreferFailureOptionPayload {}

impl PreferFailureOptionPayload {
    /// Size of the PREFER_FAILURE option payload, in bytes.
    pub const SIZE: usize = 0;

    /// Size of this payload on the wire, in bytes.
    pub fn size(&self) -> (r: usize)
        ensures
            r == 0,
    {
        0
    }

    /// Appends nothing: the payload is empty.
    pub fn copy_to(&self, buf: &mut Vec<u8>)
        ensures
            final(buf)@ =~= old(buf)@,
    {
    }
}

} // verus!
