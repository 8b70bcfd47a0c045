//! Builders for inbound and outbound mapping requests.

use vstd::prelude::*;

use crate::addr::Ipv6Address;
use crate::protocols::ProtocolNumber;

verus! {

/// A filter on the remote peers that may use an inbound mapping.
#[derive(Clone, Copy, Debug, PartialEq)]
pub struct Filter {
    /// The port the remote peer has to use; 0 means every port.
    pub remote_port: u16,
    /// The address the remote peer has to use.
    pub remote_addr: Ipv6Address,
    /// How many leading bits of the address the filter checks.
    pub prefix: u8,
}

/// An inbound mapping request: opens an external port that forwards
/// to a local listener.
#[derive(Clone, Debug, PartialEq)]
pub struct InboundMap {
    /// Requested lifetime, in seconds.
    pub lifetime: u32,
    /// The internal port to map.
    pub internal_port: u16,
    /// Protocol of the mapping; `None` means every protocol.
    pub protocol: Option<ProtocolNumber>,
    /// Address of the host the mapping is made for, when not the
    /// sender.
    pub third_party: Option<Ipv6Address>,
    /// Suggested external port.
    pub external_port: Option<u16>,
    /// Suggested external address.
    pub external_addr: Option<Ipv6Address>,
    /// Filters on the remote peers, in the order they were added.
    pub filters: Vec<Filter>,
    /// Whether the server should fail rather than assign an
    /// alternative external port or address.
    pub prefer_failure: bool,
}

impl InboundMap {
    /// Starts an inbound mapping request for the given internal port
    /// and lifetime, in seconds.
    pub fn new(internal_port: u16, lifetime: u32) -> (r: InboundMap)
        ensures
            r.lifetime == lifetime,
            r.internal_port == internal_port,
            r.protocol is None,
            r.third_party is None,
            r.external_port is None,
            r.external_addr is None,
            r.filters@.len() == 0,
            !r.prefer_failure,
    {
        InboundMap {
            lifetime,
            internal_port,
            protocol: None,
            third_party: None,
            external_port: None,
            external_addr: None,
            filters: Vec::new(),
            prefer_failure: false,
        }
    }

    /// Restricts the mapping to one protocol.
    pub fn protocol(self, number: ProtocolNumber) -> (r: InboundMap)
        ensures
            r == (InboundMap { protocol: Some(number), ..self }),
    {
        InboundMap { protocol: Some(number), ..self }
    }

    /// Suggests an external address.
    pub fn external_address(self, suggest: Ipv6Address) -> (r: InboundMap)
        ensures
            r == (InboundMap { external_addr: Some(suggest), ..self }),
    {
        InboundMap { external_addr: Some(suggest), ..self }
    }

    /// Suggests an external port.
    pub fn external_port(self, suggest: u16) -> (r: InboundMap)
        ensures
            r == (InboundMap { external_port: Some(suggest), ..self }),
    {
        InboundMap { external_port: Some(suggest), ..self }
    }

    /// Makes the mapping on behalf of another host.
    pub fn third_party(self, addr: Ipv6Address) -> (r: InboundMap)
        ensures
            r == (InboundMap { third_party: Some(addr), ..self }),
    {
        InboundMap { third_party: Some(addr), ..self }
    }

    /// Tells the server to fail rather than map an alternative
    /// external port or address.
    pub fn prefer_failure(self, prefer: bool) -> (r: InboundMap)
        ensures
            r == (InboundMap { prefer_failure: prefer, ..self }),
    {
        InboundMap { prefer_failure: prefer, ..self }
    }

    /// Adds a filter on the remote peers that may use the mapping.
    /// The prefix cannot exceed the bits of an address.
    pub fn filter(self, remote_port: u16, remote_addr: Ipv6Address, prefix: u8) -> (r: InboundMap)
        requires
            prefix <= 128,
        ensures
            r.filters@ == self.filters@.push(Filter { remote_port, remote_addr, prefix }),
            r.lifetime == self.lifetime,
            r.internal_port == self.internal_port,
            r.protocol == self.protocol,
            r.third_party == self.third_party,
            r.external_port == self.external_port,
            r.external_addr == self.external_addr,
            r.prefer_failure == self.prefer_failure,
    {
        let mut filters = self.filters;
        filters.push(Filter { remote_port, remote_addr, prefix });
        InboundMap { filters, ..self }
    }
}

/// An outbound mapping request: a pinhole toward a named remote
/// peer.
#[derive(Clone, Debug, PartialEq)]
pub struct OutboundMap {
    /// Requested lifetime, in seconds.
    pub lifetime: u32,
    /// The internal port of the mapping.
    pub internal_port: u16,
    /// The remote peer's address.
    pub remote_addr: Ipv6Address,
    /// The remote peer's port; the protocol forbids 0.
    pub remote_port: u16,
    /// Protocol of the mapping; `None` means every protocol.
    pub protocol: Option<ProtocolNumber>,
    /// Address of the host the mapping is made for, when not the
    /// sender.
    pub third_party: Option<Ipv6Address>,
    /// Suggested external port.
    pub external_port: Option<u16>,
    /// Suggested external address.
    pub external_addr: Option<Ipv6Address>,
}

impl OutboundMap {
    /// Starts an outbound mapping request toward the given remote
    /// peer, with the lifetime in seconds.
    pub fn new(internal_port: u16, remote_addr: Ipv6Address, remote_port: u16, lifetime: u32) -> (r:
        OutboundMap)
        ensures
            r.lifetime == lifetime,
            r.internal_port == internal_port,
            r.remote_addr == remote_addr,
            r.remote_port == remote_port,
            r.protocol is None,
            r.third_party is None,
            r.external_port is None,
            r.external_addr is None,
    {
        OutboundMap {
            lifetime,
            internal_port,
            remote_addr,
            remote_port,
            protocol: None,
            third_party: None,
            external_port: None,
            external_addr: None,
        }
    }

    /// Restricts the mapping to one protocol.
    pub fn protocol(self, number: ProtocolNumber) -> (r: OutboundMap)
        ensures
            r == (OutboundMap { protocol: Some(number), ..self }),
    {
        OutboundMap { protocol: Some(number), ..self }
    }

    /// Suggests an external address.
    pub fn external_address(self, suggest: Ipv6Address) -> (r: OutboundMap)
        ensures
            r == (OutboundMap { external_addr: Some(suggest), ..self }),
    {
        OutboundMap { external_addr: Some(suggest), ..self }
    }

    /// Suggests an external port.
    pub fn external_port(self, suggest: u16) -> (r: OutboundMap)
        ensures
            r == (OutboundMap { external_port: Some(suggest), ..self }),
    {
        OutboundMap { external_port: Some(suggest), ..self }
    }

    /// Makes the mapping on behalf of another host.
    pub fn third_party(self, addr: Ipv6Address) -> (r: OutboundMap)
        ensures
            r == (OutboundMap { third_party: Some(addr), ..self }),
    {
        OutboundMap { third_party: Some(addr), ..self }
    }
}

} // verus!
